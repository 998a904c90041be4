//! Exact decimal amounts (order volumes and prices), as a mantissa and a
//! count of fractional digits.

use vstd::prelude::*;
use crate::text::dec_text;

verus! {

/// The largest mantissa magnitude a decimal amount can carry (96 bits).
pub const MAX_MANTISSA: i128 = 79228162514264337593543950335;

/// The largest number of fractional digits a decimal amount can carry.
pub const MAX_SCALE: u32 = 28;

/// The digits of a magnitude, none for zero.
pub open spec fn magnitude_digits(n: nat) -> Seq<char> {
    if n == 0 {
        Seq::empty()
    } else {
        dec_text(n)
    }
}

/// The digits of a magnitude, padded with leading zeros to at least `scale`.
pub open spec fn padded_digits(n: nat, scale: nat) -> Seq<char> {
    let d = magnitude_digits(n);
    if d.len() < scale {
        Seq::new((scale - d.len()) as nat, |i: int| '0') + d
    } else {
        d
    }
}

/// The text of the decimal `mantissa * 10^-scale` as `rust_decimal` renders
/// it: a `-` for a negative mantissa, then the digits with a point `scale`
/// places from the right (every fractional digit kept, a `0` before a
/// leading point), and `0` alone for zero at scale zero.
pub open spec fn decimal_text_of(mantissa: int, scale: nat) -> Seq<char> {
    let magnitude = (if mantissa < 0 {
        -mantissa
    } else {
        mantissa
    }) as nat;
    let p = padded_digits(magnitude, scale);
    let whole = (p.len() - scale) as int;
    let body = if scale == 0 {
        if p.len() == 0 {
            seq!['0']
        } else {
            p
        }
    } else {
        (if whole == 0 {
            seq!['0']
        } else {
            p.subrange(0, whole)
        }) + seq!['.'] + p.subrange(whole, p.len() as int)
    };
    if mantissa < 0 {
        seq!['-'] + body
    } else {
        body
    }
}

/// Relies on `rust_decimal::Decimal::from_i128_with_scale` (which panics
/// outside the bounds required here; only a negative mantissa sets the sign)
/// and on its `Display` rendering (`str::to_str_internal`).
#[verifier::external_body]
fn decimal_text(mantissa: i128, scale: u32) -> (r: String)
    requires
        scale <= MAX_SCALE,
        -MAX_MANTISSA <= mantissa <= MAX_MANTISSA,
    ensures
        r@ == decimal_text_of(mantissa as int, scale as nat),
{
    rust_decimal::Decimal::from_i128_with_scale(mantissa, scale).to_string()
}

/// A decimal value `mantissa * 10^-scale`, never rounded through binary
/// floating point.
#[derive(Debug, Clone, Copy, PartialEq, Eq, Structural)]
pub struct Amount {
    mantissa: i128,
    scale: u32,
}

impl View for Amount {
    type V = (int, nat);

    closed spec fn view(&self) -> (int, nat) {
        (self.mantissa as int, self.scale as nat)
    }
}

/// Whether a mantissa and scale fit a decimal amount.
pub open spec fn amount_fits(mantissa: int, scale: nat) -> bool {
    scale <= MAX_SCALE && -MAX_MANTISSA <= mantissa <= MAX_MANTISSA
}

impl Amount {
    /// Every amount is within the representable bounds.
    #[verifier::type_invariant]
    spec fn inv(&self) -> bool {
        amount_fits(self.mantissa as int, self.scale as nat)
    }

    /// The amount `mantissa * 10^-scale`, or `None` when it does not fit.
    pub fn new(mantissa: i128, scale: u32) -> (r: Option<Amount>)
        ensures
            r is Some <==> amount_fits(mantissa as int, scale as nat),
            r matches Some(a) ==> a@ == (mantissa as int, scale as nat),
    {
        if scale <= MAX_SCALE && -MAX_MANTISSA <= mantissa && mantissa <= MAX_MANTISSA {
            Some(Amount { mantissa, scale })
        } else {
            None
        }
    }

    /// The whole amount `value`.
    pub fn whole(value: u64) -> (r: Amount)
        ensures
            r@ == (value as int, 0nat),
    {
        Amount { mantissa: value as i128, scale: 0 }
    }

    pub fn mantissa(&self) -> (r: i128)
        ensures
            r as int == self@.0,
    {
        self.mantissa
    }

    pub fn scale(&self) -> (r: u32)
        ensures
            r as nat == self@.1,
    {
        self.scale
    }

    /// The decimal text of this amount, e.g. `100000.0` for mantissa
    /// 1000000 at scale 1.
    pub fn text(&self) -> (r: String)
        ensures
            r@ == decimal_text_of(self@.0, self@.1),
    {
        proof {
            use_type_invariant(self);
        }
        decimal_text(self.mantissa, self.scale)
    }
}

} // verus!
