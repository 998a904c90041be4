//! Millisecond nonces that never repeat and never go backwards.

use vstd::prelude::*;

verus! {

/// Why no nonce could be issued.
#[derive(Debug, Clone, Copy, PartialEq, Eq, Structural)]
pub enum ClockError {
    /// The clock reads a time before the Unix epoch.
    BeforeEpoch,
    /// The last nonce issued is the largest representable one.
    Exhausted,
}

/// A reading of the wall clock: the whole seconds and the nanoseconds past
/// them since the Unix epoch, or a reading that lies before the epoch.
#[derive(Debug, Clone, Copy, PartialEq, Eq)]
pub struct ClockReading {
    since_epoch: Option<(u64, u32)>,
}

impl View for ClockReading {
    type V = Option<(u64, u32)>;

    closed spec fn view(&self) -> Option<(u64, u32)> {
        self.since_epoch
    }
}

impl ClockReading {
    /// The nanoseconds of a reading are below one second.
    #[verifier::type_invariant]
    spec fn inv(&self) -> bool {
        self.since_epoch matches Some((_, n)) ==> n < 1_000_000_000
    }

    /// The reading `secs` seconds and `nanos` nanoseconds after the epoch;
    /// `None` when `nanos` is a second or more.
    pub fn after_epoch(secs: u64, nanos: u32) -> (r: Option<ClockReading>)
        ensures
            r is Some <==> nanos < 1_000_000_000,
            r matches Some(c) ==> c@ == Some((secs, nanos)),
    {
        if nanos < 1_000_000_000 {
            Some(ClockReading { since_epoch: Some((secs, nanos)) })
        } else {
            None
        }
    }

    /// A reading that lies before the epoch.
    pub fn before_epoch() -> (r: ClockReading)
        ensures
            r@ is None,
    {
        ClockReading { since_epoch: None }
    }
}

/// The whole milliseconds in `secs` seconds and `nanos` nanoseconds; the
/// part below a millisecond is cut off, not rounded.
pub open spec fn millis_of(secs: u64, nanos: u32) -> int {
    secs as int * 1000 + nanos as int / 1_000_000
}

/// Milliseconds from the Unix epoch to the reading `time`; a reading before
/// the epoch is a clock fault.
pub fn get_timestamp(time: &ClockReading) -> (r: Result<u128, ClockError>)
    ensures
        match time@ {
            Some((s, n)) => r == Ok::<u128, ClockError>(millis_of(s, n) as u128),
            None => r == Err::<u128, ClockError>(ClockError::BeforeEpoch),
        },
{
    match time.since_epoch {
        Some((secs, nanos)) => Ok(secs as u128 * 1000 + (nanos / 1_000_000) as u128),
        None => Err(ClockError::BeforeEpoch),
    }
}

/// The nonce issued when the clock reads `clock` and `last` is the last
/// nonce issued (`None` before the first): the clock reading itself on the
/// first call or when the clock has moved past `last`, otherwise one more
/// than `last`.
pub open spec fn next_nonce(last: Option<u128>, clock: u128) -> Option<u128> {
    match last {
        None => Some(clock),
        Some(l) => if clock > l {
            Some(clock)
        } else if l < u128::MAX {
            Some((l + 1) as u128)
        } else {
            None
        },
    }
}

/// The nonces issued from state `last` for a run of clock readings, up to
/// the first reading for which none can be issued.
pub open spec fn issue_all(last: Option<u128>, clocks: Seq<u128>) -> Seq<u128>
    decreases clocks.len(),
{
    if clocks.len() == 0 {
        Seq::empty()
    } else {
        match next_nonce(last, clocks[0]) {
            Some(n) => seq![n] + issue_all(Some(n), clocks.skip(1)),
            None => Seq::empty(),
        }
    }
}

/// Issues strictly increasing nonces from clock readings, advancing past the
/// clock when it repeats or goes backwards.
pub struct NonceSource {
    last: Option<u128>,
}

impl View for NonceSource {
    type V = Option<u128>;

    closed spec fn view(&self) -> Option<u128> {
        self.last
    }
}

impl NonceSource {
    /// A source that has issued nothing yet.
    pub fn new() -> (r: NonceSource)
        ensures
            r@ is None,
    {
        NonceSource { last: None }
    }

    /// A source whose next nonce will exceed `last`.
    pub fn starting_after(last: u128) -> (r: NonceSource)
        ensures
            r@ == Some(last),
    {
        NonceSource { last: Some(last) }
    }

    /// The last nonce issued (`None` before the first).
    pub fn last(&self) -> (r: Option<u128>)
        ensures
            r == self@,
    {
        self.last
    }

    /// Issues the next nonce for the clock reading `clock`.
    pub fn next(&mut self, clock: u128) -> (r: Result<u128, ClockError>)
        ensures
            match next_nonce(old(self)@, clock) {
                Some(n) => r == Ok::<u128, ClockError>(n) && final(self)@ == Some(n),
                None => r == Err::<u128, ClockError>(ClockError::Exhausted) && final(self)@ == old(
                    self,
                )@,
            },
    {
        match self.last {
            None => {
                self.last = Some(clock);
                Ok(clock)
            },
            Some(l) => if clock > l {
                self.last = Some(clock);
                Ok(clock)
            } else if l < u128::MAX {
                self.last = Some(l + 1);
                Ok(l + 1)
            } else {
                Err(ClockError::Exhausted)
            },
        }
    }
}

/// For any run of clock readings, including readings that repeat or go
/// backwards, the nonces issued are strictly increasing and all exceed the
/// last nonce issued before the run, if any.
pub proof fn lemma_nonces_strictly_increase(last: Option<u128>, clocks: Seq<u128>)
    ensures
        forall|i: int|
            0 <= i < issue_all(last, clocks).len() && last is Some ==> #[trigger] issue_all(
                last,
                clocks,
            )[i] > last->0,
        forall|i: int, j: int|
            0 <= i < j < issue_all(last, clocks).len() ==> issue_all(last, clocks)[i] < issue_all(
                last,
                clocks,
            )[j],
    decreases clocks.len(),
{
    if clocks.len() > 0 {
        if let Some(n) = next_nonce(last, clocks[0]) {
            lemma_nonces_strictly_increase(Some(n), clocks.skip(1));
            let rest = issue_all(Some(n), clocks.skip(1));
            assert(issue_all(last, clocks) == seq![n] + rest);
            assert forall|i: int, j: int|
                0 <= i < j < issue_all(last, clocks).len() implies issue_all(last, clocks)[i]
                < issue_all(last, clocks)[j] by {
                if i > 0 {
                    assert(issue_all(last, clocks)[i] == rest[i - 1]);
                }
                assert(issue_all(last, clocks)[j] == rest[j - 1]);
            }
            assert forall|i: int|
                0 <= i < issue_all(last, clocks).len() && last is Some implies #[trigger] issue_all(
                last,
                clocks,
            )[i] > last->0 by {
                if i > 0 {
                    assert(issue_all(last, clocks)[i] == rest[i - 1]);
                }
            }
        }
    }
}

} // verus!
