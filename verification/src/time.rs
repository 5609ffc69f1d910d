//! Points in time.

use std::cmp::Ordering;
use vstd::prelude::*;
use vstd::std_specs::cmp::{PartialOrdIs, PartialOrdSpec};

verus! {

/// Represents time as unsigned 64-bit milliseconds since the unix epoch.
///
/// This type can represent any time between 1970-01-01T00:00:00Z and 584556019-04-03T14:25:52Z.
/// Creating a SimpleTime earlier than the minimum will saturate, setting the SimpleTime to the unix epoch.
/// Creating a SimpleTime later than the maximum will wrap.
#[derive(Debug, Copy, Clone, Eq, PartialEq, Ord, Hash, Structural)]
pub struct SimpleTime {
    pub unix_millis: u64,
}

/// The milliseconds from one time to a later one, or zero if it is not later.
pub open spec fn millis_between(earlier: SimpleTime, later: SimpleTime) -> u64 {
    if later.unix_millis >= earlier.unix_millis {
        (later.unix_millis - earlier.unix_millis) as u64
    } else {
        0
    }
}

impl PartialOrd for SimpleTime {
    fn partial_cmp(&self, other: &SimpleTime) -> (r: Option<Ordering>) {
        if self.unix_millis < other.unix_millis {
            Some(Ordering::Less)
        } else if self.unix_millis == other.unix_millis {
            Some(Ordering::Equal)
        } else {
            Some(Ordering::Greater)
        }
    }
}

impl vstd::std_specs::cmp::PartialOrdSpecImpl for SimpleTime {
    open spec fn obeys_partial_cmp_spec() -> bool {
        true
    }

    open spec fn partial_cmp_spec(&self, other: &SimpleTime) -> Option<Ordering> {
        if self.unix_millis < other.unix_millis {
            Some(Ordering::Less)
        } else if self.unix_millis == other.unix_millis {
            Some(Ordering::Equal)
        } else {
            Some(Ordering::Greater)
        }
    }
}

/// The number of milliseconds that can be represented, after which time starts again at the unix epoch.
pub open spec fn time_range() -> int {
    0x1_0000_0000_0000_0000
}

/// Whether the system clock may say that so many whole milliseconds have passed since the unix epoch, or that it is
/// earlier. What it says is up to the clock.
pub closed spec fn is_clock_reading(since_epoch_millis: Option<u128>) -> bool {
    call_ensures(clock_reading, (), since_epoch_millis)
}

/// The time of a reading of the system clock: the unix epoch if the clock is set before it, and too late a time wraps.
pub open spec fn clock_time(since_epoch_millis: Option<u128>) -> SimpleTime {
    SimpleTime {
        unix_millis: match since_epoch_millis {
            Some(millis) => (millis as int % time_range()) as u64,
            None => 0,
        },
    }
}

impl SimpleTime {
    /// The unix epoch, which is the earliest time
    pub fn unix_epoch() -> (r: SimpleTime)
        ensures
            r.unix_millis == 0,
    {
        SimpleTime { unix_millis: 0 }
    }

    /// Create a SimpleTime from milliseconds since unix epoch.
    pub fn from_unix_millis(unix_millis: u64) -> (r: SimpleTime)
        ensures
            r.unix_millis == unix_millis,
    {
        SimpleTime { unix_millis }
    }

    /// Convert this SimpleTime into milliseconds since unix epoch.
    pub fn as_epoch_millis(self) -> (r: u64)
        ensures
            r == self.unix_millis,
    {
        self.unix_millis
    }

    /// Current time as per the system clock
    pub fn now() -> (r: SimpleTime)
        ensures
            exists|reading: Option<u128>| #[trigger] is_clock_reading(reading) && r == clock_time(reading),
    {
        let reading = clock_reading();
        proof {
            assert(is_clock_reading(reading));
        }
        SimpleTime::from_clock(reading)
    }

    /// Create a SimpleTime from a reading of the system clock: the whole milliseconds since the unix epoch, or nothing
    /// if the clock is set before it. The former wrap, and the latter saturates.
    pub fn from_clock(since_epoch_millis: Option<u128>) -> (r: SimpleTime)
        ensures
            r.unix_millis as int == (match since_epoch_millis {
                Some(millis) => millis as int % 0x1_0000_0000_0000_0000,
                None => 0,
            }),
            r == clock_time(since_epoch_millis),
    {
        match since_epoch_millis {
            Some(millis) => SimpleTime::from_unix_millis((millis % 0x1_0000_0000_0000_0000) as u64),
            None => SimpleTime::unix_epoch(),
        }
    }

    /// Milliseconds since some earlier time, or zero if result was negative
    pub fn duration_since(&self, earlier: SimpleTime) -> (r: u64)
        ensures
            r == millis_between(earlier, *self),
    {
        match self.unix_millis.checked_sub(earlier.unix_millis) {
            Some(millis) => millis,
            None => 0,
        }
    }

    /// Elapsed milliseconds between this SimpleTime and the present system clock time, or zero if result was
    /// negative
    pub fn elapsed(&self) -> (r: u64)
        ensures
            exists|reading: Option<u128>| #[trigger]
                is_clock_reading(reading) && r == millis_between(*self, clock_time(reading)),
    {
        SimpleTime::now().duration_since(*self)
    }
}

/// Reads the system clock with `std::time::SystemTime::now`, as the time since the unix epoch in whole milliseconds. It
/// is nothing if the clock is set before the unix epoch. Nothing is promised of what the clock says.
#[verifier::external_body]
fn clock_reading() -> Option<u128> {
    std::time::SystemTime::now().duration_since(std::time::SystemTime::UNIX_EPOCH).ok().map(|d| d.as_millis())
}

/// A clock that is set before the unix epoch is at the unix epoch. Any other time is what the clock says but for a
/// whole number of wraps, and none as long as the time can be represented.
pub proof fn clock_saturates_and_wraps(millis: u128)
    ensures
        clock_time(None) == (SimpleTime { unix_millis: 0 }),
        clock_time(Some(millis)).unix_millis as int == millis as int % time_range(),
        millis <= u64::MAX ==> clock_time(Some(millis)).unix_millis == millis,
{
}

/// A time that was created from milliseconds since the unix epoch is converted back into them, the unix epoch is
/// converted into zero, and times are in the order of the milliseconds that they were created from.
pub proof fn times_are_in_order(x: u64, y: u64, a: SimpleTime, b: SimpleTime)
    requires
        call_ensures(SimpleTime::from_unix_millis, (x,), a),
        call_ensures(SimpleTime::from_unix_millis, (y,), b),
    ensures
        forall|millis: u64| #[trigger] call_ensures(SimpleTime::as_epoch_millis, (a,), millis) ==> millis == x,
        forall|epoch: SimpleTime, millis: u64|
            #[trigger] call_ensures(SimpleTime::unix_epoch, (), epoch) && #[trigger] call_ensures(
                SimpleTime::as_epoch_millis,
                (epoch,),
                millis,
            ) ==> millis == 0,
        SimpleTime::obeys_partial_cmp_spec(),
        a.is_lt(&b) <==> x < y,
        a == b <==> x == y,
{
}

/// Time that has passed adds up, as long as it has passed.
pub proof fn time_adds_up(a: SimpleTime, b: SimpleTime, c: SimpleTime)
    requires
        a.unix_millis <= b.unix_millis <= c.unix_millis,
    ensures
        millis_between(a, b) + millis_between(b, c) == millis_between(a, c),
{
}

/// No time has passed since a later time.
pub proof fn no_time_passes_backwards(a: SimpleTime, b: SimpleTime)
    requires
        b.unix_millis <= a.unix_millis,
    ensures
        millis_between(a, b) == 0,
{
}

} // verus!
