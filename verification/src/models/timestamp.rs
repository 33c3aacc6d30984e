use vstd::prelude::*;

verus! {

/// An instant in UTC: whole seconds since the Unix epoch and the nanoseconds past them.
#[derive(Debug, Clone, Copy, PartialEq, Eq, Structural)]
pub struct Timestamp {
    pub secs: i64,
    pub nanos: u32,
}

impl Timestamp {
    /// `self` is not later than `other`: seconds first, then nanoseconds.
    pub open spec fn not_after(self, other: Timestamp) -> bool {
        self.secs < other.secs || (self.secs == other.secs && self.nanos <= other.nanos)
    }

    /// Within the range of instants that `chrono` represents (years -262143 to 262142), with a
    /// sub-second part below one second, or below two seconds on a leap second (`:59`).
    pub open spec fn representable(self) -> bool {
        &&& -8334601228800 <= self.secs <= 8210266876799
        &&& (self.nanos < 1_000_000_000 || (self.nanos < 2_000_000_000 && self.secs % 60 == 59))
    }

    /// Whether `self` is an instant that `chrono` represents.
    pub fn is_representable(&self) -> (b: bool)
        ensures
            b == self.representable(),
    {
        let in_range = -8334601228800 <= self.secs && self.secs <= 8210266876799;
        if !in_range {
            return false;
        }
        // the second within its minute, counted from the minute's start even before the epoch
        let second: i64 = if self.secs >= 0 { self.secs % 60 } else { 59 - ((-1 - self.secs) % 60) };
        proof {
            let x = self.secs as int;
            if x < 0 {
                let a = -1 - x;
                assert(second == 59 - a % 60);
                assert(x % 60 == 59 - a % 60) by (nonlinear_arith)
                    requires
                        a == -1 - x,
                        a >= 0,
                ;
            }
        }
        self.nanos < 1_000_000_000 || (self.nanos < 2_000_000_000 && second == 59)
    }

    /// Nanoseconds since the epoch.
    pub open spec fn total_nanos(self) -> int {
        self.secs * 1_000_000_000 + self.nanos
    }

    /// Whether `self` is not later than `other`.
    pub fn is_not_after(&self, other: &Timestamp) -> (b: bool)
        ensures
            b == self.not_after(*other),
    {
        self.secs < other.secs || (self.secs == other.secs && self.nanos <= other.nanos)
    }
}

} // verus!
