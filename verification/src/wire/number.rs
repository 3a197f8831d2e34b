//! Bounded integers: safe unsigned numbers and UTC milliseconds.

use vstd::prelude::*;
use crate::wire::record::CanonicalEncode;
use crate::wire::value::{CanonicalValue, Value};

verus! {

/// The largest integer that every reader represents exactly.
pub const MAX_SAFE_INTEGER: u64 = 9_007_199_254_740_991;

/// An integer lies outside the safe range.
#[derive(Clone, Copy, Debug, PartialEq, Eq, Structural)]
pub struct NumberRangeError;

/// A non-negative integer of at most [`MAX_SAFE_INTEGER`].
#[derive(Clone, Copy, Debug, PartialEq, Eq, PartialOrd, Ord, Hash, Structural)]
pub struct SafeUint {
    number: u64,
}

impl SafeUint {
    #[verifier::type_invariant]
    spec fn bounded(self) -> bool {
        self.number <= MAX_SAFE_INTEGER
    }

    /// The number.
    pub closed spec fn view(&self) -> u64 {
        self.number
    }

    /// States what the type guarantees of every number.
    pub(crate) fn checked(&self)
        ensures
            self@ <= MAX_SAFE_INTEGER,
    {
        proof {
            use_type_invariant(self);
        }
    }

    /// Accepts a number up to [`MAX_SAFE_INTEGER`].
    pub fn new(number: u64) -> (safe: Result<Self, NumberRangeError>)
        ensures
            match safe {
                Ok(safe) => safe@ == number && number <= MAX_SAFE_INTEGER,
                Err(_) => number > MAX_SAFE_INTEGER,
            },
    {
        if number <= MAX_SAFE_INTEGER {
            Ok(SafeUint { number })
        } else {
            Err(NumberRangeError)
        }
    }

    /// The number.
    pub fn get(&self) -> (number: u64)
        ensures
            number == self@,
            number <= MAX_SAFE_INTEGER,
    {
        proof {
            use_type_invariant(self);
        }
        self.number
    }
}

impl CanonicalEncode for SafeUint {
    open spec fn model(&self) -> Value {
        Value::Unsigned(self@)
    }

    fn to_canonical_value(&self) -> (value: CanonicalValue) {
        CanonicalValue::Unsigned(self.number)
    }
}

/// A time in milliseconds since the epoch, within the safe range.
#[derive(Clone, Copy, Debug, PartialEq, Eq, PartialOrd, Ord, Hash, Structural)]
pub struct UtcMillis {
    millis: i64,
}

/// `millis` is a representable time.
pub open spec fn is_utc_millis(millis: int) -> bool {
    -(MAX_SAFE_INTEGER as int) <= millis <= MAX_SAFE_INTEGER
}

/// The canonical value of a time.
pub open spec fn millis_model(millis: i64) -> Value {
    if millis >= 0 {
        Value::Unsigned(millis as u64)
    } else {
        Value::Negative(millis)
    }
}

impl UtcMillis {
    #[verifier::type_invariant]
    spec fn bounded(self) -> bool {
        is_utc_millis(self.millis as int)
    }

    /// The time in milliseconds.
    pub closed spec fn view(&self) -> i64 {
        self.millis
    }

    /// States what the type guarantees of every time.
    pub(crate) fn checked(&self)
        ensures
            is_utc_millis(self@ as int),
    {
        proof {
            use_type_invariant(self);
        }
    }

    /// Accepts a time within the safe range on either side of the epoch.
    pub fn new(millis: i64) -> (time: Result<Self, NumberRangeError>)
        ensures
            match time {
                Ok(time) => time@ == millis && is_utc_millis(millis as int),
                Err(_) => !is_utc_millis(millis as int),
            },
    {
        if -9_007_199_254_740_991 <= millis && millis <= 9_007_199_254_740_991 {
            Ok(UtcMillis { millis })
        } else {
            Err(NumberRangeError)
        }
    }

    /// The time in milliseconds.
    pub fn get(&self) -> (millis: i64)
        ensures
            millis == self@,
            is_utc_millis(millis as int),
    {
        proof {
            use_type_invariant(self);
        }
        self.millis
    }
}

impl CanonicalEncode for UtcMillis {
    open spec fn model(&self) -> Value {
        millis_model(self@)
    }

    fn to_canonical_value(&self) -> (value: CanonicalValue) {
        if self.millis >= 0 {
            CanonicalValue::Unsigned(self.millis as u64)
        } else {
            CanonicalValue::Negative(self.millis)
        }
    }
}

} // verus!
