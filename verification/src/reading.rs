//! A sensor reading that captures the notion of recent and outdated
//! information.

use vstd::prelude::*;

verus! {

/// A sensor value tagged with its freshness.
///
/// The tag is assigned once, from the hardware status bits, when a sample is
/// decoded; the value itself is accessible regardless of the tag.
#[derive(Debug, Copy, Clone, Eq, PartialEq, Ord, PartialOrd, Hash)]
pub enum Reading<T> {
    /// No new data arrived since the value was last read.
    Stale(T),
    /// New data arrived and nothing was lost.
    Fresh(T),
    /// New data was written before old data was read.
    Overrun(T),
}

/// The freshness tag that a pair of hardware status bits selects: an asserted
/// overrun bit wins over the data-available bit, an asserted data-available
/// bit alone means fresh, and neither means stale.
pub open spec fn spec_classify<T>(value: T, data_available: bool, overrun: bool) -> Reading<T> {
    if overrun {
        Reading::Overrun(value)
    } else if data_available {
        Reading::Fresh(value)
    } else {
        Reading::Stale(value)
    }
}

impl<T> Reading<T> {
    /// The wrapped value, whatever the tag.
    pub open spec fn spec_value(self) -> T {
        match self {
            Reading::Stale(x) => x,
            Reading::Fresh(x) => x,
            Reading::Overrun(x) => x,
        }
    }

    /// Tags `value` according to the two status bits of its axis: `Overrun`
    /// whenever the overrun bit is set, otherwise `Fresh` exactly when the
    /// data-available bit is set, and `Stale` when neither is.
    pub fn classify(value: T, data_available: bool, overrun: bool) -> (r: Reading<T>)
        ensures
            r == spec_classify(value, data_available, overrun),
    {
        if overrun {
            Reading::Overrun(value)
        } else if data_available {
            Reading::Fresh(value)
        } else {
            Reading::Stale(value)
        }
    }

    /// Creates a stale reading.
    pub fn new_stale(value: T) -> (r: Self)
        ensures
            r == Reading::Stale(value),
    {
        Self::Stale(value)
    }

    /// Creates a fresh reading.
    pub fn new_fresh(value: T) -> (r: Self)
        ensures
            r == Reading::Fresh(value),
    {
        Self::Fresh(value)
    }

    /// Creates an overrun reading.
    pub fn new_overrun(value: T) -> (r: Self)
        ensures
            r == Reading::Overrun(value),
    {
        Self::Overrun(value)
    }

    /// Consumes self and returns the inner value.
    pub fn into_inner(self) -> (r: T)
        ensures
            r == self.spec_value(),
    {
        match self {
            Reading::Stale(x) => x,
            Reading::Fresh(x) => x,
            Reading::Overrun(x) => x,
        }
    }

    /// Borrows the inner value, whatever the tag.
    pub fn value(&self) -> (r: &T)
        ensures
            *r == self.spec_value(),
    {
        match self {
            Reading::Stale(x) => x,
            Reading::Fresh(x) => x,
            Reading::Overrun(x) => x,
        }
    }

    /// Borrows the inner value mutably: writing through the borrow replaces
    /// the value and keeps the tag.
    pub fn value_mut(&mut self) -> (r: &mut T)
        ensures
            *r == old(self).spec_value(),
            final(self).spec_value() == *final(r),
            (*final(self)) is Stale == (*old(self)) is Stale,
            (*final(self)) is Fresh == (*old(self)) is Fresh,
            (*final(self)) is Overrun == (*old(self)) is Overrun,
    {
        match self {
            Reading::Stale(x) => x,
            Reading::Fresh(x) => x,
            Reading::Overrun(x) => x,
        }
    }

    /// Indicates whether this is a stale reading.
    pub fn stale(&self) -> (r: bool)
        ensures
            r == (*self is Stale),
    {
        matches!(self, Reading::Stale(_))
    }

    /// Indicates whether this is a fresh reading.
    pub fn fresh(&self) -> (r: bool)
        ensures
            r == (*self is Fresh),
    {
        matches!(self, Reading::Fresh(_))
    }

    /// Indicates whether this is a fresh or an overrun reading.
    pub fn fresh_or_overrun(&self) -> (r: bool)
        ensures
            r == (*self is Fresh || *self is Overrun),
    {
        matches!(self, Reading::Fresh(_) | Reading::Overrun(_))
    }

    /// Indicates whether this is an overrun reading.
    pub fn overrun(&self) -> (r: bool)
        ensures
            r == (*self is Overrun),
    {
        matches!(self, Reading::Overrun(_))
    }
}

} // verus!
