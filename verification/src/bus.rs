//! Interfaces that the driver's environment implements: the full-duplex bus
//! transport and the chip-select line.
//!
//! Both traits carry ghost state so that every contract in the driver can say
//! exactly which bytes left the device on the wire and how often the select
//! line was asserted and released. An implementation performs the real I/O;
//! the driver is verified against these contracts alone.

use vstd::prelude::*;

verus! {

/// The single error of the driver: a fault reported by the bus transport.
/// A failed transaction is never retried or reinterpreted; the error is
/// handed to the caller unchanged.
#[derive(Debug, Clone, Copy, PartialEq, Eq, Structural)]
pub struct TransportError;

/// A synchronous full-duplex byte-transfer primitive.
///
/// `transfer` transmits the buffer and replaces it in place with the bytes
/// received during the same clock cycles. The ghost histories `sent` and
/// `received` record one entry per transaction: `sent` grows on every
/// attempt, successful or not, while `received` grows only when the transfer
/// succeeded and the buffer holds the reply.
pub trait SpiBus: Sized {
    /// Every buffer handed to `transfer` so far, oldest first. The default
    /// leaves the history abstract; a verified implementation overrides it
    /// with its own model of the wire.
    open spec fn sent(&self) -> Seq<Seq<u8>> {
        arbitrary()
    }

    /// Every buffer received from a successful `transfer` so far, oldest
    /// first. The default leaves the history abstract, as with `sent`.
    open spec fn received(&self) -> Seq<Seq<u8>> {
        arbitrary()
    }

    /// Transmits `buffer` and overwrites it with the same number of bytes
    /// read back from the bus; fails with a transport error on a bus fault.
    fn transfer(&mut self, buffer: &mut Vec<u8>) -> (r: Result<(), TransportError>)
        ensures
            final(self).sent() == old(self).sent().push(old(buffer)@),
            final(buffer)@.len() == old(buffer)@.len(),
            r is Ok ==> final(self).received() == old(self).received().push(final(buffer)@),
            r is Err ==> final(self).received() == old(self).received(),
    ;
}

/// The control line that scopes when the device is addressed on the shared
/// bus.
///
/// The ghost counters record how often the line was asserted and released,
/// so an operation's contract can state that it selects the chip exactly once
/// and releases it exactly once on every path, a transport fault included.
pub trait ChipSelect: Sized {
    /// How often the chip has been selected. The default leaves the count
    /// abstract; a verified implementation overrides it with its own model
    /// of the line.
    open spec fn selects(&self) -> nat {
        arbitrary()
    }

    /// How often the chip has been deselected. The default leaves the count
    /// abstract, as with `selects`.
    open spec fn releases(&self) -> nat {
        arbitrary()
    }

    /// Selects the chip, so that it listens on the bus.
    fn select(&mut self)
        ensures
            final(self).selects() == old(self).selects() + 1,
            final(self).releases() == old(self).releases(),
    ;

    /// Deselects the chip, so that it ignores the bus.
    fn deselect(&mut self)
        ensures
            final(self).selects() == old(self).selects(),
            final(self).releases() == old(self).releases() + 1,
    ;
}

} // verus!
