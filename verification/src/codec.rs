//! Command codec: encodes a register address and an intent (read or write,
//! single or auto-incrementing burst) into the one command byte that starts
//! every bus transaction.
//!
//! The command byte layout, MSB to LSB, is `[READ|WRITE][MULTI|SINGLE][6-bit
//! address]`. Addresses wider than six bits are masked, never rejected: the
//! codec is total and cannot fail.

use vstd::prelude::*;

verus! {

/// Bit flag for a read command.
pub const READ: u8 = 0x80;

/// Bit flag for a write command.
pub const WRITE: u8 = 0x00;

/// Bit flag for a multi-address command; the device auto-increments the
/// register address after each transferred byte.
pub const MULTI: u8 = 0x40;

/// Bit flag for a single-address command.
pub const SINGLE: u8 = 0x00;

/// Mask for register addresses.
pub const REG_ADDR_MASK: u8 = 0x3f;

/// The command byte that requests one read of the register at `address`.
pub open spec fn spec_read_single_cmd(address: u8) -> u8 {
    READ | SINGLE | (address & REG_ADDR_MASK)
}

/// The command byte that requests an auto-incrementing burst read starting at
/// `address`.
pub open spec fn spec_read_multi_cmd(address: u8) -> u8 {
    READ | MULTI | (address & REG_ADDR_MASK)
}

/// The command byte that requests one write of the register at `address`.
pub open spec fn spec_write_single_cmd(address: u8) -> u8 {
    WRITE | SINGLE | (address & REG_ADDR_MASK)
}

/// Creates a read command for a given address. Does not auto-increment the
/// address afterward.
pub fn read_single_cmd(address: u8) -> (r: u8)
    ensures
        r == spec_read_single_cmd(address),
{
    READ | SINGLE | (address & REG_ADDR_MASK)
}

/// Creates a read command for a given address. Auto-increments the address
/// after each transferred byte.
pub fn read_multi_cmd(address: u8) -> (r: u8)
    ensures
        r == spec_read_multi_cmd(address),
{
    READ | MULTI | (address & REG_ADDR_MASK)
}

/// Creates a write command for a given address. Does not auto-increment the
/// address afterward.
pub fn write_single_cmd(address: u8) -> (r: u8)
    ensures
        r == spec_write_single_cmd(address),
{
    WRITE | SINGLE | (address & REG_ADDR_MASK)
}

/// Every command byte keeps its operation and burst bits exactly as requested,
/// and carries the address masked to six bits: for any address, in range or
/// not, the high bits of the command match the intent and the low six bits are
/// the masked address, which is always below 64.
pub proof fn lemma_command_high_bits(address: u8)
    by (bit_vector)
    ensures
        spec_read_single_cmd(address) & 0xc0 == 0x80,
        spec_read_multi_cmd(address) & 0xc0 == 0xc0,
        spec_write_single_cmd(address) & 0xc0 == 0x00,
        spec_read_single_cmd(address) & REG_ADDR_MASK == address & REG_ADDR_MASK,
        spec_read_multi_cmd(address) & REG_ADDR_MASK == address & REG_ADDR_MASK,
        spec_write_single_cmd(address) & REG_ADDR_MASK == address & REG_ADDR_MASK,
        address & REG_ADDR_MASK < 64,
{
}

/// Encoding an address that is already in the six-bit range and masking the
/// resulting command byte gives back exactly that address: the round trip is
/// the identity on addresses 0 to 63.
pub proof fn lemma_address_round_trip(address: u8)
    by (bit_vector)
    requires
        address < 64,
    ensures
        spec_read_single_cmd(address) & REG_ADDR_MASK == address,
        spec_read_multi_cmd(address) & REG_ADDR_MASK == address,
        spec_write_single_cmd(address) & REG_ADDR_MASK == address,
{
}

} // verus!
