//! Platform-agnostic driver for the STMicroelectronics L3GD20 gyroscope on a
//! 4-wire SPI bus.
//!
//! The driver encodes register addresses into single or auto-incrementing
//! burst commands, runs each operation as exactly one chip-select-scoped bus
//! transaction per register access, decodes the raw measurement and status
//! registers into typed results, and derives noise and scale characteristics
//! from the device's current configuration.
//!
//! The bus transport and the chip-select line are supplied by the caller as
//! implementations of [`bus::SpiBus`] and [`bus::ChipSelect`]; every
//! operation's contract states exactly which bytes it puts on the wire and
//! that it selects and releases the chip exactly once per transaction, a
//! transport fault included.

use vstd::prelude::*;

pub mod bus;
pub mod characteristics;
pub mod codec;
pub mod i16x3;
pub mod reading;
pub mod registers;
pub mod sensor_data;

pub use characteristics::Characteristics;
pub use i16x3::I16x3;
pub use reading::Reading;
pub use sensor_data::SensorData;

use crate::bus::ChipSelect;
use crate::bus::SpiBus;
use crate::bus::TransportError;

verus! {

/// The transmit buffer of a single-register read transaction: the read
/// command for `address`, then one padding byte for the reply.
pub open spec fn spec_read_frame(address: u8) -> Seq<u8> {
    seq![codec::spec_read_single_cmd(address), 0u8]
}

/// The transmit buffer of a single-register write transaction: the write
/// command for `address`, then the byte to store.
pub open spec fn spec_write_frame(address: u8, value: u8) -> Seq<u8> {
    seq![codec::spec_write_single_cmd(address), value]
}

/// The transmit buffer of a burst read of `count` consecutive registers
/// starting at `address`: the auto-incrementing read command, then `count`
/// padding bytes for the replies. The whole run travels in this one buffer,
/// so the burst is a single bus transaction.
pub open spec fn spec_burst_frame(address: u8, count: int) -> Seq<u8> {
    seq![codec::spec_read_multi_cmd(address)] + Seq::new(count as nat, |i: int| 0u8)
}

/// Whether `post` is the history `pre` with exactly `n` frames appended.
pub open spec fn spec_extended_by(pre: Seq<Seq<u8>>, post: Seq<Seq<u8>>, n: int) -> bool {
    &&& post.len() == pre.len() + n
    &&& post.subrange(0, pre.len() as int) == pre
}

/// The six register writes, in order, that reset the device to its
/// standard configuration: control register 1 powered up with all axes
/// enabled at 95 Hz and the narrowest bandwidth, control registers 2 to 4
/// cleared (normal high-pass mode, no interrupts, 250 dps full scale),
/// then control register 5 with the boot bit toggled on and off again.
pub open spec fn spec_reset_frames() -> Seq<Seq<u8>> {
    seq![
        spec_write_frame(registers::CTRL_REG1, 0x0f),
        spec_write_frame(registers::CTRL_REG2, 0x00),
        spec_write_frame(registers::CTRL_REG3, 0x00),
        spec_write_frame(registers::CTRL_REG4, 0x00),
        spec_write_frame(registers::CTRL_REG5, 0x80),
        spec_write_frame(registers::CTRL_REG5, 0x00),
    ]
}

/// The control register bytes that [`L3GD20SPI::reset`] writes decode to
/// the configuration whose profile [`Characteristics::default`] describes:
/// 95 Hz output data rate, the narrowest bandwidth, and the 250 dps full
/// scale.
pub proof fn lemma_reset_configuration()
    ensures
        registers::spec_odr_of_ctrl1(0x0f) == registers::OutputDataRate::Hz95,
        registers::spec_bandwidth_of_ctrl1(0x0f) == registers::Bandwidth::Narrowest,
        registers::spec_full_scale_of_ctrl4(0x00) == registers::FullScale::Dps250,
        crate::characteristics::spec_characteristics(
            registers::FullScale::Dps250,
            registers::OutputDataRate::Hz95,
            registers::Bandwidth::Narrowest,
            0,
        ).noise_bandwidth_tenth_hz == 125,
{
    assert((0x0fu8 >> 6) & 0x03 == 0) by (bit_vector);
    assert((0x0fu8 >> 4) & 0x03 == 0) by (bit_vector);
    assert((0x00u8 >> 4) & 0x03 == 0) by (bit_vector);
}

/// The three register reads, in order, that a characteristics query
/// performs: raw temperature, control register 1, control register 4.
pub open spec fn spec_characteristics_frames() -> Seq<Seq<u8>> {
    seq![
        spec_read_frame(registers::OUT_TEMP),
        spec_read_frame(registers::CTRL_REG1),
        spec_read_frame(registers::CTRL_REG4),
    ]
}

/// A full-sample read transmits exactly one buffer of nine bytes: the
/// auto-incrementing read command for the temperature register, then eight
/// zero padding bytes, one per data register. Together with the contract of
/// [`L3GD20SPI::data_raw`], which appends exactly this one buffer to the
/// bus history whatever the status bits hold, this pins the full-sample
/// read to a single nine-byte transaction.
pub proof fn lemma_full_sample_frame()
    ensures
        spec_burst_frame(registers::OUT_TEMP, 8).len() == 9,
        spec_burst_frame(registers::OUT_TEMP, 8)[0] == codec::spec_read_multi_cmd(
            registers::OUT_TEMP,
        ),
        forall|i: int|
            1 <= i < 9 ==> #[trigger] spec_burst_frame(registers::OUT_TEMP, 8)[i] == 0,
{
}

/// SPI driver for the STMicroelectronics L3GD20 gyroscope.
#[allow(non_snake_case)]
pub struct L3GD20SPI<CS, SPI> {
    /// The chip-select line of the device.
    pub cs: CS,
    /// The bus transport.
    pub spi: SPI,
}

impl<CS, SPI> L3GD20SPI<CS, SPI> where CS: ChipSelect, SPI: SpiBus {
    /// Reads a single register: one chip-select-scoped transaction that
    /// transmits the read command plus one padding byte and returns the
    /// second received byte, the first being the discarded command echo.
    pub fn read_register(&mut self, address: u8) -> (r: Result<u8, TransportError>)
        ensures
            final(self).spi.sent() == old(self).spi.sent().push(spec_read_frame(address)),
            final(self).cs.selects() == old(self).cs.selects() + 1,
            final(self).cs.releases() == old(self).cs.releases() + 1,
            match r {
                Ok(value) => {
                    &&& spec_extended_by(old(self).spi.received(), final(self).spi.received(), 1)
                    &&& final(self).spi.received().last().len() == 2
                    &&& value == final(self).spi.received().last()[1]
                },
                Err(_) => final(self).spi.received() == old(self).spi.received(),
            },
    {
        self.cs.select();
        let command = codec::read_single_cmd(address);
        let mut buffer: Vec<u8> = vec![command, 0];
        assert(buffer@ =~= spec_read_frame(address));
        let result = self.spi.transfer(&mut buffer);
        self.cs.deselect();
        proof {
            assert(final(self).spi.received().subrange(
                0,
                old(self).spi.received().len() as int,
            ) =~= old(self).spi.received()) by {
                if result is Ok {
                    assert(final(self).spi.received().drop_last() == old(self).spi.received());
                }
            }
        }
        match result {
            Ok(_) => Ok(buffer[1]),
            Err(e) => Err(e),
        }
    }

    /// Writes a single register: one chip-select-scoped transaction that
    /// transmits the write command plus the value to store.
    pub fn write_register(&mut self, address: u8, value: u8) -> (r: Result<(), TransportError>)
        ensures
            final(self).spi.sent() == old(self).spi.sent().push(spec_write_frame(address, value)),
            final(self).cs.selects() == old(self).cs.selects() + 1,
            final(self).cs.releases() == old(self).cs.releases() + 1,
            match r {
                Ok(_) => spec_extended_by(old(self).spi.received(), final(self).spi.received(), 1),
                Err(_) => final(self).spi.received() == old(self).spi.received(),
            },
    {
        self.cs.select();
        let command = codec::write_single_cmd(address);
        let mut buffer: Vec<u8> = vec![command, value];
        assert(buffer@ =~= spec_write_frame(address, value));
        let result = self.spi.transfer(&mut buffer);
        self.cs.deselect();
        proof {
            if result is Ok {
                assert(final(self).spi.received().subrange(
                    0,
                    old(self).spi.received().len() as int,
                ) =~= old(self).spi.received());
            }
        }
        result
    }

    /// Identifies the chip by querying the `WHO_AM_I` register: the result
    /// is `true` exactly when the byte read back is the device's fixed
    /// identification value.
    pub fn identify(&mut self) -> (r: Result<bool, TransportError>)
        ensures
            final(self).spi.sent() == old(self).spi.sent().push(
                spec_read_frame(registers::WHO_AM_I),
            ),
            final(self).cs.selects() == old(self).cs.selects() + 1,
            final(self).cs.releases() == old(self).cs.releases() + 1,
            match r {
                Ok(ident) => {
                    &&& spec_extended_by(old(self).spi.received(), final(self).spi.received(), 1)
                    &&& ident == (final(self).spi.received().last()[1] == registers::DEVICE_ID)
                },
                Err(_) => final(self).spi.received() == old(self).spi.received(),
            },
    {
        match self.read_register(registers::WHO_AM_I) {
            Ok(byte) => Ok(byte == registers::DEVICE_ID),
            Err(e) => Err(e),
        }
    }

    /// Initializes the driver: takes ownership of the bus transport and the
    /// chip-select line and applies the standard configuration. On success
    /// the handed-back device has performed exactly the six reset writes.
    pub fn new(spi: SPI, chip_select: CS) -> (r: Result<Self, TransportError>)
        ensures
            match r {
                Ok(device) => {
                    &&& device.spi.sent() == spi.sent() + spec_reset_frames()
                    &&& spec_extended_by(spi.received(), device.spi.received(), 6)
                    &&& device.cs.selects() == chip_select.selects() + 6
                    &&& device.cs.releases() == chip_select.releases() + 6
                },
                Err(_) => true,
            },
    {
        let mut device = Self { cs: chip_select, spi };
        match device.reset() {
            Ok(_) => Ok(device),
            Err(e) => Err(e),
        }
    }

    /// Resets the device to reasonable defaults by writing the six control
    /// register values of [`spec_reset_frames`], each in its own
    /// transaction, in order, stopping at the first transport fault.
    pub fn reset(&mut self) -> (r: Result<(), TransportError>)
        ensures
            match r {
                Ok(_) => {
                    &&& final(self).spi.sent() == old(self).spi.sent() + spec_reset_frames()
                    &&& spec_extended_by(old(self).spi.received(), final(self).spi.received(), 6)
                    &&& final(self).cs.selects() == old(self).cs.selects() + 6
                    &&& final(self).cs.releases() == old(self).cs.releases() + 6
                },
                Err(_) => {
                    let k = final(self).spi.sent().len() as int - old(self).spi.sent().len() as int;
                    &&& 1 <= k <= 6
                    &&& final(self).spi.sent() == old(self).spi.sent()
                        + spec_reset_frames().take(k)
                    &&& spec_extended_by(old(self).spi.received(), final(self).spi.received(), k - 1)
                    &&& final(self).cs.selects() == old(self).cs.selects() + k
                    &&& final(self).cs.releases() == old(self).cs.releases() + k
                },
            },
    {
        match self.write_register(registers::CTRL_REG1, 0x0f) {
            Ok(_) => {},
            Err(e) => {
                proof {
                    assert(self.spi.sent() =~= old(self).spi.sent() + spec_reset_frames().take(1));
                    assert(self.spi.received().subrange(
                        0,
                        old(self).spi.received().len() as int,
                    ) =~= old(self).spi.received());
                }
                return Err(e);
            },
        }
        match self.write_register(registers::CTRL_REG2, 0x00) {
            Ok(_) => {},
            Err(e) => {
                proof {
                    assert(self.spi.sent() =~= old(self).spi.sent() + spec_reset_frames().take(2));
                    assert(self.spi.received().subrange(
                        0,
                        old(self).spi.received().len() as int,
                    ) =~= old(self).spi.received());
                }
                return Err(e);
            },
        }
        match self.write_register(registers::CTRL_REG3, 0x00) {
            Ok(_) => {},
            Err(e) => {
                proof {
                    assert(self.spi.sent() =~= old(self).spi.sent() + spec_reset_frames().take(3));
                    assert(self.spi.received().subrange(
                        0,
                        old(self).spi.received().len() as int,
                    ) =~= old(self).spi.received());
                }
                return Err(e);
            },
        }
        match self.write_register(registers::CTRL_REG4, 0x00) {
            Ok(_) => {},
            Err(e) => {
                proof {
                    assert(self.spi.sent() =~= old(self).spi.sent() + spec_reset_frames().take(4));
                    assert(self.spi.received().subrange(
                        0,
                        old(self).spi.received().len() as int,
                    ) =~= old(self).spi.received());
                }
                return Err(e);
            },
        }
        match self.write_register(registers::CTRL_REG5, 0x80) {
            Ok(_) => {},
            Err(e) => {
                proof {
                    assert(self.spi.sent() =~= old(self).spi.sent() + spec_reset_frames().take(5));
                    assert(self.spi.received().subrange(
                        0,
                        old(self).spi.received().len() as int,
                    ) =~= old(self).spi.received());
                }
                return Err(e);
            },
        }
        match self.write_register(registers::CTRL_REG5, 0x00) {
            Ok(_) => {},
            Err(e) => {
                proof {
                    assert(self.spi.sent() =~= old(self).spi.sent() + spec_reset_frames().take(6));
                    assert(self.spi.received().subrange(
                        0,
                        old(self).spi.received().len() as int,
                    ) =~= old(self).spi.received());
                }
                return Err(e);
            },
        }
        proof {
            assert(self.spi.sent() =~= old(self).spi.sent() + spec_reset_frames());
            assert(self.spi.received().subrange(
                0,
                old(self).spi.received().len() as int,
            ) =~= old(self).spi.received());
        }
        Ok(())
    }

    /// What a read-modify-write of the register at `address` with the pure
    /// transform `transform` leaves behind. On success it is exactly two
    /// transactions, a read then a write of the transformed reply byte, each
    /// in its own chip-select scope. On failure either the read failed and
    /// nothing more was transmitted, or the read succeeded and the write
    /// failed; the chip is selected and released once per transaction either
    /// way.
    pub open spec fn spec_read_modify_write(
        pre: Self,
        post: Self,
        r: Result<(), TransportError>,
        address: u8,
        transform: spec_fn(u8) -> u8,
    ) -> bool {
        match r {
            Ok(_) => {
                let reply = post.spi.received()[post.spi.received().len() - 2];
                &&& spec_extended_by(pre.spi.received(), post.spi.received(), 2)
                &&& reply.len() == 2
                &&& post.spi.sent() == pre.spi.sent().push(spec_read_frame(address)).push(
                    spec_write_frame(address, transform(reply[1])),
                )
                &&& post.cs.selects() == pre.cs.selects() + 2
                &&& post.cs.releases() == pre.cs.releases() + 2
            },
            Err(_) => {
                ||| {
                    &&& post.spi.sent() == pre.spi.sent().push(spec_read_frame(address))
                    &&& post.spi.received() == pre.spi.received()
                    &&& post.cs.selects() == pre.cs.selects() + 1
                    &&& post.cs.releases() == pre.cs.releases() + 1
                }
                ||| {
                    &&& spec_extended_by(pre.spi.received(), post.spi.received(), 1)
                    &&& post.spi.received().last().len() == 2
                    &&& post.spi.sent() == pre.spi.sent().push(spec_read_frame(address)).push(
                        spec_write_frame(address, transform(post.spi.received().last()[1])),
                    )
                    &&& post.cs.selects() == pre.cs.selects() + 2
                    &&& post.cs.releases() == pre.cs.releases() + 2
                }
            },
        }
    }

    /// Modifies a single register: reads it, applies the caller's pure
    /// transform to the byte read back, and writes the result. The read and
    /// the write are two separate transactions; on success the written byte
    /// is related to the reply byte of the read by the transform's own
    /// postcondition.
    pub fn modify_register<F: FnOnce(u8) -> u8>(&mut self, address: u8, f: F) -> (r: Result<
        (),
        TransportError,
    >)
        requires
            forall|b: u8| call_requires(f, (b,)),
        ensures
            match r {
                Ok(_) => {
                    let reply = final(self).spi.received()[final(self).spi.received().len() - 2];
                    &&& spec_extended_by(old(self).spi.received(), final(self).spi.received(), 2)
                    &&& reply.len() == 2
                    &&& final(self).spi.sent() == old(self).spi.sent().push(
                        spec_read_frame(address),
                    ).push(spec_write_frame(address, final(self).spi.sent().last()[1]))
                    &&& call_ensures(f, (reply[1],), final(self).spi.sent().last()[1])
                    &&& final(self).cs.selects() == old(self).cs.selects() + 2
                    &&& final(self).cs.releases() == old(self).cs.releases() + 2
                },
                Err(_) => {
                    ||| {
                        &&& final(self).spi.sent() == old(self).spi.sent().push(
                            spec_read_frame(address),
                        )
                        &&& final(self).spi.received() == old(self).spi.received()
                        &&& final(self).cs.selects() == old(self).cs.selects() + 1
                        &&& final(self).cs.releases() == old(self).cs.releases() + 1
                    }
                    ||| {
                        &&& spec_extended_by(
                            old(self).spi.received(),
                            final(self).spi.received(),
                            1,
                        )
                        &&& final(self).spi.received().last().len() == 2
                        &&& final(self).spi.sent() == old(self).spi.sent().push(
                            spec_read_frame(address),
                        ).push(spec_write_frame(address, final(self).spi.sent().last()[1]))
                        &&& call_ensures(
                            f,
                            (final(self).spi.received().last()[1],),
                            final(self).spi.sent().last()[1],
                        )
                        &&& final(self).cs.selects() == old(self).cs.selects() + 2
                        &&& final(self).cs.releases() == old(self).cs.releases() + 2
                    }
                },
            },
    {
        let read = self.read_register(address);
        match read {
            Ok(byte) => {
                let ghost mid = *self;
                let value = f(byte);
                let result = self.write_register(address, value);
                proof {
                    assert(self.spi.received().subrange(
                        0,
                        old(self).spi.received().len() as int,
                    ) =~= old(self).spi.received());
                    if result is Ok {
                        assert(self.spi.received()[self.spi.received().len() - 2]
                            == mid.spi.received().last());
                    }
                    assert(spec_write_frame(address, value)[1] == value);
                    assert(self.spi.sent().last() == spec_write_frame(address, value));
                }
                result
            },
            Err(e) => Err(e),
        }
    }

    /// Powers the device up and enables all three axes: sets the power-up
    /// bit and the three axis-enable bits of control register 1, keeping
    /// every other bit as read.
    pub fn power_up(&mut self) -> (r: Result<(), TransportError>)
        ensures
            Self::spec_read_modify_write(
                *old(self),
                *final(self),
                r,
                registers::CTRL_REG1,
                (|b: u8| b | 0x0f),
            ),
    {
        self.modify_register(
            registers::CTRL_REG1,
            (|reg: u8| -> (w: u8)
                ensures
                    w == reg | 0x0f,
                { reg | 0x0f }),
        )
    }

    /// Puts the device into sleep mode: keeps the power-up bit set but
    /// disables all three axes, keeping every other bit as read.
    pub fn sleep_mode(&mut self) -> (r: Result<(), TransportError>)
        ensures
            Self::spec_read_modify_write(
                *old(self),
                *final(self),
                r,
                registers::CTRL_REG1,
                (|b: u8| (b & 0xf0) | 0x08),
            ),
    {
        self.modify_register(
            registers::CTRL_REG1,
            (|reg: u8| -> (w: u8)
                ensures
                    w == (reg & 0xf0) | 0x08,
                { (reg & 0xf0) | 0x08 }),
        )
    }

    /// Powers the device down: clears the power-up bit of control register
    /// 1, keeping every other bit as read.
    pub fn power_down(&mut self) -> (r: Result<(), TransportError>)
        ensures
            Self::spec_read_modify_write(
                *old(self),
                *final(self),
                r,
                registers::CTRL_REG1,
                (|b: u8| b & 0xf7),
            ),
    {
        self.modify_register(
            registers::CTRL_REG1,
            (|reg: u8| -> (w: u8)
                ensures
                    w == reg & 0xf7,
                { reg & 0xf7 }),
        )
    }

    /// Enables or disables the data-ready interrupt: sets or clears the
    /// data-ready bit of control register 3, keeping every other bit as
    /// read.
    pub fn enable_data_ready(&mut self, enabled: bool) -> (r: Result<(), TransportError>)
        ensures
            Self::spec_read_modify_write(
                *old(self),
                *final(self),
                r,
                registers::CTRL_REG3,
                (|b: u8|
                    if enabled {
                        b | 0x08
                    } else {
                        b & 0xf7
                    }),
            ),
    {
        self.modify_register(
            registers::CTRL_REG3,
            (|reg: u8| -> (w: u8)
                ensures
                    w == if enabled {
                        reg | 0x08
                    } else {
                        reg & 0xf7
                    },
                {
                    if enabled {
                        reg | 0x08
                    } else {
                        reg & 0xf7
                    }
                }),
        )
    }

    /// Sets the output data rate: replaces bits 7 to 6 of control register 1
    /// with the encoding of `data_rate`, keeping every other bit as read.
    pub fn set_odr(&mut self, data_rate: registers::OutputDataRate) -> (r: Result<
        (),
        TransportError,
    >)
        ensures
            Self::spec_read_modify_write(
                *old(self),
                *final(self),
                r,
                registers::CTRL_REG1,
                (|b: u8| (b & 0x3f) | (registers::spec_odr_bits(data_rate) << 6)),
            ),
    {
        let bits = registers::odr_bits(data_rate);
        self.modify_register(
            registers::CTRL_REG1,
            (move |reg: u8| -> (w: u8)
                ensures
                    w == (reg & 0x3f) | (registers::spec_odr_bits(data_rate) << 6),
                { (reg & 0x3f) | (bits << 6) }),
        )
    }

    /// Sets the bandwidth: replaces bits 5 to 4 of control register 1 with
    /// the encoding of `bandwidth`, keeping every other bit as read.
    pub fn set_bandwidth(&mut self, bandwidth: registers::Bandwidth) -> (r: Result<
        (),
        TransportError,
    >)
        ensures
            Self::spec_read_modify_write(
                *old(self),
                *final(self),
                r,
                registers::CTRL_REG1,
                (|b: u8| (b & 0xcf) | (registers::spec_bandwidth_bits(bandwidth) << 4)),
            ),
    {
        let bits = registers::bandwidth_bits(bandwidth);
        self.modify_register(
            registers::CTRL_REG1,
            (move |reg: u8| -> (w: u8)
                ensures
                    w == (reg & 0xcf) | (registers::spec_bandwidth_bits(bandwidth) << 4),
                { (reg & 0xcf) | (bits << 4) }),
        )
    }

    /// Reads the raw temperature register.
    pub fn temp_raw(&mut self) -> (r: Result<u8, TransportError>)
        ensures
            final(self).spi.sent() == old(self).spi.sent().push(
                spec_read_frame(registers::OUT_TEMP),
            ),
            final(self).cs.selects() == old(self).cs.selects() + 1,
            final(self).cs.releases() == old(self).cs.releases() + 1,
            match r {
                Ok(value) => {
                    &&& spec_extended_by(old(self).spi.received(), final(self).spi.received(), 1)
                    &&& final(self).spi.received().last().len() == 2
                    &&& value == final(self).spi.received().last()[1]
                },
                Err(_) => final(self).spi.received() == old(self).spi.received(),
            },
    {
        self.read_register(registers::OUT_TEMP)
    }

    /// Obtains the sensor characteristics of the device's current
    /// configuration: reads the raw temperature, then control registers 1
    /// and 4, and computes the profile that the full-scale, data-rate and
    /// bandwidth selections read back determine. The result depends on the
    /// current configuration, so it is recomputed from the device on every
    /// call and never cached.
    pub fn characteristics(&mut self) -> (r: Result<Characteristics, TransportError>)
        ensures
            match r {
                Ok(c) => {
                    let n = final(self).spi.received().len() as int;
                    let temp_reply = final(self).spi.received()[n - 3];
                    let reg1_reply = final(self).spi.received()[n - 2];
                    let reg4_reply = final(self).spi.received()[n - 1];
                    &&& final(self).spi.sent() == old(self).spi.sent()
                        + spec_characteristics_frames()
                    &&& spec_extended_by(old(self).spi.received(), final(self).spi.received(), 3)
                    &&& temp_reply.len() == 2
                    &&& reg1_reply.len() == 2
                    &&& reg4_reply.len() == 2
                    &&& c == crate::characteristics::spec_characteristics(
                        registers::spec_full_scale_of_ctrl4(reg4_reply[1]),
                        registers::spec_odr_of_ctrl1(reg1_reply[1]),
                        registers::spec_bandwidth_of_ctrl1(reg1_reply[1]),
                        temp_reply[1],
                    )
                    &&& final(self).cs.selects() == old(self).cs.selects() + 3
                    &&& final(self).cs.releases() == old(self).cs.releases() + 3
                },
                Err(_) => {
                    let k = final(self).spi.sent().len() as int - old(self).spi.sent().len() as int;
                    &&& 1 <= k <= 3
                    &&& final(self).spi.sent() == old(self).spi.sent()
                        + spec_characteristics_frames().take(k)
                    &&& spec_extended_by(old(self).spi.received(), final(self).spi.received(), k - 1)
                    &&& final(self).cs.selects() == old(self).cs.selects() + k
                    &&& final(self).cs.releases() == old(self).cs.releases() + k
                },
            },
    {
        let temperature = match self.temp_raw() {
            Ok(t) => t,
            Err(e) => {
                proof {
                    assert(self.spi.sent() =~= old(self).spi.sent()
                        + spec_characteristics_frames().take(1));
                    assert(self.spi.received().subrange(
                        0,
                        old(self).spi.received().len() as int,
                    ) =~= old(self).spi.received());
                }
                return Err(e);
            },
        };
        let ghost s1 = *self;
        let reg1 = match self.read_register(registers::CTRL_REG1) {
            Ok(b) => b,
            Err(e) => {
                proof {
                    assert(self.spi.sent() =~= old(self).spi.sent()
                        + spec_characteristics_frames().take(2));
                    assert(self.spi.received().subrange(
                        0,
                        old(self).spi.received().len() as int,
                    ) =~= old(self).spi.received());
                }
                return Err(e);
            },
        };
        let ghost s2 = *self;
        let reg4 = match self.read_register(registers::CTRL_REG4) {
            Ok(b) => b,
            Err(e) => {
                proof {
                    assert(self.spi.sent() =~= old(self).spi.sent()
                        + spec_characteristics_frames().take(3));
                    assert(self.spi.received().subrange(
                        0,
                        old(self).spi.received().len() as int,
                    ) =~= old(self).spi.received());
                }
                return Err(e);
            },
        };
        let odr = registers::odr_of_ctrl1(reg1);
        let bw = registers::bandwidth_of_ctrl1(reg1);
        let fs = registers::full_scale_of_ctrl4(reg4);
        proof {
            assert(self.spi.sent() =~= old(self).spi.sent() + spec_characteristics_frames());
            assert(self.spi.received().subrange(
                0,
                old(self).spi.received().len() as int,
            ) =~= old(self).spi.received());
            assert(self.spi.received()[self.spi.received().len() - 3]
                == s1.spi.received().last());
            assert(self.spi.received()[self.spi.received().len() - 2]
                == s2.spi.received().last());
        }
        Ok(crate::characteristics::characteristics_for(fs, odr, bw, temperature))
    }

    /// Fetches the X, Y and Z-axis data off the sensor in one burst read:
    /// a single transaction covering the six output registers, low byte
    /// before high byte per axis, in the order X, Y, Z.
    pub fn xyz_raw(&mut self) -> (r: Result<I16x3, TransportError>)
        ensures
            final(self).spi.sent() == old(self).spi.sent().push(
                spec_burst_frame(registers::OUT_X_L, 6),
            ),
            final(self).cs.selects() == old(self).cs.selects() + 1,
            final(self).cs.releases() == old(self).cs.releases() + 1,
            match r {
                Ok(v) => {
                    let reply = final(self).spi.received().last();
                    &&& spec_extended_by(old(self).spi.received(), final(self).spi.received(), 1)
                    &&& reply.len() == 7
                    &&& v == (I16x3 {
                        x: crate::i16x3::spec_axis_value(reply[1], reply[2]),
                        y: crate::i16x3::spec_axis_value(reply[3], reply[4]),
                        z: crate::i16x3::spec_axis_value(reply[5], reply[6]),
                    })
                },
                Err(_) => final(self).spi.received() == old(self).spi.received(),
            },
    {
        self.cs.select();
        let command = codec::read_multi_cmd(registers::OUT_X_L);
        let mut buffer: Vec<u8> = vec![command, 0, 0, 0, 0, 0, 0];
        assert(buffer@ =~= spec_burst_frame(registers::OUT_X_L, 6));
        let result = self.spi.transfer(&mut buffer);
        self.cs.deselect();
        match result {
            Ok(_) => {
                proof {
                    assert(self.spi.received().subrange(
                        0,
                        old(self).spi.received().len() as int,
                    ) =~= old(self).spi.received());
                }
                let x = crate::i16x3::axis_value(buffer[1], buffer[2]);
                let y = crate::i16x3::axis_value(buffer[3], buffer[4]);
                let z = crate::i16x3::axis_value(buffer[5], buffer[6]);
                Ok(I16x3::new(x, y, z))
            },
            Err(e) => Err(e),
        }
    }

    /// Fetches all data off the sensor in one burst read: a single
    /// transaction of one command byte plus eight data bytes covering
    /// temperature, status and the six axis output registers, in that exact
    /// register order. Each axis value is tagged from its own status bits.
    pub fn data_raw(&mut self) -> (r: Result<SensorData, TransportError>)
        ensures
            final(self).spi.sent() == old(self).spi.sent().push(
                spec_burst_frame(registers::OUT_TEMP, 8),
            ),
            final(self).cs.selects() == old(self).cs.selects() + 1,
            final(self).cs.releases() == old(self).cs.releases() + 1,
            match r {
                Ok(data) => {
                    &&& spec_extended_by(old(self).spi.received(), final(self).spi.received(), 1)
                    &&& final(self).spi.received().last().len() == 9
                    &&& data == crate::sensor_data::spec_sample_of_frame(
                        final(self).spi.received().last(),
                    )
                },
                Err(_) => final(self).spi.received() == old(self).spi.received(),
            },
    {
        self.cs.select();
        let command = codec::read_multi_cmd(registers::OUT_TEMP);
        let mut buffer: Vec<u8> = vec![command, 0, 0, 0, 0, 0, 0, 0, 0];
        assert(buffer@ =~= spec_burst_frame(registers::OUT_TEMP, 8));
        let result = self.spi.transfer(&mut buffer);
        self.cs.deselect();
        match result {
            Ok(_) => {
                proof {
                    assert(self.spi.received().subrange(
                        0,
                        old(self).spi.received().len() as int,
                    ) =~= old(self).spi.received());
                }
                let temperature = buffer[1];
                let status = registers::StatusFlags::from_bits(buffer[2]);
                let x = crate::i16x3::axis_value(buffer[3], buffer[4]);
                let y = crate::i16x3::axis_value(buffer[5], buffer[6]);
                let z = crate::i16x3::axis_value(buffer[7], buffer[8]);
                Ok(SensorData::new(temperature, x, y, z, status))
            },
            Err(e) => Err(e),
        }
    }
}

} // verus!
