//! End-to-end driver tests against a scripted in-memory bus and a counting
//! chip-select line.

use l3gd20::L3GD20SPI;
use l3gd20::bus::ChipSelect;
use l3gd20::bus::SpiBus;
use l3gd20::bus::TransportError;

/// A scripted bus: records every transmitted buffer and answers the n-th
/// transfer with the n-th scripted reply, padded with zeros; transfers whose
/// index is `fail_at` fail with a transport error.
struct ScriptedBus {
    replies: Vec<Vec<u8>>,
    sent: Vec<Vec<u8>>,
    fail_at: Option<usize>,
    calls: usize,
}

impl ScriptedBus {
    fn new(replies: Vec<Vec<u8>>) -> Self {
        ScriptedBus { replies, sent: Vec::new(), fail_at: None, calls: 0 }
    }

    fn failing_at(replies: Vec<Vec<u8>>, fail_at: usize) -> Self {
        ScriptedBus { replies, sent: Vec::new(), fail_at: Some(fail_at), calls: 0 }
    }
}

impl SpiBus for ScriptedBus {
    fn transfer(&mut self, buffer: &mut Vec<u8>) -> Result<(), TransportError> {
        self.sent.push(buffer.clone());
        let index = self.calls;
        self.calls += 1;
        if self.fail_at == Some(index) {
            return Err(TransportError);
        }
        let reply = self.replies.get(index).cloned().unwrap_or_default();
        for i in 0..buffer.len() {
            buffer[i] = reply.get(i).copied().unwrap_or(0);
        }
        Ok(())
    }
}

/// A chip-select line that counts how often it was asserted and released.
struct CountingCs {
    selects: usize,
    releases: usize,
}

impl CountingCs {
    fn new() -> Self {
        CountingCs { selects: 0, releases: 0 }
    }
}

impl ChipSelect for CountingCs {
    fn select(&mut self) {
        self.selects += 1;
    }

    fn deselect(&mut self) {
        self.releases += 1;
    }
}

fn driver_with(bus: ScriptedBus) -> L3GD20SPI<CountingCs, ScriptedBus> {
    L3GD20SPI { cs: CountingCs::new(), spi: bus }
}

#[test]
fn read_register_sends_one_read_frame() {
    let mut driver = driver_with(ScriptedBus::new(vec![vec![0x00, 0xab]]));
    let value = driver.read_register(0x0f).unwrap();
    assert_eq!(value, 0xab);
    assert_eq!(driver.spi.sent, vec![vec![0x8f, 0x00]]);
    assert_eq!(driver.cs.selects, 1);
    assert_eq!(driver.cs.releases, 1);
}

#[test]
fn write_register_sends_one_write_frame() {
    let mut driver = driver_with(ScriptedBus::new(vec![]));
    driver.write_register(0x23, 0xaa).unwrap();
    assert_eq!(driver.spi.sent, vec![vec![0x23, 0xaa]]);
    assert_eq!(driver.cs.selects, 1);
    assert_eq!(driver.cs.releases, 1);
}

#[test]
fn identify_accepts_the_device_id_only() {
    let mut driver = driver_with(ScriptedBus::new(vec![vec![0x00, 0xd4]]));
    assert_eq!(driver.identify().unwrap(), true);
    assert_eq!(driver.spi.sent, vec![vec![0x8f, 0x00]]);

    let mut other = driver_with(ScriptedBus::new(vec![vec![0x00, 0xd3]]));
    assert_eq!(other.identify().unwrap(), false);
}

#[test]
fn temp_raw_reads_the_temperature_register() {
    let mut driver = driver_with(ScriptedBus::new(vec![vec![0x00, 25]]));
    assert_eq!(driver.temp_raw().unwrap(), 25);
    assert_eq!(driver.spi.sent, vec![vec![0xa6, 0x00]]);
}

#[test]
fn power_up_sets_power_and_axis_bits() {
    let mut driver = driver_with(ScriptedBus::new(vec![vec![0x00, 0x40], vec![0x00, 0x00]]));
    driver.power_up().unwrap();
    assert_eq!(driver.spi.sent, vec![vec![0xa0, 0x00], vec![0x20, 0x4f]]);
    assert_eq!(driver.cs.selects, 2);
    assert_eq!(driver.cs.releases, 2);
}

#[test]
fn sleep_mode_keeps_power_and_clears_axes() {
    let mut driver = driver_with(ScriptedBus::new(vec![vec![0x00, 0x4f], vec![0x00, 0x00]]));
    driver.sleep_mode().unwrap();
    assert_eq!(driver.spi.sent, vec![vec![0xa0, 0x00], vec![0x20, 0x48]]);
}

#[test]
fn power_down_clears_the_power_bit() {
    let mut driver = driver_with(ScriptedBus::new(vec![vec![0x00, 0x4f], vec![0x00, 0x00]]));
    driver.power_down().unwrap();
    assert_eq!(driver.spi.sent, vec![vec![0xa0, 0x00], vec![0x20, 0x47]]);
}

#[test]
fn enable_data_ready_toggles_one_interrupt_bit() {
    let mut driver = driver_with(ScriptedBus::new(vec![vec![0x00, 0x00], vec![0x00, 0x00]]));
    driver.enable_data_ready(true).unwrap();
    assert_eq!(driver.spi.sent, vec![vec![0xa2, 0x00], vec![0x22, 0x08]]);

    let mut off = driver_with(ScriptedBus::new(vec![vec![0x00, 0xff], vec![0x00, 0x00]]));
    off.enable_data_ready(false).unwrap();
    assert_eq!(off.spi.sent, vec![vec![0xa2, 0x00], vec![0x22, 0xf7]]);
}

#[test]
fn set_odr_replaces_the_rate_bits_only() {
    let mut driver = driver_with(ScriptedBus::new(vec![vec![0x00, 0x0f], vec![0x00, 0x00]]));
    driver.set_odr(l3gd20::registers::OutputDataRate::Hz380).unwrap();
    assert_eq!(driver.spi.sent, vec![vec![0xa0, 0x00], vec![0x20, 0x8f]]);
}

#[test]
fn set_bandwidth_replaces_the_bandwidth_bits_only() {
    let mut driver = driver_with(ScriptedBus::new(vec![vec![0x00, 0x0f], vec![0x00, 0x00]]));
    driver.set_bandwidth(l3gd20::registers::Bandwidth::Wide).unwrap();
    assert_eq!(driver.spi.sent, vec![vec![0xa0, 0x00], vec![0x20, 0x3f]]);
}

#[test]
fn xyz_raw_decodes_low_byte_then_high_byte_per_axis() {
    let reply = vec![0x00, 0x34, 0x12, 0x00, 0x00, 0x00, 0x00];
    let mut driver = driver_with(ScriptedBus::new(vec![reply]));
    let triple = driver.xyz_raw().unwrap();
    assert_eq!(triple, l3gd20::I16x3::new(0x1234, 0, 0));
    assert_eq!(driver.spi.sent, vec![vec![0xe8, 0x00, 0x00, 0x00, 0x00, 0x00, 0x00]]);
    assert_eq!(driver.cs.selects, 1);
    assert_eq!(driver.cs.releases, 1);
}

#[test]
fn xyz_raw_reads_twos_complement_values() {
    let reply = vec![0x00, 0xff, 0xff, 0x00, 0x80, 0x01, 0x00];
    let mut driver = driver_with(ScriptedBus::new(vec![reply]));
    let triple = driver.xyz_raw().unwrap();
    assert_eq!(triple, l3gd20::I16x3::new(-1, -32768, 1));
}

#[test]
fn data_raw_is_one_nine_byte_transaction() {
    // Whatever the status bits hold, the read is a single burst of one
    // command byte plus eight data bytes.
    for status in [0x00u8, 0x07, 0x77, 0xff] {
        let reply = vec![0x00, 20, status, 1, 0, 2, 0, 3, 0];
        let mut driver = driver_with(ScriptedBus::new(vec![reply]));
        let data = driver.data_raw().unwrap();
        assert_eq!(driver.spi.sent.len(), 1);
        assert_eq!(driver.spi.sent[0], vec![0xe6, 0, 0, 0, 0, 0, 0, 0, 0]);
        assert_eq!(driver.cs.selects, 1);
        assert_eq!(driver.cs.releases, 1);
        assert_eq!(data.temperature, 20);
    }
}

#[test]
fn data_raw_tags_axes_from_the_status_byte() {
    // X fresh, Y stale, Z overrun.
    let reply = vec![0x00, 33, 0b0100_0101, 0x34, 0x12, 5, 0, 6, 0];
    let mut driver = driver_with(ScriptedBus::new(vec![reply]));
    let data = driver.data_raw().unwrap();
    assert_eq!(data.temperature, 33);
    assert_eq!(data.x, l3gd20::Reading::Fresh(0x1234));
    assert_eq!(data.y, l3gd20::Reading::Stale(5));
    assert_eq!(data.z, l3gd20::Reading::Overrun(6));
}

#[test]
fn new_applies_the_reset_sequence() {
    let driver = L3GD20SPI::new(ScriptedBus::new(vec![]), CountingCs::new()).unwrap();
    assert_eq!(
        driver.spi.sent,
        vec![
            vec![0x20, 0x0f],
            vec![0x21, 0x00],
            vec![0x22, 0x00],
            vec![0x23, 0x00],
            vec![0x24, 0x80],
            vec![0x24, 0x00],
        ]
    );
    assert_eq!(driver.cs.selects, 6);
    assert_eq!(driver.cs.releases, 6);
}

#[test]
fn reset_stops_at_the_first_fault_with_select_released() {
    let mut driver = driver_with(ScriptedBus::failing_at(vec![], 2));
    assert_eq!(driver.reset(), Err(TransportError));
    assert_eq!(
        driver.spi.sent,
        vec![vec![0x20, 0x0f], vec![0x21, 0x00], vec![0x22, 0x00]]
    );
    assert_eq!(driver.cs.selects, 3);
    assert_eq!(driver.cs.releases, 3);
}

#[test]
fn faulting_transfer_still_releases_the_select_line() {
    let mut burst = driver_with(ScriptedBus::failing_at(vec![], 0));
    assert!(burst.data_raw().is_err());
    assert_eq!(burst.spi.sent.len(), 1);
    assert_eq!(burst.cs.selects, 1);
    assert_eq!(burst.cs.releases, 1);

    let mut single = driver_with(ScriptedBus::failing_at(vec![], 0));
    assert_eq!(single.read_register(0x20), Err(TransportError));
    assert_eq!(single.cs.selects, 1);
    assert_eq!(single.cs.releases, 1);

    let mut modify = driver_with(ScriptedBus::failing_at(vec![vec![0x00, 0x00]], 1));
    assert_eq!(modify.power_up(), Err(TransportError));
    assert_eq!(modify.cs.selects, 2);
    assert_eq!(modify.cs.releases, 2);
}

#[test]
fn characteristics_reads_configuration_and_temperature() {
    // Temperature 20, CTRL_REG1 with 95 Hz and narrowest bandwidth,
    // CTRL_REG4 with 250 dps full scale.
    let replies = vec![vec![0x00, 20], vec![0x00, 0x0f], vec![0x00, 0x00]];
    let mut driver = driver_with(ScriptedBus::new(replies));
    let c = driver.characteristics().unwrap();
    assert_eq!(driver.spi.sent, vec![vec![0xa6, 0x00], vec![0xa0, 0x00], vec![0xa3, 0x00]]);
    assert_eq!(driver.cs.selects, 3);
    assert_eq!(driver.cs.releases, 3);
    assert_eq!(c.full_scale, 250);
    assert_eq!(c.sensitivity_micro_dps, 8750);
    assert_eq!(c.zero_rate_noise_tenth_dps, 100);
    assert_eq!(c.zero_rate_level_temp_centi_dps, 60);
    assert_eq!(c.noise_bandwidth_tenth_hz, 125);
}

#[test]
fn characteristics_follows_the_configuration_read_back() {
    // CTRL_REG1: 380 Hz (0b10) with wide bandwidth (0b11);
    // CTRL_REG4: 2000 dps (0b10).
    let replies = vec![vec![0x00, 10], vec![0x00, 0xbf], vec![0x00, 0x20]];
    let mut driver = driver_with(ScriptedBus::new(replies));
    let c = driver.characteristics().unwrap();
    assert_eq!(c.full_scale, 2000);
    assert_eq!(c.sensitivity_micro_dps, 70000);
    assert_eq!(c.zero_rate_noise_tenth_dps, 750);
    assert_eq!(c.zero_rate_level_temp_centi_dps, 40);
    assert_eq!(c.noise_bandwidth_tenth_hz, 1000);
}
