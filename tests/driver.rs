use accel_tasks::adxl345::{data_format, power_ctl, register, Adxl345, SPI_FREQUENCY_HZ, SPI_MODE};
use accel_tasks::bus::{BusError, NoDelay, RecordingPin, ScriptedBus};
use accel_tasks::frame::{
    decode_sample, i16_from_le, isqrt, magnitude_millig, millig_parts, read_address,
    write_address, Sample, FULL_RES_SCALE,
};

fn driver(replies: Vec<u8>) -> Adxl345<ScriptedBus, RecordingPin> {
    Adxl345::new(ScriptedBus::new(replies), RecordingPin::new(false))
}

#[test]
fn single_read_sets_read_flag_and_clears_burst_flag() {
    for a in 0u8..=0x3F {
        let mut dev = driver(vec![0x5A]);
        assert_eq!(dev.read_single(a), Ok(0x5A));
        let (bus, pin) = dev.release();
        assert_eq!(bus.sent_bytes(), vec![a | 0x80]);
        assert_eq!(bus.sent_bytes()[0] & 0x40, 0);
        assert!(pin.level_high());
    }
}

#[test]
fn burst_read_sets_read_and_burst_flags() {
    for n in 2usize..=8 {
        let mut dev = driver(vec![0; n]);
        let buf = dev.read(register::DATAX0, n).unwrap();
        assert_eq!(buf.len(), n);
        let (bus, _) = dev.release();
        let a = bus.sent_bytes()[0];
        assert_eq!(a & 0x80, 0x80);
        assert_eq!(a & 0x40, 0x40);
        assert_eq!(a, 0xF2);
    }
}

#[test]
fn address_byte_values() {
    assert_eq!(read_address(0x00, 1), 0x80);
    assert_eq!(read_address(0x32, 6), 0xF2);
    assert_eq!(read_address(0x31, 0), 0xB1);
    assert_eq!(write_address(0x2D, 2), 0x2D);
    assert_eq!(write_address(0x2D, 3), 0x6D);
    assert_eq!(write_address(0x2D, 1), 0x2D);
}

#[test]
fn read_returns_bytes_in_device_order() {
    let mut dev = driver(vec![7, 8, 9]);
    assert_eq!(dev.read(0x10, 3), Ok(vec![7, 8, 9]));
    let (bus, _) = dev.release();
    assert_eq!(bus.received_bytes(), vec![7, 8, 9]);
}

#[test]
fn write_single_sends_two_byte_frame_without_burst_flag() {
    let mut dev = driver(vec![]);
    assert_eq!(dev.write_single(register::POWER_CTL, power_ctl::MEASURE), Ok(()));
    let (bus, pin) = dev.release();
    assert_eq!(bus.sent_bytes(), vec![0x2D, 0x08]);
    assert_eq!(pin.events(), vec![true, false, true]);
}

#[test]
fn write_of_several_data_bytes_sets_burst_flag() {
    let mut dev = driver(vec![]);
    let mut frame = vec![0x1E, 1, 2];
    assert_eq!(dev.write(&mut frame), Ok(()));
    assert_eq!(frame, vec![0x5E, 1, 2]);
    let (bus, _) = dev.release();
    assert_eq!(bus.sent_bytes(), vec![0x5E, 1, 2]);
}

#[test]
fn transfer_exchanges_in_place() {
    let mut dev = driver(vec![9, 8, 7]);
    let mut data = vec![1, 2, 3];
    assert_eq!(dev.transfer(&mut data), Ok(()));
    assert_eq!(data, vec![9, 8, 7]);
    let (bus, pin) = dev.release();
    assert_eq!(bus.sent_bytes(), vec![1, 2, 3]);
    assert_eq!(bus.received_bytes(), vec![9, 8, 7]);
    assert_eq!(pin.events(), vec![true, false, true]);
}

#[test]
fn chip_select_released_when_transfer_fails() {
    let bus = ScriptedBus::failing_after(vec![1, 2, 3, 4], 2);
    let mut dev = Adxl345::new(bus, RecordingPin::new(false));
    let mut data = vec![0xAA; 4];
    assert_eq!(dev.transfer(&mut data), Err(BusError::Fault));
    let (_, pin) = dev.release();
    assert!(pin.level_high());
    assert_eq!(pin.events(), vec![true, false, true]);
}

#[test]
fn chip_select_released_when_burst_read_fails() {
    // The address byte goes out; the six data bytes exceed the budget.
    let bus = ScriptedBus::failing_after(vec![0; 6], 3);
    let mut dev = Adxl345::new(bus, RecordingPin::new(true));
    assert_eq!(dev.poll_measurement(), Err(BusError::Fault));
    let (bus, pin) = dev.release();
    assert_eq!(bus.sent_bytes(), vec![0xF2]);
    assert_eq!(pin.events(), vec![true, false, true]);
    assert!(pin.level_high());
}

#[test]
fn read_times_out_when_device_does_not_answer() {
    let mut dev = driver(vec![1, 2]);
    assert_eq!(dev.read(register::DATAX0, 6), Err(BusError::Timeout));
    let mut data = vec![0; 3];
    assert_eq!(dev.transfer(&mut data), Err(BusError::Timeout));
    let (_, pin) = dev.release();
    assert!(pin.level_high());
}

#[test]
fn chip_select_released_when_address_write_fails() {
    let bus = ScriptedBus::failing_after(vec![], 0);
    let mut dev = Adxl345::new(bus, RecordingPin::new(false));
    assert_eq!(dev.read_single(register::DEVID), Err(BusError::Fault));
    assert_eq!(dev.write_single(register::POWER_CTL, 0), Err(BusError::Fault));
    let (bus, pin) = dev.release();
    assert!(bus.sent_bytes().is_empty());
    assert_eq!(pin.events(), vec![true, false, true, false, true]);
}

#[test]
fn burst_bytes_decode_to_sample() {
    let mut dev = driver(vec![0x01, 0x00, 0x02, 0x00, 0x03, 0x00]);
    assert_eq!(dev.poll_measurement(), Ok(Sample { x: 1, y: 2, z: 3 }));
    assert_eq!(
        decode_sample(&[0x01, 0x00, 0x02, 0x00, 0x03, 0x00]),
        Sample { x: 1, y: 2, z: 3 }
    );
}

#[test]
fn decode_handles_sign_and_high_byte() {
    assert_eq!(
        decode_sample(&[0xFF, 0xFF, 0x00, 0x80, 0xFF, 0x7F]),
        Sample { x: -1, y: -32768, z: 32767 }
    );
    assert_eq!(i16_from_le(0x34, 0x12), 0x1234);
    assert_eq!(i16_from_le(0x00, 0xFF), -256);
}

#[test]
fn magnitude_of_single_axis_sample() {
    let s = Sample { x: 100, y: 0, z: 0 };
    assert_eq!(magnitude_millig(s, 4), 400);
    assert_eq!(millig_parts(400), (0, 400));
    assert_eq!(format!("{}.{:03}g", 0, 400), "0.400g");
}

#[test]
fn magnitude_values() {
    assert_eq!(magnitude_millig(Sample { x: 3, y: 4, z: 0 }, 4), 20);
    assert_eq!(magnitude_millig(Sample { x: -3, y: 0, z: -4 }, 1), 5);
    assert_eq!(magnitude_millig(Sample { x: 1, y: 1, z: 1 }, 4), 4);
    assert_eq!(
        magnitude_millig(Sample { x: -32768, y: -32768, z: -32768 }, 1),
        56755
    );
    assert_eq!(magnitude_millig(Sample { x: 250, y: 0, z: 0 }, FULL_RES_SCALE as u32), 1000);
    assert_eq!(millig_parts(1250), (1, 250));
}

#[test]
fn isqrt_values() {
    assert_eq!(isqrt(0), 0);
    assert_eq!(isqrt(1), 1);
    assert_eq!(isqrt(15), 3);
    assert_eq!(isqrt(16), 4);
    assert_eq!(isqrt(10000), 100);
    assert_eq!(isqrt(u64::MAX), 4294967295);
}

#[test]
fn configure_then_poll_reports_zero_sample() {
    let mut dev = driver(vec![0xE5, 0, 0, 0, 0, 0, 0]);
    let power = power_ctl::MEASURE | power_ctl::SLEEP | power_ctl::WAKEUP_8HZ;
    let format = data_format::FULL_RES | data_format::RANGE_2G;
    let mut delay = NoDelay::new();
    assert_eq!(dev.configure(&mut delay, power, format), Ok(0xE5));
    assert_eq!(delay.asked(), vec![1, 1, 1]);
    let sample = dev.poll_measurement().unwrap();
    assert_eq!(sample, Sample { x: 0, y: 0, z: 0 });
    assert_eq!(magnitude_millig(sample, FULL_RES_SCALE as u32), 0);
    let (bus, pin) = dev.release();
    assert_eq!(bus.sent_bytes(), vec![0x80, 0x2D, 0x0C, 0x31, 0x08, 0xF2]);
    assert!(pin.level_high());
    assert_eq!(
        pin.events(),
        vec![true, false, true, false, true, false, true, false, true]
    );
}

#[test]
fn new_sets_up_bus_clock_without_traffic() {
    let dev = driver(vec![]);
    let (bus, pin) = dev.release();
    assert_eq!(bus.clock(), (SPI_MODE, SPI_FREQUENCY_HZ));
    assert_eq!(bus.clock(), (3, 1_000_000));
    assert!(bus.sent_bytes().is_empty());
    assert_eq!(pin.events(), vec![true]);
}

#[test]
fn configure_stops_at_first_failure() {
    // The identification read succeeds; the power-control write faults.
    let bus = ScriptedBus::failing_after(vec![0xE5], 2);
    let mut dev = Adxl345::new(bus, RecordingPin::new(true));
    let mut delay = NoDelay::new();
    assert_eq!(dev.configure(&mut delay, 0x08, 0x08), Err(BusError::Fault));
    assert_eq!(delay.asked(), vec![1]);
    let (bus, pin) = dev.release();
    assert_eq!(bus.sent_bytes(), vec![0x80]);
    assert_eq!(pin.events(), vec![true, false, true, false, true]);
}
