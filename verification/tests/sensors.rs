use olive_solve::sensors::{
    backdate_samples, bmi160_uses_alternative_address, complete_fifo_frames, decode_fifo_gyro,
    i16_from_be, mpu_address, read_fifo_gyros, sensortime_ticks_since, upper_hex_u8, MpuAddress, SampleInterval,
};

#[test]
fn sensortime_first_reading_has_no_interval() {
    assert_eq!(sensortime_ticks_since(None, 1234), None);
}

#[test]
fn sensortime_plain_difference() {
    assert_eq!(sensortime_ticks_since(Some(100), 356), Some(256));
}

#[test]
fn sensortime_wraps_at_24_bits() {
    // 0xFFFFF0 -> 0x000010 is 0x20 ticks across the wrap.
    assert_eq!(sensortime_ticks_since(Some(0xFF_FFF0), 0x10), Some(0x20));
    // 39 us per tick: 256 ticks are 9.984 ms.
    let ticks = sensortime_ticks_since(Some(0), 256).unwrap();
    assert!(((ticks as f64) * 39.0e-6 - 0.009984).abs() < 1e-12);
}

#[test]
fn bmi160_address_choice() {
    assert!(bmi160_uses_alternative_address(0x69));
    assert!(!bmi160_uses_alternative_address(0x68));
    assert!(!bmi160_uses_alternative_address(0x00));
}

#[test]
fn backdated_batch_is_anchored_at_now() {
    let now: i128 = 5_000_000_000;
    let (samples, last) = backdate_samples(now, None, 3, 10);
    let times: Vec<i128> = samples.iter().map(|s| s.time_ns).collect();
    assert_eq!(times, vec![4_980_000_000, 4_990_000_000, 5_000_000_000]);
    assert_eq!(samples[0].interval, SampleInterval::Nominal);
    assert_eq!(samples[1].interval, SampleInterval::Measured(10_000_000));
    assert_eq!(samples[2].interval, SampleInterval::Measured(10_000_000));
    assert_eq!(last, Some(now));
}

#[test]
fn backdated_batch_continues_previous_batch() {
    let (samples, last) = backdate_samples(2_000_000_000, Some(1_950_000_000), 2, 20);
    assert_eq!(samples[0].time_ns, 1_980_000_000);
    assert_eq!(samples[0].interval, SampleInterval::Measured(30_000_000));
    assert_eq!(samples[1].interval, SampleInterval::Measured(20_000_000));
    assert_eq!(last, Some(2_000_000_000));
}

#[test]
fn backdated_batch_falls_back_when_clock_goes_back() {
    // The previous sample is later than the first back-dated one.
    let (samples, _) = backdate_samples(1_000, Some(5_000), 1, 0);
    assert_eq!(samples[0].interval, SampleInterval::Nominal);
    // Zero interval: samples coincide, so no positive gap is measured.
    let (samples, _) = backdate_samples(1_000, Some(1_000), 2, 0);
    assert_eq!(samples[0].interval, SampleInterval::Nominal);
    assert_eq!(samples[1].interval, SampleInterval::Nominal);
}

#[test]
fn empty_batch_keeps_last_time() {
    let (samples, last) = backdate_samples(9_000, Some(7), 0, 10);
    assert!(samples.is_empty());
    assert_eq!(last, Some(7));
}

#[test]
fn fifo_frames_are_whole() {
    assert_eq!(complete_fifo_frames(0, 12), 0);
    assert_eq!(complete_fifo_frames(11, 12), 0);
    assert_eq!(complete_fifo_frames(36, 12), 3);
    assert_eq!(complete_fifo_frames(47, 12), 3);
}

#[test]
fn big_endian_decoding() {
    assert_eq!(i16_from_be(0x00, 0x01), 1);
    assert_eq!(i16_from_be(0x7F, 0xFF), 32767);
    assert_eq!(i16_from_be(0x80, 0x00), -32768);
    assert_eq!(i16_from_be(0xFF, 0xFF), -1);
    for v in [i16::MIN, -1234, -1, 0, 1, 999, i16::MAX] {
        let b = v.to_be_bytes();
        assert_eq!(i16_from_be(b[0], b[1]), v);
    }
}

#[test]
fn gyro_axes_come_from_the_second_half_of_the_frame() {
    let frame = [1u8, 2, 3, 4, 5, 6, 0x00, 0x10, 0xFF, 0xF0, 0x80, 0x01];
    assert_eq!(decode_fifo_gyro(&frame), (16, -16, -32767));
}

#[test]
fn hex_notation() {
    assert_eq!(upper_hex_u8(0), "0");
    assert_eq!(upper_hex_u8(0x5), "5");
    assert_eq!(upper_hex_u8(0x0F), "F");
    assert_eq!(upper_hex_u8(0x10), "10");
    assert_eq!(upper_hex_u8(0xAB), "AB");
    assert_eq!(upper_hex_u8(0xFF), "FF");
}

#[test]
fn mpu_address_choice() {
    assert_eq!(mpu_address(0x68), Ok(MpuAddress::Ad0Low));
    assert_eq!(mpu_address(0x69), Ok(MpuAddress::Ad0High));
    assert_eq!(mpu_address(0x70), Err("Invalid MPU address: 0x70".to_string()));
    assert_eq!(mpu_address(0x05), Err("Invalid MPU address: 0x5".to_string()));
}

#[test]
fn fifo_reads_keep_the_frames_read() {
    // The device is modelled by the number of reads made on it; the second
    // read fails.
    let read = |n: u32| -> (u32, Option<[u8; 12]>) {
        let frame = [0u8, 0, 0, 0, 0, 0, 0x00, n as u8, 0xFF, 0xFF, 0x00, 0x02];
        (n + 1, if n == 1 { None } else { Some(frame) })
    };
    let (reads, gyros) = read_fifo_gyros(0u32, 4, read);
    assert_eq!(reads, 4);
    assert_eq!(gyros, vec![(0, -1, 2), (2, -1, 2), (3, -1, 2)]);
    let (reads, gyros) = read_fifo_gyros(7u32, 0, read);
    assert_eq!(reads, 7);
    assert!(gyros.is_empty());
}
