use vstd::prelude::*;

verus! {

// ------------------------------------------------------------------
// BMI160 sensor time
// ------------------------------------------------------------------

/// Ticks from `last` to `current` on the BMI160's 24-bit SENSORTIME
/// counter: the plain difference, with one counter period (2^24) added
/// when the difference is negative because the counter wrapped.
pub open spec fn sensortime_delta(last: u32, current: u32) -> int {
    let diff = current - last;
    if diff < 0 {
        diff + 0x1000000
    } else {
        diff
    }
}

/// Ticks elapsed since the previous sensor-time reading, or `None` for the
/// first reading (the caller then uses its fallback interval).
pub fn sensortime_ticks_since(last: Option<u32>, current: u32) -> (ticks: Option<i64>)
    ensures
        ticks == (match last {
            None => None,
            Some(l) => Some(sensortime_delta(l, current) as i64),
        }),
{
    match last {
        None => None,
        Some(l) => {
            let mut diff: i64 = current as i64 - l as i64;
            if diff < 0 {
                diff = diff + 0x1000000;
            }
            Some(diff)
        },
    }
}

/// On readings of the 24-bit counter the elapsed tick count lies in one
/// counter period, and advancing `last` by it modulo 2^24 gives `current`.
pub proof fn lemma_sensortime_delta_wraps(last: u32, current: u32)
    requires
        last < 0x1000000,
        current < 0x1000000,
    ensures
        0 <= sensortime_delta(last, current) < 0x1000000,
        (last + sensortime_delta(last, current)) % 0x1000000 == current as int,
{
    let d = sensortime_delta(last, current);
    if current >= last {
        assert(last + d == current);
    } else {
        assert(last + d == current + 0x1000000);
        assert((current + 0x1000000) % 0x1000000 == current as int) by (nonlinear_arith)
            requires
                0 <= current < 0x1000000,
        ;
    }
}

/// BMI160 slave address choice: 0x69 selects the alternative address,
/// every other value the default one.
pub fn bmi160_uses_alternative_address(address: u8) -> (alternative: bool)
    ensures
        alternative == (address == 0x69),
{
    address == 0x69
}

// ------------------------------------------------------------------
// Back-dated sample timeline
// ------------------------------------------------------------------

/// The interval attributed to one gyro sample.
#[derive(Debug, Clone, Copy, PartialEq, Eq, Structural)]
pub enum SampleInterval {
    /// Use the nominal report interval of the sensor.
    Nominal,
    /// The measured gap to the previous sample, in nanoseconds.
    Measured(u128),
}

/// The time stamp (nanoseconds since the epoch) and interval given to one
/// sample of a batch read from the sensor.
#[derive(Debug, Clone, Copy, PartialEq, Eq, Structural)]
pub struct SampleTime {
    pub time_ns: i128,
    pub interval: SampleInterval,
}

/// Nanoseconds in one millisecond.
pub const NANOS_PER_MILLI: i128 = 1_000_000;

/// Time of sample `i` of a batch of `count` samples: the last sample is
/// anchored at `now`, and each earlier one steps back one report interval.
pub open spec fn backdated_time(now_ns: int, count: int, i: int, interval_ms: int) -> int {
    now_ns - (count - 1 - i) * interval_ms * 1_000_000
}

/// The interval of a sample at `time` following a sample at `prev`: the
/// positive gap when there is a previous sample, the nominal interval when
/// there is none or the gap is not positive.
pub open spec fn interval_after(prev: Option<i128>, time: int) -> SampleInterval {
    match prev {
        None => SampleInterval::Nominal,
        Some(p) => if time - p > 0 {
            SampleInterval::Measured((time - p) as u128)
        } else {
            SampleInterval::Nominal
        },
    }
}

/// The sample preceding sample `i` of the batch: the last sample of the
/// previous batch for the first one.
pub open spec fn previous_sample(
    now_ns: int,
    last_ns: Option<i128>,
    count: int,
    i: int,
    interval_ms: int,
) -> Option<i128> {
    if i == 0 {
        last_ns
    } else {
        Some(backdated_time(now_ns, count, i - 1, interval_ms) as i128)
    }
}

/// Bound on the time values that the timeline accepts; it keeps every
/// difference inside `i128`.
pub open spec fn time_in_range(t: int) -> bool {
    -0x1_0000_0000_0000_0000_0000_0000_0000 <= t <= 0x1_0000_0000_0000_0000_0000_0000_0000
}

/// Stamps a batch of `count` samples read at `now_ns`. The samples are
/// back-dated from `now_ns` in steps of the report interval; each gets the
/// gap to the sample before it (the previous batch's last sample, `last_ns`,
/// for the first one) when that gap is positive. Also returns the time of
/// the last stamped sample, which is `last_ns` unchanged for an empty batch.
pub fn backdate_samples(now_ns: i128, last_ns: Option<i128>, count: usize, interval_ms: u16) -> (r: (
    Vec<SampleTime>,
    Option<i128>,
))
    requires
        time_in_range(now_ns as int),
        last_ns matches Some(l) ==> time_in_range(l as int),
    ensures
        r.0.len() == count,
        forall|i: int|
            0 <= i < count ==> {
                &&& #[trigger] r.0[i].time_ns == backdated_time(
                    now_ns as int,
                    count as int,
                    i,
                    interval_ms as int,
                )
                &&& r.0[i].interval == interval_after(
                    previous_sample(now_ns as int, last_ns, count as int, i, interval_ms as int),
                    backdated_time(now_ns as int, count as int, i, interval_ms as int),
                )
            },
        r.1 == (if count == 0 {
            last_ns
        } else {
            Some(now_ns)
        }),
{
    let mut samples: Vec<SampleTime> = Vec::new();
    let mut prev = last_ns;
    let mut i: usize = 0;
    while i < count
        invariant
            i <= count,
            time_in_range(now_ns as int),
            last_ns matches Some(l) ==> time_in_range(l as int),
            samples.len() == i,
            prev == previous_sample(now_ns as int, last_ns, count as int, i as int, interval_ms as int),
            prev matches Some(p) ==> -0x2_0000_0000_0000_0000_0000_0000_0000 <= p
                <= 0x1_0000_0000_0000_0000_0000_0000_0000,
            forall|j: int|
                0 <= j < i ==> {
                    &&& #[trigger] samples[j].time_ns == backdated_time(
                        now_ns as int,
                        count as int,
                        j,
                        interval_ms as int,
                    )
                    &&& samples[j].interval == interval_after(
                        previous_sample(now_ns as int, last_ns, count as int, j, interval_ms as int),
                        backdated_time(now_ns as int, count as int, j, interval_ms as int),
                    )
                },
        decreases count - i,
    {
        let steps: usize = count - 1 - i;
        proof {
            assert(0 <= steps * interval_ms <= 0x1_0000_0000_0000_0000_0000) by (nonlinear_arith)
                requires
                    steps <= 0xffff_ffff_ffff_ffff,
                    interval_ms <= 0xffff,
            ;
            assert(0 <= steps * interval_ms * 1_000_000 <= 0x10_0000_0000_0000_0000_0000_0000)
                by (nonlinear_arith)
                requires
                    0 <= steps * interval_ms <= 0x1_0000_0000_0000_0000_0000,
            ;
        }
        let offset: i128 = (steps as i128) * (interval_ms as i128) * NANOS_PER_MILLI;
        let time_ns: i128 = now_ns - offset;
        let interval = match prev {
            None => SampleInterval::Nominal,
            Some(p) => {
                let gap: i128 = time_ns - p;
                if gap > 0 {
                    SampleInterval::Measured(gap as u128)
                } else {
                    SampleInterval::Nominal
                }
            },
        };
        samples.push(SampleTime { time_ns, interval });
        prev = Some(time_ns);
        i = i + 1;
    }
    (samples, prev)
}

/// Within a batch, every sample after the first sits exactly one report
/// interval after its predecessor, and the last sample carries the read
/// time itself.
pub proof fn lemma_backdated_spacing(now_ns: int, count: int, i: int, interval_ms: int)
    requires
        0 < i < count,
        0 <= interval_ms,
    ensures
        backdated_time(now_ns, count, i, interval_ms) - backdated_time(
            now_ns,
            count,
            i - 1,
            interval_ms,
        ) == interval_ms * 1_000_000,
        backdated_time(now_ns, count, count - 1, interval_ms) == now_ns,
{
    assert((count - 1 - (i - 1)) * interval_ms * 1_000_000 == (count - 1 - i) * interval_ms
        * 1_000_000 + interval_ms * 1_000_000) by (nonlinear_arith);
}

// ------------------------------------------------------------------
// MPU-series FIFO frames
// ------------------------------------------------------------------

/// The number of whole frames of `frame_bytes` bytes in a FIFO holding
/// `fifo_count` bytes.
pub fn complete_fifo_frames(fifo_count: u16, frame_bytes: u16) -> (frames: u16)
    requires
        frame_bytes > 0,
    ensures
        frames == fifo_count / frame_bytes,
{
    fifo_count / frame_bytes
}

/// The signed 16-bit value whose big-endian bytes are `hi`, `lo`.
pub open spec fn be_i16(hi: u8, lo: u8) -> int {
    let u = hi * 256 + lo;
    if u >= 0x8000 {
        u - 0x10000
    } else {
        u
    }
}

/// The high (first) big-endian byte of `v`.
pub open spec fn be_high(v: i16) -> u8 {
    ((if v < 0 { v + 0x10000 } else { v as int }) / 256) as u8
}

/// The low (second) big-endian byte of `v`.
pub open spec fn be_low(v: i16) -> u8 {
    ((if v < 0 { v + 0x10000 } else { v as int }) % 256) as u8
}

/// Decoding the big-endian bytes of a value gives the value back.
pub proof fn lemma_be_i16_round_trip(v: i16)
    ensures
        be_i16(be_high(v), be_low(v)) == v,
{
    let u: int = if v < 0 { v + 0x10000 } else { v as int };
    assert(0 <= u < 0x10000);
    assert(u == (u / 256) * 256 + u % 256) by (nonlinear_arith)
        requires
            0 <= u,
    ;
    assert(0 <= u / 256 < 256) by (nonlinear_arith)
        requires
            0 <= u < 0x10000,
    ;
}

/// Decodes a big-endian signed 16-bit value.
pub fn i16_from_be(hi: u8, lo: u8) -> (v: i16)
    ensures
        v == be_i16(hi, lo),
{
    let u: i32 = (hi as i32) * 256 + (lo as i32);
    if u >= 0x8000 {
        (u - 0x10000) as i16
    } else {
        u as i16
    }
}

/// The raw gyro axes (x, y, z) of one FIFO frame laid out as accelerometer
/// X, Y, Z then gyro X, Y, Z, each two bytes big-endian.
pub fn decode_fifo_gyro(frame: &[u8]) -> (gyro: (i16, i16, i16))
    requires
        frame.len() >= 12,
    ensures
        gyro.0 == be_i16(frame[6], frame[7]),
        gyro.1 == be_i16(frame[8], frame[9]),
        gyro.2 == be_i16(frame[10], frame[11]),
{
    (i16_from_be(frame[6], frame[7]), i16_from_be(frame[8], frame[9]), i16_from_be(frame[10], frame[11]))
}

/// The raw gyro axes of a FIFO frame, as integers.
pub open spec fn frame_gyro(frame: Seq<u8>) -> (int, int, int) {
    (be_i16(frame[6], frame[7]), be_i16(frame[8], frame[9]), be_i16(frame[10], frame[11]))
}

/// The gyro axes of the frames that were read, in order; a failed read
/// (`None`) gives nothing.
pub open spec fn read_gyros(reads: Seq<Option<[u8; 12]>>) -> Seq<(int, int, int)>
    decreases reads.len(),
{
    if reads.len() == 0 {
        Seq::empty()
    } else {
        let earlier = read_gyros(reads.drop_last());
        match reads.last() {
            Some(frame) => earlier.push(frame_gyro(frame@)),
            None => earlier,
        }
    }
}

/// Gyro triples as integers.
pub open spec fn gyro_ints(gyros: Seq<(i16, i16, i16)>) -> Seq<(int, int, int)> {
    gyros.map_values(|g: (i16, i16, i16)| (g.0 as int, g.1 as int, g.2 as int))
}

/// Successive reads with `read`: the `k`-th took the device state
/// `devices[k]`, left `devices[k + 1]` and gave `reads[k]`.
pub open spec fn read_chain<Dv, R: Fn(Dv) -> (Dv, Option<[u8; 12]>)>(
    read: R,
    devices: Seq<Dv>,
    reads: Seq<Option<[u8; 12]>>,
) -> bool {
    &&& devices.len() == reads.len() + 1
    &&& forall|k: int|
        0 <= k < reads.len() ==> #[trigger] call_ensures(read, (devices[k],), (devices[k + 1], reads[k]))
}

/// Reads `frames` FIFO frames one after the other with `read`, which takes
/// the device and hands it back with the frame read, or `None` when the
/// read failed; the gyro axes of each frame read are kept, in order, and a
/// failed read is skipped.
pub fn read_fifo_gyros<Dv, R>(device: Dv, frames: u16, read: R) -> (r: (Dv, Vec<(i16, i16, i16)>))
    where
        R: Fn(Dv) -> (Dv, Option<[u8; 12]>),
    requires
        forall|d: Dv| call_requires(read, (d,)),
    ensures
        exists|devices: Seq<Dv>, reads: Seq<Option<[u8; 12]>>|
            #[trigger] read_chain(read, devices, reads) && reads.len() == frames && devices[0]
                == device && devices.last() == r.0 && gyro_ints(r.1@) == read_gyros(reads),
{
    let mut dev = device;
    let mut gyros: Vec<(i16, i16, i16)> = Vec::new();
    let ghost mut devices: Seq<Dv> = seq![device];
    let ghost mut reads: Seq<Option<[u8; 12]>> = Seq::empty();
    let mut n: u16 = 0;
    while n < frames
        invariant
            forall|d: Dv| call_requires(read, (d,)),
            n <= frames,
            reads.len() == n,
            read_chain(read, devices, reads),
            devices[0] == device,
            devices.last() == dev,
            gyro_ints(gyros@) == read_gyros(reads),
        decreases frames - n,
    {
        let (next, frame) = read(dev);
        proof {
            let old_devices = devices;
            let old_reads = reads;
            devices = devices.push(next);
            reads = reads.push(frame);
            assert(reads.drop_last() == old_reads);
            assert forall|k: int| 0 <= k < reads.len() implies #[trigger] call_ensures(
                read,
                (devices[k],),
                (devices[k + 1], reads[k]),
            ) by {
                if k < old_reads.len() {
                    assert(call_ensures(read, (old_devices[k],), (old_devices[k + 1], old_reads[k])));
                }
            }
        }
        if let Some(buf) = frame {
            let g = decode_fifo_gyro(&buf);
            gyros.push(g);
            proof {
                assert(gyro_ints(gyros@) == gyro_ints(gyros@.drop_last()).push(
                    (g.0 as int, g.1 as int, g.2 as int),
                ));
            }
        }
        dev = next;
        n = n + 1;
    }
    (dev, gyros)
}

/// Upper-case hexadecimal digits.
pub open spec fn hex_digits() -> Seq<char> {
    seq!['0', '1', '2', '3', '4', '5', '6', '7', '8', '9', 'A', 'B', 'C', 'D', 'E', 'F']
}

/// Upper-case hexadecimal notation of `v`, without leading zeros.
pub open spec fn upper_hex(v: nat) -> Seq<char>
    decreases v,
{
    if v < 16 {
        seq![hex_digits()[v as int]]
    } else {
        upper_hex(v / 16) + seq![hex_digits()[(v % 16) as int]]
    }
}

/// Upper-case hexadecimal notation of a byte, without leading zeros.
pub fn upper_hex_u8(v: u8) -> (hex: String)
    ensures
        hex@ == upper_hex(v as nat),
{
    let digits = "0123456789ABCDEF";
    proof {
        reveal_strlit("0123456789ABCDEF");
        assert(digits@ == hex_digits());
    }
    if v < 16 {
        let d: usize = v as usize;
        String::from_str(digits.substring_char(d, d + 1))
    } else {
        let hi: usize = (v / 16) as usize;
        let lo: usize = (v % 16) as usize;
        let mut hex = String::from_str(digits.substring_char(hi, hi + 1));
        hex.append(digits.substring_char(lo, lo + 1));
        proof {
            assert(upper_hex((v / 16) as nat) == seq![hex_digits()[hi as int]]);
        }
        hex
    }
}

/// I2C address of an MPU-series sensor, set by its AD0 pin.
#[derive(Debug, Clone, Copy, PartialEq, Eq, Structural)]
pub enum MpuAddress {
    /// 0x68
    Ad0Low,
    /// 0x69
    Ad0High,
}

/// The AD0 setting for an MPU-series I2C address; only 0x68 and 0x69
/// exist, and any other value is refused with a message naming it in hex.
pub fn mpu_address(address: u8) -> (r: Result<MpuAddress, String>)
    ensures
        address == 0x68 ==> r == Ok::<MpuAddress, String>(MpuAddress::Ad0Low),
        address == 0x69 ==> r == Ok::<MpuAddress, String>(MpuAddress::Ad0High),
        address != 0x68 && address != 0x69 ==> (r matches Err(msg) && msg@
            == "Invalid MPU address: 0x"@ + upper_hex(address as nat)),
{
    if address == 0x68 {
        Ok(MpuAddress::Ad0Low)
    } else if address == 0x69 {
        Ok(MpuAddress::Ad0High)
    } else {
        let mut msg = String::from_str("Invalid MPU address: 0x");
        let hex = upper_hex_u8(address);
        msg.append(hex.as_str());
        Err(msg)
    }
}

/// Each FIFO frame read adds, after those of the earlier reads, its gyro X,
/// Y and Z: the big-endian words at bytes 6-7, 8-9 and 10-11; a failed read
/// adds nothing, and no read gives nothing.
pub proof fn lemma_read_gyros_step(reads: Seq<Option<[u8; 12]>>, frame: [u8; 12])
    ensures
        read_gyros(Seq::empty()) == Seq::<(int, int, int)>::empty(),
        read_gyros(reads.push(Some(frame))) == read_gyros(reads).push(
            (
                be_i16(frame@[6], frame@[7]),
                be_i16(frame@[8], frame@[9]),
                be_i16(frame@[10], frame@[11]),
            ),
        ),
        read_gyros(reads.push(None)) == read_gyros(reads),
        read_gyros(reads.push(Some(frame))).len() == read_gyros(reads).len() + 1,
{
    assert(reads.push(Some(frame)).drop_last() == reads);
    assert(reads.push(None).drop_last() == reads);
}

} // verus!
