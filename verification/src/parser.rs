//! The Forza "Car Dash" packet: a little-endian record of at least 311 bytes,
//! optionally followed by four tire-wear values.
//!
//! Every `f32` field of the packet is kept as its bit pattern (a `u32`, what
//! `f32::from_bits` turns back into the number); the integer fields are kept as
//! they are.
use crate::bytes::{i32_le, read_i32_le, read_u16_le, read_u32_le, u16_le, u32_le};
use vstd::prelude::*;

verus! {

/// The shortest packet that carries every Dash field.
pub const DASH_PACKET_LEN: usize = 311;

/// Why a buffer is not a telemetry packet.
#[derive(Debug, Clone, Copy, PartialEq, Eq)]
pub enum ParseError {
    /// The packet is shorter than [`DASH_PACKET_LEN`]; holds its length.
    TooShort(usize),
    /// A read ran past the end of the buffer.
    Io,
}

/// One decoded Dash packet. Fields documented as bits hold the bit pattern of
/// an `f32`.
#[derive(Debug, Clone, PartialEq, Eq)]
pub struct TelemetryPacket {
    pub is_race_on: bool,
    pub timestamp_ms: u32,
    /// bits
    pub engine_max_rpm: u32,
    /// bits
    pub engine_idle_rpm: u32,
    /// bits
    pub current_engine_rpm: u32,
    /// bits
    pub accel_x: u32,
    /// bits
    pub accel_y: u32,
    /// bits
    pub accel_z: u32,
    /// bits
    pub vel_x: u32,
    /// bits
    pub vel_y: u32,
    /// bits
    pub vel_z: u32,
    /// bits
    pub tire_slip_ratio_fl: u32,
    /// bits
    pub tire_slip_ratio_fr: u32,
    /// bits
    pub tire_slip_ratio_rl: u32,
    /// bits
    pub tire_slip_ratio_rr: u32,
    /// bits
    pub tire_slip_angle_fl: u32,
    /// bits
    pub tire_slip_angle_fr: u32,
    /// bits
    pub tire_slip_angle_rl: u32,
    /// bits
    pub tire_slip_angle_rr: u32,
    pub car_ordinal: i32,
    pub car_class: i32,
    pub car_pi: i32,
    pub drivetrain_type: i32,
    /// bits
    pub speed_ms: u32,
    /// bits
    pub power: u32,
    /// bits
    pub torque: u32,
    /// bits
    pub tire_temp_fl: u32,
    /// bits
    pub tire_temp_fr: u32,
    /// bits
    pub tire_temp_rl: u32,
    /// bits
    pub tire_temp_rr: u32,
    /// bits
    pub boost: u32,
    /// bits
    pub fuel: u32,
    /// bits
    pub distance_traveled: u32,
    /// bits
    pub best_lap: u32,
    /// bits
    pub last_lap: u32,
    /// bits
    pub current_lap: u32,
    /// bits
    pub current_race_time: u32,
    pub lap_number: u16,
    pub race_position: u8,
    pub throttle: u8,
    pub brake: u8,
    pub clutch: u8,
    pub handbrake: u8,
    pub gear: u8,
    /// bits
    pub tire_wear_fl: Option<u32>,
    /// bits
    pub tire_wear_fr: Option<u32>,
    /// bits
    pub tire_wear_rl: Option<u32>,
    /// bits
    pub tire_wear_rr: Option<u32>,
}

/// The four bytes at `off`, when the buffer reaches that far.
pub open spec fn optional_u32_le(b: Seq<u8>, off: int) -> Option<u32> {
    if b.len() >= off + 4 {
        Some(u32_le(b, off))
    } else {
        None
    }
}

/// The packet that a buffer of at least 311 bytes holds, field by field at its
/// byte offset.
pub open spec fn packet_layout(b: Seq<u8>) -> TelemetryPacket {
    TelemetryPacket {
        // Sled part, bytes 0..232
        is_race_on: i32_le(b, 0) != 0,
        timestamp_ms: u32_le(b, 4),
        engine_max_rpm: u32_le(b, 8),
        engine_idle_rpm: u32_le(b, 12),
        current_engine_rpm: u32_le(b, 16),
        accel_x: u32_le(b, 20),
        accel_y: u32_le(b, 24),
        accel_z: u32_le(b, 28),
        vel_x: u32_le(b, 32),
        vel_y: u32_le(b, 36),
        vel_z: u32_le(b, 40),
        // 44..84: angular velocity, yaw/pitch/roll, normalized suspension travel
        tire_slip_ratio_fl: u32_le(b, 84),
        tire_slip_ratio_fr: u32_le(b, 88),
        tire_slip_ratio_rl: u32_le(b, 92),
        tire_slip_ratio_rr: u32_le(b, 96),
        // 100..164: wheel rotation, rumble strip, puddle depth, surface rumble
        tire_slip_angle_fl: u32_le(b, 164),
        tire_slip_angle_fr: u32_le(b, 168),
        tire_slip_angle_rl: u32_le(b, 172),
        tire_slip_angle_rr: u32_le(b, 176),
        // 180..212: combined slip, suspension travel in meters
        car_ordinal: i32_le(b, 212),
        car_class: i32_le(b, 216),
        car_pi: i32_le(b, 220),
        drivetrain_type: i32_le(b, 224),
        // 228: number of cylinders; Dash part from 232, 232..244: position
        speed_ms: u32_le(b, 244),
        power: u32_le(b, 248),
        torque: u32_le(b, 252),
        tire_temp_fl: u32_le(b, 256),
        tire_temp_fr: u32_le(b, 260),
        tire_temp_rl: u32_le(b, 264),
        tire_temp_rr: u32_le(b, 268),
        boost: u32_le(b, 272),
        fuel: u32_le(b, 276),
        distance_traveled: u32_le(b, 280),
        best_lap: u32_le(b, 284),
        last_lap: u32_le(b, 288),
        current_lap: u32_le(b, 292),
        current_race_time: u32_le(b, 296),
        lap_number: u16_le(b, 300),
        race_position: b[302],
        throttle: b[303],
        brake: b[304],
        clutch: b[305],
        handbrake: b[306],
        gear: b[307],
        // 308..311: steering, driving line, AI brake difference
        tire_wear_fl: optional_u32_le(b, 311),
        tire_wear_fr: optional_u32_le(b, 315),
        tire_wear_rl: optional_u32_le(b, 319),
        tire_wear_rr: optional_u32_le(b, 323),
    }
}

/// What [`parse`] makes of a buffer.
pub open spec fn parsed(b: Seq<u8>) -> Result<TelemetryPacket, ParseError> {
    if b.len() < DASH_PACKET_LEN {
        Err(ParseError::TooShort(b.len() as usize))
    } else {
        Ok(packet_layout(b))
    }
}

/// Which bytes each field comes from. A buffer shorter than 311 bytes is
/// refused with its length; any other buffer decodes, with each field read at
/// its fixed offset in the Dash format: words little-endian, the sled part
/// first (race-on flag at 0, timestamp at 4, engine at 8..20, acceleration
/// X/Y/Z at 20..32, velocity X/Y/Z at 32..44, tire slip ratios FL/FR/RL/RR at
/// 84..100, slip angles FL/FR/RL/RR at 164..180, car ordinal, class, PI and
/// drivetrain at 212..228), then the dash part (speed at 244, power, torque,
/// tire temperatures FL/FR/RL/RR at 256..272, boost, fuel, distance, best,
/// last and current lap, race time at 296, lap number at 300, race position
/// and the six input bytes at 302..308), and each tire wear FL/FR/RL/RR from
/// 311 when the buffer holds its four bytes.
pub proof fn lemma_dash_field_offsets(b: Seq<u8>)
    ensures
        b.len() < DASH_PACKET_LEN ==> parsed(b) == Err::<TelemetryPacket, ParseError>(
            ParseError::TooShort(b.len() as usize),
        ),
        b.len() >= DASH_PACKET_LEN ==> parsed(b) is Ok,
        b.len() >= DASH_PACKET_LEN ==> parsed(b)->Ok_0.is_race_on == (i32_le(b, 0) != 0),
        b.len() >= DASH_PACKET_LEN ==> parsed(b)->Ok_0.timestamp_ms == u32_le(b, 4),
        b.len() >= DASH_PACKET_LEN ==> parsed(b)->Ok_0.engine_max_rpm == u32_le(b, 8),
        b.len() >= DASH_PACKET_LEN ==> parsed(b)->Ok_0.engine_idle_rpm == u32_le(b, 12),
        b.len() >= DASH_PACKET_LEN ==> parsed(b)->Ok_0.current_engine_rpm == u32_le(b, 16),
        b.len() >= DASH_PACKET_LEN ==> parsed(b)->Ok_0.accel_x == u32_le(b, 20),
        b.len() >= DASH_PACKET_LEN ==> parsed(b)->Ok_0.accel_y == u32_le(b, 24),
        b.len() >= DASH_PACKET_LEN ==> parsed(b)->Ok_0.accel_z == u32_le(b, 28),
        b.len() >= DASH_PACKET_LEN ==> parsed(b)->Ok_0.vel_x == u32_le(b, 32),
        b.len() >= DASH_PACKET_LEN ==> parsed(b)->Ok_0.vel_y == u32_le(b, 36),
        b.len() >= DASH_PACKET_LEN ==> parsed(b)->Ok_0.vel_z == u32_le(b, 40),
        b.len() >= DASH_PACKET_LEN ==> parsed(b)->Ok_0.tire_slip_ratio_fl == u32_le(b, 84),
        b.len() >= DASH_PACKET_LEN ==> parsed(b)->Ok_0.tire_slip_ratio_fr == u32_le(b, 88),
        b.len() >= DASH_PACKET_LEN ==> parsed(b)->Ok_0.tire_slip_ratio_rl == u32_le(b, 92),
        b.len() >= DASH_PACKET_LEN ==> parsed(b)->Ok_0.tire_slip_ratio_rr == u32_le(b, 96),
        b.len() >= DASH_PACKET_LEN ==> parsed(b)->Ok_0.tire_slip_angle_fl == u32_le(b, 164),
        b.len() >= DASH_PACKET_LEN ==> parsed(b)->Ok_0.tire_slip_angle_fr == u32_le(b, 168),
        b.len() >= DASH_PACKET_LEN ==> parsed(b)->Ok_0.tire_slip_angle_rl == u32_le(b, 172),
        b.len() >= DASH_PACKET_LEN ==> parsed(b)->Ok_0.tire_slip_angle_rr == u32_le(b, 176),
        b.len() >= DASH_PACKET_LEN ==> parsed(b)->Ok_0.car_ordinal == i32_le(b, 212),
        b.len() >= DASH_PACKET_LEN ==> parsed(b)->Ok_0.car_class == i32_le(b, 216),
        b.len() >= DASH_PACKET_LEN ==> parsed(b)->Ok_0.car_pi == i32_le(b, 220),
        b.len() >= DASH_PACKET_LEN ==> parsed(b)->Ok_0.drivetrain_type == i32_le(b, 224),
        b.len() >= DASH_PACKET_LEN ==> parsed(b)->Ok_0.speed_ms == u32_le(b, 244),
        b.len() >= DASH_PACKET_LEN ==> parsed(b)->Ok_0.power == u32_le(b, 248),
        b.len() >= DASH_PACKET_LEN ==> parsed(b)->Ok_0.torque == u32_le(b, 252),
        b.len() >= DASH_PACKET_LEN ==> parsed(b)->Ok_0.tire_temp_fl == u32_le(b, 256),
        b.len() >= DASH_PACKET_LEN ==> parsed(b)->Ok_0.tire_temp_fr == u32_le(b, 260),
        b.len() >= DASH_PACKET_LEN ==> parsed(b)->Ok_0.tire_temp_rl == u32_le(b, 264),
        b.len() >= DASH_PACKET_LEN ==> parsed(b)->Ok_0.tire_temp_rr == u32_le(b, 268),
        b.len() >= DASH_PACKET_LEN ==> parsed(b)->Ok_0.boost == u32_le(b, 272),
        b.len() >= DASH_PACKET_LEN ==> parsed(b)->Ok_0.fuel == u32_le(b, 276),
        b.len() >= DASH_PACKET_LEN ==> parsed(b)->Ok_0.distance_traveled == u32_le(b, 280),
        b.len() >= DASH_PACKET_LEN ==> parsed(b)->Ok_0.best_lap == u32_le(b, 284),
        b.len() >= DASH_PACKET_LEN ==> parsed(b)->Ok_0.last_lap == u32_le(b, 288),
        b.len() >= DASH_PACKET_LEN ==> parsed(b)->Ok_0.current_lap == u32_le(b, 292),
        b.len() >= DASH_PACKET_LEN ==> parsed(b)->Ok_0.current_race_time == u32_le(b, 296),
        b.len() >= DASH_PACKET_LEN ==> parsed(b)->Ok_0.lap_number == u16_le(b, 300),
        b.len() >= DASH_PACKET_LEN ==> parsed(b)->Ok_0.race_position == b[302],
        b.len() >= DASH_PACKET_LEN ==> parsed(b)->Ok_0.throttle == b[303],
        b.len() >= DASH_PACKET_LEN ==> parsed(b)->Ok_0.brake == b[304],
        b.len() >= DASH_PACKET_LEN ==> parsed(b)->Ok_0.clutch == b[305],
        b.len() >= DASH_PACKET_LEN ==> parsed(b)->Ok_0.handbrake == b[306],
        b.len() >= DASH_PACKET_LEN ==> parsed(b)->Ok_0.gear == b[307],
        b.len() >= DASH_PACKET_LEN ==> parsed(b)->Ok_0.tire_wear_fl == optional_u32_le(b, 311),
        b.len() >= DASH_PACKET_LEN ==> parsed(b)->Ok_0.tire_wear_fr == optional_u32_le(b, 315),
        b.len() >= DASH_PACKET_LEN ==> parsed(b)->Ok_0.tire_wear_rl == optional_u32_le(b, 319),
        b.len() >= DASH_PACKET_LEN ==> parsed(b)->Ok_0.tire_wear_rr == optional_u32_le(b, 323),
{
}

/// Bytes past the last tire-wear value are ignored: a packet of at least 327
/// bytes parses the same with anything appended.
pub proof fn lemma_trailing_bytes_ignored(b: Seq<u8>, extra: Seq<u8>)
    requires
        b.len() >= 327,
    ensures
        parsed(b + extra) == parsed(b),
{
    let c = b + extra;
    assert forall|i: int| 0 <= i < b.len() implies c[i] == b[i] by {}
    assert(packet_layout(c) == packet_layout(b));
}

/// A packet's fields before the tire wear come from its first 311 bytes alone.
pub proof fn lemma_dash_fields_from_prefix(b: Seq<u8>)
    requires
        b.len() >= DASH_PACKET_LEN,
    ensures
        parsed(b) == Ok::<TelemetryPacket, ParseError>(
            TelemetryPacket {
                tire_wear_fl: optional_u32_le(b, 311),
                tire_wear_fr: optional_u32_le(b, 315),
                tire_wear_rl: optional_u32_le(b, 319),
                tire_wear_rr: optional_u32_le(b, 323),
                ..packet_layout(b.take(311))
            },
        ),
{
    let p = b.take(311);
    assert forall|i: int| 0 <= i < 311 implies p[i] == b[i] by {}
    assert(packet_layout(b) == TelemetryPacket {
        tire_wear_fl: optional_u32_le(b, 311),
        tire_wear_fr: optional_u32_le(b, 315),
        tire_wear_rl: optional_u32_le(b, 319),
        tire_wear_rr: optional_u32_le(b, 323),
        ..packet_layout(p)
    });
}

/// A read position in a byte buffer.
pub struct PacketCursor<'a> {
    buf: &'a [u8],
    pos: usize,
}

impl<'a> PacketCursor<'a> {
    #[verifier::type_invariant]
    spec fn in_bounds(self) -> bool {
        self.pos <= self.buf@.len()
    }

    /// The bytes being read.
    pub closed spec fn data(self) -> Seq<u8> {
        self.buf@
    }

    /// How many bytes were read so far.
    pub closed spec fn position(self) -> nat {
        self.pos as nat
    }

    /// A cursor at the start of `buf`.
    pub fn new(buf: &'a [u8]) -> (r: Self)
        ensures
            r.data() == buf@,
            r.position() == 0,
    {
        PacketCursor { buf, pos: 0 }
    }

    /// How many bytes were read so far.
    pub fn pos(&self) -> (r: usize)
        ensures
            r == self.position(),
            r <= self.data().len(),
    {
        proof {
            use_type_invariant(self);
        }
        self.pos
    }

    /// The next `n` bytes, read past. When fewer remain, the cursor moves to
    /// the end and the read fails.
    fn take(&mut self, n: usize) -> (r: Result<&'a [u8], ParseError>)
        ensures
            final(self).data() == old(self).data(),
            old(self).position() + n <= old(self).data().len() ==> {
                &&& r is Ok
                &&& r->Ok_0@ == old(self).data().subrange(
                    old(self).position() as int,
                    old(self).position() + n,
                )
                &&& final(self).position() == old(self).position() + n
            },
            old(self).position() + n > old(self).data().len() ==> {
                &&& r == Err::<&'a [u8], ParseError>(ParseError::Io)
                &&& final(self).position() == old(self).data().len()
            },
    {
        proof {
            use_type_invariant(&*self);
        }
        let remaining = self.buf.len() - self.pos;
        if n <= remaining {
            let start = self.pos;
            let out = &self.buf[start..start + n];
            self.pos = start + n;
            Ok(out)
        } else {
            self.pos = self.buf.len();
            Err(ParseError::Io)
        }
    }

    /// Reads one byte.
    pub fn read_u8(&mut self) -> (r: Result<u8, ParseError>)
        ensures
            final(self).data() == old(self).data(),
            old(self).position() + 1 <= old(self).data().len() ==> {
                &&& r == Ok::<u8, ParseError>(old(self).data()[old(self).position() as int])
                &&& final(self).position() == old(self).position() + 1
            },
            old(self).position() + 1 > old(self).data().len() ==> {
                &&& r == Err::<u8, ParseError>(ParseError::Io)
                &&& final(self).position() == old(self).data().len()
            },
    {
        let b = self.take(1)?;
        Ok(b[0])
    }

    /// Reads a little-endian `u16`.
    pub fn read_u16_le(&mut self) -> (r: Result<u16, ParseError>)
        ensures
            final(self).data() == old(self).data(),
            old(self).position() + 2 <= old(self).data().len() ==> {
                &&& r == Ok::<u16, ParseError>(
                    u16_le(old(self).data(), old(self).position() as int),
                )
                &&& final(self).position() == old(self).position() + 2
            },
            old(self).position() + 2 > old(self).data().len() ==> {
                &&& r == Err::<u16, ParseError>(ParseError::Io)
                &&& final(self).position() == old(self).data().len()
            },
    {
        let b = self.take(2)?;
        Ok(read_u16_le(b))
    }

    /// Reads a little-endian `u32`.
    pub fn read_u32_le(&mut self) -> (r: Result<u32, ParseError>)
        ensures
            final(self).data() == old(self).data(),
            old(self).position() + 4 <= old(self).data().len() ==> {
                &&& r == Ok::<u32, ParseError>(
                    u32_le(old(self).data(), old(self).position() as int),
                )
                &&& final(self).position() == old(self).position() + 4
            },
            old(self).position() + 4 > old(self).data().len() ==> {
                &&& r == Err::<u32, ParseError>(ParseError::Io)
                &&& final(self).position() == old(self).data().len()
            },
    {
        let b = self.take(4)?;
        Ok(read_u32_le(b))
    }

    /// Reads a little-endian two's-complement `i32`.
    pub fn read_i32_le(&mut self) -> (r: Result<i32, ParseError>)
        ensures
            final(self).data() == old(self).data(),
            old(self).position() + 4 <= old(self).data().len() ==> {
                &&& r == Ok::<i32, ParseError>(
                    i32_le(old(self).data(), old(self).position() as int),
                )
                &&& final(self).position() == old(self).position() + 4
            },
            old(self).position() + 4 > old(self).data().len() ==> {
                &&& r == Err::<i32, ParseError>(ParseError::Io)
                &&& final(self).position() == old(self).data().len()
            },
    {
        let b = self.take(4)?;
        Ok(read_i32_le(b))
    }
}

/// Skips `count` four-byte fields. When fewer bytes remain, the cursor moves
/// to the end and the skip fails.
pub fn skip(c: &mut PacketCursor, count: usize) -> (r: Result<(), ParseError>)
    requires
        count * 4 <= usize::MAX,
    ensures
        final(c).data() == old(c).data(),
        old(c).position() + count * 4 <= old(c).data().len() ==> {
            &&& r is Ok
            &&& final(c).position() == old(c).position() + count * 4
        },
        old(c).position() + count * 4 > old(c).data().len() ==> {
            &&& r == Err::<(), ParseError>(ParseError::Io)
            &&& final(c).position() == old(c).data().len()
        },
{
    c.take(count * 4)?;
    Ok(())
}

/// Decodes a Dash packet. Buffers shorter than 311 bytes are refused with
/// their length; from 315, 319, 323 and 327 bytes on, the four tire-wear
/// values are present in turn.
pub fn parse(buf: &[u8]) -> (r: Result<TelemetryPacket, ParseError>)
    ensures
        r == parsed(buf@),
{
    if buf.len() < DASH_PACKET_LEN {
        return Err(ParseError::TooShort(buf.len()));
    }
    let mut c = PacketCursor::new(buf);

    // Sled fields (bytes 0..232)
    let is_race_on = c.read_i32_le()? != 0;
    let timestamp_ms = c.read_u32_le()?;
    let engine_max_rpm = c.read_u32_le()?;
    let engine_idle_rpm = c.read_u32_le()?;
    let current_engine_rpm = c.read_u32_le()?;
    let accel_x = c.read_u32_le()?;
    let accel_y = c.read_u32_le()?;
    let accel_z = c.read_u32_le()?;
    let vel_x = c.read_u32_le()?;
    let vel_y = c.read_u32_le()?;
    let vel_z = c.read_u32_le()?;
    skip(&mut c, 3)?;  // AngularVelocity X/Y/Z
    skip(&mut c, 3)?;  // Yaw/Pitch/Roll
    skip(&mut c, 4)?;  // NormalizedSuspensionTravel FL/FR/RL/RR
    let tire_slip_ratio_fl = c.read_u32_le()?;
    let tire_slip_ratio_fr = c.read_u32_le()?;
    let tire_slip_ratio_rl = c.read_u32_le()?;
    let tire_slip_ratio_rr = c.read_u32_le()?;
    skip(&mut c, 4)?;  // WheelRotationSpeed
    skip(&mut c, 4)?;  // WheelOnRumbleStrip
    skip(&mut c, 4)?;  // WheelInPuddleDepth
    skip(&mut c, 4)?;  // SurfaceRumble
    let tire_slip_angle_fl = c.read_u32_le()?;
    let tire_slip_angle_fr = c.read_u32_le()?;
    let tire_slip_angle_rl = c.read_u32_le()?;
    let tire_slip_angle_rr = c.read_u32_le()?;
    skip(&mut c, 4)?;  // TireCombinedSlip
    skip(&mut c, 4)?;  // SuspensionTravelMeters
    let car_ordinal = c.read_i32_le()?;
    let car_class = c.read_i32_le()?;
    let car_pi = c.read_i32_le()?;
    let drivetrain_type = c.read_i32_le()?;
    let _num_cylinders = c.read_i32_le()?;

    // Dash-only fields (bytes 232..311)
    skip(&mut c, 3)?;  // Position X/Y/Z
    let speed_ms = c.read_u32_le()?;
    let power = c.read_u32_le()?;
    let torque = c.read_u32_le()?;
    let tire_temp_fl = c.read_u32_le()?;
    let tire_temp_fr = c.read_u32_le()?;
    let tire_temp_rl = c.read_u32_le()?;
    let tire_temp_rr = c.read_u32_le()?;
    let boost = c.read_u32_le()?;
    let fuel = c.read_u32_le()?;
    let distance_traveled = c.read_u32_le()?;
    let best_lap = c.read_u32_le()?;
    let last_lap = c.read_u32_le()?;
    let current_lap = c.read_u32_le()?;
    let current_race_time = c.read_u32_le()?;
    let lap_number = c.read_u16_le()?;
    let race_position = c.read_u8()?;
    let throttle = c.read_u8()?;
    let brake = c.read_u8()?;
    let clutch = c.read_u8()?;
    let handbrake = c.read_u8()?;
    let gear = c.read_u8()?;
    let _steer = c.read_u8()?;
    let _driving_line = c.read_u8()?;
    let _ai_brake_diff = c.read_u8()?;
    // Now at byte 311

    // Optional tire wear (bytes 311..327)
    let tire_wear_fl = if buf.len() >= 315 { Some(c.read_u32_le()?) } else { None };
    let tire_wear_fr = if buf.len() >= 319 { Some(c.read_u32_le()?) } else { None };
    let tire_wear_rl = if buf.len() >= 323 { Some(c.read_u32_le()?) } else { None };
    let tire_wear_rr = if buf.len() >= 327 { Some(c.read_u32_le()?) } else { None };

    Ok(TelemetryPacket {
        is_race_on,
        timestamp_ms,
        engine_max_rpm,
        engine_idle_rpm,
        current_engine_rpm,
        accel_x,
        accel_y,
        accel_z,
        vel_x,
        vel_y,
        vel_z,
        tire_slip_ratio_fl,
        tire_slip_ratio_fr,
        tire_slip_ratio_rl,
        tire_slip_ratio_rr,
        tire_slip_angle_fl,
        tire_slip_angle_fr,
        tire_slip_angle_rl,
        tire_slip_angle_rr,
        car_ordinal,
        car_class,
        car_pi,
        drivetrain_type,
        speed_ms,
        power,
        torque,
        tire_temp_fl,
        tire_temp_fr,
        tire_temp_rl,
        tire_temp_rr,
        boost,
        fuel,
        distance_traveled,
        best_lap,
        last_lap,
        current_lap,
        current_race_time,
        lap_number,
        race_position,
        throttle,
        brake,
        clutch,
        handbrake,
        gear,
        tire_wear_fl,
        tire_wear_fr,
        tire_wear_rl,
        tire_wear_rr,
    })
}

} // verus!
