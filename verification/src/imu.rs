//! The IMU packet codec: a fixed 48-byte little-endian layout with
//! three timestamps and six 32-bit samples, no bit-packing and no
//! variants.
//!
//! The acceleration and angular-velocity samples are 32-bit wire words
//! carried here as raw bit patterns; interpreting them as
//! floating-point numbers is the caller's concern and happens outside
//! this library's verified core.

use crate::packing::{
    lemma_u32_le_round, lemma_u64_le_round, read_u32_le, read_u64_le, u32_le_bytes, u64_le_bytes,
    u32_le_spec, u64_le_spec, write_u32_le, write_u64_le, PackingError,
};
use vstd::prelude::*;

verus! {

/// How sensor data from the IMU is packaged and sent over the wire.
#[derive(Debug, PartialEq, Eq, Copy, Clone, Structural)]
pub enum Profile {
    /// The only IMU profile.
    Legacy,
}

impl Profile {
    /// The textual name of the profile.
    pub fn display_str(&self) -> (r: &'static str)
        ensures
            r@ == "legacy"@,
    {
        "legacy"
    }
}

impl Default for Profile {
    /// The default IMU profile is the legacy one.
    fn default() -> (r: Self)
        ensures
            r == Profile::Legacy,
    {
        Profile::Legacy
    }
}

/// One decoded IMU packet: three monotonic timestamps, a three-axis
/// acceleration and a three-axis angular velocity.
#[derive(Debug, PartialEq, Eq, Copy, Clone, Structural)]
pub struct Packet {
    /// Monotonic system time since boot, in nanoseconds.
    pub diagnostic_system_time: u64,
    /// Accelerometer timestamp relative to the timestamp mode, in
    /// nanoseconds.
    pub accelerometer_time: u64,
    /// Gyroscope timestamp relative to the timestamp mode, in
    /// nanoseconds.
    pub gyroscope_time: u64,
    /// Raw bits of the measured linear acceleration on the X axis.
    pub linear_acceleration_x: u32,
    /// Raw bits of the measured linear acceleration on the Y axis.
    pub linear_acceleration_y: u32,
    /// Raw bits of the measured linear acceleration on the Z axis.
    pub linear_acceleration_z: u32,
    /// Raw bits of the measured angular velocity on the X axis.
    pub angular_velocity_x: u32,
    /// Raw bits of the measured angular velocity on the Y axis.
    pub angular_velocity_y: u32,
    /// Raw bits of the measured angular velocity on the Z axis.
    pub angular_velocity_z: u32,
}

impl Packet {
    /// Width in bytes of one encoded IMU packet.
    pub const WIDTH: usize = 48;

    /// The three acceleration samples, in axis order.
    pub fn linear_acceleration(&self) -> (r: [u32; 3])
        ensures
            r@ == seq![
                self.linear_acceleration_x,
                self.linear_acceleration_y,
                self.linear_acceleration_z,
            ],
    {
        let r = [self.linear_acceleration_x, self.linear_acceleration_y, self.linear_acceleration_z];
        proof {
            assert(r@ =~= seq![
                self.linear_acceleration_x,
                self.linear_acceleration_y,
                self.linear_acceleration_z,
            ]);
        }
        r
    }

    /// The three angular-velocity samples, in axis order.
    pub fn angular_velocity(&self) -> (r: [u32; 3])
        ensures
            r@ == seq![
                self.angular_velocity_x,
                self.angular_velocity_y,
                self.angular_velocity_z,
            ],
    {
        let r = [self.angular_velocity_x, self.angular_velocity_y, self.angular_velocity_z];
        proof {
            assert(r@ =~= seq![
                self.angular_velocity_x,
                self.angular_velocity_y,
                self.angular_velocity_z,
            ]);
        }
        r
    }

    /// The 48 bytes of the encoded packet: the three timestamps, the
    /// acceleration samples and the angular-velocity samples, in fixed
    /// order, each little-endian.
    pub open spec fn wire_spec(self) -> Seq<u8> {
        u64_le_bytes(self.diagnostic_system_time) + u64_le_bytes(self.accelerometer_time)
            + u64_le_bytes(self.gyroscope_time) + u32_le_bytes(self.linear_acceleration_x)
            + u32_le_bytes(self.linear_acceleration_y) + u32_le_bytes(self.linear_acceleration_z)
            + u32_le_bytes(self.angular_velocity_x) + u32_le_bytes(self.angular_velocity_y)
            + u32_le_bytes(self.angular_velocity_z)
    }

    /// The packet stored in the 48 bytes of `s`.
    pub open spec fn packet_of(s: Seq<u8>) -> Self
        recommends
            s.len() == 48,
    {
        Packet {
            diagnostic_system_time: u64_le_spec(s.subrange(0, 8)),
            accelerometer_time: u64_le_spec(s.subrange(8, 16)),
            gyroscope_time: u64_le_spec(s.subrange(16, 24)),
            linear_acceleration_x: u32_le_spec(s.subrange(24, 28)),
            linear_acceleration_y: u32_le_spec(s.subrange(28, 32)),
            linear_acceleration_z: u32_le_spec(s.subrange(32, 36)),
            angular_velocity_x: u32_le_spec(s.subrange(36, 40)),
            angular_velocity_y: u32_le_spec(s.subrange(40, 44)),
            angular_velocity_z: u32_le_spec(s.subrange(44, 48)),
        }
    }

    /// Decode the packet stored in the 48 bytes of `b` starting at
    /// `off`.  Rejects exactly the buffers too short for the packet.
    pub fn decode(b: &[u8], off: usize) -> (r: Result<Self, PackingError>)
        ensures
            off + 48 <= b@.len() ==> r == Ok::<Self, PackingError>(
                Self::packet_of(b@.subrange(off as int, off + 48)),
            ),
            off + 48 > b@.len() ==> r == Err::<Self, PackingError>(PackingError::TruncatedInput),
    {
        let n = b.len();
        if n < 48 || off > n - 48 {
            return Err(PackingError::TruncatedInput);
        }
        let diagnostic_system_time = read_u64_le(b, off);
        let accelerometer_time = read_u64_le(b, off + 8);
        let gyroscope_time = read_u64_le(b, off + 16);
        let linear_acceleration_x = read_u32_le(b, off + 24);
        let linear_acceleration_y = read_u32_le(b, off + 28);
        let linear_acceleration_z = read_u32_le(b, off + 32);
        let angular_velocity_x = read_u32_le(b, off + 36);
        let angular_velocity_y = read_u32_le(b, off + 40);
        let angular_velocity_z = read_u32_le(b, off + 44);
        proof {
            let s = b@.subrange(off as int, off + 48);
            assert(b@.subrange(off as int, off + 8) =~= s.subrange(0, 8));
            assert(b@.subrange(off + 8, off + 16) =~= s.subrange(8, 16));
            assert(b@.subrange(off + 16, off + 24) =~= s.subrange(16, 24));
            assert(b@.subrange(off + 24, off + 28) =~= s.subrange(24, 28));
            assert(b@.subrange(off + 28, off + 32) =~= s.subrange(28, 32));
            assert(b@.subrange(off + 32, off + 36) =~= s.subrange(32, 36));
            assert(b@.subrange(off + 36, off + 40) =~= s.subrange(36, 40));
            assert(b@.subrange(off + 40, off + 44) =~= s.subrange(40, 44));
            assert(b@.subrange(off + 44, off + 48) =~= s.subrange(44, 48));
        }
        Ok(
            Packet {
                diagnostic_system_time,
                accelerometer_time,
                gyroscope_time,
                linear_acceleration_x,
                linear_acceleration_y,
                linear_acceleration_z,
                angular_velocity_x,
                angular_velocity_y,
                angular_velocity_z,
            },
        )
    }

    /// Encode the packet into a fresh 48-byte buffer.  Every packet
    /// value encodes; there is no failure case.
    pub fn encode(&self) -> (r: Vec<u8>)
        ensures
            r@ == self.wire_spec(),
    {
        let mut bytes: Vec<u8> = vec![0u8; 48];
        write_u64_le(&mut bytes, 0, self.diagnostic_system_time);
        write_u64_le(&mut bytes, 8, self.accelerometer_time);
        write_u64_le(&mut bytes, 16, self.gyroscope_time);
        write_u32_le(&mut bytes, 24, self.linear_acceleration_x);
        write_u32_le(&mut bytes, 28, self.linear_acceleration_y);
        write_u32_le(&mut bytes, 32, self.linear_acceleration_z);
        write_u32_le(&mut bytes, 36, self.angular_velocity_x);
        write_u32_le(&mut bytes, 40, self.angular_velocity_y);
        write_u32_le(&mut bytes, 44, self.angular_velocity_z);
        proof {
            assert(bytes@ =~= self.wire_spec());
        }
        bytes
    }

    /// Law: decoding an encoded IMU packet recovers it exactly.
    pub proof fn lemma_round_trip(p: Packet)
        ensures
            Self::packet_of(p.wire_spec()) == p,
    {
        let w = p.wire_spec();
        assert(w.subrange(0, 8) =~= u64_le_bytes(p.diagnostic_system_time));
        assert(w.subrange(8, 16) =~= u64_le_bytes(p.accelerometer_time));
        assert(w.subrange(16, 24) =~= u64_le_bytes(p.gyroscope_time));
        assert(w.subrange(24, 28) =~= u32_le_bytes(p.linear_acceleration_x));
        assert(w.subrange(28, 32) =~= u32_le_bytes(p.linear_acceleration_y));
        assert(w.subrange(32, 36) =~= u32_le_bytes(p.linear_acceleration_z));
        assert(w.subrange(36, 40) =~= u32_le_bytes(p.angular_velocity_x));
        assert(w.subrange(40, 44) =~= u32_le_bytes(p.angular_velocity_y));
        assert(w.subrange(44, 48) =~= u32_le_bytes(p.angular_velocity_z));
        lemma_u64_le_round(p.diagnostic_system_time);
        lemma_u64_le_round(p.accelerometer_time);
        lemma_u64_le_round(p.gyroscope_time);
        lemma_u32_le_round(p.linear_acceleration_x);
        lemma_u32_le_round(p.linear_acceleration_y);
        lemma_u32_le_round(p.linear_acceleration_z);
        lemma_u32_le_round(p.angular_velocity_x);
        lemma_u32_le_round(p.angular_velocity_y);
        lemma_u32_le_round(p.angular_velocity_z);
    }
}

impl Default for Packet {
    /// The all-zero packet.
    fn default() -> (r: Self)
        ensures
            r == (Packet {
                diagnostic_system_time: 0,
                accelerometer_time: 0,
                gyroscope_time: 0,
                linear_acceleration_x: 0,
                linear_acceleration_y: 0,
                linear_acceleration_z: 0,
                angular_velocity_x: 0,
                angular_velocity_y: 0,
                angular_velocity_z: 0,
            }),
    {
        Packet {
            diagnostic_system_time: 0,
            accelerometer_time: 0,
            gyroscope_time: 0,
            linear_acceleration_x: 0,
            linear_acceleration_y: 0,
            linear_acceleration_z: 0,
            angular_velocity_x: 0,
            angular_velocity_y: 0,
            angular_velocity_z: 0,
        }
    }
}

} // verus!
