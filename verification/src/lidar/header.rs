//! Leaf fields of the configurable data packet header: the packet-type
//! tag, the sensor identity word, the shot-limiting/thermal-shutdown
//! status byte and the alert flags byte.

use crate::packing::PackingError;
use crate::types::{ShotLimitingStatus, ThermalShutdownStatus};
use vstd::prelude::*;

verus! {

/// Identifies LIDAR data against other packets in a stream.
#[derive(Debug, PartialEq, Eq, Copy, Clone, Structural)]
pub enum PacketType {
    /// A LIDAR data packet; its wire value is one.
    LidarData,
}

impl PacketType {
    /// The wire value of the tag.
    pub fn to_u8(&self) -> (r: u8)
        ensures
            r == 1,
    {
        1
    }

    /// Decode a wire value; only the value one names a packet type.
    pub fn from_u8(v: u8) -> (r: Option<PacketType>)
        ensures
            v == 1 ==> r == Some(PacketType::LidarData),
            v != 1 ==> r is None,
    {
        if v == 1 {
            Some(PacketType::LidarData)
        } else {
            None
        }
    }

    /// The textual name of the tag.
    pub fn display_str(&self) -> (r: &'static str)
        ensures
            r@ == "LIDAR data"@,
    {
        "LIDAR data"
    }
}

impl Default for PacketType {
    /// The default tag names LIDAR data.
    fn default() -> (r: Self)
        ensures
            r == PacketType::LidarData,
    {
        PacketType::LidarData
    }
}

/// The header's sensor identity: initialization id and serial number,
/// packed into one 64-bit word with the id in the top 24 bits.
#[derive(Debug, PartialEq, Eq, Copy, Clone, Structural)]
pub struct SensorInfo {
    /// Updated on every reinitialization and reboot; 24 bits.
    pub initialization_id: u32,
    /// The sensor's unique serial number; 40 bits.
    pub serial_number: u64,
}

impl SensorInfo {
    /// Construct a sensor identity from its fields.
    pub fn new(initialization_id: u32, serial_number: u64) -> (r: Self)
        ensures
            r == (SensorInfo { initialization_id, serial_number }),
    {
        SensorInfo { initialization_id, serial_number }
    }

    /// The identity packed in `raw`: the initialization id in the top
    /// 24 bits, the serial number in the low 40.
    pub open spec fn from_raw_spec(raw: u64) -> SensorInfo {
        SensorInfo {
            initialization_id: (raw / 0x100_0000_0000) as u32,
            serial_number: (raw % 0x100_0000_0000) as u64,
        }
    }

    /// Unpack an identity word.
    pub fn from_raw(raw: u64) -> (r: Self)
        ensures
            r == Self::from_raw_spec(raw),
    {
        SensorInfo {
            initialization_id: (raw / 0x100_0000_0000) as u32,
            serial_number: raw % 0x100_0000_0000,
        }
    }
}

impl Default for SensorInfo {
    /// The all-zero identity.
    fn default() -> (r: Self)
        ensures
            r == (SensorInfo { initialization_id: 0, serial_number: 0u64 }),
    {
        SensorInfo { initialization_id: 0, serial_number: 0 }
    }
}

/// The header's status byte: the shot-limiting state in the high
/// nibble, the thermal-shutdown state in the low nibble.
#[derive(Debug, PartialEq, Eq, Copy, Clone, Structural)]
pub struct Status {
    /// The sensor's shot-limiting state.
    pub shot_limiting: ShotLimitingStatus,
    /// Whether thermal shutdown is imminent.
    pub thermal_shutdown: ThermalShutdownStatus,
}

impl Status {
    /// Construct a status from its two states.
    pub fn new(shot_limiting: ShotLimitingStatus, thermal_shutdown: ThermalShutdownStatus) -> (r:
        Self)
        ensures
            r == (Status { shot_limiting, thermal_shutdown }),
    {
        Status { shot_limiting, thermal_shutdown }
    }

    /// The status a byte holds, nibble by nibble; a nibble that names
    /// no state makes the whole byte invalid.
    pub open spec fn parse_spec(raw: u8) -> Option<Status> {
        match (
            ShotLimitingStatus::from_u8_spec((raw / 16) as u8),
            ThermalShutdownStatus::from_u8_spec((raw % 16) as u8),
        ) {
            (Some(shot_limiting), Some(thermal_shutdown)) => Some(
                Status { shot_limiting, thermal_shutdown },
            ),
            _ => None,
        }
    }

    /// Decode a status byte.  Rejects exactly the bytes with a nibble
    /// that names no state.
    pub fn parse(raw: u8) -> (r: Result<Status, PackingError>)
        ensures
            Self::parse_spec(raw) matches Some(s) ==> r == Ok::<Status, PackingError>(s),
            Self::parse_spec(raw) is None ==> r == Err::<Status, PackingError>(
                PackingError::InvalidValue,
            ),
    {
        let shot_limiting = match ShotLimitingStatus::from_u8(raw / 16) {
            Some(s) => s,
            None => { return Err(PackingError::InvalidValue) },
        };
        let thermal_shutdown = match ThermalShutdownStatus::from_u8(raw % 16) {
            Some(s) => s,
            None => { return Err(PackingError::InvalidValue) },
        };
        Ok(Status { shot_limiting, thermal_shutdown })
    }

    /// Encode the status into its byte.  Writing then parsing recovers
    /// the status exactly.
    pub fn write(&self) -> (r: u8)
        ensures
            Self::parse_spec(r) == Some(*self),
    {
        let shot = self.shot_limiting.to_u8();
        let thermal = self.thermal_shutdown.to_u8();
        let raw = shot * 16 + thermal;
        proof {
            assert(raw / 16 == shot);
            assert(raw % 16 == thermal);
        }
        raw
    }
}

impl Default for Status {
    /// Both state machines start out normal.
    fn default() -> (r: Self)
        ensures
            r == (Status {
                shot_limiting: ShotLimitingStatus::Normal,
                thermal_shutdown: ThermalShutdownStatus::Normal,
            }),
    {
        Status {
            shot_limiting: ShotLimitingStatus::Normal,
            thermal_shutdown: ThermalShutdownStatus::Normal,
        }
    }
}

/// The header's alert flags byte: a six-bit cursor into the alert
/// queue, an overflow flag and an active flag.
#[derive(Debug, PartialEq, Eq, Copy, Clone, Structural)]
pub struct AlertFlags {
    /// Position in the sensor's alert queue; six bits.
    pub cursor: u8,
    /// True when the alert cursor overflowed.
    pub cursor_overflow: bool,
    /// True while any alert is active.
    pub alerts_active: bool,
}

impl AlertFlags {
    /// Construct alert flags from their fields.
    pub fn new(cursor: u8, cursor_overflow: bool, alerts_active: bool) -> (r: Self)
        ensures
            r == (AlertFlags { cursor, cursor_overflow, alerts_active }),
    {
        AlertFlags { cursor, cursor_overflow, alerts_active }
    }

    /// The flags packed in a byte: the cursor in the top six bits, the
    /// overflow flag in bit one, the active flag in bit zero.
    pub open spec fn parse_spec(raw: u8) -> AlertFlags {
        AlertFlags {
            cursor: (raw / 4) as u8,
            cursor_overflow: (raw / 2) % 2 == 1,
            alerts_active: raw % 2 == 1,
        }
    }

    /// Decode an alert flags byte; every byte decodes.
    pub fn parse(raw: u8) -> (r: Self)
        ensures
            r == Self::parse_spec(raw),
    {
        AlertFlags {
            cursor: raw / 4,
            cursor_overflow: (raw / 2) % 2 == 1,
            alerts_active: raw % 2 == 1,
        }
    }

    /// Encode the flags into their byte.  Writing then parsing
    /// recovers the flags exactly when the cursor fits its six bits.
    pub fn write(&self) -> (r: u8)
        requires
            self.cursor < 64,
        ensures
            Self::parse_spec(r) == *self,
    {
        let overflow_bit: u8 = if self.cursor_overflow {
            2
        } else {
            0
        };
        let active_bit: u8 = if self.alerts_active {
            1
        } else {
            0
        };
        self.cursor * 4 + overflow_bit + active_bit
    }
}

impl Default for AlertFlags {
    /// No alerts: zero cursor, no overflow, nothing active.
    fn default() -> (r: Self)
        ensures
            r == (AlertFlags { cursor: 0u8, cursor_overflow: false, alerts_active: false }),
    {
        AlertFlags { cursor: 0, cursor_overflow: false, alerts_active: false }
    }
}

} // verus!
