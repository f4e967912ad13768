//! The log-bag adapter's decisions: resolving the configured topic
//! names to the log's connection identifiers, and filtering data
//! records by identifier.
//!
//! The log itself is read outside the verified core; the reader hands
//! each connection record and each data record's identifier in here and
//! acts on the answer.  Only LIDAR-topic records are forwarded; the IMU
//! topic is resolved but its records are not forwarded, matching the
//! observed behaviour of the recorder this replays, so a reader
//! iterating only the LIDAR topic never stalls at end-of-log.

use crate::pipeline::PacketKind;
use vstd::prelude::*;

verus! {

/// The demultiplexer state of one log replay: the configured topic
/// names and the connection identifiers they resolved to so far.
#[derive(Debug)]
pub struct BagDemux {
    /// The configured LIDAR topic name.
    pub lidar_topic: String,
    /// The configured IMU topic name.
    pub imu_topic: String,
    /// The connection identifier the LIDAR topic resolved to, if seen.
    pub lidar_id: Option<u32>,
    /// The connection identifier the IMU topic resolved to, if seen.
    pub imu_id: Option<u32>,
}

impl BagDemux {
    /// A fresh demultiplexer for the two configured topic names, with
    /// nothing resolved yet.
    pub fn new(lidar_topic: String, imu_topic: String) -> (r: Self)
        ensures
            r.lidar_topic@ == lidar_topic@,
            r.imu_topic@ == imu_topic@,
            r.lidar_id is None,
            r.imu_id is None,
    {
        BagDemux { lidar_topic, imu_topic, lidar_id: None, imu_id: None }
    }

    /// Record one connection of the log's connection table.  A topic
    /// matching the configured LIDAR name resolves the LIDAR
    /// identifier; otherwise a topic matching the configured IMU name
    /// resolves the IMU identifier; any other topic changes nothing.
    pub fn on_connection(&mut self, topic: &String, id: u32)
        ensures
            final(self).lidar_topic@ == old(self).lidar_topic@,
            final(self).imu_topic@ == old(self).imu_topic@,
            topic@ == old(self).lidar_topic@ ==> final(self).lidar_id == Some(id)
                && final(self).imu_id == old(self).imu_id,
            topic@ != old(self).lidar_topic@ && topic@ == old(self).imu_topic@
                ==> final(self).imu_id == Some(id) && final(self).lidar_id == old(self).lidar_id,
            topic@ != old(self).lidar_topic@ && topic@ != old(self).imu_topic@
                ==> final(self).lidar_id == old(self).lidar_id && final(self).imu_id == old(
                self).imu_id,
    {
        if *topic == self.lidar_topic {
            self.lidar_id = Some(id);
        } else if *topic == self.imu_topic {
            self.imu_id = Some(id);
        }
    }

    /// Decide one data record by its connection identifier.  Exactly
    /// the records of the resolved LIDAR connection are forwarded, to
    /// the LIDAR queue; every other record — the IMU topic's included —
    /// is passed over.
    pub fn on_message(&self, conn_id: u32) -> (r: Option<PacketKind>)
        ensures
            self.lidar_id == Some(conn_id) ==> r == Some(PacketKind::Lidar),
            self.lidar_id != Some(conn_id) ==> r is None,
    {
        match self.lidar_id {
            Some(id) if id == conn_id => Some(PacketKind::Lidar),
            _ => None,
        }
    }
}

} // verus!
