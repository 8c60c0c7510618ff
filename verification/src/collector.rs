//! Telemetry collector: gathers health, readings and diagnostics and
//! assembles numbered packets.  A single task owns the collector for
//! writes; timestamps are stamped by the caller.

use vstd::prelude::*;
use crate::types::{
    DiagnosticEntry, DiagnosticsReport, DiagnosticsReportModel, SensorReading, SensorReadingModel,
    SystemHealth, SystemHealthModel, TelemetryPacket, Timestamp, spec_bump_level,
    spec_level_label, spec_push_recent, spec_readings,
};

verus! {

/// Cap on the readings the collector retains.
pub const READINGS_RETAINED: usize = 1000;

/// Collects telemetry from all system components.
#[derive(Debug)]
pub struct TelemetryCollector {
    sequence: u64,
    health: SystemHealth,
    diagnostics: DiagnosticsReport,
    sensor_readings: Vec<SensorReading>,
}

impl TelemetryCollector {
    /// Sequence number of the last generated packet.
    pub closed spec fn spec_sequence(&self) -> u64 {
        self.sequence
    }

    /// Model of the tracked health.
    pub closed spec fn spec_health(&self) -> SystemHealthModel {
        self.health@
    }

    /// Model of the diagnostics report.
    pub closed spec fn spec_diagnostics(&self) -> DiagnosticsReportModel {
        self.diagnostics@
    }

    /// Models of the retained readings, oldest first.
    pub closed spec fn spec_readings_kept(&self) -> Seq<SensorReadingModel> {
        spec_readings(self.sensor_readings@)
    }

    /// A new collector: sequence zero, fresh health, empty diagnostics,
    /// no readings.
    pub fn new() -> (r: TelemetryCollector)
        ensures
            r.spec_sequence() == 0,
            r.spec_health().healthy_components == 0,
            r.spec_diagnostics().total_entries == 0,
            r.spec_readings_kept() == Seq::<SensorReadingModel>::empty(),
    {
        let r = TelemetryCollector {
            sequence: 0,
            health: SystemHealth::new(),
            diagnostics: DiagnosticsReport::new(),
            sensor_readings: Vec::new(),
        };
        proof {
            assert(r.spec_readings_kept() =~= Seq::<SensorReadingModel>::empty());
        }
        r
    }

    /// Record a sensor reading, keeping only the newest
    /// [`READINGS_RETAINED`] readings.
    pub fn record_sensor_reading(&mut self, reading: SensorReading)
        ensures
            final(self).spec_sequence() == old(self).spec_sequence(),
            final(self).spec_health() == old(self).spec_health(),
            final(self).spec_diagnostics() == old(self).spec_diagnostics(),
            final(self).spec_readings_kept() == if old(self).spec_readings_kept().len() + 1
                > READINGS_RETAINED {
                old(self).spec_readings_kept().push(reading@).skip(1)
            } else {
                old(self).spec_readings_kept().push(reading@)
            },
    {
        let ghost m0 = self.spec_readings_kept();
        self.sensor_readings.push(reading);
        proof {
            assert(spec_readings(self.sensor_readings@) =~= m0.push(
                self.sensor_readings@.last()@,
            ));
        }
        if self.sensor_readings.len() > READINGS_RETAINED {
            let ghost m1 = self.spec_readings_kept();
            self.sensor_readings.remove(0);
            proof {
                assert(spec_readings(self.sensor_readings@) =~= m1.skip(1));
            }
        }
    }

    /// Record a diagnostic event.
    pub fn record_diagnostic(&mut self, entry: DiagnosticEntry)
        requires
            old(self).spec_diagnostics().total_entries < u32::MAX,
            forall|j: int|
                0 <= j < old(self).spec_diagnostics().entries_by_level.len() ==> (#[trigger] old(
                    self,
                ).spec_diagnostics().entries_by_level[j]).1 < u32::MAX,
        ensures
            final(self).spec_sequence() == old(self).spec_sequence(),
            final(self).spec_health() == old(self).spec_health(),
            final(self).spec_readings_kept() == old(self).spec_readings_kept(),
            final(self).spec_diagnostics() == (DiagnosticsReportModel {
                timestamp: old(self).spec_diagnostics().timestamp,
                total_entries: (old(self).spec_diagnostics().total_entries + 1) as u32,
                entries_by_level: spec_bump_level(
                    old(self).spec_diagnostics().entries_by_level,
                    spec_level_label(entry.level),
                ),
                recent_entries: spec_push_recent(
                    old(self).spec_diagnostics().recent_entries,
                    entry@,
                ),
            }),
    {
        self.diagnostics.add_entry(entry);
    }

    /// Replace the tracked system health.
    pub fn update_health(&mut self, health: SystemHealth)
        ensures
            final(self).spec_sequence() == old(self).spec_sequence(),
            final(self).spec_health() == health@,
            final(self).spec_diagnostics() == old(self).spec_diagnostics(),
            final(self).spec_readings_kept() == old(self).spec_readings_kept(),
    {
        self.health = health;
    }

    /// Assemble a complete packet from the current state, bumping the
    /// sequence number and stamping the packet with the given timestamp.
    pub fn generate_packet(&mut self, timestamp: Timestamp) -> (r: TelemetryPacket)
        requires
            old(self).spec_sequence() < u64::MAX,
        ensures
            final(self).spec_sequence() == old(self).spec_sequence() + 1,
            final(self).spec_health() == old(self).spec_health(),
            final(self).spec_diagnostics() == old(self).spec_diagnostics(),
            final(self).spec_readings_kept() == old(self).spec_readings_kept(),
            r@.sequence == old(self).spec_sequence() + 1,
            r@.timestamp == timestamp@,
            r@.health == old(self).spec_health(),
            r@.sensor_readings == old(self).spec_readings_kept(),
            r@.diagnostics == old(self).spec_diagnostics(),
    {
        self.sequence = self.sequence + 1;
        let mut readings: Vec<SensorReading> = Vec::new();
        let mut i: usize = 0;
        while i < self.sensor_readings.len()
            invariant
                i <= self.sensor_readings.len(),
                readings@.len() == i,
                forall|j: int|
                    0 <= j < i ==> #[trigger] readings@[j]@ == self.sensor_readings@[j]@,
            decreases self.sensor_readings.len() - i,
        {
            readings.push(self.sensor_readings[i].clone());
            i = i + 1;
        }
        proof {
            assert(spec_readings(readings@) =~= spec_readings(self.sensor_readings@));
        }
        TelemetryPacket {
            sequence: self.sequence,
            timestamp,
            health: self.health.clone(),
            sensor_readings: readings,
            diagnostics: self.diagnostics.clone(),
        }
    }

    /// Current health snapshot.
    pub fn get_health(&self) -> (r: SystemHealth)
        ensures
            r@ == self.spec_health(),
    {
        self.health.clone()
    }

    /// The newest readings, newest first, at most `limit` of them.
    pub fn get_sensor_readings(&self, limit: usize) -> (r: Vec<SensorReading>)
        ensures
            r@.len() == if limit < self.spec_readings_kept().len() {
                limit as int
            } else {
                self.spec_readings_kept().len() as int
            },
            forall|j: int|
                0 <= j < r@.len() ==> #[trigger] r@[j]@ == self.spec_readings_kept()[
                    self.spec_readings_kept().len() - 1 - j],
    {
        let mut out: Vec<SensorReading> = Vec::new();
        let total = self.sensor_readings.len();
        let count = if limit < total {
            limit
        } else {
            total
        };
        let mut i: usize = 0;
        while i < count
            invariant
                i <= count,
                count <= total,
                total == self.sensor_readings.len(),
                out@.len() == i,
                forall|j: int|
                    0 <= j < i ==> #[trigger] out@[j]@ == self.sensor_readings@[total - 1 - j]@,
            decreases count - i,
        {
            out.push(self.sensor_readings[total - 1 - i].clone());
            i = i + 1;
        }
        out
    }

    /// Clear the retained readings (health and diagnostics are kept).
    pub fn clear(&mut self)
        ensures
            final(self).spec_sequence() == old(self).spec_sequence(),
            final(self).spec_health() == old(self).spec_health(),
            final(self).spec_diagnostics() == old(self).spec_diagnostics(),
            final(self).spec_readings_kept() == Seq::<SensorReadingModel>::empty(),
    {
        self.sensor_readings.clear();
        proof {
            assert(self.spec_readings_kept() =~= Seq::<SensorReadingModel>::empty());
        }
    }
}

impl Default for TelemetryCollector {
    fn default() -> (r: TelemetryCollector)
        ensures
            r.spec_sequence() == 0,
            r.spec_readings_kept().len() == 0,
    {
        TelemetryCollector::new()
    }
}

} // verus!
