//! Telemetry data types: system health, sensor readings, diagnostics and
//! the packet that combines them.
//!
//! Numeric quantities that are fractional on the wire are carried here in
//! fixed integer units (whole percent, whole degrees, micro-degrees for GPS
//! coordinates), so every field is a plain value with an exact model.
//! Timestamps are carried as already-formatted text supplied by the caller.

use vstd::prelude::*;

verus! {

/// Unique identifier for telemetry sources.
pub type ComponentId = String;

/// Timestamp carried as already-formatted text (RFC 3339 by convention).
pub type Timestamp = String;

/// System health status enumeration.
#[derive(Debug, Clone, Copy, PartialEq, Eq, Structural)]
pub enum HealthStatus {
    /// System is operating normally.
    Healthy,
    /// System is degraded but operational.
    Degraded,
    /// System has encountered a critical error.
    Critical,
    /// System status is unknown.
    Unknown,
}

/// Human-readable label of a health status.
pub open spec fn spec_status_label(s: HealthStatus) -> Seq<char> {
    match s {
        HealthStatus::Healthy => "Healthy"@,
        HealthStatus::Degraded => "Degraded"@,
        HealthStatus::Critical => "Critical"@,
        HealthStatus::Unknown => "Unknown"@,
    }
}

impl HealthStatus {
    /// Human-readable label (stands in for a `Display` implementation).
    pub fn label(&self) -> (r: &'static str)
        ensures
            r@ == spec_status_label(*self),
    {
        match self {
            HealthStatus::Healthy => "Healthy",
            HealthStatus::Degraded => "Degraded",
            HealthStatus::Critical => "Critical",
            HealthStatus::Unknown => "Unknown",
        }
    }
}

/// Mathematical model of a [`SystemHealth`] value.
pub ghost struct SystemHealthModel {
    pub status: HealthStatus,
    pub timestamp: Seq<char>,
    pub healthy_components: u32,
    pub degraded_components: u32,
    pub failed_components: u32,
    pub uptime_seconds: u64,
    pub cpu_usage_percent: u32,
    pub memory_usage_bytes: u64,
    pub temperature_celsius: i64,
    pub error_message: Option<Seq<char>>,
}

/// System-wide health information.
#[derive(Debug)]
pub struct SystemHealth {
    /// Overall system status.
    pub status: HealthStatus,
    /// When this health report was generated.
    pub timestamp: Timestamp,
    /// Number of healthy components.
    pub healthy_components: u32,
    /// Number of degraded components.
    pub degraded_components: u32,
    /// Number of failed components.
    pub failed_components: u32,
    /// System uptime in seconds.
    pub uptime_seconds: u64,
    /// CPU usage in whole percent (0-100).
    pub cpu_usage_percent: u32,
    /// Memory usage in bytes.
    pub memory_usage_bytes: u64,
    /// Temperature in whole degrees Celsius.
    pub temperature_celsius: i64,
    /// Optional error message if status is not `Healthy`.
    pub error_message: Option<String>,
}

impl View for SystemHealth {
    type V = SystemHealthModel;

    open spec fn view(&self) -> SystemHealthModel {
        SystemHealthModel {
            status: self.status,
            timestamp: self.timestamp@,
            healthy_components: self.healthy_components,
            degraded_components: self.degraded_components,
            failed_components: self.failed_components,
            uptime_seconds: self.uptime_seconds,
            cpu_usage_percent: self.cpu_usage_percent,
            memory_usage_bytes: self.memory_usage_bytes,
            temperature_celsius: self.temperature_celsius,
            error_message: match self.error_message {
                Option::Some(ref m) => Option::Some(m@),
                Option::None => Option::None,
            },
        }
    }
}

/// The status a health report must carry given its component counts:
/// critical if anything failed, else degraded if anything is degraded,
/// else healthy if anything reported in, else unknown.
pub open spec fn spec_status_of(healthy: u32, degraded: u32, failed: u32) -> HealthStatus {
    if failed > 0 {
        HealthStatus::Critical
    } else if degraded > 0 {
        HealthStatus::Degraded
    } else if healthy > 0 {
        HealthStatus::Healthy
    } else {
        HealthStatus::Unknown
    }
}

impl SystemHealth {
    /// A fresh health report: status unknown, all counts zero, 25 degrees.
    /// The timestamp is left empty for the caller to stamp.
    pub fn new() -> (r: SystemHealth)
        ensures
            r.status == HealthStatus::Unknown,
            r.timestamp@ == Seq::<char>::empty(),
            r.healthy_components == 0,
            r.degraded_components == 0,
            r.failed_components == 0,
            r.uptime_seconds == 0,
            r.cpu_usage_percent == 0,
            r.memory_usage_bytes == 0,
            r.temperature_celsius == 25,
            r.error_message is None,
    {
        SystemHealth {
            status: HealthStatus::Unknown,
            timestamp: String::new(),
            healthy_components: 0,
            degraded_components: 0,
            failed_components: 0,
            uptime_seconds: 0,
            cpu_usage_percent: 0,
            memory_usage_bytes: 0,
            temperature_celsius: 25,
            error_message: Option::None,
        }
    }

    /// Recompute the overall status from the component counts.
    pub fn recalculate_status(&mut self)
        ensures
            final(self).status == spec_status_of(
                old(self).healthy_components,
                old(self).degraded_components,
                old(self).failed_components,
            ),
            final(self)@ == (SystemHealthModel { status: final(self).status, ..old(self)@ }),
    {
        self.status = if self.failed_components > 0 {
            HealthStatus::Critical
        } else if self.degraded_components > 0 {
            HealthStatus::Degraded
        } else if self.healthy_components > 0 {
            HealthStatus::Healthy
        } else {
            HealthStatus::Unknown
        };
    }
}

impl Clone for SystemHealth {
    fn clone(&self) -> (r: SystemHealth)
        ensures
            r@ == self@,
    {
        SystemHealth {
            status: self.status,
            timestamp: self.timestamp.clone(),
            healthy_components: self.healthy_components,
            degraded_components: self.degraded_components,
            failed_components: self.failed_components,
            uptime_seconds: self.uptime_seconds,
            cpu_usage_percent: self.cpu_usage_percent,
            memory_usage_bytes: self.memory_usage_bytes,
            temperature_celsius: self.temperature_celsius,
            error_message: match self.error_message {
                Option::Some(ref m) => Option::Some(m.clone()),
                Option::None => Option::None,
            },
        }
    }
}

impl Default for SystemHealth {
    fn default() -> (r: SystemHealth)
        ensures
            r.status == HealthStatus::Unknown,
            r.healthy_components == 0,
            r.degraded_components == 0,
            r.failed_components == 0,
    {
        SystemHealth::new()
    }
}

/// Mathematical model of a [`SensorData`] value.
pub ghost enum SensorDataModel {
    Temperature { value: i64, unit: Seq<char> },
    Pressure { value: i64, unit: Seq<char> },
    Humidity { value: i64, unit: Seq<char> },
    Gps { latitude: i64, longitude: i64, altitude: i64, accuracy: i64 },
    Accelerometer { x: i64, y: i64, z: i64, unit: Seq<char> },
    Gyroscope { x: i64, y: i64, z: i64, unit: Seq<char> },
    Analog { value: i64, unit: Seq<char> },
    Digital { state: bool, label: Seq<char> },
}

/// Sensor data types enumeration.  Quantities are carried in fixed integer
/// units; GPS coordinates are in micro-degrees, the altitude and accuracy
/// in whole metres.
#[derive(Debug)]
pub enum SensorData {
    /// Temperature reading in Celsius.
    Temperature { value: i64, unit: String },
    /// Pressure reading in hPa.
    Pressure { value: i64, unit: String },
    /// Humidity reading as percentage (0-100).
    Humidity { value: i64, unit: String },
    /// GPS coordinates, latitude and longitude in micro-degrees.
    Gps { latitude: i64, longitude: i64, altitude: i64, accuracy: i64 },
    /// Accelerometer reading (3-axis).
    Accelerometer { x: i64, y: i64, z: i64, unit: String },
    /// Gyroscope reading (3-axis).
    Gyroscope { x: i64, y: i64, z: i64, unit: String },
    /// Generic analog value.
    Analog { value: i64, unit: String },
    /// Generic digital state.
    Digital { state: bool, label: String },
}

impl View for SensorData {
    type V = SensorDataModel;

    open spec fn view(&self) -> SensorDataModel {
        match *self {
            SensorData::Temperature { value, ref unit } => SensorDataModel::Temperature {
                value,
                unit: unit@,
            },
            SensorData::Pressure { value, ref unit } => SensorDataModel::Pressure {
                value,
                unit: unit@,
            },
            SensorData::Humidity { value, ref unit } => SensorDataModel::Humidity {
                value,
                unit: unit@,
            },
            SensorData::Gps { latitude, longitude, altitude, accuracy } => SensorDataModel::Gps {
                latitude,
                longitude,
                altitude,
                accuracy,
            },
            SensorData::Accelerometer { x, y, z, ref unit } => SensorDataModel::Accelerometer {
                x,
                y,
                z,
                unit: unit@,
            },
            SensorData::Gyroscope { x, y, z, ref unit } => SensorDataModel::Gyroscope {
                x,
                y,
                z,
                unit: unit@,
            },
            SensorData::Analog { value, ref unit } => SensorDataModel::Analog {
                value,
                unit: unit@,
            },
            SensorData::Digital { state, ref label } => SensorDataModel::Digital {
                state,
                label: label@,
            },
        }
    }
}

impl Clone for SensorData {
    fn clone(&self) -> (r: SensorData)
        ensures
            r@ == self@,
    {
        match self {
            SensorData::Temperature { value, unit } => SensorData::Temperature {
                value: *value,
                unit: unit.clone(),
            },
            SensorData::Pressure { value, unit } => SensorData::Pressure {
                value: *value,
                unit: unit.clone(),
            },
            SensorData::Humidity { value, unit } => SensorData::Humidity {
                value: *value,
                unit: unit.clone(),
            },
            SensorData::Gps { latitude, longitude, altitude, accuracy } => SensorData::Gps {
                latitude: *latitude,
                longitude: *longitude,
                altitude: *altitude,
                accuracy: *accuracy,
            },
            SensorData::Accelerometer { x, y, z, unit } => SensorData::Accelerometer {
                x: *x,
                y: *y,
                z: *z,
                unit: unit.clone(),
            },
            SensorData::Gyroscope { x, y, z, unit } => SensorData::Gyroscope {
                x: *x,
                y: *y,
                z: *z,
                unit: unit.clone(),
            },
            SensorData::Analog { value, unit } => SensorData::Analog {
                value: *value,
                unit: unit.clone(),
            },
            SensorData::Digital { state, label } => SensorData::Digital {
                state: *state,
                label: label.clone(),
            },
        }
    }
}

/// Human-readable description of a sensor datum.
pub open spec fn spec_description(d: SensorDataModel) -> Seq<char> {
    match d {
        SensorDataModel::Temperature { value, unit } => "Temperature: "@
            + crate::text::spec_i64_dec(value as int) + unit,
        SensorDataModel::Pressure { value, unit } => "Pressure: "@ + crate::text::spec_i64_dec(
            value as int,
        ) + unit,
        SensorDataModel::Humidity { value, unit } => "Humidity: "@ + crate::text::spec_i64_dec(
            value as int,
        ) + unit,
        SensorDataModel::Gps { latitude, longitude, altitude, accuracy } => "GPS: ("@
            + crate::text::spec_i64_dec(latitude as int) + ", "@ + crate::text::spec_i64_dec(
            longitude as int,
        ) + ") alt="@ + crate::text::spec_i64_dec(altitude as int) + "m acc="@
            + crate::text::spec_i64_dec(accuracy as int) + "m"@,
        SensorDataModel::Accelerometer { x, y, z, unit } => "Accel: ["@
            + crate::text::spec_i64_dec(x as int) + ", "@ + crate::text::spec_i64_dec(y as int)
            + ", "@ + crate::text::spec_i64_dec(z as int) + "]"@ + unit,
        SensorDataModel::Gyroscope { x, y, z, unit } => "Gyro: ["@ + crate::text::spec_i64_dec(
            x as int,
        ) + ", "@ + crate::text::spec_i64_dec(y as int) + ", "@ + crate::text::spec_i64_dec(
            z as int,
        ) + "]"@ + unit,
        SensorDataModel::Analog { value, unit } => "Analog: "@ + crate::text::spec_i64_dec(
            value as int,
        ) + unit,
        SensorDataModel::Digital { state, label } => label + ": "@ + (if state {
            "ON"@
        } else {
            "OFF"@
        }),
    }
}

impl SensorData {
    /// Human-readable description of the reading.
    pub fn description(&self) -> (r: String)
        ensures
            r@ == spec_description(self@),
    {
        let mut out = String::new();
        match self {
            SensorData::Temperature { value, unit } => {
                out.append("Temperature: ");
                crate::text::push_i64(&mut out, *value);
                out.append(unit.as_str());
            },
            SensorData::Pressure { value, unit } => {
                out.append("Pressure: ");
                crate::text::push_i64(&mut out, *value);
                out.append(unit.as_str());
            },
            SensorData::Humidity { value, unit } => {
                out.append("Humidity: ");
                crate::text::push_i64(&mut out, *value);
                out.append(unit.as_str());
            },
            SensorData::Gps { latitude, longitude, altitude, accuracy } => {
                out.append("GPS: (");
                crate::text::push_i64(&mut out, *latitude);
                out.append(", ");
                crate::text::push_i64(&mut out, *longitude);
                out.append(") alt=");
                crate::text::push_i64(&mut out, *altitude);
                out.append("m acc=");
                crate::text::push_i64(&mut out, *accuracy);
                out.append("m");
            },
            SensorData::Accelerometer { x, y, z, unit } => {
                out.append("Accel: [");
                crate::text::push_i64(&mut out, *x);
                out.append(", ");
                crate::text::push_i64(&mut out, *y);
                out.append(", ");
                crate::text::push_i64(&mut out, *z);
                out.append("]");
                out.append(unit.as_str());
            },
            SensorData::Gyroscope { x, y, z, unit } => {
                out.append("Gyro: [");
                crate::text::push_i64(&mut out, *x);
                out.append(", ");
                crate::text::push_i64(&mut out, *y);
                out.append(", ");
                crate::text::push_i64(&mut out, *z);
                out.append("]");
                out.append(unit.as_str());
            },
            SensorData::Analog { value, unit } => {
                out.append("Analog: ");
                crate::text::push_i64(&mut out, *value);
                out.append(unit.as_str());
            },
            SensorData::Digital { state, label } => {
                out.append(label.as_str());
                out.append(": ");
                if *state {
                    out.append("ON");
                } else {
                    out.append("OFF");
                }
            },
        }
        proof {
            assert(out@ =~= spec_description(self@));
        }
        out
    }
}

/// Mathematical model of a [`SensorReading`].
pub ghost struct SensorReadingModel {
    pub component_id: Seq<char>,
    pub component_name: Seq<char>,
    pub timestamp: Seq<char>,
    pub data: SensorDataModel,
    pub sequence: u64,
    pub confidence: u32,
}

/// A single sensor reading with metadata.
#[derive(Debug)]
pub struct SensorReading {
    /// Unique component ID.
    pub component_id: ComponentId,
    /// Human-readable component name.
    pub component_name: String,
    /// When the measurement was taken.
    pub timestamp: Timestamp,
    /// The actual sensor data.
    pub data: SensorData,
    /// Sequence number for ordering.
    pub sequence: u64,
    /// Confidence level in whole percent (0-100).
    pub confidence: u32,
}

impl View for SensorReading {
    type V = SensorReadingModel;

    open spec fn view(&self) -> SensorReadingModel {
        SensorReadingModel {
            component_id: self.component_id@,
            component_name: self.component_name@,
            timestamp: self.timestamp@,
            data: self.data@,
            sequence: self.sequence,
            confidence: self.confidence,
        }
    }
}

impl SensorReading {
    /// A new reading with full (95 percent) confidence and an empty
    /// timestamp for the caller to stamp.
    pub fn new(
        component_id: ComponentId,
        component_name: String,
        data: SensorData,
        sequence: u64,
    ) -> (r: SensorReading)
        ensures
            r@ == (SensorReadingModel {
                component_id: component_id@,
                component_name: component_name@,
                timestamp: Seq::<char>::empty(),
                data: data@,
                sequence: sequence,
                confidence: 95u32,
            }),
    {
        SensorReading {
            component_id,
            component_name,
            timestamp: String::new(),
            data,
            sequence,
            confidence: 95,
        }
    }
}

impl Clone for SensorReading {
    fn clone(&self) -> (r: SensorReading)
        ensures
            r@ == self@,
    {
        SensorReading {
            component_id: self.component_id.clone(),
            component_name: self.component_name.clone(),
            timestamp: self.timestamp.clone(),
            data: self.data.clone(),
            sequence: self.sequence,
            confidence: self.confidence,
        }
    }
}

/// Diagnostic event severity.
#[derive(Debug, Clone, Copy, PartialEq, Eq, Structural)]
pub enum DiagnosticLevel {
    /// Informational message.
    Info,
    /// Warning that something may need attention.
    Warning,
    /// Error that degraded functionality.
    Error,
    /// Critical error that stopped functionality.
    Critical,
}

/// Human-readable label of a diagnostic level.
pub open spec fn spec_level_label(l: DiagnosticLevel) -> Seq<char> {
    match l {
        DiagnosticLevel::Info => "Info"@,
        DiagnosticLevel::Warning => "Warning"@,
        DiagnosticLevel::Error => "Error"@,
        DiagnosticLevel::Critical => "Critical"@,
    }
}

impl DiagnosticLevel {
    /// Human-readable label (stands in for a `Display` implementation).
    pub fn label(&self) -> (r: &'static str)
        ensures
            r@ == spec_level_label(*self),
    {
        match self {
            DiagnosticLevel::Info => "Info",
            DiagnosticLevel::Warning => "Warning",
            DiagnosticLevel::Error => "Error",
            DiagnosticLevel::Critical => "Critical",
        }
    }
}

/// Mathematical model of a [`DiagnosticEntry`].
pub ghost struct DiagnosticEntryModel {
    pub level: DiagnosticLevel,
    pub timestamp: Seq<char>,
    pub component_id: Seq<char>,
    pub message: Seq<char>,
    pub code: Option<Seq<char>>,
    pub context: Option<Seq<(Seq<char>, Seq<char>)>>,
}

/// Diagnostic report entry.
#[derive(Debug)]
pub struct DiagnosticEntry {
    /// Severity level of the diagnostic.
    pub level: DiagnosticLevel,
    /// When the diagnostic event occurred.
    pub timestamp: Timestamp,
    /// Component that triggered the diagnostic.
    pub component_id: ComponentId,
    /// Diagnostic message.
    pub message: String,
    /// Optional diagnostic code.
    pub code: Option<String>,
    /// Additional context data as ordered key/value pairs.
    pub context: Option<Vec<(String, String)>>,
}

/// View of a sequence of key/value string pairs.
pub open spec fn spec_pairs(v: Seq<(String, String)>) -> Seq<(Seq<char>, Seq<char>)> {
    v.map_values(|p: (String, String)| (p.0@, p.1@))
}

/// Index of the first context pair whose key is `k`, or -1 when no pair
/// has it.
pub open spec fn spec_ctx_find(m: Seq<(Seq<char>, Seq<char>)>, k: Seq<char>) -> int
    decreases m.len(),
{
    if m.len() == 0 {
        -1
    } else if m[0].0 == k {
        0
    } else {
        let rest = spec_ctx_find(m.skip(1), k);
        if rest == -1 {
            -1
        } else {
            rest + 1
        }
    }
}

/// `spec_ctx_find` returns either -1 or the first index holding the key.
pub proof fn lemma_ctx_find(m: Seq<(Seq<char>, Seq<char>)>, k: Seq<char>)
    ensures
        spec_ctx_find(m, k) == -1 ==> forall|j: int|
            0 <= j < m.len() ==> (#[trigger] m[j]).0 != k,
        spec_ctx_find(m, k) != -1 ==> 0 <= spec_ctx_find(m, k) < m.len() && m[spec_ctx_find(
            m,
            k,
        )].0 == k && forall|j: int| 0 <= j < spec_ctx_find(m, k) ==> (#[trigger] m[j]).0 != k,
    decreases m.len(),
{
    if m.len() > 0 && m[0].0 != k {
        lemma_ctx_find(m.skip(1), k);
        assert(forall|j: int| 1 <= j < m.len() ==> m.skip(1)[j - 1] == #[trigger] m[j]);
    }
}

/// Setting a context key: the first pair with the key has its value
/// replaced, or a fresh pair is appended.
pub open spec fn spec_ctx_set(
    m: Seq<(Seq<char>, Seq<char>)>,
    k: Seq<char>,
    v: Seq<char>,
) -> Seq<(Seq<char>, Seq<char>)> {
    let i = spec_ctx_find(m, k);
    if i == -1 {
        m.push((k, v))
    } else {
        m.update(i, (k, v))
    }
}

impl View for DiagnosticEntry {
    type V = DiagnosticEntryModel;

    open spec fn view(&self) -> DiagnosticEntryModel {
        DiagnosticEntryModel {
            level: self.level,
            timestamp: self.timestamp@,
            component_id: self.component_id@,
            message: self.message@,
            code: match self.code {
                Option::Some(ref c) => Option::Some(c@),
                Option::None => Option::None,
            },
            context: match self.context {
                Option::Some(ref v) => Option::Some(spec_pairs(v@)),
                Option::None => Option::None,
            },
        }
    }
}

impl DiagnosticEntry {
    /// A new diagnostic entry without code or context, with an empty
    /// timestamp for the caller to stamp.
    pub fn new(level: DiagnosticLevel, component_id: ComponentId, message: String) -> (r:
        DiagnosticEntry)
        ensures
            r@ == (DiagnosticEntryModel {
                level: level,
                timestamp: Seq::<char>::empty(),
                component_id: component_id@,
                message: message@,
                code: Option::None,
                context: Option::None,
            }),
    {
        DiagnosticEntry {
            level,
            timestamp: String::new(),
            component_id,
            message,
            code: Option::None,
            context: Option::None,
        }
    }

    /// Attach a diagnostic code.
    pub fn with_code(self, code: String) -> (r: DiagnosticEntry)
        ensures
            r@ == (DiagnosticEntryModel { code: Option::Some(code@), ..self@ }),
    {
        DiagnosticEntry { code: Option::Some(code), ..self }
    }

    /// Set one key of the context data: an existing key has its value
    /// replaced, a fresh key is appended.
    pub fn with_context(self, key: String, value: String) -> (r: DiagnosticEntry)
        ensures
            r@ == (DiagnosticEntryModel {
                context: Option::Some(
                    spec_ctx_set(
                        match self@.context {
                            Option::Some(c) => c,
                            Option::None => Seq::<(Seq<char>, Seq<char>)>::empty(),
                        },
                        key@,
                        value@,
                    ),
                ),
                ..self@
            }),
    {
        let mut ctx: Vec<(String, String)> = match self.context {
            Option::Some(v) => v,
            Option::None => Vec::new(),
        };
        let ghost m = spec_pairs(ctx@);
        proof {
            assert(m =~= match self@.context {
                Option::Some(c) => c,
                Option::None => Seq::<(Seq<char>, Seq<char>)>::empty(),
            });
        }
        let mut i: usize = 0;
        let mut found: bool = false;
        while i < ctx.len() && !found
            invariant
                i <= ctx.len(),
                m == spec_pairs(ctx@),
                !found ==> forall|j: int| 0 <= j < i ==> (#[trigger] m[j]).0 != key@,
                found ==> i < m.len() && m[i as int].0 == key@ && forall|j: int|
                    0 <= j < i ==> (#[trigger] m[j]).0 != key@,
            decreases ctx.len() - i + (if found {
                0int
            } else {
                1int
            }),
        {
            if ctx[i].0 == key {
                found = true;
            } else {
                i = i + 1;
            }
        }
        proof {
            lemma_ctx_find(m, key@);
        }
        if found {
            proof {
                assert(spec_ctx_find(m, key@) == i) by {
                    if spec_ctx_find(m, key@) >= 0 && spec_ctx_find(m, key@) < i {
                        assert(m[spec_ctx_find(m, key@)].0 == key@);
                    }
                    if spec_ctx_find(m, key@) > i || spec_ctx_find(m, key@) == -1 {
                        assert(m[i as int].0 == key@);
                    }
                }
            }
            ctx.set(i, (key, value));
            proof {
                assert(spec_pairs(ctx@) =~= m.update(i as int, (key@, value@)));
            }
        } else {
            ctx.push((key, value));
            proof {
                assert(spec_pairs(ctx@) =~= m.push((key@, value@)));
            }
        }
        DiagnosticEntry { context: Option::Some(ctx), ..self }
    }
}

impl Clone for DiagnosticEntry {
    fn clone(&self) -> (r: DiagnosticEntry)
        ensures
            r@ == self@,
    {
        let context: Option<Vec<(String, String)>> = match self.context {
            Option::Some(ref v) => {
                let mut out: Vec<(String, String)> = Vec::new();
                let mut i: usize = 0;
                while i < v.len()
                    invariant
                        i <= v.len(),
                        out@.len() == i,
                        forall|j: int|
                            0 <= j < i ==> #[trigger] out@[j].0@ == v@[j].0@ && out@[j].1@
                                == v@[j].1@,
                    decreases v.len() - i,
                {
                    out.push((v[i].0.clone(), v[i].1.clone()));
                    i = i + 1;
                }
                proof {
                    assert(spec_pairs(out@) =~= spec_pairs(v@));
                }
                Option::Some(out)
            },
            Option::None => Option::None,
        };
        DiagnosticEntry {
            level: self.level,
            timestamp: self.timestamp.clone(),
            component_id: self.component_id.clone(),
            message: self.message.clone(),
            code: match self.code {
                Option::Some(ref c) => Option::Some(c.clone()),
                Option::None => Option::None,
            },
            context,
        }
    }
}

/// Mathematical model of a [`DiagnosticsReport`].
pub ghost struct DiagnosticsReportModel {
    pub timestamp: Seq<char>,
    pub total_entries: u32,
    pub entries_by_level: Seq<(Seq<char>, u32)>,
    pub recent_entries: Seq<DiagnosticEntryModel>,
}

/// Complete diagnostics report.
#[derive(Debug)]
pub struct DiagnosticsReport {
    /// When the report was generated.
    pub timestamp: Timestamp,
    /// Total entries ever recorded in this report.
    pub total_entries: u32,
    /// Entry counts keyed by level label, in first-seen order.
    pub entries_by_level: Vec<(String, u32)>,
    /// Recent diagnostic entries, capped at the 100 newest.
    pub recent_entries: Vec<DiagnosticEntry>,
}

/// View of the per-level counters.
pub open spec fn spec_level_counts(v: Seq<(String, u32)>) -> Seq<(Seq<char>, u32)> {
    v.map_values(|p: (String, u32)| (p.0@, p.1))
}

/// View of a sequence of diagnostic entries.
pub open spec fn spec_entries(v: Seq<DiagnosticEntry>) -> Seq<DiagnosticEntryModel> {
    v.map_values(|e: DiagnosticEntry| e@)
}

impl View for DiagnosticsReport {
    type V = DiagnosticsReportModel;

    open spec fn view(&self) -> DiagnosticsReportModel {
        DiagnosticsReportModel {
            timestamp: self.timestamp@,
            total_entries: self.total_entries,
            entries_by_level: spec_level_counts(self.entries_by_level@),
            recent_entries: spec_entries(self.recent_entries@),
        }
    }
}

/// Index of the first pair whose key is `k`, or -1 when no pair has it.
pub open spec fn spec_find_key(m: Seq<(Seq<char>, u32)>, k: Seq<char>) -> int
    decreases m.len(),
{
    if m.len() == 0 {
        -1
    } else if m[0].0 == k {
        0
    } else {
        let rest = spec_find_key(m.skip(1), k);
        if rest == -1 {
            -1
        } else {
            rest + 1
        }
    }
}

/// `spec_find_key` returns either -1 or a valid index holding the key,
/// with no earlier pair holding it.
pub proof fn lemma_find_key(m: Seq<(Seq<char>, u32)>, k: Seq<char>)
    ensures
        spec_find_key(m, k) == -1 ==> forall|j: int| 0 <= j < m.len() ==> #[trigger] m[j].0 != k,
        spec_find_key(m, k) != -1 ==> 0 <= spec_find_key(m, k) < m.len() && m[spec_find_key(
            m,
            k,
        )].0 == k && forall|j: int| 0 <= j < spec_find_key(m, k) ==> #[trigger] m[j].0 != k,
    decreases m.len(),
{
    if m.len() > 0 && m[0].0 != k {
        lemma_find_key(m.skip(1), k);
        assert forall|j: int| 1 <= j < m.len() implies m.skip(1)[j - 1] == m[j] by {}
    }
}

/// The counter update performed by [`DiagnosticsReport::add_entry`]: the
/// first pair with the key is incremented, or a fresh pair is appended.
pub open spec fn spec_bump_level(m: Seq<(Seq<char>, u32)>, k: Seq<char>) -> Seq<
    (Seq<char>, u32),
> {
    let i = spec_find_key(m, k);
    if i == -1 {
        m.push((k, 1u32))
    } else {
        m.update(i, (k, (m[i].1 + 1) as u32))
    }
}

/// The recent-entry update performed by [`DiagnosticsReport::add_entry`]:
/// the entry is appended and the oldest entry dropped once more than 100
/// are held.
pub open spec fn spec_push_recent(r: Seq<DiagnosticEntryModel>, e: DiagnosticEntryModel) -> Seq<
    DiagnosticEntryModel,
> {
    if r.len() + 1 > 100 {
        r.push(e).skip(1)
    } else {
        r.push(e)
    }
}

impl DiagnosticsReport {
    /// A new empty diagnostics report with an empty timestamp.
    pub fn new() -> (r: DiagnosticsReport)
        ensures
            r@ == (DiagnosticsReportModel {
                timestamp: Seq::<char>::empty(),
                total_entries: 0u32,
                entries_by_level: Seq::<(Seq<char>, u32)>::empty(),
                recent_entries: Seq::<DiagnosticEntryModel>::empty(),
            }),
    {
        let r = DiagnosticsReport {
            timestamp: String::new(),
            total_entries: 0,
            entries_by_level: Vec::new(),
            recent_entries: Vec::new(),
        };
        proof {
            assert(spec_level_counts(r.entries_by_level@) =~= Seq::<(Seq<char>, u32)>::empty());
            assert(spec_entries(r.recent_entries@) =~= Seq::<DiagnosticEntryModel>::empty());
        }
        r
    }

    /// Record one entry: bump its level counter, bump the total, and append
    /// it to the recent entries (dropping the oldest past 100).
    pub fn add_entry(&mut self, entry: DiagnosticEntry)
        requires
            old(self).total_entries < u32::MAX,
            forall|j: int|
                0 <= j < old(self)@.entries_by_level.len() ==> #[trigger] old(
                    self,
                )@.entries_by_level[j].1 < u32::MAX,
        ensures
            final(self)@ == (DiagnosticsReportModel {
                timestamp: old(self)@.timestamp,
                total_entries: (old(self).total_entries + 1) as u32,
                entries_by_level: spec_bump_level(
                    old(self)@.entries_by_level,
                    spec_level_label(entry.level),
                ),
                recent_entries: spec_push_recent(old(self)@.recent_entries, entry@),
            }),
    {
        let ghost m = self@.entries_by_level;
        let ghost k = spec_level_label(entry.level);
        let label: String = entry.level.label().to_owned();
        let mut i: usize = 0;
        let mut found: bool = false;
        while i < self.entries_by_level.len() && !found
            invariant
                i <= self.entries_by_level.len(),
                m == spec_level_counts(self.entries_by_level@),
                k == label@,
                !found ==> forall|j: int| 0 <= j < i ==> #[trigger] m[j].0 != k,
                found ==> i < m.len() && m[i as int].0 == k && forall|j: int|
                    0 <= j < i ==> #[trigger] m[j].0 != k,
            decreases self.entries_by_level.len() - i + (if found {
                0int
            } else {
                1int
            }),
        {
            if self.entries_by_level[i].0 == label {
                found = true;
            } else {
                i = i + 1;
            }
        }
        proof {
            lemma_find_key(m, k);
        }
        if found {
            let count = self.entries_by_level[i].1;
            proof {
                assert(old(self)@.entries_by_level[i as int].1 < u32::MAX);
                assert(count == m[i as int].1);
            }
            let owned = self.entries_by_level[i].0.clone();
            self.entries_by_level.set(i, (owned, count + 1));
            proof {
                assert(spec_level_counts(self.entries_by_level@) =~= spec_bump_level(m, k));
            }
        } else {
            self.entries_by_level.push((label, 1));
            proof {
                assert(spec_level_counts(self.entries_by_level@) =~= spec_bump_level(m, k));
            }
        }
        self.total_entries = self.total_entries + 1;
        let ghost r0 = self@.recent_entries;
        self.recent_entries.push(entry);
        if self.recent_entries.len() > 100 {
            self.recent_entries.remove(0);
        }
        proof {
            assert(spec_entries(self.recent_entries@) =~= spec_push_recent(
                r0,
                self@.recent_entries.last(),
            ));
        }
    }
}

impl Clone for DiagnosticsReport {
    fn clone(&self) -> (r: DiagnosticsReport)
        ensures
            r@ == self@,
    {
        let mut levels: Vec<(String, u32)> = Vec::new();
        let mut i: usize = 0;
        while i < self.entries_by_level.len()
            invariant
                i <= self.entries_by_level.len(),
                levels@.len() == i,
                forall|j: int|
                    0 <= j < i ==> #[trigger] levels@[j].0@ == self.entries_by_level@[j].0@
                        && levels@[j].1 == self.entries_by_level@[j].1,
            decreases self.entries_by_level.len() - i,
        {
            levels.push((self.entries_by_level[i].0.clone(), self.entries_by_level[i].1));
            i = i + 1;
        }
        let mut recent: Vec<DiagnosticEntry> = Vec::new();
        let mut j: usize = 0;
        while j < self.recent_entries.len()
            invariant
                j <= self.recent_entries.len(),
                recent@.len() == j,
                forall|t: int| 0 <= t < j ==> #[trigger] recent@[t]@ == self.recent_entries@[t]@,
            decreases self.recent_entries.len() - j,
        {
            recent.push(self.recent_entries[j].clone());
            j = j + 1;
        }
        let r = DiagnosticsReport {
            timestamp: self.timestamp.clone(),
            total_entries: self.total_entries,
            entries_by_level: levels,
            recent_entries: recent,
        };
        proof {
            assert(spec_level_counts(r.entries_by_level@) =~= spec_level_counts(
                self.entries_by_level@,
            ));
            assert(spec_entries(r.recent_entries@) =~= spec_entries(self.recent_entries@));
        }
        r
    }
}

impl Default for DiagnosticsReport {
    fn default() -> (r: DiagnosticsReport)
        ensures
            r@.total_entries == 0,
            r@.recent_entries.len() == 0,
    {
        DiagnosticsReport::new()
    }
}

/// Mathematical model of a [`TelemetryPacket`].
pub ghost struct TelemetryPacketModel {
    pub sequence: u64,
    pub timestamp: Seq<char>,
    pub health: SystemHealthModel,
    pub sensor_readings: Seq<SensorReadingModel>,
    pub diagnostics: DiagnosticsReportModel,
}

/// Complete telemetry packet combining health, sensor readings, and
/// diagnostics.
#[derive(Debug)]
pub struct TelemetryPacket {
    /// Packet sequence number.
    pub sequence: u64,
    /// When the packet was generated.
    pub timestamp: Timestamp,
    /// System health snapshot.
    pub health: SystemHealth,
    /// Recent sensor readings.
    pub sensor_readings: Vec<SensorReading>,
    /// Diagnostics snapshot.
    pub diagnostics: DiagnosticsReport,
}

/// View of a sequence of sensor readings.
pub open spec fn spec_readings(v: Seq<SensorReading>) -> Seq<SensorReadingModel> {
    v.map_values(|r: SensorReading| r@)
}

impl View for TelemetryPacket {
    type V = TelemetryPacketModel;

    open spec fn view(&self) -> TelemetryPacketModel {
        TelemetryPacketModel {
            sequence: self.sequence,
            timestamp: self.timestamp@,
            health: self.health@,
            sensor_readings: spec_readings(self.sensor_readings@),
            diagnostics: self.diagnostics@,
        }
    }
}

impl TelemetryPacket {
    /// A new packet with the given sequence number, a fresh health
    /// snapshot, no readings, an empty diagnostics report, and an empty
    /// timestamp for the caller to stamp.
    pub fn new(sequence: u64) -> (r: TelemetryPacket)
        ensures
            r@.sequence == sequence,
            r@.timestamp == Seq::<char>::empty(),
            r@.health.status == HealthStatus::Unknown,
            r@.health.healthy_components == 0,
            r@.sensor_readings.len() == 0,
            r@.diagnostics.total_entries == 0,
            r@.diagnostics.recent_entries.len() == 0,
    {
        let r = TelemetryPacket {
            sequence,
            timestamp: String::new(),
            health: SystemHealth::new(),
            sensor_readings: Vec::new(),
            diagnostics: DiagnosticsReport::new(),
        };
        proof {
            assert(spec_readings(r.sensor_readings@) =~= Seq::<SensorReadingModel>::empty());
        }
        r
    }
}

impl Clone for TelemetryPacket {
    fn clone(&self) -> (r: TelemetryPacket)
        ensures
            r@ == self@,
    {
        let mut readings: Vec<SensorReading> = Vec::new();
        let mut i: usize = 0;
        while i < self.sensor_readings.len()
            invariant
                i <= self.sensor_readings.len(),
                readings@.len() == i,
                forall|j: int|
                    0 <= j < i ==> #[trigger] readings@[j]@ == self.sensor_readings@[j]@,
            decreases self.sensor_readings.len() - i,
        {
            readings.push(self.sensor_readings[i].clone());
            i = i + 1;
        }
        let r = TelemetryPacket {
            sequence: self.sequence,
            timestamp: self.timestamp.clone(),
            health: self.health.clone(),
            sensor_readings: readings,
            diagnostics: self.diagnostics.clone(),
        };
        proof {
            assert(spec_readings(r.sensor_readings@) =~= spec_readings(self.sensor_readings@));
        }
        r
    }
}

} // verus!
