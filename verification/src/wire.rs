//! Wire codec: the JSON-compatible text format packets travel in.
//!
//! The encoder emits one canonical rendering (fixed field order, no
//! whitespace, `null` for absent optional fields); the parser reads that
//! canonical rendering back.  Printing a value and parsing the text again
//! yields the value that was printed, which is proved field by field from
//! the primitive round-trip laws in [`crate::text`].

use vstd::prelude::*;
use vstd::string::*;
use crate::text::{
    push_char, push_escaped, push_u64, push_i64, push_bool, parse_string_at, parse_u64_at,
    parse_i64_at, parse_bool_at, expect_lit, spec_escaped, spec_parse_str, spec_parse_u64,
    spec_parse_i64, spec_parse_bool, spec_u64_dec, spec_i64_dec, spec_bool_text, starts_with,
    lemma_parse_print_str, lemma_parse_print_u64, lemma_parse_print_i64, lemma_parse_print_bool,
};
use crate::types::{
    HealthStatus, SystemHealth, SystemHealthModel, SensorData, SensorDataModel, SensorReading,
    SensorReadingModel, DiagnosticLevel, DiagnosticEntry, DiagnosticEntryModel, DiagnosticsReport,
    DiagnosticsReportModel, TelemetryPacket, TelemetryPacketModel, spec_pairs, spec_level_counts,
    spec_entries, spec_readings,
};

verus! {

/// A concatenation starts with its first part, and what follows it is the
/// second part.
pub proof fn lemma_starts_with_concat(p: Seq<char>, rest: Seq<char>)
    ensures
        starts_with(p + rest, p),
        (p + rest).skip(p.len() as int) == rest,
{
    assert((p + rest).take(p.len() as int) =~= p);
    assert((p + rest).skip(p.len() as int) =~= rest);
}

// ---------------------------------------------------------------------
// Quoted strings and optional fields
// ---------------------------------------------------------------------

/// A quoted, escaped string.
pub open spec fn spec_quoted(v: Seq<char>) -> Seq<char> {
    seq!['"'] + spec_escaped(v) + seq!['"']
}

/// Parse a quoted string from the front of `s`.
pub open spec fn spec_parse_quoted(s: Seq<char>) -> Option<(Seq<char>, Seq<char>)> {
    if s.len() > 0 && s[0] == '"' {
        spec_parse_str(s.skip(1))
    } else {
        Option::None
    }
}

/// Printing a quoted string and parsing it back yields the original.
pub proof fn lemma_parse_print_quoted(v: Seq<char>, rest: Seq<char>)
    ensures
        spec_parse_quoted(spec_quoted(v) + rest) == Option::Some((v, rest)),
{
    let s = spec_quoted(v) + rest;
    assert(s[0] == '"');
    assert(s.skip(1) =~= spec_escaped(v) + seq!['"'] + rest);
    lemma_parse_print_str(v, rest);
}

/// Append a quoted, escaped string.
pub fn push_quoted(out: &mut String, v: &str)
    ensures
        final(out)@ == old(out)@ + spec_quoted(v@),
{
    push_char(out, '"');
    push_escaped(out, v);
    push_char(out, '"');
    proof {
        assert(final(out)@ =~= old(out)@ + spec_quoted(v@));
    }
}

/// Parse a quoted string at character index `i`, following
/// [`spec_parse_quoted`] on the rest of the input.
pub fn parse_quoted_at(s: &str, i: usize) -> (r: Option<(String, usize)>)
    requires
        i <= s@.len(),
    ensures
        match spec_parse_quoted(s@.skip(i as int)) {
            Option::Some(p) => r matches Some(q) && q.0@ == p.0 && i <= q.1 <= s@.len()
                && s@.skip(q.1 as int) == p.1,
            Option::None => r is None,
        },
{
    let len = s.unicode_len();
    if i < len && s.get_char(i) == '"' {
        proof {
            assert(s@.skip(i as int)[0] == s@[i as int]);
            assert(s@.skip(i as int).skip(1) =~= s@.skip(i + 1));
        }
        parse_string_at(s, i + 1)
    } else {
        proof {
            if s@.skip(i as int).len() > 0 {
                assert(s@.skip(i as int)[0] == s@[i as int]);
            }
        }
        Option::None
    }
}

/// An optional string: `null` when absent, quoted otherwise.
pub open spec fn spec_opt_text(o: Option<Seq<char>>) -> Seq<char> {
    match o {
        Option::Some(v) => spec_quoted(v),
        Option::None => "null"@,
    }
}

/// Parse an optional string from the front of `s`.
pub open spec fn spec_parse_opt_text(s: Seq<char>) -> Option<(Option<Seq<char>>, Seq<char>)> {
    if s.len() > 0 && s[0] == '"' {
        match spec_parse_quoted(s) {
            Option::Some(p) => Option::Some((Option::Some(p.0), p.1)),
            Option::None => Option::None,
        }
    } else if starts_with(s, "null"@) {
        Option::Some((Option::None, s.skip("null"@.len() as int)))
    } else {
        Option::None
    }
}

/// Printing an optional string and parsing it back yields the original.
pub proof fn lemma_parse_print_opt_text(o: Option<Seq<char>>, rest: Seq<char>)
    ensures
        spec_parse_opt_text(spec_opt_text(o) + rest) == Option::Some((o, rest)),
{
    reveal_strlit("null");
    let s = spec_opt_text(o) + rest;
    match o {
        Option::Some(v) => {
            assert(s[0] == '"');
            lemma_parse_print_quoted(v, rest);
        },
        Option::None => {
            assert(s[0] == 'n');
            assert(s.take("null"@.len() as int) =~= "null"@);
            assert(s.skip("null"@.len() as int) =~= rest);
        },
    }
}

/// Append an optional string.
pub fn push_opt_text(out: &mut String, o: &Option<String>)
    ensures
        final(out)@ == old(out)@ + spec_opt_text(
            match *o {
                Option::Some(ref v) => Option::Some(v@),
                Option::None => Option::None,
            },
        ),
{
    match o {
        Option::Some(v) => push_quoted(out, v.as_str()),
        Option::None => out.append("null"),
    }
}

/// Parse an optional string at character index `i`, following
/// [`spec_parse_opt_text`] on the rest of the input.
pub fn parse_opt_text_at(s: &str, i: usize) -> (r: Option<(Option<String>, usize)>)
    requires
        i <= s@.len(),
    ensures
        match spec_parse_opt_text(s@.skip(i as int)) {
            Option::Some(p) => r matches Some(q) && i <= q.1 <= s@.len() && s@.skip(q.1 as int)
                == p.1 && (match p.0 {
                Option::Some(v) => q.0 matches Some(w) && w@ == v,
                Option::None => q.0 is None,
            }),
            Option::None => r is None,
        },
{
    let len = s.unicode_len();
    proof {
        reveal_strlit("null");
        if s@.skip(i as int).len() > 0 {
            assert(s@.skip(i as int)[0] == s@[i as int]);
        }
    }
    if i < len && s.get_char(i) == '"' {
        match parse_quoted_at(s, i) {
            Option::Some((v, e)) => Option::Some((Option::Some(v), e)),
            Option::None => Option::None,
        }
    } else {
        match expect_lit(s, i, "null") {
            Option::Some(e) => Option::Some((Option::None, e)),
            Option::None => Option::None,
        }
    }
}

// ---------------------------------------------------------------------
// Enum wire names
// ---------------------------------------------------------------------

/// Wire name of a health status (upper case on the wire).
pub open spec fn spec_status_wire(st: HealthStatus) -> Seq<char> {
    match st {
        HealthStatus::Healthy => "HEALTHY"@,
        HealthStatus::Degraded => "DEGRADED"@,
        HealthStatus::Critical => "CRITICAL"@,
        HealthStatus::Unknown => "UNKNOWN"@,
    }
}

/// Parse a health status wire name from the front of `s`.
pub open spec fn spec_parse_status(s: Seq<char>) -> Option<(HealthStatus, Seq<char>)> {
    if starts_with(s, "HEALTHY"@) {
        Option::Some((HealthStatus::Healthy, s.skip("HEALTHY"@.len() as int)))
    } else if starts_with(s, "DEGRADED"@) {
        Option::Some((HealthStatus::Degraded, s.skip("DEGRADED"@.len() as int)))
    } else if starts_with(s, "CRITICAL"@) {
        Option::Some((HealthStatus::Critical, s.skip("CRITICAL"@.len() as int)))
    } else if starts_with(s, "UNKNOWN"@) {
        Option::Some((HealthStatus::Unknown, s.skip("UNKNOWN"@.len() as int)))
    } else {
        Option::None
    }
}

/// Printing a status wire name and parsing it back yields the original.
pub proof fn lemma_parse_print_status(st: HealthStatus, rest: Seq<char>)
    ensures
        spec_parse_status(spec_status_wire(st) + rest) == Option::Some((st, rest)),
{
    reveal_strlit("HEALTHY");
    reveal_strlit("DEGRADED");
    reveal_strlit("CRITICAL");
    reveal_strlit("UNKNOWN");
    let s = spec_status_wire(st) + rest;
    let w = spec_status_wire(st);
    assert(s.take(w.len() as int) =~= w);
    assert(s.skip(w.len() as int) =~= rest);
    assert forall|p: Seq<char>|
        starts_with(s, p) && p.len() > 0 implies s[0] == p[0] by {
        assert(s.take(p.len() as int)[0] == s[0]);
    }
}

/// Append the wire name of a health status.
pub fn push_status(out: &mut String, st: HealthStatus)
    ensures
        final(out)@ == old(out)@ + spec_status_wire(st),
{
    match st {
        HealthStatus::Healthy => out.append("HEALTHY"),
        HealthStatus::Degraded => out.append("DEGRADED"),
        HealthStatus::Critical => out.append("CRITICAL"),
        HealthStatus::Unknown => out.append("UNKNOWN"),
    }
}

/// Parse a health status wire name at character index `i`.
pub fn parse_status_at(s: &str, i: usize) -> (r: Option<(HealthStatus, usize)>)
    requires
        i <= s@.len(),
    ensures
        match spec_parse_status(s@.skip(i as int)) {
            Option::Some(p) => r matches Some(q) && q.0 == p.0 && i <= q.1 <= s@.len()
                && s@.skip(q.1 as int) == p.1,
            Option::None => r is None,
        },
{
    proof {
        reveal_strlit("HEALTHY");
        reveal_strlit("DEGRADED");
        reveal_strlit("CRITICAL");
        reveal_strlit("UNKNOWN");
    }
    match expect_lit(s, i, "HEALTHY") {
        Option::Some(e) => Option::Some((HealthStatus::Healthy, e)),
        Option::None => {
            match expect_lit(s, i, "DEGRADED") {
                Option::Some(e) => Option::Some((HealthStatus::Degraded, e)),
                Option::None => {
                    match expect_lit(s, i, "CRITICAL") {
                        Option::Some(e) => Option::Some((HealthStatus::Critical, e)),
                        Option::None => {
                            match expect_lit(s, i, "UNKNOWN") {
                                Option::Some(e) => Option::Some((HealthStatus::Unknown, e)),
                                Option::None => Option::None,
                            }
                        },
                    }
                },
            }
        },
    }
}

/// Wire name of a diagnostic level (upper case on the wire).
pub open spec fn spec_level_wire(l: DiagnosticLevel) -> Seq<char> {
    match l {
        DiagnosticLevel::Info => "INFO"@,
        DiagnosticLevel::Warning => "WARNING"@,
        DiagnosticLevel::Error => "ERROR"@,
        DiagnosticLevel::Critical => "CRITICAL"@,
    }
}

/// Parse a diagnostic level wire name from the front of `s`.
pub open spec fn spec_parse_level(s: Seq<char>) -> Option<(DiagnosticLevel, Seq<char>)> {
    if starts_with(s, "INFO"@) {
        Option::Some((DiagnosticLevel::Info, s.skip("INFO"@.len() as int)))
    } else if starts_with(s, "WARNING"@) {
        Option::Some((DiagnosticLevel::Warning, s.skip("WARNING"@.len() as int)))
    } else if starts_with(s, "ERROR"@) {
        Option::Some((DiagnosticLevel::Error, s.skip("ERROR"@.len() as int)))
    } else if starts_with(s, "CRITICAL"@) {
        Option::Some((DiagnosticLevel::Critical, s.skip("CRITICAL"@.len() as int)))
    } else {
        Option::None
    }
}

/// Printing a level wire name and parsing it back yields the original.
pub proof fn lemma_parse_print_level(l: DiagnosticLevel, rest: Seq<char>)
    ensures
        spec_parse_level(spec_level_wire(l) + rest) == Option::Some((l, rest)),
{
    reveal_strlit("INFO");
    reveal_strlit("WARNING");
    reveal_strlit("ERROR");
    reveal_strlit("CRITICAL");
    let s = spec_level_wire(l) + rest;
    let w = spec_level_wire(l);
    assert(s.take(w.len() as int) =~= w);
    assert(s.skip(w.len() as int) =~= rest);
    assert forall|p: Seq<char>|
        starts_with(s, p) && p.len() > 0 implies s[0] == p[0] by {
        assert(s.take(p.len() as int)[0] == s[0]);
    }
}

/// Append the wire name of a diagnostic level.
pub fn push_level(out: &mut String, l: DiagnosticLevel)
    ensures
        final(out)@ == old(out)@ + spec_level_wire(l),
{
    match l {
        DiagnosticLevel::Info => out.append("INFO"),
        DiagnosticLevel::Warning => out.append("WARNING"),
        DiagnosticLevel::Error => out.append("ERROR"),
        DiagnosticLevel::Critical => out.append("CRITICAL"),
    }
}

/// Parse a diagnostic level wire name at character index `i`.
pub fn parse_level_at(s: &str, i: usize) -> (r: Option<(DiagnosticLevel, usize)>)
    requires
        i <= s@.len(),
    ensures
        match spec_parse_level(s@.skip(i as int)) {
            Option::Some(p) => r matches Some(q) && q.0 == p.0 && i <= q.1 <= s@.len()
                && s@.skip(q.1 as int) == p.1,
            Option::None => r is None,
        },
{
    proof {
        reveal_strlit("INFO");
        reveal_strlit("WARNING");
        reveal_strlit("ERROR");
        reveal_strlit("CRITICAL");
    }
    match expect_lit(s, i, "INFO") {
        Option::Some(e) => Option::Some((DiagnosticLevel::Info, e)),
        Option::None => {
            match expect_lit(s, i, "WARNING") {
                Option::Some(e) => Option::Some((DiagnosticLevel::Warning, e)),
                Option::None => {
                    match expect_lit(s, i, "ERROR") {
                        Option::Some(e) => Option::Some((DiagnosticLevel::Error, e)),
                        Option::None => {
                            match expect_lit(s, i, "CRITICAL") {
                                Option::Some(e) => Option::Some((DiagnosticLevel::Critical, e)),
                                Option::None => Option::None,
                            }
                        },
                    }
                },
            }
        },
    }
}

// ---------------------------------------------------------------------
// System health
// ---------------------------------------------------------------------

/// Canonical wire text of a system health snapshot.
pub open spec fn spec_health_json(h: SystemHealthModel) -> Seq<char> {
    "{\"status\":\""@ + spec_status_wire(h.status) + "\",\"timestamp\":"@ + spec_quoted(
        h.timestamp,
    ) + ",\"healthy_components\":"@ + spec_u64_dec(h.healthy_components as nat)
        + ",\"degraded_components\":"@ + spec_u64_dec(h.degraded_components as nat)
        + ",\"failed_components\":"@ + spec_u64_dec(h.failed_components as nat)
        + ",\"uptime_seconds\":"@ + spec_u64_dec(h.uptime_seconds as nat)
        + ",\"cpu_usage_percent\":"@ + spec_u64_dec(h.cpu_usage_percent as nat)
        + ",\"memory_usage_bytes\":"@ + spec_u64_dec(h.memory_usage_bytes as nat)
        + ",\"temperature_celsius\":"@ + spec_i64_dec(h.temperature_celsius as int)
        + ",\"error_message\":"@ + spec_opt_text(h.error_message) + "}"@
}

/// Parse a system health snapshot from the front of `s`.
pub open spec fn spec_parse_health(s: Seq<char>) -> Option<(SystemHealthModel, Seq<char>)> {
    if !starts_with(s, "{\"status\":\""@) {
        Option::None
    } else {
        match spec_parse_status(s.skip("{\"status\":\""@.len() as int)) {
            Option::None => Option::None,
            Option::Some((status, s1)) => if !starts_with(s1, "\",\"timestamp\":"@) {
                Option::None
            } else {
                match spec_parse_quoted(s1.skip("\",\"timestamp\":"@.len() as int)) {
                    Option::None => Option::None,
                    Option::Some((timestamp, s2)) => if !starts_with(
                        s2,
                        ",\"healthy_components\":"@,
                    ) {
                        Option::None
                    } else {
                        match spec_parse_u64(s2.skip(",\"healthy_components\":"@.len() as int)) {
                            Option::None => Option::None,
                            Option::Some((healthy, s3)) => if healthy > u32::MAX || !starts_with(
                                s3,
                                ",\"degraded_components\":"@,
                            ) {
                                Option::None
                            } else {
                                match spec_parse_u64(
                                    s3.skip(",\"degraded_components\":"@.len() as int),
                                ) {
                                    Option::None => Option::None,
                                    Option::Some((degraded, s4)) => if degraded > u32::MAX
                                        || !starts_with(s4, ",\"failed_components\":"@) {
                                        Option::None
                                    } else {
                                        match spec_parse_u64(
                                            s4.skip(",\"failed_components\":"@.len() as int),
                                        ) {
                                            Option::None => Option::None,
                                            Option::Some((failed, s5)) => if failed > u32::MAX
                                                || !starts_with(s5, ",\"uptime_seconds\":"@) {
                                                Option::None
                                            } else {
                                                spec_parse_health_tail(
                                                    s5.skip(",\"uptime_seconds\":"@.len() as int),
                                                    status,
                                                    timestamp,
                                                    healthy as u32,
                                                    degraded as u32,
                                                    failed as u32,
                                                )
                                            },
                                        }
                                    },
                                }
                            },
                        }
                    },
                }
            },
        }
    }
}

/// Continuation of [`spec_parse_health`] from the uptime field on.
pub open spec fn spec_parse_health_tail(
    s: Seq<char>,
    status: HealthStatus,
    timestamp: Seq<char>,
    healthy: u32,
    degraded: u32,
    failed: u32,
) -> Option<(SystemHealthModel, Seq<char>)> {
    match spec_parse_u64(s) {
        Option::None => Option::None,
        Option::Some((uptime, s6)) => if !starts_with(s6, ",\"cpu_usage_percent\":"@) {
            Option::None
        } else {
            match spec_parse_u64(s6.skip(",\"cpu_usage_percent\":"@.len() as int)) {
                Option::None => Option::None,
                Option::Some((cpu, s7)) => if cpu > u32::MAX || !starts_with(
                    s7,
                    ",\"memory_usage_bytes\":"@,
                ) {
                    Option::None
                } else {
                    match spec_parse_u64(s7.skip(",\"memory_usage_bytes\":"@.len() as int)) {
                        Option::None => Option::None,
                        Option::Some((memory, s8)) => if !starts_with(
                            s8,
                            ",\"temperature_celsius\":"@,
                        ) {
                            Option::None
                        } else {
                            match spec_parse_i64(
                                s8.skip(",\"temperature_celsius\":"@.len() as int),
                            ) {
                                Option::None => Option::None,
                                Option::Some((temperature, s9)) => if !starts_with(
                                    s9,
                                    ",\"error_message\":"@,
                                ) {
                                    Option::None
                                } else {
                                    match spec_parse_opt_text(
                                        s9.skip(",\"error_message\":"@.len() as int),
                                    ) {
                                        Option::None => Option::None,
                                        Option::Some((error_message, s10)) => if !starts_with(
                                            s10,
                                            "}"@,
                                        ) {
                                            Option::None
                                        } else {
                                            Option::Some(
                                                (
                                                    SystemHealthModel {
                                                        status,
                                                        timestamp,
                                                        healthy_components: healthy,
                                                        degraded_components: degraded,
                                                        failed_components: failed,
                                                        uptime_seconds: uptime,
                                                        cpu_usage_percent: cpu as u32,
                                                        memory_usage_bytes: memory,
                                                        temperature_celsius: temperature,
                                                        error_message,
                                                    },
                                                    s10.skip(1),
                                                ),
                                            )
                                        },
                                    }
                                },
                            }
                        },
                    }
                },
            }
        },
    }
}

/// Printing a health snapshot and parsing it back yields the original:
/// the tail fields, from the uptime on.
pub proof fn lemma_parse_print_health_tail(h: SystemHealthModel, rest: Seq<char>)
    ensures
        spec_parse_health_tail(
            spec_u64_dec(h.uptime_seconds as nat) + (",\"cpu_usage_percent\":"@ + (spec_u64_dec(
                h.cpu_usage_percent as nat,
            ) + (",\"memory_usage_bytes\":"@ + (spec_u64_dec(h.memory_usage_bytes as nat) + (
            ",\"temperature_celsius\":"@ + (spec_i64_dec(h.temperature_celsius as int) + (
            ",\"error_message\":"@ + (spec_opt_text(h.error_message) + ("}"@ + rest))))))))),
            h.status,
            h.timestamp,
            h.healthy_components,
            h.degraded_components,
            h.failed_components,
        ) == Option::Some((h, rest)),
{
    reveal_strlit(",\"cpu_usage_percent\":");
    reveal_strlit(",\"memory_usage_bytes\":");
    reveal_strlit(",\"temperature_celsius\":");
    reveal_strlit(",\"error_message\":");
    reveal_strlit("}");
    let t10 = "}"@ + rest;
    let t9e = spec_opt_text(h.error_message) + t10;
    let t9 = ",\"error_message\":"@ + t9e;
    let t8t = spec_i64_dec(h.temperature_celsius as int) + t9;
    let t8 = ",\"temperature_celsius\":"@ + t8t;
    let t7m = spec_u64_dec(h.memory_usage_bytes as nat) + t8;
    let t7 = ",\"memory_usage_bytes\":"@ + t7m;
    let t6c = spec_u64_dec(h.cpu_usage_percent as nat) + t7;
    let t6 = ",\"cpu_usage_percent\":"@ + t6c;
    let t5u = spec_u64_dec(h.uptime_seconds as nat) + t6;
    assert(t6[0] == ',');
    lemma_parse_print_u64(h.uptime_seconds, t6);
    lemma_starts_with_concat(",\"cpu_usage_percent\":"@, t6c);
    assert(t7[0] == ',');
    lemma_parse_print_u64(h.cpu_usage_percent as u64, t7);
    lemma_starts_with_concat(",\"memory_usage_bytes\":"@, t7m);
    assert(t8[0] == ',');
    lemma_parse_print_u64(h.memory_usage_bytes, t8);
    lemma_starts_with_concat(",\"temperature_celsius\":"@, t8t);
    assert(t9[0] == ',');
    lemma_parse_print_i64(h.temperature_celsius, t9);
    lemma_starts_with_concat(",\"error_message\":"@, t9e);
    lemma_parse_print_opt_text(h.error_message, t10);
    lemma_starts_with_concat("}"@, rest);
}

/// Concatenation of character sequences is associative.
pub proof fn lemma_concat_assoc(a: Seq<char>, b: Seq<char>, c: Seq<char>)
    ensures
        (a + b) + c == a + (b + c),
{
    assert((a + b) + c =~= a + (b + c));
}

/// The flat health rendering regrouped as its leading literal and the
/// right-nested chain of the remaining pieces.
proof fn lemma_health_json_shape(h: SystemHealthModel, rest: Seq<char>)
    ensures
        spec_health_json(h) + rest == "{\"status\":\""@ + (spec_status_wire(h.status) + (
        "\",\"timestamp\":"@ + (spec_quoted(h.timestamp) + (",\"healthy_components\":"@ + (
        spec_u64_dec(h.healthy_components as nat) + (",\"degraded_components\":"@ + (
        spec_u64_dec(h.degraded_components as nat) + (",\"failed_components\":"@ + (spec_u64_dec(
            h.failed_components as nat,
        ) + (",\"uptime_seconds\":"@ + (spec_u64_dec(h.uptime_seconds as nat) + (
        ",\"cpu_usage_percent\":"@ + (spec_u64_dec(h.cpu_usage_percent as nat) + (
        ",\"memory_usage_bytes\":"@ + (spec_u64_dec(h.memory_usage_bytes as nat) + (
        ",\"temperature_celsius\":"@ + (spec_i64_dec(h.temperature_celsius as int) + (
        ",\"error_message\":"@ + (spec_opt_text(h.error_message) + ("}"@ + rest))))))))))))))))))
        )),
{
    let a1 = "{\"status\":\""@;
    let a2 = spec_status_wire(h.status);
    let a3 = "\",\"timestamp\":"@;
    let a4 = spec_quoted(h.timestamp);
    let a5 = ",\"healthy_components\":"@;
    let a6 = spec_u64_dec(h.healthy_components as nat);
    let a7 = ",\"degraded_components\":"@;
    let a8 = spec_u64_dec(h.degraded_components as nat);
    let a9 = ",\"failed_components\":"@;
    let a10 = spec_u64_dec(h.failed_components as nat);
    let a11 = ",\"uptime_seconds\":"@;
    let a12 = spec_u64_dec(h.uptime_seconds as nat);
    let a13 = ",\"cpu_usage_percent\":"@;
    let a14 = spec_u64_dec(h.cpu_usage_percent as nat);
    let a15 = ",\"memory_usage_bytes\":"@;
    let a16 = spec_u64_dec(h.memory_usage_bytes as nat);
    let a17 = ",\"temperature_celsius\":"@;
    let a18 = spec_i64_dec(h.temperature_celsius as int);
    let a19 = ",\"error_message\":"@;
    let a20 = spec_opt_text(h.error_message);
    let a21 = "}"@;
    lemma_concat_assoc(a1 + a2 + a3 + a4 + a5 + a6 + a7 + a8 + a9 + a10 + a11 + a12 + a13 + a14
        + a15 + a16 + a17 + a18 + a19 + a20, a21, rest);
    lemma_concat_assoc(a1 + a2 + a3 + a4 + a5 + a6 + a7 + a8 + a9 + a10 + a11 + a12 + a13 + a14
        + a15 + a16 + a17 + a18 + a19, a20, a21 + rest);
    lemma_concat_assoc(a1 + a2 + a3 + a4 + a5 + a6 + a7 + a8 + a9 + a10 + a11 + a12 + a13 + a14
        + a15 + a16 + a17 + a18, a19, a20 + (a21 + rest));
    lemma_concat_assoc(a1 + a2 + a3 + a4 + a5 + a6 + a7 + a8 + a9 + a10 + a11 + a12 + a13 + a14
        + a15 + a16 + a17, a18, a19 + (a20 + (a21 + rest)));
    lemma_concat_assoc(a1 + a2 + a3 + a4 + a5 + a6 + a7 + a8 + a9 + a10 + a11 + a12 + a13 + a14
        + a15 + a16, a17, a18 + (a19 + (a20 + (a21 + rest))));
    lemma_concat_assoc(a1 + a2 + a3 + a4 + a5 + a6 + a7 + a8 + a9 + a10 + a11 + a12 + a13 + a14
        + a15, a16, a17 + (a18 + (a19 + (a20 + (a21 + rest)))));
    lemma_concat_assoc(a1 + a2 + a3 + a4 + a5 + a6 + a7 + a8 + a9 + a10 + a11 + a12 + a13 + a14,
        a15, a16 + (a17 + (a18 + (a19 + (a20 + (a21 + rest))))));
    lemma_concat_assoc(a1 + a2 + a3 + a4 + a5 + a6 + a7 + a8 + a9 + a10 + a11 + a12 + a13, a14,
        a15 + (a16 + (a17 + (a18 + (a19 + (a20 + (a21 + rest)))))));
    lemma_concat_assoc(a1 + a2 + a3 + a4 + a5 + a6 + a7 + a8 + a9 + a10 + a11 + a12, a13, a14 + (
    a15 + (a16 + (a17 + (a18 + (a19 + (a20 + (a21 + rest))))))));
    lemma_concat_assoc(a1 + a2 + a3 + a4 + a5 + a6 + a7 + a8 + a9 + a10 + a11, a12, a13 + (a14 + (
    a15 + (a16 + (a17 + (a18 + (a19 + (a20 + (a21 + rest)))))))));
    lemma_concat_assoc(a1 + a2 + a3 + a4 + a5 + a6 + a7 + a8 + a9 + a10, a11, a12 + (a13 + (a14 + (
    a15 + (a16 + (a17 + (a18 + (a19 + (a20 + (a21 + rest))))))))));
    lemma_concat_assoc(a1 + a2 + a3 + a4 + a5 + a6 + a7 + a8 + a9, a10, a11 + (a12 + (a13 + (a14
        + (a15 + (a16 + (a17 + (a18 + (a19 + (a20 + (a21 + rest)))))))))));
    lemma_concat_assoc(a1 + a2 + a3 + a4 + a5 + a6 + a7 + a8, a9, a10 + (a11 + (a12 + (a13 + (a14
        + (a15 + (a16 + (a17 + (a18 + (a19 + (a20 + (a21 + rest))))))))))));
    lemma_concat_assoc(a1 + a2 + a3 + a4 + a5 + a6 + a7, a8, a9 + (a10 + (a11 + (a12 + (a13 + (a14
        + (a15 + (a16 + (a17 + (a18 + (a19 + (a20 + (a21 + rest)))))))))))));
    lemma_concat_assoc(a1 + a2 + a3 + a4 + a5 + a6, a7, a8 + (a9 + (a10 + (a11 + (a12 + (a13 + (
    a14 + (a15 + (a16 + (a17 + (a18 + (a19 + (a20 + (a21 + rest))))))))))))));
    lemma_concat_assoc(a1 + a2 + a3 + a4 + a5, a6, a7 + (a8 + (a9 + (a10 + (a11 + (a12 + (a13 + (
    a14 + (a15 + (a16 + (a17 + (a18 + (a19 + (a20 + (a21 + rest)))))))))))))));
    lemma_concat_assoc(a1 + a2 + a3 + a4, a5, a6 + (a7 + (a8 + (a9 + (a10 + (a11 + (a12 + (a13 + (
    a14 + (a15 + (a16 + (a17 + (a18 + (a19 + (a20 + (a21 + rest))))))))))))))));
    lemma_concat_assoc(a1 + a2 + a3, a4, a5 + (a6 + (a7 + (a8 + (a9 + (a10 + (a11 + (a12 + (a13 + (
    a14 + (a15 + (a16 + (a17 + (a18 + (a19 + (a20 + (a21 + rest)))))))))))))))));
    lemma_concat_assoc(a1 + a2, a3, a4 + (a5 + (a6 + (a7 + (a8 + (a9 + (a10 + (a11 + (a12 + (a13
        + (a14 + (a15 + (a16 + (a17 + (a18 + (a19 + (a20 + (a21 + rest))))))))))))))))));
    lemma_concat_assoc(a1, a2, a3 + (a4 + (a5 + (a6 + (a7 + (a8 + (a9 + (a10 + (a11 + (a12 + (a13
        + (a14 + (a15 + (a16 + (a17 + (a18 + (a19 + (a20 + (a21 + rest)))))))))))))))))));
}

/// Printing a health snapshot and parsing it back yields the original.
#[verifier::rlimit(100)]
pub proof fn lemma_parse_print_health(h: SystemHealthModel, rest: Seq<char>)
    ensures
        spec_parse_health(spec_health_json(h) + rest) == Option::Some((h, rest)),
{
    reveal_strlit("{\"status\":\"");
    reveal_strlit("\",\"timestamp\":");
    reveal_strlit(",\"healthy_components\":");
    reveal_strlit(",\"degraded_components\":");
    reveal_strlit(",\"failed_components\":");
    reveal_strlit(",\"uptime_seconds\":");
    let s = spec_health_json(h) + rest;
    let t5u = spec_u64_dec(h.uptime_seconds as nat) + (",\"cpu_usage_percent\":"@ + (
    spec_u64_dec(h.cpu_usage_percent as nat) + (",\"memory_usage_bytes\":"@ + (spec_u64_dec(
        h.memory_usage_bytes as nat,
    ) + (",\"temperature_celsius\":"@ + (spec_i64_dec(h.temperature_celsius as int) + (
    ",\"error_message\":"@ + (spec_opt_text(h.error_message) + ("}"@ + rest)))))))));
    let t5 = ",\"uptime_seconds\":"@ + t5u;
    let t4f = spec_u64_dec(h.failed_components as nat) + t5;
    let t4 = ",\"failed_components\":"@ + t4f;
    let t3d = spec_u64_dec(h.degraded_components as nat) + t4;
    let t3 = ",\"degraded_components\":"@ + t3d;
    let t2h = spec_u64_dec(h.healthy_components as nat) + t3;
    let t2 = ",\"healthy_components\":"@ + t2h;
    let t1q = spec_quoted(h.timestamp) + t2;
    let t1 = "\",\"timestamp\":"@ + t1q;
    let t0 = spec_status_wire(h.status) + t1;
    lemma_health_json_shape(h, rest);
    lemma_starts_with_concat("{\"status\":\""@, t0);
    lemma_parse_print_status(h.status, t1);
    lemma_starts_with_concat("\",\"timestamp\":"@, t1q);
    lemma_parse_print_quoted(h.timestamp, t2);
    lemma_starts_with_concat(",\"healthy_components\":"@, t2h);
    assert(t3[0] == ',');
    lemma_parse_print_u64(h.healthy_components as u64, t3);
    lemma_starts_with_concat(",\"degraded_components\":"@, t3d);
    assert(t4[0] == ',');
    lemma_parse_print_u64(h.degraded_components as u64, t4);
    lemma_starts_with_concat(",\"failed_components\":"@, t4f);
    assert(t5[0] == ',');
    lemma_parse_print_u64(h.failed_components as u64, t5);
    lemma_starts_with_concat(",\"uptime_seconds\":"@, t5u);
    lemma_parse_print_health_tail(h, rest);
}

/// Append the canonical wire text of a health snapshot.
#[verifier::rlimit(100)]
pub fn push_health_json(out: &mut String, h: &SystemHealth)
    ensures
        final(out)@ == old(out)@ + spec_health_json(h@),
{
    out.append("{\"status\":\"");
    push_status(out, h.status);
    out.append("\",\"timestamp\":");
    push_quoted(out, h.timestamp.as_str());
    out.append(",\"healthy_components\":");
    push_u64(out, h.healthy_components as u64);
    out.append(",\"degraded_components\":");
    push_u64(out, h.degraded_components as u64);
    out.append(",\"failed_components\":");
    push_u64(out, h.failed_components as u64);
    out.append(",\"uptime_seconds\":");
    push_u64(out, h.uptime_seconds);
    out.append(",\"cpu_usage_percent\":");
    push_u64(out, h.cpu_usage_percent as u64);
    out.append(",\"memory_usage_bytes\":");
    push_u64(out, h.memory_usage_bytes);
    out.append(",\"temperature_celsius\":");
    push_i64(out, h.temperature_celsius);
    out.append(",\"error_message\":");
    push_opt_text(out, &h.error_message);
    out.append("}");
    proof {
        assert(final(out)@ =~= old(out)@ + spec_health_json(h@));
    }
}

/// Parse the tail of a health snapshot (from the uptime field on) at
/// character index `i`, following [`spec_parse_health_tail`].
#[verifier::rlimit(100)]
fn parse_health_tail_at(
    s: &str,
    i: usize,
    status: HealthStatus,
    timestamp: String,
    healthy: u32,
    degraded: u32,
    failed: u32,
) -> (r: Option<(SystemHealth, usize)>)
    requires
        i <= s@.len(),
    ensures
        match spec_parse_health_tail(
            s@.skip(i as int),
            status,
            timestamp@,
            healthy,
            degraded,
            failed,
        ) {
            Option::Some(p) => r matches Some(q) && q.0@ == p.0 && i <= q.1 <= s@.len()
                && s@.skip(q.1 as int) == p.1,
            Option::None => r is None,
        },
{
    proof {
        reveal_strlit("}");
    }
    let (uptime, e11) = match parse_u64_at(s, i) {
        Option::Some(p) => p,
        Option::None => {
            return Option::None;
        },
    };
    let e12 = match expect_lit(s, e11, ",\"cpu_usage_percent\":") {
        Option::Some(e) => e,
        Option::None => {
            return Option::None;
        },
    };
    let (cpu, e13) = match parse_u64_at(s, e12) {
        Option::Some(p) => p,
        Option::None => {
            return Option::None;
        },
    };
    if cpu > u32::MAX as u64 {
        return Option::None;
    }
    let e14 = match expect_lit(s, e13, ",\"memory_usage_bytes\":") {
        Option::Some(e) => e,
        Option::None => {
            return Option::None;
        },
    };
    let (memory, e15) = match parse_u64_at(s, e14) {
        Option::Some(p) => p,
        Option::None => {
            return Option::None;
        },
    };
    let e16 = match expect_lit(s, e15, ",\"temperature_celsius\":") {
        Option::Some(e) => e,
        Option::None => {
            return Option::None;
        },
    };
    let (temperature, e17) = match parse_i64_at(s, e16) {
        Option::Some(p) => p,
        Option::None => {
            return Option::None;
        },
    };
    let e18 = match expect_lit(s, e17, ",\"error_message\":") {
        Option::Some(e) => e,
        Option::None => {
            return Option::None;
        },
    };
    let (error_message, e19) = match parse_opt_text_at(s, e18) {
        Option::Some(p) => p,
        Option::None => {
            return Option::None;
        },
    };
    let e20 = match expect_lit(s, e19, "}") {
        Option::Some(e) => e,
        Option::None => {
            return Option::None;
        },
    };
    Option::Some(
        (
            SystemHealth {
                status,
                timestamp,
                healthy_components: healthy,
                degraded_components: degraded,
                failed_components: failed,
                uptime_seconds: uptime,
                cpu_usage_percent: cpu as u32,
                memory_usage_bytes: memory,
                temperature_celsius: temperature,
                error_message,
            },
            e20,
        ),
    )
}

/// Parse a health snapshot at character index `i`, following
/// [`spec_parse_health`] on the rest of the input.
#[verifier::rlimit(100)]
pub fn parse_health_at(s: &str, i: usize) -> (r: Option<(SystemHealth, usize)>)
    requires
        i <= s@.len(),
    ensures
        match spec_parse_health(s@.skip(i as int)) {
            Option::Some(p) => r matches Some(q) && q.0@ == p.0 && i <= q.1 <= s@.len()
                && s@.skip(q.1 as int) == p.1,
            Option::None => r is None,
        },
{
    let e0 = match expect_lit(s, i, "{\"status\":\"") {
        Option::Some(e) => e,
        Option::None => {
            return Option::None;
        },
    };
    let (status, e1) = match parse_status_at(s, e0) {
        Option::Some(p) => p,
        Option::None => {
            return Option::None;
        },
    };
    let e2 = match expect_lit(s, e1, "\",\"timestamp\":") {
        Option::Some(e) => e,
        Option::None => {
            return Option::None;
        },
    };
    let (timestamp, e3) = match parse_quoted_at(s, e2) {
        Option::Some(p) => p,
        Option::None => {
            return Option::None;
        },
    };
    let e4 = match expect_lit(s, e3, ",\"healthy_components\":") {
        Option::Some(e) => e,
        Option::None => {
            return Option::None;
        },
    };
    let (healthy, e5) = match parse_u64_at(s, e4) {
        Option::Some(p) => p,
        Option::None => {
            return Option::None;
        },
    };
    if healthy > u32::MAX as u64 {
        return Option::None;
    }
    let e6 = match expect_lit(s, e5, ",\"degraded_components\":") {
        Option::Some(e) => e,
        Option::None => {
            return Option::None;
        },
    };
    let (degraded, e7) = match parse_u64_at(s, e6) {
        Option::Some(p) => p,
        Option::None => {
            return Option::None;
        },
    };
    if degraded > u32::MAX as u64 {
        return Option::None;
    }
    let e8 = match expect_lit(s, e7, ",\"failed_components\":") {
        Option::Some(e) => e,
        Option::None => {
            return Option::None;
        },
    };
    let (failed, e9) = match parse_u64_at(s, e8) {
        Option::Some(p) => p,
        Option::None => {
            return Option::None;
        },
    };
    if failed > u32::MAX as u64 {
        return Option::None;
    }
    let e10 = match expect_lit(s, e9, ",\"uptime_seconds\":") {
        Option::Some(e) => e,
        Option::None => {
            return Option::None;
        },
    };
    parse_health_tail_at(s, e10, status, timestamp, healthy as u32, degraded as u32, failed as u32)
}

// ---------------------------------------------------------------------
// Sensor data
// ---------------------------------------------------------------------

/// Canonical wire text of one sensor datum, as a tagged object.
pub open spec fn spec_data_json(d: SensorDataModel) -> Seq<char> {
    match d {
        SensorDataModel::Temperature { value, unit } => "{\"type\":\"Temperature\",\"value\":"@
            + spec_i64_dec(value as int) + ",\"unit\":"@ + spec_quoted(unit) + "}"@,
        SensorDataModel::Pressure { value, unit } => "{\"type\":\"Pressure\",\"value\":"@
            + spec_i64_dec(value as int) + ",\"unit\":"@ + spec_quoted(unit) + "}"@,
        SensorDataModel::Humidity { value, unit } => "{\"type\":\"Humidity\",\"value\":"@
            + spec_i64_dec(value as int) + ",\"unit\":"@ + spec_quoted(unit) + "}"@,
        SensorDataModel::Gps { latitude, longitude, altitude, accuracy } => (
        "{\"type\":\"Gps\",\"latitude\":"@ + spec_i64_dec(latitude as int)
            + ",\"longitude\":"@ + spec_i64_dec(longitude as int) + ",\"altitude\":"@
            + spec_i64_dec(altitude as int) + ",\"accuracy\":"@ + spec_i64_dec(accuracy as int)
            + "}"@),
        SensorDataModel::Accelerometer { x, y, z, unit } => "{\"type\":\"Accelerometer\",\"x\":"@
            + spec_i64_dec(x as int) + ",\"y\":"@ + spec_i64_dec(y as int) + ",\"z\":"@
            + spec_i64_dec(z as int) + ",\"unit\":"@ + spec_quoted(unit) + "}"@,
        SensorDataModel::Gyroscope { x, y, z, unit } => "{\"type\":\"Gyroscope\",\"x\":"@
            + spec_i64_dec(x as int) + ",\"y\":"@ + spec_i64_dec(y as int) + ",\"z\":"@
            + spec_i64_dec(z as int) + ",\"unit\":"@ + spec_quoted(unit) + "}"@,
        SensorDataModel::Analog { value, unit } => "{\"type\":\"Analog\",\"value\":"@
            + spec_i64_dec(value as int) + ",\"unit\":"@ + spec_quoted(unit) + "}"@,
        SensorDataModel::Digital { state, label } => "{\"type\":\"Digital\",\"state\":"@
            + spec_bool_text(state) + ",\"label\":"@ + spec_quoted(label) + "}"@,
    }
}

/// Parse a value-and-unit tail: a number, the unit field, and the closing
/// brace.
pub open spec fn spec_parse_vu(s: Seq<char>) -> Option<((i64, Seq<char>), Seq<char>)> {
    match spec_parse_i64(s) {
        Option::None => Option::None,
        Option::Some((value, s1)) => if !starts_with(s1, ",\"unit\":"@) {
            Option::None
        } else {
            match spec_parse_quoted(s1.skip(",\"unit\":"@.len() as int)) {
                Option::None => Option::None,
                Option::Some((unit, s2)) => if !starts_with(s2, "}"@) {
                    Option::None
                } else {
                    Option::Some(((value, unit), s2.skip(1)))
                },
            }
        },
    }
}

/// Round trip of the value-and-unit tail.
pub proof fn lemma_parse_print_vu(value: i64, unit: Seq<char>, rest: Seq<char>)
    ensures
        spec_parse_vu(
            spec_i64_dec(value as int) + (",\"unit\":"@ + (spec_quoted(unit) + ("}"@ + rest))),
        ) == Option::Some(((value, unit), rest)),
{
    reveal_strlit(",\"unit\":");
    reveal_strlit("}");
    let t2 = "}"@ + rest;
    let t1q = spec_quoted(unit) + t2;
    let t1 = ",\"unit\":"@ + t1q;
    assert(t1[0] == ',');
    lemma_parse_print_i64(value, t1);
    lemma_starts_with_concat(",\"unit\":"@, t1q);
    lemma_parse_print_quoted(unit, t2);
    lemma_starts_with_concat("}"@, rest);
}

/// Parse a three-axis tail: the x value, then y, z, the unit, and the
/// closing brace.
pub open spec fn spec_parse_xyz(s: Seq<char>) -> Option<
    ((i64, i64, i64, Seq<char>), Seq<char>),
> {
    match spec_parse_i64(s) {
        Option::None => Option::None,
        Option::Some((x, s1)) => if !starts_with(s1, ",\"y\":"@) {
            Option::None
        } else {
            match spec_parse_i64(s1.skip(",\"y\":"@.len() as int)) {
                Option::None => Option::None,
                Option::Some((y, s2)) => if !starts_with(s2, ",\"z\":"@) {
                    Option::None
                } else {
                    match spec_parse_i64(s2.skip(",\"z\":"@.len() as int)) {
                        Option::None => Option::None,
                        Option::Some((z, s3)) => match spec_parse_vu_unitward(s3, x, y, z) {
                            Option::None => Option::None,
                            Option::Some(p) => Option::Some(p),
                        },
                    }
                },
            }
        },
    }
}

/// Tail of the three-axis shape from the unit field on.
pub open spec fn spec_parse_vu_unitward(s: Seq<char>, x: i64, y: i64, z: i64) -> Option<
    ((i64, i64, i64, Seq<char>), Seq<char>),
> {
    if !starts_with(s, ",\"unit\":"@) {
        Option::None
    } else {
        match spec_parse_quoted(s.skip(",\"unit\":"@.len() as int)) {
            Option::None => Option::None,
            Option::Some((unit, s1)) => if !starts_with(s1, "}"@) {
                Option::None
            } else {
                Option::Some(((x, y, z, unit), s1.skip(1)))
            },
        }
    }
}

/// Round trip of the three-axis tail.
pub proof fn lemma_parse_print_xyz(x: i64, y: i64, z: i64, unit: Seq<char>, rest: Seq<char>)
    ensures
        spec_parse_xyz(
            spec_i64_dec(x as int) + (",\"y\":"@ + (spec_i64_dec(y as int) + (",\"z\":"@ + (
            spec_i64_dec(z as int) + (",\"unit\":"@ + (spec_quoted(unit) + ("}"@ + rest))))))),
        ) == Option::Some(((x, y, z, unit), rest)),
{
    reveal_strlit(",\"y\":");
    reveal_strlit(",\"z\":");
    reveal_strlit(",\"unit\":");
    reveal_strlit("}");
    let t4 = "}"@ + rest;
    let t3q = spec_quoted(unit) + t4;
    let t3 = ",\"unit\":"@ + t3q;
    let t2z = spec_i64_dec(z as int) + t3;
    let t2 = ",\"z\":"@ + t2z;
    let t1y = spec_i64_dec(y as int) + t2;
    let t1 = ",\"y\":"@ + t1y;
    assert(t1[0] == ',');
    lemma_parse_print_i64(x, t1);
    lemma_starts_with_concat(",\"y\":"@, t1y);
    assert(t2[0] == ',');
    lemma_parse_print_i64(y, t2);
    lemma_starts_with_concat(",\"z\":"@, t2z);
    assert(t3[0] == ',');
    lemma_parse_print_i64(z, t3);
    lemma_starts_with_concat(",\"unit\":"@, t3q);
    lemma_parse_print_quoted(unit, t4);
    lemma_starts_with_concat("}"@, rest);
}

/// Parse the GPS tail: latitude already cued by the dispatch literal, then
/// longitude, altitude and accuracy.
pub open spec fn spec_parse_gps(s: Seq<char>) -> Option<
    ((i64, i64, i64, i64), Seq<char>),
> {
    match spec_parse_i64(s) {
        Option::None => Option::None,
        Option::Some((latitude, s1)) => if !starts_with(s1, ",\"longitude\":"@) {
            Option::None
        } else {
            match spec_parse_i64(s1.skip(",\"longitude\":"@.len() as int)) {
                Option::None => Option::None,
                Option::Some((longitude, s2)) => if !starts_with(s2, ",\"altitude\":"@) {
                    Option::None
                } else {
                    match spec_parse_i64(s2.skip(",\"altitude\":"@.len() as int)) {
                        Option::None => Option::None,
                        Option::Some((altitude, s3)) => if !starts_with(s3, ",\"accuracy\":"@) {
                            Option::None
                        } else {
                            match spec_parse_i64(s3.skip(",\"accuracy\":"@.len() as int)) {
                                Option::None => Option::None,
                                Option::Some((accuracy, s4)) => if !starts_with(s4, "}"@) {
                                    Option::None
                                } else {
                                    Option::Some(
                                        ((latitude, longitude, altitude, accuracy), s4.skip(1)),
                                    )
                                },
                            }
                        },
                    }
                },
            }
        },
    }
}

/// Round trip of the GPS tail.
pub proof fn lemma_parse_print_gps(
    latitude: i64,
    longitude: i64,
    altitude: i64,
    accuracy: i64,
    rest: Seq<char>,
)
    ensures
        spec_parse_gps(
            spec_i64_dec(latitude as int) + (",\"longitude\":"@ + (spec_i64_dec(longitude as int)
                + (",\"altitude\":"@ + (spec_i64_dec(altitude as int) + (",\"accuracy\":"@ + (
            spec_i64_dec(accuracy as int) + ("}"@ + rest))))))),
        ) == Option::Some(((latitude, longitude, altitude, accuracy), rest)),
{
    reveal_strlit(",\"longitude\":");
    reveal_strlit(",\"altitude\":");
    reveal_strlit(",\"accuracy\":");
    reveal_strlit("}");
    let t4 = "}"@ + rest;
    let t3a = spec_i64_dec(accuracy as int) + t4;
    let t3 = ",\"accuracy\":"@ + t3a;
    let t2a = spec_i64_dec(altitude as int) + t3;
    let t2 = ",\"altitude\":"@ + t2a;
    let t1l = spec_i64_dec(longitude as int) + t2;
    let t1 = ",\"longitude\":"@ + t1l;
    assert(t1[0] == ',');
    lemma_parse_print_i64(latitude, t1);
    lemma_starts_with_concat(",\"longitude\":"@, t1l);
    assert(t2[0] == ',');
    lemma_parse_print_i64(longitude, t2);
    lemma_starts_with_concat(",\"altitude\":"@, t2a);
    assert(t3[0] == ',');
    lemma_parse_print_i64(altitude, t3);
    lemma_starts_with_concat(",\"accuracy\":"@, t3a);
    assert(t4[0] == '}');
    lemma_parse_print_i64(accuracy, t4);
    lemma_starts_with_concat("}"@, rest);
}

/// Parse the digital tail: the state and the label.
pub open spec fn spec_parse_digital(s: Seq<char>) -> Option<((bool, Seq<char>), Seq<char>)> {
    match spec_parse_bool(s) {
        Option::None => Option::None,
        Option::Some((state, s1)) => if !starts_with(s1, ",\"label\":"@) {
            Option::None
        } else {
            match spec_parse_quoted(s1.skip(",\"label\":"@.len() as int)) {
                Option::None => Option::None,
                Option::Some((label, s2)) => if !starts_with(s2, "}"@) {
                    Option::None
                } else {
                    Option::Some(((state, label), s2.skip(1)))
                },
            }
        },
    }
}

/// Round trip of the digital tail.
pub proof fn lemma_parse_print_digital(state: bool, label: Seq<char>, rest: Seq<char>)
    ensures
        spec_parse_digital(
            spec_bool_text(state) + (",\"label\":"@ + (spec_quoted(label) + ("}"@ + rest))),
        ) == Option::Some(((state, label), rest)),
{
    reveal_strlit(",\"label\":");
    reveal_strlit("}");
    let t2 = "}"@ + rest;
    let t1q = spec_quoted(label) + t2;
    let t1 = ",\"label\":"@ + t1q;
    lemma_parse_print_bool(state, t1);
    lemma_starts_with_concat(",\"label\":"@, t1q);
    lemma_parse_print_quoted(label, t2);
    lemma_starts_with_concat("}"@, rest);
}

/// Parse one sensor datum from the front of `s`, dispatching on its tag.
pub open spec fn spec_parse_data(s: Seq<char>) -> Option<(SensorDataModel, Seq<char>)> {
    if starts_with(s, "{\"type\":\"Temperature\",\"value\":"@) {
        match spec_parse_vu(s.skip("{\"type\":\"Temperature\",\"value\":"@.len() as int)) {
            Option::None => Option::None,
            Option::Some(((value, unit), s1)) => Option::Some(
                (SensorDataModel::Temperature { value, unit }, s1),
            ),
        }
    } else if starts_with(s, "{\"type\":\"Pressure\",\"value\":"@) {
        match spec_parse_vu(s.skip("{\"type\":\"Pressure\",\"value\":"@.len() as int)) {
            Option::None => Option::None,
            Option::Some(((value, unit), s1)) => Option::Some(
                (SensorDataModel::Pressure { value, unit }, s1),
            ),
        }
    } else if starts_with(s, "{\"type\":\"Humidity\",\"value\":"@) {
        match spec_parse_vu(s.skip("{\"type\":\"Humidity\",\"value\":"@.len() as int)) {
            Option::None => Option::None,
            Option::Some(((value, unit), s1)) => Option::Some(
                (SensorDataModel::Humidity { value, unit }, s1),
            ),
        }
    } else if starts_with(s, "{\"type\":\"Gps\",\"latitude\":"@) {
        match spec_parse_gps(s.skip("{\"type\":\"Gps\",\"latitude\":"@.len() as int)) {
            Option::None => Option::None,
            Option::Some(((latitude, longitude, altitude, accuracy), s1)) => Option::Some(
                (SensorDataModel::Gps { latitude, longitude, altitude, accuracy }, s1),
            ),
        }
    } else if starts_with(s, "{\"type\":\"Accelerometer\",\"x\":"@) {
        match spec_parse_xyz(s.skip("{\"type\":\"Accelerometer\",\"x\":"@.len() as int)) {
            Option::None => Option::None,
            Option::Some(((x, y, z, unit), s1)) => Option::Some(
                (SensorDataModel::Accelerometer { x, y, z, unit }, s1),
            ),
        }
    } else if starts_with(s, "{\"type\":\"Gyroscope\",\"x\":"@) {
        match spec_parse_xyz(s.skip("{\"type\":\"Gyroscope\",\"x\":"@.len() as int)) {
            Option::None => Option::None,
            Option::Some(((x, y, z, unit), s1)) => Option::Some(
                (SensorDataModel::Gyroscope { x, y, z, unit }, s1),
            ),
        }
    } else if starts_with(s, "{\"type\":\"Analog\",\"value\":"@) {
        match spec_parse_vu(s.skip("{\"type\":\"Analog\",\"value\":"@.len() as int)) {
            Option::None => Option::None,
            Option::Some(((value, unit), s1)) => Option::Some(
                (SensorDataModel::Analog { value, unit }, s1),
            ),
        }
    } else if starts_with(s, "{\"type\":\"Digital\",\"state\":"@) {
        match spec_parse_digital(s.skip("{\"type\":\"Digital\",\"state\":"@.len() as int)) {
            Option::None => Option::None,
            Option::Some(((state, label), s1)) => Option::Some(
                (SensorDataModel::Digital { state, label }, s1),
            ),
        }
    } else {
        Option::None
    }
}

/// A sequence that differs from `p` at index `t` does not start with `p`.
pub proof fn lemma_not_starts_with_at(s: Seq<char>, p: Seq<char>, t: int)
    requires
        0 <= t < p.len(),
        t < s.len(),
        s[t] != p[t],
    ensures
        !starts_with(s, p),
{
    if starts_with(s, p) {
        assert(s.take(p.len() as int)[t] == s[t]);
    }
}

/// Round trip of one printed sensor datum: the Temperature variant.
#[verifier::rlimit(100)]
proof fn lemma_ppd_temperature(value: i64, unit: Seq<char>, rest: Seq<char>)
    ensures
        spec_parse_data(spec_data_json(SensorDataModel::Temperature { value, unit }) + rest) == Option::Some(
            (SensorDataModel::Temperature { value, unit }, rest),
        ),
{
    reveal_strlit("{\"type\":\"Temperature\",\"value\":");
    let s = spec_data_json(SensorDataModel::Temperature { value, unit }) + rest;
    let tail = spec_i64_dec(value as int) + (",\"unit\":"@ + (spec_quoted(unit) + ("}"@ + rest)));
    assert(s =~= "{\"type\":\"Temperature\",\"value\":"@ + tail);
    lemma_starts_with_concat("{\"type\":\"Temperature\",\"value\":"@, tail);


    lemma_parse_print_vu(value, unit, rest);
}

/// Round trip of one printed sensor datum: the Pressure variant.
#[verifier::rlimit(100)]
proof fn lemma_ppd_pressure(value: i64, unit: Seq<char>, rest: Seq<char>)
    ensures
        spec_parse_data(spec_data_json(SensorDataModel::Pressure { value, unit }) + rest) == Option::Some(
            (SensorDataModel::Pressure { value, unit }, rest),
        ),
{
    reveal_strlit("{\"type\":\"Temperature\",\"value\":");
    reveal_strlit("{\"type\":\"Pressure\",\"value\":");
    let s = spec_data_json(SensorDataModel::Pressure { value, unit }) + rest;
    let tail = spec_i64_dec(value as int) + (",\"unit\":"@ + (spec_quoted(unit) + ("}"@ + rest)));
    assert(s =~= "{\"type\":\"Pressure\",\"value\":"@ + tail);
    lemma_starts_with_concat("{\"type\":\"Pressure\",\"value\":"@, tail);
    assert(s[9] == 'P');
    lemma_not_starts_with_at(s, "{\"type\":\"Temperature\",\"value\":"@, 9);
    lemma_parse_print_vu(value, unit, rest);
}

/// Round trip of one printed sensor datum: the Humidity variant.
#[verifier::rlimit(100)]
proof fn lemma_ppd_humidity(value: i64, unit: Seq<char>, rest: Seq<char>)
    ensures
        spec_parse_data(spec_data_json(SensorDataModel::Humidity { value, unit }) + rest) == Option::Some(
            (SensorDataModel::Humidity { value, unit }, rest),
        ),
{
    reveal_strlit("{\"type\":\"Temperature\",\"value\":");
    reveal_strlit("{\"type\":\"Pressure\",\"value\":");
    reveal_strlit("{\"type\":\"Humidity\",\"value\":");
    let s = spec_data_json(SensorDataModel::Humidity { value, unit }) + rest;
    let tail = spec_i64_dec(value as int) + (",\"unit\":"@ + (spec_quoted(unit) + ("}"@ + rest)));
    assert(s =~= "{\"type\":\"Humidity\",\"value\":"@ + tail);
    lemma_starts_with_concat("{\"type\":\"Humidity\",\"value\":"@, tail);
    assert(s[9] == 'H');
    lemma_not_starts_with_at(s, "{\"type\":\"Temperature\",\"value\":"@, 9);
    lemma_not_starts_with_at(s, "{\"type\":\"Pressure\",\"value\":"@, 9);
    lemma_parse_print_vu(value, unit, rest);
}

/// Round trip of one printed sensor datum: the Gps variant.
#[verifier::rlimit(100)]
proof fn lemma_ppd_gps(latitude: i64, longitude: i64, altitude: i64, accuracy: i64, rest: Seq<char>)
    ensures
        spec_parse_data(spec_data_json(SensorDataModel::Gps { latitude, longitude, altitude, accuracy }) + rest) == Option::Some(
            (SensorDataModel::Gps { latitude, longitude, altitude, accuracy }, rest),
        ),
{
    reveal_strlit("{\"type\":\"Temperature\",\"value\":");
    reveal_strlit("{\"type\":\"Pressure\",\"value\":");
    reveal_strlit("{\"type\":\"Humidity\",\"value\":");
    reveal_strlit("{\"type\":\"Gps\",\"latitude\":");
    let s = spec_data_json(SensorDataModel::Gps { latitude, longitude, altitude, accuracy }) + rest;
    let tail = spec_i64_dec(latitude as int) + (",\"longitude\":"@ + (spec_i64_dec(longitude as int)
        + (",\"altitude\":"@ + (spec_i64_dec(altitude as int) + (",\"accuracy\":"@ + (
    spec_i64_dec(accuracy as int) + ("}"@ + rest)))))));
    assert(s =~= "{\"type\":\"Gps\",\"latitude\":"@ + tail);
    lemma_starts_with_concat("{\"type\":\"Gps\",\"latitude\":"@, tail);
    assert(s[9] == 'G');
    lemma_not_starts_with_at(s, "{\"type\":\"Temperature\",\"value\":"@, 9);
    lemma_not_starts_with_at(s, "{\"type\":\"Pressure\",\"value\":"@, 9);
    lemma_not_starts_with_at(s, "{\"type\":\"Humidity\",\"value\":"@, 9);
    lemma_parse_print_gps(latitude, longitude, altitude, accuracy, rest);
}

/// Round trip of one printed sensor datum: the Accelerometer variant.
#[verifier::rlimit(100)]
proof fn lemma_ppd_accelerometer(x: i64, y: i64, z: i64, unit: Seq<char>, rest: Seq<char>)
    ensures
        spec_parse_data(spec_data_json(SensorDataModel::Accelerometer { x, y, z, unit }) + rest) == Option::Some(
            (SensorDataModel::Accelerometer { x, y, z, unit }, rest),
        ),
{
    reveal_strlit("{\"type\":\"Temperature\",\"value\":");
    reveal_strlit("{\"type\":\"Pressure\",\"value\":");
    reveal_strlit("{\"type\":\"Humidity\",\"value\":");
    reveal_strlit("{\"type\":\"Gps\",\"latitude\":");
    reveal_strlit("{\"type\":\"Accelerometer\",\"x\":");
    let s = spec_data_json(SensorDataModel::Accelerometer { x, y, z, unit }) + rest;
    let tail = spec_i64_dec(x as int) + (",\"y\":"@ + (spec_i64_dec(y as int) + (",\"z\":"@ + (
    spec_i64_dec(z as int) + (",\"unit\":"@ + (spec_quoted(unit) + ("}"@ + rest)))))));
    assert(s =~= "{\"type\":\"Accelerometer\",\"x\":"@ + tail);
    lemma_starts_with_concat("{\"type\":\"Accelerometer\",\"x\":"@, tail);
    assert(s[9] == 'A');
    lemma_not_starts_with_at(s, "{\"type\":\"Temperature\",\"value\":"@, 9);
    lemma_not_starts_with_at(s, "{\"type\":\"Pressure\",\"value\":"@, 9);
    lemma_not_starts_with_at(s, "{\"type\":\"Humidity\",\"value\":"@, 9);
    lemma_not_starts_with_at(s, "{\"type\":\"Gps\",\"latitude\":"@, 9);
    lemma_parse_print_xyz(x, y, z, unit, rest);
}

/// Round trip of one printed sensor datum: the Gyroscope variant.
#[verifier::rlimit(100)]
proof fn lemma_ppd_gyroscope(x: i64, y: i64, z: i64, unit: Seq<char>, rest: Seq<char>)
    ensures
        spec_parse_data(spec_data_json(SensorDataModel::Gyroscope { x, y, z, unit }) + rest) == Option::Some(
            (SensorDataModel::Gyroscope { x, y, z, unit }, rest),
        ),
{
    reveal_strlit("{\"type\":\"Temperature\",\"value\":");
    reveal_strlit("{\"type\":\"Pressure\",\"value\":");
    reveal_strlit("{\"type\":\"Humidity\",\"value\":");
    reveal_strlit("{\"type\":\"Gps\",\"latitude\":");
    reveal_strlit("{\"type\":\"Accelerometer\",\"x\":");
    reveal_strlit("{\"type\":\"Gyroscope\",\"x\":");
    let s = spec_data_json(SensorDataModel::Gyroscope { x, y, z, unit }) + rest;
    let tail = spec_i64_dec(x as int) + (",\"y\":"@ + (spec_i64_dec(y as int) + (",\"z\":"@ + (
    spec_i64_dec(z as int) + (",\"unit\":"@ + (spec_quoted(unit) + ("}"@ + rest)))))));
    assert(s =~= "{\"type\":\"Gyroscope\",\"x\":"@ + tail);
    lemma_starts_with_concat("{\"type\":\"Gyroscope\",\"x\":"@, tail);
    assert(s[9] == 'G');
    assert(s[10] == 'y');
    lemma_not_starts_with_at(s, "{\"type\":\"Temperature\",\"value\":"@, 9);
    lemma_not_starts_with_at(s, "{\"type\":\"Pressure\",\"value\":"@, 9);
    lemma_not_starts_with_at(s, "{\"type\":\"Humidity\",\"value\":"@, 9);
    lemma_not_starts_with_at(s, "{\"type\":\"Gps\",\"latitude\":"@, 10);
    lemma_not_starts_with_at(s, "{\"type\":\"Accelerometer\",\"x\":"@, 9);
    lemma_parse_print_xyz(x, y, z, unit, rest);
}

/// Round trip of one printed sensor datum: the Analog variant.
#[verifier::rlimit(100)]
proof fn lemma_ppd_analog(value: i64, unit: Seq<char>, rest: Seq<char>)
    ensures
        spec_parse_data(spec_data_json(SensorDataModel::Analog { value, unit }) + rest) == Option::Some(
            (SensorDataModel::Analog { value, unit }, rest),
        ),
{
    reveal_strlit("{\"type\":\"Temperature\",\"value\":");
    reveal_strlit("{\"type\":\"Pressure\",\"value\":");
    reveal_strlit("{\"type\":\"Humidity\",\"value\":");
    reveal_strlit("{\"type\":\"Gps\",\"latitude\":");
    reveal_strlit("{\"type\":\"Accelerometer\",\"x\":");
    reveal_strlit("{\"type\":\"Gyroscope\",\"x\":");
    reveal_strlit("{\"type\":\"Analog\",\"value\":");
    let s = spec_data_json(SensorDataModel::Analog { value, unit }) + rest;
    let tail = spec_i64_dec(value as int) + (",\"unit\":"@ + (spec_quoted(unit) + ("}"@ + rest)));
    assert(s =~= "{\"type\":\"Analog\",\"value\":"@ + tail);
    lemma_starts_with_concat("{\"type\":\"Analog\",\"value\":"@, tail);
    assert(s[9] == 'A');
    assert(s[10] == 'n');
    lemma_not_starts_with_at(s, "{\"type\":\"Temperature\",\"value\":"@, 9);
    lemma_not_starts_with_at(s, "{\"type\":\"Pressure\",\"value\":"@, 9);
    lemma_not_starts_with_at(s, "{\"type\":\"Humidity\",\"value\":"@, 9);
    lemma_not_starts_with_at(s, "{\"type\":\"Gps\",\"latitude\":"@, 9);
    lemma_not_starts_with_at(s, "{\"type\":\"Accelerometer\",\"x\":"@, 10);
    lemma_not_starts_with_at(s, "{\"type\":\"Gyroscope\",\"x\":"@, 9);
    lemma_parse_print_vu(value, unit, rest);
}

/// Round trip of one printed sensor datum: the Digital variant.
#[verifier::rlimit(100)]
proof fn lemma_ppd_digital(state: bool, label: Seq<char>, rest: Seq<char>)
    ensures
        spec_parse_data(spec_data_json(SensorDataModel::Digital { state, label }) + rest) == Option::Some(
            (SensorDataModel::Digital { state, label }, rest),
        ),
{
    reveal_strlit("{\"type\":\"Temperature\",\"value\":");
    reveal_strlit("{\"type\":\"Pressure\",\"value\":");
    reveal_strlit("{\"type\":\"Humidity\",\"value\":");
    reveal_strlit("{\"type\":\"Gps\",\"latitude\":");
    reveal_strlit("{\"type\":\"Accelerometer\",\"x\":");
    reveal_strlit("{\"type\":\"Gyroscope\",\"x\":");
    reveal_strlit("{\"type\":\"Analog\",\"value\":");
    reveal_strlit("{\"type\":\"Digital\",\"state\":");
    let s = spec_data_json(SensorDataModel::Digital { state, label }) + rest;
    let tail = spec_bool_text(state) + (",\"label\":"@ + (spec_quoted(label) + ("}"@ + rest)));
    assert(s =~= "{\"type\":\"Digital\",\"state\":"@ + tail);
    lemma_starts_with_concat("{\"type\":\"Digital\",\"state\":"@, tail);
    assert(s[9] == 'D');
    lemma_not_starts_with_at(s, "{\"type\":\"Temperature\",\"value\":"@, 9);
    lemma_not_starts_with_at(s, "{\"type\":\"Pressure\",\"value\":"@, 9);
    lemma_not_starts_with_at(s, "{\"type\":\"Humidity\",\"value\":"@, 9);
    lemma_not_starts_with_at(s, "{\"type\":\"Gps\",\"latitude\":"@, 9);
    lemma_not_starts_with_at(s, "{\"type\":\"Accelerometer\",\"x\":"@, 9);
    lemma_not_starts_with_at(s, "{\"type\":\"Gyroscope\",\"x\":"@, 9);
    lemma_not_starts_with_at(s, "{\"type\":\"Analog\",\"value\":"@, 9);
    lemma_parse_print_digital(state, label, rest);
}

/// Printing one sensor datum and parsing it back yields the original.
pub proof fn lemma_parse_print_data(d: SensorDataModel, rest: Seq<char>)
    ensures
        spec_parse_data(spec_data_json(d) + rest) == Option::Some((d, rest)),
{
    match d {
        SensorDataModel::Temperature { value, unit } => lemma_ppd_temperature(value, unit, rest),
        SensorDataModel::Pressure { value, unit } => lemma_ppd_pressure(value, unit, rest),
        SensorDataModel::Humidity { value, unit } => lemma_ppd_humidity(value, unit, rest),
        SensorDataModel::Gps { latitude, longitude, altitude, accuracy } => lemma_ppd_gps(
            latitude,
            longitude,
            altitude,
            accuracy,
            rest,
        ),
        SensorDataModel::Accelerometer { x, y, z, unit } => lemma_ppd_accelerometer(
            x,
            y,
            z,
            unit,
            rest,
        ),
        SensorDataModel::Gyroscope { x, y, z, unit } => lemma_ppd_gyroscope(x, y, z, unit, rest),
        SensorDataModel::Analog { value, unit } => lemma_ppd_analog(value, unit, rest),
        SensorDataModel::Digital { state, label } => lemma_ppd_digital(state, label, rest),
    }
}

/// Append the canonical wire text of one sensor datum.
pub fn push_data_json(out: &mut String, d: &SensorData)
    ensures
        final(out)@ == old(out)@ + spec_data_json(d@),
{
    match d {
        SensorData::Temperature { value, unit } => {
            out.append("{\"type\":\"Temperature\",\"value\":");
            push_i64(out, *value);
            out.append(",\"unit\":");
            push_quoted(out, unit.as_str());
            out.append("}");
        },
        SensorData::Pressure { value, unit } => {
            out.append("{\"type\":\"Pressure\",\"value\":");
            push_i64(out, *value);
            out.append(",\"unit\":");
            push_quoted(out, unit.as_str());
            out.append("}");
        },
        SensorData::Humidity { value, unit } => {
            out.append("{\"type\":\"Humidity\",\"value\":");
            push_i64(out, *value);
            out.append(",\"unit\":");
            push_quoted(out, unit.as_str());
            out.append("}");
        },
        SensorData::Gps { latitude, longitude, altitude, accuracy } => {
            out.append("{\"type\":\"Gps\",\"latitude\":");
            push_i64(out, *latitude);
            out.append(",\"longitude\":");
            push_i64(out, *longitude);
            out.append(",\"altitude\":");
            push_i64(out, *altitude);
            out.append(",\"accuracy\":");
            push_i64(out, *accuracy);
            out.append("}");
        },
        SensorData::Accelerometer { x, y, z, unit } => {
            out.append("{\"type\":\"Accelerometer\",\"x\":");
            push_i64(out, *x);
            out.append(",\"y\":");
            push_i64(out, *y);
            out.append(",\"z\":");
            push_i64(out, *z);
            out.append(",\"unit\":");
            push_quoted(out, unit.as_str());
            out.append("}");
        },
        SensorData::Gyroscope { x, y, z, unit } => {
            out.append("{\"type\":\"Gyroscope\",\"x\":");
            push_i64(out, *x);
            out.append(",\"y\":");
            push_i64(out, *y);
            out.append(",\"z\":");
            push_i64(out, *z);
            out.append(",\"unit\":");
            push_quoted(out, unit.as_str());
            out.append("}");
        },
        SensorData::Analog { value, unit } => {
            out.append("{\"type\":\"Analog\",\"value\":");
            push_i64(out, *value);
            out.append(",\"unit\":");
            push_quoted(out, unit.as_str());
            out.append("}");
        },
        SensorData::Digital { state, label } => {
            out.append("{\"type\":\"Digital\",\"state\":");
            push_bool(out, *state);
            out.append(",\"label\":");
            push_quoted(out, label.as_str());
            out.append("}");
        },
    }
    proof {
        assert(final(out)@ =~= old(out)@ + spec_data_json(d@));
    }
}

/// Parse a value-and-unit tail at character index `i`.
fn parse_vu_at(s: &str, i: usize) -> (r: Option<((i64, String), usize)>)
    requires
        i <= s@.len(),
    ensures
        match spec_parse_vu(s@.skip(i as int)) {
            Option::Some(p) => r matches Some(q) && q.0.0 == p.0.0 && q.0.1@ == p.0.1 && i <= q.1
                <= s@.len() && s@.skip(q.1 as int) == p.1,
            Option::None => r is None,
        },
{
    proof {
        reveal_strlit("}");
    }
    let (value, e1) = match parse_i64_at(s, i) {
        Option::Some(p) => p,
        Option::None => {
            return Option::None;
        },
    };
    let e2 = match expect_lit(s, e1, ",\"unit\":") {
        Option::Some(e) => e,
        Option::None => {
            return Option::None;
        },
    };
    let (unit, e3) = match parse_quoted_at(s, e2) {
        Option::Some(p) => p,
        Option::None => {
            return Option::None;
        },
    };
    let e4 = match expect_lit(s, e3, "}") {
        Option::Some(e) => e,
        Option::None => {
            return Option::None;
        },
    };
    Option::Some(((value, unit), e4))
}

/// Parse a three-axis tail at character index `i`.
fn parse_xyz_at(s: &str, i: usize) -> (r: Option<((i64, i64, i64, String), usize)>)
    requires
        i <= s@.len(),
    ensures
        match spec_parse_xyz(s@.skip(i as int)) {
            Option::Some(p) => r matches Some(q) && q.0.0 == p.0.0 && q.0.1 == p.0.1 && q.0.2
                == p.0.2 && q.0.3@ == p.0.3 && i <= q.1 <= s@.len() && s@.skip(q.1 as int) == p.1,
            Option::None => r is None,
        },
{
    proof {
        reveal_strlit("}");
    }
    let (x, e1) = match parse_i64_at(s, i) {
        Option::Some(p) => p,
        Option::None => {
            return Option::None;
        },
    };
    let e2 = match expect_lit(s, e1, ",\"y\":") {
        Option::Some(e) => e,
        Option::None => {
            return Option::None;
        },
    };
    let (y, e3) = match parse_i64_at(s, e2) {
        Option::Some(p) => p,
        Option::None => {
            return Option::None;
        },
    };
    let e4 = match expect_lit(s, e3, ",\"z\":") {
        Option::Some(e) => e,
        Option::None => {
            return Option::None;
        },
    };
    let (z, e5) = match parse_i64_at(s, e4) {
        Option::Some(p) => p,
        Option::None => {
            return Option::None;
        },
    };
    let e6 = match expect_lit(s, e5, ",\"unit\":") {
        Option::Some(e) => e,
        Option::None => {
            return Option::None;
        },
    };
    let (unit, e7) = match parse_quoted_at(s, e6) {
        Option::Some(p) => p,
        Option::None => {
            return Option::None;
        },
    };
    let e8 = match expect_lit(s, e7, "}") {
        Option::Some(e) => e,
        Option::None => {
            return Option::None;
        },
    };
    Option::Some(((x, y, z, unit), e8))
}

/// Parse a GPS tail at character index `i`.
fn parse_gps_at(s: &str, i: usize) -> (r: Option<((i64, i64, i64, i64), usize)>)
    requires
        i <= s@.len(),
    ensures
        match spec_parse_gps(s@.skip(i as int)) {
            Option::Some(p) => r matches Some(q) && q.0 == p.0 && i <= q.1 <= s@.len() && s@.skip(
                q.1 as int,
            ) == p.1,
            Option::None => r is None,
        },
{
    proof {
        reveal_strlit("}");
    }
    let (latitude, e1) = match parse_i64_at(s, i) {
        Option::Some(p) => p,
        Option::None => {
            return Option::None;
        },
    };
    let e2 = match expect_lit(s, e1, ",\"longitude\":") {
        Option::Some(e) => e,
        Option::None => {
            return Option::None;
        },
    };
    let (longitude, e3) = match parse_i64_at(s, e2) {
        Option::Some(p) => p,
        Option::None => {
            return Option::None;
        },
    };
    let e4 = match expect_lit(s, e3, ",\"altitude\":") {
        Option::Some(e) => e,
        Option::None => {
            return Option::None;
        },
    };
    let (altitude, e5) = match parse_i64_at(s, e4) {
        Option::Some(p) => p,
        Option::None => {
            return Option::None;
        },
    };
    let e6 = match expect_lit(s, e5, ",\"accuracy\":") {
        Option::Some(e) => e,
        Option::None => {
            return Option::None;
        },
    };
    let (accuracy, e7) = match parse_i64_at(s, e6) {
        Option::Some(p) => p,
        Option::None => {
            return Option::None;
        },
    };
    let e8 = match expect_lit(s, e7, "}") {
        Option::Some(e) => e,
        Option::None => {
            return Option::None;
        },
    };
    Option::Some(((latitude, longitude, altitude, accuracy), e8))
}

/// Parse a digital tail at character index `i`.
fn parse_digital_at(s: &str, i: usize) -> (r: Option<((bool, String), usize)>)
    requires
        i <= s@.len(),
    ensures
        match spec_parse_digital(s@.skip(i as int)) {
            Option::Some(p) => r matches Some(q) && q.0.0 == p.0.0 && q.0.1@ == p.0.1 && i <= q.1
                <= s@.len() && s@.skip(q.1 as int) == p.1,
            Option::None => r is None,
        },
{
    proof {
        reveal_strlit("}");
    }
    let (state, e1) = match parse_bool_at(s, i) {
        Option::Some(p) => p,
        Option::None => {
            return Option::None;
        },
    };
    let e2 = match expect_lit(s, e1, ",\"label\":") {
        Option::Some(e) => e,
        Option::None => {
            return Option::None;
        },
    };
    let (label, e3) = match parse_quoted_at(s, e2) {
        Option::Some(p) => p,
        Option::None => {
            return Option::None;
        },
    };
    let e4 = match expect_lit(s, e3, "}") {
        Option::Some(e) => e,
        Option::None => {
            return Option::None;
        },
    };
    Option::Some(((state, label), e4))
}

/// Parse one sensor datum at character index `i`, following
/// [`spec_parse_data`] on the rest of the input.
#[verifier::rlimit(100)]
pub fn parse_data_at(s: &str, i: usize) -> (r: Option<(SensorData, usize)>)
    requires
        i <= s@.len(),
    ensures
        match spec_parse_data(s@.skip(i as int)) {
            Option::Some(p) => r matches Some(q) && q.0@ == p.0 && i <= q.1 <= s@.len()
                && s@.skip(q.1 as int) == p.1,
            Option::None => r is None,
        },
{
    if let Option::Some(e) = expect_lit(s, i, "{\"type\":\"Temperature\",\"value\":") {
        return match parse_vu_at(s, e) {
            Option::Some(((value, unit), e1)) => Option::Some(
                (SensorData::Temperature { value, unit }, e1),
            ),
            Option::None => Option::None,
        };
    }
    if let Option::Some(e) = expect_lit(s, i, "{\"type\":\"Pressure\",\"value\":") {
        return match parse_vu_at(s, e) {
            Option::Some(((value, unit), e1)) => Option::Some(
                (SensorData::Pressure { value, unit }, e1),
            ),
            Option::None => Option::None,
        };
    }
    if let Option::Some(e) = expect_lit(s, i, "{\"type\":\"Humidity\",\"value\":") {
        return match parse_vu_at(s, e) {
            Option::Some(((value, unit), e1)) => Option::Some(
                (SensorData::Humidity { value, unit }, e1),
            ),
            Option::None => Option::None,
        };
    }
    if let Option::Some(e) = expect_lit(s, i, "{\"type\":\"Gps\",\"latitude\":") {
        return match parse_gps_at(s, e) {
            Option::Some(((latitude, longitude, altitude, accuracy), e1)) => Option::Some(
                (SensorData::Gps { latitude, longitude, altitude, accuracy }, e1),
            ),
            Option::None => Option::None,
        };
    }
    if let Option::Some(e) = expect_lit(s, i, "{\"type\":\"Accelerometer\",\"x\":") {
        return match parse_xyz_at(s, e) {
            Option::Some(((x, y, z, unit), e1)) => Option::Some(
                (SensorData::Accelerometer { x, y, z, unit }, e1),
            ),
            Option::None => Option::None,
        };
    }
    if let Option::Some(e) = expect_lit(s, i, "{\"type\":\"Gyroscope\",\"x\":") {
        return match parse_xyz_at(s, e) {
            Option::Some(((x, y, z, unit), e1)) => Option::Some(
                (SensorData::Gyroscope { x, y, z, unit }, e1),
            ),
            Option::None => Option::None,
        };
    }
    if let Option::Some(e) = expect_lit(s, i, "{\"type\":\"Analog\",\"value\":") {
        return match parse_vu_at(s, e) {
            Option::Some(((value, unit), e1)) => Option::Some(
                (SensorData::Analog { value, unit }, e1),
            ),
            Option::None => Option::None,
        };
    }
    if let Option::Some(e) = expect_lit(s, i, "{\"type\":\"Digital\",\"state\":") {
        return match parse_digital_at(s, e) {
            Option::Some(((state, label), e1)) => Option::Some(
                (SensorData::Digital { state, label }, e1),
            ),
            Option::None => Option::None,
        };
    }
    Option::None
}

// ---------------------------------------------------------------------
// Sensor readings
// ---------------------------------------------------------------------

/// Canonical wire text of one sensor reading.
pub open spec fn spec_reading_json(r: SensorReadingModel) -> Seq<char> {
    "{\"component_id\":"@ + spec_quoted(r.component_id) + ",\"component_name\":"@
        + spec_quoted(r.component_name) + ",\"timestamp\":"@ + spec_quoted(r.timestamp)
        + ",\"data\":"@ + spec_data_json(r.data) + ",\"sequence\":"@ + spec_u64_dec(
        r.sequence as nat,
    ) + ",\"confidence\":"@ + spec_u64_dec(r.confidence as nat) + "}"@
}

/// Parse one sensor reading from the front of `s`.
pub open spec fn spec_parse_reading(s: Seq<char>) -> Option<(SensorReadingModel, Seq<char>)> {
    if !starts_with(s, "{\"component_id\":"@) {
        Option::None
    } else {
        match spec_parse_quoted(s.skip("{\"component_id\":"@.len() as int)) {
            Option::None => Option::None,
            Option::Some((component_id, s1)) => if !starts_with(s1, ",\"component_name\":"@) {
                Option::None
            } else {
                match spec_parse_quoted(s1.skip(",\"component_name\":"@.len() as int)) {
                    Option::None => Option::None,
                    Option::Some((component_name, s2)) => if !starts_with(s2, ",\"timestamp\":"@) {
                        Option::None
                    } else {
                        match spec_parse_quoted(s2.skip(",\"timestamp\":"@.len() as int)) {
                            Option::None => Option::None,
                            Option::Some((timestamp, s3)) => if !starts_with(s3, ",\"data\":"@) {
                                Option::None
                            } else {
                                match spec_parse_data(s3.skip(",\"data\":"@.len() as int)) {
                                    Option::None => Option::None,
                                    Option::Some((data, s4)) => if !starts_with(
                                        s4,
                                        ",\"sequence\":"@,
                                    ) {
                                        Option::None
                                    } else {
                                        match spec_parse_u64(
                                            s4.skip(",\"sequence\":"@.len() as int),
                                        ) {
                                            Option::None => Option::None,
                                            Option::Some((sequence, s5)) => if !starts_with(
                                                s5,
                                                ",\"confidence\":"@,
                                            ) {
                                                Option::None
                                            } else {
                                                match spec_parse_u64(
                                                    s5.skip(",\"confidence\":"@.len() as int),
                                                ) {
                                                    Option::None => Option::None,
                                                    Option::Some((confidence, s6)) => if confidence
                                                        > u32::MAX || !starts_with(s6, "}"@) {
                                                        Option::None
                                                    } else {
                                                        Option::Some(
                                                            (
                                                                SensorReadingModel {
                                                                    component_id,
                                                                    component_name,
                                                                    timestamp,
                                                                    data,
                                                                    sequence,
                                                                    confidence: confidence as u32,
                                                                },
                                                                s6.skip(1),
                                                            ),
                                                        )
                                                    },
                                                }
                                            },
                                        }
                                    },
                                }
                            },
                        }
                    },
                }
            },
        }
    }
}

/// The flat reading rendering regrouped as its leading literal and the
/// right-nested chain of the remaining pieces.
proof fn lemma_reading_json_shape(r: SensorReadingModel, rest: Seq<char>)
    ensures
        spec_reading_json(r) + rest == "{\"component_id\":"@ + (spec_quoted(r.component_id) + (
        ",\"component_name\":"@ + (spec_quoted(r.component_name) + (",\"timestamp\":"@ + (
        spec_quoted(r.timestamp) + (",\"data\":"@ + (spec_data_json(r.data) + (
        ",\"sequence\":"@ + (spec_u64_dec(r.sequence as nat) + (",\"confidence\":"@ + (
        spec_u64_dec(r.confidence as nat) + ("}"@ + rest)))))))))))),
{
    let a1 = "{\"component_id\":"@;
    let a2 = spec_quoted(r.component_id);
    let a3 = ",\"component_name\":"@;
    let a4 = spec_quoted(r.component_name);
    let a5 = ",\"timestamp\":"@;
    let a6 = spec_quoted(r.timestamp);
    let a7 = ",\"data\":"@;
    let a8 = spec_data_json(r.data);
    let a9 = ",\"sequence\":"@;
    let a10 = spec_u64_dec(r.sequence as nat);
    let a11 = ",\"confidence\":"@;
    let a12 = spec_u64_dec(r.confidence as nat);
    let a13 = "}"@;
    lemma_concat_assoc(
        a1 + a2 + a3 + a4 + a5 + a6 + a7 + a8 + a9 + a10 + a11 + a12,
        a13,
        rest,
    );
    lemma_concat_assoc(
        a1 + a2 + a3 + a4 + a5 + a6 + a7 + a8 + a9 + a10 + a11,
        a12,
        a13 + rest,
    );
    lemma_concat_assoc(
        a1 + a2 + a3 + a4 + a5 + a6 + a7 + a8 + a9 + a10,
        a11,
        a12 + (a13 + rest),
    );
    lemma_concat_assoc(
        a1 + a2 + a3 + a4 + a5 + a6 + a7 + a8 + a9,
        a10,
        a11 + (a12 + (a13 + rest)),
    );
    lemma_concat_assoc(
        a1 + a2 + a3 + a4 + a5 + a6 + a7 + a8,
        a9,
        a10 + (a11 + (a12 + (a13 + rest))),
    );
    lemma_concat_assoc(
        a1 + a2 + a3 + a4 + a5 + a6 + a7,
        a8,
        a9 + (a10 + (a11 + (a12 + (a13 + rest)))),
    );
    lemma_concat_assoc(
        a1 + a2 + a3 + a4 + a5 + a6,
        a7,
        a8 + (a9 + (a10 + (a11 + (a12 + (a13 + rest))))),
    );
    lemma_concat_assoc(
        a1 + a2 + a3 + a4 + a5,
        a6,
        a7 + (a8 + (a9 + (a10 + (a11 + (a12 + (a13 + rest)))))),
    );
    lemma_concat_assoc(
        a1 + a2 + a3 + a4,
        a5,
        a6 + (a7 + (a8 + (a9 + (a10 + (a11 + (a12 + (a13 + rest))))))),
    );
    lemma_concat_assoc(
        a1 + a2 + a3,
        a4,
        a5 + (a6 + (a7 + (a8 + (a9 + (a10 + (a11 + (a12 + (a13 + rest)))))))),
    );
    lemma_concat_assoc(
        a1 + a2,
        a3,
        a4 + (a5 + (a6 + (a7 + (a8 + (a9 + (a10 + (a11 + (a12 + (a13 + rest))))))))),
    );
    lemma_concat_assoc(
        a1,
        a2,
        a3 + (a4 + (a5 + (a6 + (a7 + (a8 + (a9 + (a10 + (a11 + (a12 + (a13 + rest)))))))))),
    );
}

/// Printing one sensor reading and parsing it back yields the original.
#[verifier::rlimit(100)]
pub proof fn lemma_parse_print_reading(r: SensorReadingModel, rest: Seq<char>)
    ensures
        spec_parse_reading(spec_reading_json(r) + rest) == Option::Some((r, rest)),
{
    reveal_strlit("{\"component_id\":");
    reveal_strlit(",\"component_name\":");
    reveal_strlit(",\"timestamp\":");
    reveal_strlit(",\"data\":");
    reveal_strlit(",\"sequence\":");
    reveal_strlit(",\"confidence\":");
    reveal_strlit("}");
    let t6 = "}"@ + rest;
    let t5c = spec_u64_dec(r.confidence as nat) + t6;
    let t5 = ",\"confidence\":"@ + t5c;
    let t4s = spec_u64_dec(r.sequence as nat) + t5;
    let t4 = ",\"sequence\":"@ + t4s;
    let t3d = spec_data_json(r.data) + t4;
    let t3 = ",\"data\":"@ + t3d;
    let t2q = spec_quoted(r.timestamp) + t3;
    let t2 = ",\"timestamp\":"@ + t2q;
    let t1q = spec_quoted(r.component_name) + t2;
    let t1 = ",\"component_name\":"@ + t1q;
    let t0 = spec_quoted(r.component_id) + t1;
    lemma_reading_json_shape(r, rest);
    lemma_starts_with_concat("{\"component_id\":"@, t0);
    lemma_parse_print_quoted(r.component_id, t1);
    lemma_starts_with_concat(",\"component_name\":"@, t1q);
    lemma_parse_print_quoted(r.component_name, t2);
    lemma_starts_with_concat(",\"timestamp\":"@, t2q);
    lemma_parse_print_quoted(r.timestamp, t3);
    lemma_starts_with_concat(",\"data\":"@, t3d);
    lemma_parse_print_data(r.data, t4);
    lemma_starts_with_concat(",\"sequence\":"@, t4s);
    assert(t5[0] == ',');
    lemma_parse_print_u64(r.sequence, t5);
    lemma_starts_with_concat(",\"confidence\":"@, t5c);
    assert(t6[0] == '}');
    lemma_parse_print_u64(r.confidence as u64, t6);
    lemma_starts_with_concat("}"@, rest);
}

/// Append the canonical wire text of one sensor reading.
#[verifier::rlimit(100)]
pub fn push_reading_json(out: &mut String, r: &SensorReading)
    ensures
        final(out)@ == old(out)@ + spec_reading_json(r@),
{
    out.append("{\"component_id\":");
    push_quoted(out, r.component_id.as_str());
    out.append(",\"component_name\":");
    push_quoted(out, r.component_name.as_str());
    out.append(",\"timestamp\":");
    push_quoted(out, r.timestamp.as_str());
    out.append(",\"data\":");
    push_data_json(out, &r.data);
    out.append(",\"sequence\":");
    push_u64(out, r.sequence);
    out.append(",\"confidence\":");
    push_u64(out, r.confidence as u64);
    out.append("}");
    proof {
        assert(final(out)@ =~= old(out)@ + spec_reading_json(r@));
    }
}

/// Parse one sensor reading at character index `i`, following
/// [`spec_parse_reading`] on the rest of the input.  A successful parse
/// consumes at least one character.
#[verifier::rlimit(100)]
pub fn parse_reading_at(s: &str, i: usize) -> (r: Option<(SensorReading, usize)>)
    requires
        i <= s@.len(),
    ensures
        match spec_parse_reading(s@.skip(i as int)) {
            Option::Some(p) => r matches Some(q) && q.0@ == p.0 && i < q.1 <= s@.len()
                && s@.skip(q.1 as int) == p.1,
            Option::None => r is None,
        },
{
    proof {
        reveal_strlit("{\"component_id\":");
        reveal_strlit("}");
    }
    let e0 = match expect_lit(s, i, "{\"component_id\":") {
        Option::Some(e) => e,
        Option::None => {
            return Option::None;
        },
    };
    let (component_id, e1) = match parse_quoted_at(s, e0) {
        Option::Some(p) => p,
        Option::None => {
            return Option::None;
        },
    };
    let e2 = match expect_lit(s, e1, ",\"component_name\":") {
        Option::Some(e) => e,
        Option::None => {
            return Option::None;
        },
    };
    let (component_name, e3) = match parse_quoted_at(s, e2) {
        Option::Some(p) => p,
        Option::None => {
            return Option::None;
        },
    };
    let e4 = match expect_lit(s, e3, ",\"timestamp\":") {
        Option::Some(e) => e,
        Option::None => {
            return Option::None;
        },
    };
    let (timestamp, e5) = match parse_quoted_at(s, e4) {
        Option::Some(p) => p,
        Option::None => {
            return Option::None;
        },
    };
    let e6 = match expect_lit(s, e5, ",\"data\":") {
        Option::Some(e) => e,
        Option::None => {
            return Option::None;
        },
    };
    let (data, e7) = match parse_data_at(s, e6) {
        Option::Some(p) => p,
        Option::None => {
            return Option::None;
        },
    };
    let e8 = match expect_lit(s, e7, ",\"sequence\":") {
        Option::Some(e) => e,
        Option::None => {
            return Option::None;
        },
    };
    let (sequence, e9) = match parse_u64_at(s, e8) {
        Option::Some(p) => p,
        Option::None => {
            return Option::None;
        },
    };
    let e10 = match expect_lit(s, e9, ",\"confidence\":") {
        Option::Some(e) => e,
        Option::None => {
            return Option::None;
        },
    };
    let (confidence, e11) = match parse_u64_at(s, e10) {
        Option::Some(p) => p,
        Option::None => {
            return Option::None;
        },
    };
    if confidence > u32::MAX as u64 {
        return Option::None;
    }
    let e12 = match expect_lit(s, e11, "}") {
        Option::Some(e) => e,
        Option::None => {
            return Option::None;
        },
    };
    Option::Some(
        (
            SensorReading {
                component_id,
                component_name,
                timestamp,
                data,
                sequence,
                confidence: confidence as u32,
            },
            e12,
        ),
    )
}

// ---------------------------------------------------------------------
// Arrays of sensor readings
// ---------------------------------------------------------------------

/// Canonical wire text of the elements of a reading array, comma
/// separated, without the surrounding brackets.
pub open spec fn spec_readings_items(v: Seq<SensorReadingModel>) -> Seq<char>
    decreases v.len(),
{
    if v.len() == 0 {
        Seq::<char>::empty()
    } else if v.len() == 1 {
        spec_reading_json(v[0])
    } else {
        spec_reading_json(v[0]) + ","@ + spec_readings_items(v.skip(1))
    }
}

/// Canonical wire text of a reading array.
pub open spec fn spec_readings_json(v: Seq<SensorReadingModel>) -> Seq<char> {
    "["@ + spec_readings_items(v) + "]"@
}

/// Parse the elements of a nonempty reading array, including the closing
/// bracket.  The fuel bounds the number of elements; each element consumes
/// at least one character, so the length of the input is always fuel
/// enough.
pub open spec fn spec_parse_readings_items(s: Seq<char>, fuel: nat) -> Option<
    (Seq<SensorReadingModel>, Seq<char>),
>
    decreases fuel,
{
    if fuel == 0 {
        Option::None
    } else {
        match spec_parse_reading(s) {
            Option::None => Option::None,
            Option::Some((r0, s1)) => if s1.len() > 0 && s1[0] == ',' {
                match spec_parse_readings_items(s1.skip(1), (fuel - 1) as nat) {
                    Option::None => Option::None,
                    Option::Some((v, s2)) => Option::Some((seq![r0] + v, s2)),
                }
            } else if s1.len() > 0 && s1[0] == ']' {
                Option::Some((seq![r0], s1.skip(1)))
            } else {
                Option::None
            },
        }
    }
}

/// Parse a reading array from the front of `s`.
pub open spec fn spec_parse_readings(s: Seq<char>) -> Option<
    (Seq<SensorReadingModel>, Seq<char>),
> {
    if s.len() > 0 && s[0] == '[' {
        let t = s.skip(1);
        if t.len() > 0 && t[0] == ']' {
            Option::Some((Seq::<SensorReadingModel>::empty(), t.skip(1)))
        } else {
            spec_parse_readings_items(t, t.len())
        }
    } else {
        Option::None
    }
}

/// Round trip of the elements of a nonempty reading array, for any
/// sufficient fuel.
#[verifier::rlimit(100)]
pub proof fn lemma_parse_print_readings_items(
    v: Seq<SensorReadingModel>,
    rest: Seq<char>,
    fuel: nat,
)
    requires
        v.len() >= 1,
        fuel >= v.len(),
    ensures
        spec_parse_readings_items(spec_readings_items(v) + ("]"@ + rest), fuel) == Option::Some(
            (v, rest),
        ),
    decreases v.len(),
{
    reveal_strlit("]");
    reveal_strlit(",");
    let s = spec_readings_items(v) + ("]"@ + rest);
    if v.len() == 1 {
        lemma_parse_print_reading(v[0], "]"@ + rest);
        assert(("]"@ + rest)[0] == ']');
        assert(("]"@ + rest).skip(1) =~= rest);
        assert(seq![v[0]] =~= v);
    } else {
        let tail = ","@ + (spec_readings_items(v.skip(1)) + ("]"@ + rest));
        assert(s =~= spec_reading_json(v[0]) + tail);
        lemma_parse_print_reading(v[0], tail);
        assert(tail[0] == ',');
        assert(tail.skip(1) =~= spec_readings_items(v.skip(1)) + ("]"@ + rest));
        lemma_parse_print_readings_items(v.skip(1), rest, (fuel - 1) as nat);
        assert(seq![v[0]] + v.skip(1) =~= v);
    }
}

/// Printing a reading array and parsing it back yields the original.
pub proof fn lemma_parse_print_readings(v: Seq<SensorReadingModel>, rest: Seq<char>)
    ensures
        spec_parse_readings(spec_readings_json(v) + rest) == Option::Some((v, rest)),
{
    reveal_strlit("[");
    reveal_strlit("]");
    reveal_strlit("{\"component_id\":");
    let s = spec_readings_json(v) + rest;
    assert(s[0] == '[');
    let t = spec_readings_items(v) + ("]"@ + rest);
    assert(s.skip(1) =~= t);
    if v.len() == 0 {
        assert(t[0] == ']');
        assert(t.skip(1) =~= rest);
    } else {
        // a reading begins with an opening brace, not a closing bracket
        assert(spec_reading_json(v[0])[0] == '{');
        assert(t[0] == '{');
        lemma_readings_items_len(v);
        assert(t.len() >= v.len());
        lemma_parse_print_readings_items(v, rest, t.len());
    }
}

/// Each element of a reading array takes at least two characters of text.
pub proof fn lemma_readings_items_len(v: Seq<SensorReadingModel>)
    ensures
        spec_readings_items(v).len() >= v.len(),
    decreases v.len(),
{
    reveal_strlit("{\"component_id\":");
    if v.len() == 0 {
    } else if v.len() == 1 {
        assert(spec_reading_json(v[0]).len() >= 1);
    } else {
        lemma_readings_items_len(v.skip(1));
        assert(spec_reading_json(v[0]).len() >= 1);
    }
}

/// Append the canonical wire text of a reading array.
pub fn push_readings_json(out: &mut String, v: &Vec<SensorReading>)
    ensures
        final(out)@ == old(out)@ + spec_readings_json(spec_readings(v@)),
{
    proof {
        reveal_strlit("[");
        reveal_strlit("]");
        reveal_strlit(",");
    }
    push_char(out, '[');
    let ghost m = spec_readings(v@);
    let mut i: usize = 0;
    while i < v.len()
        invariant
            0 <= i <= v.len(),
            m == spec_readings(v@),
            m.len() == v.len(),
            out@ == old(out)@ + seq!['['] + spec_items_prefix(m, i as int),
        decreases v.len() - i,
    {
        if i > 0 {
            push_char(out, ',');
        }
        push_reading_json(out, &v[i]);
        proof {
            reveal_strlit(",");
            assert(m[i as int] == v@[i as int]@);
            if i == 0 {
                assert(spec_items_prefix(m, 1) =~= spec_reading_json(m[0]));
            }
            assert(out@ =~= old(out)@ + seq!['['] + spec_items_prefix(m, i + 1));
        }
        i = i + 1;
    }
    push_char(out, ']');
    proof {
        reveal_strlit("[");
        reveal_strlit("]");
        lemma_items_prefix_full(m);
        assert(final(out)@ =~= old(out)@ + spec_readings_json(m));
    }
}

/// The wire text of the first `k` elements of a reading array, comma
/// separated.
pub open spec fn spec_items_prefix(v: Seq<SensorReadingModel>, k: int) -> Seq<char>
    decreases k,
{
    if k <= 0 {
        Seq::<char>::empty()
    } else if k == 1 {
        spec_reading_json(v[0])
    } else {
        spec_items_prefix(v, k - 1) + ","@ + spec_reading_json(v[k - 1])
    }
}

/// The full prefix is the comma-separated element text.
pub proof fn lemma_items_prefix_full(v: Seq<SensorReadingModel>)
    ensures
        spec_items_prefix(v, v.len() as int) == spec_readings_items(v),
    decreases v.len(),
{
    if v.len() > 1 {
        lemma_items_prefix_full(v.skip(1));
        lemma_items_prefix_shift(v, v.len() as int);
        assert(spec_reading_json(v[0]) + ","@ + spec_readings_items(v.skip(1))
            =~= spec_reading_json(v[0]) + (","@ + spec_readings_items(v.skip(1))));
    }
}

/// A prefix of `v` of length `k >= 2` splits off its head element.
pub proof fn lemma_items_prefix_shift(v: Seq<SensorReadingModel>, k: int)
    requires
        2 <= k <= v.len(),
    ensures
        spec_items_prefix(v, k) == spec_reading_json(v[0]) + (","@ + spec_items_prefix(
            v.skip(1),
            k - 1,
        )),
    decreases k,
{
    if k == 2 {
        assert(spec_items_prefix(v, 2) == spec_items_prefix(v, 1) + ","@ + spec_reading_json(
            v[1],
        ));
        assert(spec_items_prefix(v.skip(1), 1) == spec_reading_json(v.skip(1)[0]));
        assert(v.skip(1)[0] == v[1]);
        assert(spec_reading_json(v[0]) + ","@ + spec_reading_json(v[1]) =~= spec_reading_json(
            v[0],
        ) + (","@ + spec_reading_json(v[1])));
    } else {
        lemma_items_prefix_shift(v, k - 1);
        assert(v.skip(1)[k - 2] == v[k - 1]);
        assert((spec_reading_json(v[0]) + (","@ + spec_items_prefix(v.skip(1), k - 2))) + ","@
            + spec_reading_json(v[k - 1]) =~= spec_reading_json(v[0]) + (","@ + (spec_items_prefix(
            v.skip(1),
            k - 2,
        ) + ","@ + spec_reading_json(v.skip(1)[k - 2]))));
    }
}

/// Parse a reading array at character index `i`, following
/// [`spec_parse_readings`] on the rest of the input.
#[verifier::rlimit(100)]
pub fn parse_readings_at(s: &str, i: usize) -> (r: Option<(Vec<SensorReading>, usize)>)
    requires
        i <= s@.len(),
    ensures
        match spec_parse_readings(s@.skip(i as int)) {
            Option::Some(p) => r matches Some(q) && spec_readings(q.0@) == p.0 && i <= q.1
                <= s@.len() && s@.skip(q.1 as int) == p.1,
            Option::None => r is None,
        },
{
    let len = s.unicode_len();
    if !(i < len && s.get_char(i) == '[') {
        proof {
            if s@.skip(i as int).len() > 0 {
                assert(s@.skip(i as int)[0] == s@[i as int]);
            }
        }
        return Option::None;
    }
    proof {
        assert(s@.skip(i as int)[0] == s@[i as int]);
        assert(s@.skip(i as int).skip(1) =~= s@.skip(i + 1));
    }
    let start = i + 1;
    if start < len && s.get_char(start) == ']' {
        proof {
            assert(s@.skip(start as int)[0] == s@[start as int]);
            assert(s@.skip(start as int).skip(1) =~= s@.skip(start + 1));
            assert(spec_readings(Seq::<SensorReading>::empty()) =~= Seq::<
                SensorReadingModel,
            >::empty());
        }
        return Option::Some((Vec::new(), start + 1));
    }
    proof {
        if s@.skip(start as int).len() > 0 {
            assert(s@.skip(start as int)[0] == s@[start as int]);
        }
    }
    let ghost fuel0 = s@.skip(start as int).len();
    let mut out: Vec<SensorReading> = Vec::new();
    let mut j: usize = start;
    proof {
        assert(spec_readings(out@) =~= Seq::<SensorReadingModel>::empty());
        match spec_parse_readings_items(s@.skip(start as int), fuel0) {
            Option::Some(p) => {
                assert(spec_readings(out@) + p.0 =~= p.0);
            },
            Option::None => {},
        }
        assert(spec_parse_readings(s@.skip(i as int)) == spec_parse_readings_items(
            s@.skip(start as int),
            fuel0,
        ));
    }
    loop
        invariant_except_break
            i < start <= j <= len,
            len == s@.len(),
            spec_parse_readings(s@.skip(i as int)) == spec_parse_readings_items(
                s@.skip(start as int),
                fuel0,
            ),
            out@.len() + s@.skip(j as int).len() <= fuel0,
            fuel0 == s@.skip(start as int).len(),
            spec_parse_readings_items(s@.skip(start as int), fuel0) == (match
                spec_parse_readings_items(s@.skip(j as int), (fuel0 - out@.len()) as nat) {
                Option::Some(p) => Option::Some(
                    (spec_readings(out@) + p.0, p.1),
                ),
                Option::None => Option::<(Seq<SensorReadingModel>, Seq<char>)>::None,
            }),
        ensures
            start <= j <= len,
            len == s@.len(),
            j < usize::MAX,
            spec_parse_readings_items(s@.skip(start as int), fuel0) matches Some(p)
                && spec_readings(out@) == p.0 && p.1 == s@.skip(j + 1) && j + 1 <= s@.len(),
        decreases len - j,
    {
        let ghost fuel = (fuel0 - out@.len()) as nat;
        proof {
            reveal_strlit("{\"component_id\":");
            if fuel == 0 {
                assert(s@.skip(j as int).len() == 0);
                assert(!starts_with(s@.skip(j as int), "{\"component_id\":"@));
                assert(spec_parse_reading(s@.skip(j as int)) is None);
            }
        }
        let (reading, e1) = match parse_reading_at(s, j) {
            Option::Some(p) => p,
            Option::None => {
                proof {
                    reveal_strlit("{\"component_id\":");
                    if fuel == 0 {
                        assert(s@.skip(j as int).len() == 0);
                        assert(!starts_with(s@.skip(j as int), "{\"component_id\":"@));
                    }
                    assert(spec_parse_readings_items(s@.skip(j as int), fuel) is None);
                }
                return Option::None;
            },
        };
        proof {
            assert(fuel > 0) by {
                reveal_strlit("{\"component_id\":");
                if fuel == 0 {
                    assert(s@.skip(j as int).len() == 0);
                    assert(!starts_with(s@.skip(j as int), "{\"component_id\":"@));
                }
            }
        }
        let ghost out0 = out@;
        out.push(reading);
        if e1 < len && s.get_char(e1) == ',' {
            proof {
                assert(s@.skip(e1 as int)[0] == s@[e1 as int]);
                assert(s@.skip(e1 as int).skip(1) =~= s@.skip(e1 + 1));
                match spec_parse_readings_items(s@.skip(e1 + 1), (fuel - 1) as nat) {
                    Option::Some(p) => {
                        assert(spec_readings(out@) + p.0 =~= spec_readings(out0) + (seq![
                            reading@,
                        ] + p.0));
                    },
                    Option::None => {},
                }
            }
            j = e1 + 1;
        } else if e1 < len && s.get_char(e1) == ']' {
            proof {
                assert(s@.skip(e1 as int)[0] == s@[e1 as int]);
                assert(s@.skip(e1 as int).skip(1) =~= s@.skip(e1 + 1));
                assert(spec_readings(out@) =~= spec_readings(out0) + seq![reading@]);
            }
            j = e1;
            break;
        } else {
            proof {
                if s@.skip(e1 as int).len() > 0 {
                    assert(s@.skip(e1 as int)[0] == s@[e1 as int]);
                }
            }
            return Option::None;
        }
    }
    Option::Some((out, j + 1))
}

// ---------------------------------------------------------------------
// Diagnostics
// ---------------------------------------------------------------------

/// Canonical wire text of the key/value pairs of a context object, comma
/// separated, without the surrounding braces.
pub open spec fn spec_pairs_items(v: Seq<(Seq<char>, Seq<char>)>) -> Seq<char>
    decreases v.len(),
{
    if v.len() == 0 {
        Seq::<char>::empty()
    } else if v.len() == 1 {
        spec_quoted(v[0].0) + ":"@ + spec_quoted(v[0].1)
    } else {
        spec_quoted(v[0].0) + ":"@ + spec_quoted(v[0].1) + ","@ + spec_pairs_items(v.skip(1))
    }
}

/// Canonical wire text of an optional context object: `null` when absent.
pub open spec fn spec_context_json(o: Option<Seq<(Seq<char>, Seq<char>)>>) -> Seq<char> {
    match o {
        Option::Some(v) => "{"@ + spec_pairs_items(v) + "}"@,
        Option::None => "null"@,
    }
}

/// The wire text of the first `k` pairs of a context object.
pub open spec fn spec_pairs_prefix(v: Seq<(Seq<char>, Seq<char>)>, k: int) -> Seq<char>
    decreases k,
{
    if k <= 0 {
        Seq::<char>::empty()
    } else if k == 1 {
        spec_quoted(v[0].0) + ":"@ + spec_quoted(v[0].1)
    } else {
        spec_pairs_prefix(v, k - 1) + ","@ + (spec_quoted(v[k - 1].0) + ":"@ + spec_quoted(
            v[k - 1].1,
        ))
    }
}

/// A prefix of `v` of length `k >= 2` splits off its head pair.
proof fn lemma_pairs_prefix_shift(v: Seq<(Seq<char>, Seq<char>)>, k: int)
    requires
        2 <= k <= v.len(),
    ensures
        spec_pairs_prefix(v, k) == spec_quoted(v[0].0) + ":"@ + spec_quoted(v[0].1) + ","@
            + spec_pairs_prefix(v.skip(1), k - 1),
    decreases k,
{
    reveal_strlit(",");
    reveal_strlit(":");
    if k == 2 {
        assert(v.skip(1)[0] == v[1]);
        assert(spec_pairs_prefix(v.skip(1), 1) == spec_quoted(v.skip(1)[0].0) + ":"@ + spec_quoted(
            v.skip(1)[0].1,
        ));
        assert(spec_quoted(v.skip(1)[0].0) == spec_quoted(v[1].0));
        assert(spec_quoted(v.skip(1)[0].1) == spec_quoted(v[1].1));
        assert(spec_pairs_prefix(v, 2) == spec_pairs_prefix(v, 1) + ","@ + (spec_quoted(v[1].0)
            + ":"@ + spec_quoted(v[1].1)));
    } else {
        lemma_pairs_prefix_shift(v, k - 1);
        assert(v.skip(1)[k - 2] == v[k - 1]);
        assert((spec_quoted(v[0].0) + ":"@ + spec_quoted(v[0].1) + ","@ + spec_pairs_prefix(
            v.skip(1),
            k - 2,
        )) + ","@ + (spec_quoted(v[k - 1].0) + ":"@ + spec_quoted(v[k - 1].1)) =~= spec_quoted(
            v[0].0,
        ) + ":"@ + spec_quoted(v[0].1) + ","@ + (spec_pairs_prefix(v.skip(1), k - 2) + ","@ + (
        spec_quoted(v.skip(1)[k - 2].0) + ":"@ + spec_quoted(v.skip(1)[k - 2].1))));
    }
}

/// The full prefix is the comma-separated pair text.
proof fn lemma_pairs_prefix_full(v: Seq<(Seq<char>, Seq<char>)>)
    ensures
        spec_pairs_prefix(v, v.len() as int) == spec_pairs_items(v),
    decreases v.len(),
{
    reveal_strlit(",");
    reveal_strlit(":");
    if v.len() > 1 {
        lemma_pairs_prefix_full(v.skip(1));
        lemma_pairs_prefix_shift(v, v.len() as int);
        assert(spec_quoted(v[0].0) + ":"@ + spec_quoted(v[0].1) + ","@ + spec_pairs_items(
            v.skip(1),
        ) =~= spec_pairs_items(v));
    }
}

/// Append the canonical wire text of an optional context object.
pub fn push_context_json(out: &mut String, o: &Option<Vec<(String, String)>>)
    ensures
        final(out)@ == old(out)@ + spec_context_json(
            match *o {
                Option::Some(ref v) => Option::Some(spec_pairs(v@)),
                Option::None => Option::None,
            },
        ),
{
    match o {
        Option::Some(v) => {
            push_char(out, '{');
            let ghost m = spec_pairs(v@);
            let mut i: usize = 0;
            while i < v.len()
                invariant
                    0 <= i <= v.len(),
                    m == spec_pairs(v@),
                    m.len() == v.len(),
                    out@ == old(out)@ + seq!['{'] + spec_pairs_prefix(m, i as int),
                decreases v.len() - i,
            {
                if i > 0 {
                    push_char(out, ',');
                }
                push_quoted(out, v[i].0.as_str());
                push_char(out, ':');
                push_quoted(out, v[i].1.as_str());
                proof {
                    reveal_strlit(",");
                    reveal_strlit(":");
                    assert(m[i as int] == (v@[i as int].0@, v@[i as int].1@));
                    assert(out@ =~= old(out)@ + seq!['{'] + spec_pairs_prefix(m, i + 1));
                }
                i = i + 1;
            }
            push_char(out, '}');
            proof {
                reveal_strlit("{");
                reveal_strlit("}");
                lemma_pairs_prefix_full(m);
                assert(final(out)@ =~= old(out)@ + spec_context_json(Option::Some(m)));
            }
        },
        Option::None => {
            out.append("null");
        },
    }
}

/// Canonical wire text of one diagnostic entry.
pub open spec fn spec_entry_json(e: DiagnosticEntryModel) -> Seq<char> {
    "{\"level\":\""@ + spec_level_wire(e.level) + "\",\"timestamp\":"@ + spec_quoted(
        e.timestamp,
    ) + ",\"component_id\":"@ + spec_quoted(e.component_id) + ",\"message\":"@ + spec_quoted(
        e.message,
    ) + ",\"code\":"@ + spec_opt_text(e.code) + ",\"context\":"@ + spec_context_json(
        e.context,
    ) + "}"@
}

/// Append the canonical wire text of one diagnostic entry.
#[verifier::rlimit(100)]
pub fn push_entry_json(out: &mut String, e: &DiagnosticEntry)
    ensures
        final(out)@ == old(out)@ + spec_entry_json(e@),
{
    out.append("{\"level\":\"");
    push_level(out, e.level);
    out.append("\",\"timestamp\":");
    push_quoted(out, e.timestamp.as_str());
    out.append(",\"component_id\":");
    push_quoted(out, e.component_id.as_str());
    out.append(",\"message\":");
    push_quoted(out, e.message.as_str());
    out.append(",\"code\":");
    push_opt_text(out, &e.code);
    out.append(",\"context\":");
    push_context_json(out, &e.context);
    out.append("}");
    proof {
        assert(final(out)@ =~= old(out)@ + spec_entry_json(e@));
    }
}

/// Canonical wire text of the elements of an entry array, comma separated.
pub open spec fn spec_entries_items(v: Seq<DiagnosticEntryModel>) -> Seq<char>
    decreases v.len(),
{
    if v.len() == 0 {
        Seq::<char>::empty()
    } else if v.len() == 1 {
        spec_entry_json(v[0])
    } else {
        spec_entry_json(v[0]) + ","@ + spec_entries_items(v.skip(1))
    }
}

/// The wire text of the first `k` elements of an entry array.
pub open spec fn spec_entries_prefix(v: Seq<DiagnosticEntryModel>, k: int) -> Seq<char>
    decreases k,
{
    if k <= 0 {
        Seq::<char>::empty()
    } else if k == 1 {
        spec_entry_json(v[0])
    } else {
        spec_entries_prefix(v, k - 1) + ","@ + spec_entry_json(v[k - 1])
    }
}

/// A prefix of `v` of length `k >= 2` splits off its head element.
proof fn lemma_entries_prefix_shift(v: Seq<DiagnosticEntryModel>, k: int)
    requires
        2 <= k <= v.len(),
    ensures
        spec_entries_prefix(v, k) == spec_entry_json(v[0]) + (","@ + spec_entries_prefix(
            v.skip(1),
            k - 1,
        )),
    decreases k,
{
    reveal_strlit(",");
    if k == 2 {
        assert(v.skip(1)[0] == v[1]);
        assert(spec_entries_prefix(v.skip(1), 1) == spec_entry_json(v.skip(1)[0]));
        assert(spec_entry_json(v.skip(1)[0]) == spec_entry_json(v[1]));
        assert(spec_entries_prefix(v, 2) == spec_entries_prefix(v, 1) + ","@ + spec_entry_json(
            v[1],
        ));
        assert(spec_entries_prefix(v, 1) + ","@ + spec_entry_json(v[1]) =~= spec_entry_json(v[0])
            + (","@ + spec_entry_json(v[1])));
    } else {
        lemma_entries_prefix_shift(v, k - 1);
        assert(v.skip(1)[k - 2] == v[k - 1]);
        assert((spec_entry_json(v[0]) + (","@ + spec_entries_prefix(v.skip(1), k - 2))) + ","@
            + spec_entry_json(v[k - 1]) =~= spec_entry_json(v[0]) + (","@ + (spec_entries_prefix(
            v.skip(1),
            k - 2,
        ) + ","@ + spec_entry_json(v.skip(1)[k - 2]))));
    }
}

/// The full prefix is the comma-separated element text.
proof fn lemma_entries_prefix_full(v: Seq<DiagnosticEntryModel>)
    ensures
        spec_entries_prefix(v, v.len() as int) == spec_entries_items(v),
    decreases v.len(),
{
    reveal_strlit(",");
    if v.len() > 1 {
        lemma_entries_prefix_full(v.skip(1));
        lemma_entries_prefix_shift(v, v.len() as int);
        assert(spec_entry_json(v[0]) + ","@ + spec_entries_items(v.skip(1)) =~= spec_entry_json(
            v[0],
        ) + (","@ + spec_entries_items(v.skip(1))));
    }
}

/// Canonical wire text of the per-level counters, as an object in
/// first-seen order.
pub open spec fn spec_counts_items(v: Seq<(Seq<char>, u32)>) -> Seq<char>
    decreases v.len(),
{
    if v.len() == 0 {
        Seq::<char>::empty()
    } else if v.len() == 1 {
        spec_quoted(v[0].0) + ":"@ + spec_u64_dec(v[0].1 as nat)
    } else {
        spec_quoted(v[0].0) + ":"@ + spec_u64_dec(v[0].1 as nat) + ","@ + spec_counts_items(
            v.skip(1),
        )
    }
}

/// The wire text of the first `k` counter pairs.
pub open spec fn spec_counts_prefix(v: Seq<(Seq<char>, u32)>, k: int) -> Seq<char>
    decreases k,
{
    if k <= 0 {
        Seq::<char>::empty()
    } else if k == 1 {
        spec_quoted(v[0].0) + ":"@ + spec_u64_dec(v[0].1 as nat)
    } else {
        spec_counts_prefix(v, k - 1) + ","@ + (spec_quoted(v[k - 1].0) + ":"@ + spec_u64_dec(
            v[k - 1].1 as nat,
        ))
    }
}

/// A prefix of `v` of length `k >= 2` splits off its head pair.
proof fn lemma_counts_prefix_shift(v: Seq<(Seq<char>, u32)>, k: int)
    requires
        2 <= k <= v.len(),
    ensures
        spec_counts_prefix(v, k) == spec_quoted(v[0].0) + ":"@ + spec_u64_dec(v[0].1 as nat)
            + ","@ + spec_counts_prefix(v.skip(1), k - 1),
    decreases k,
{
    reveal_strlit(",");
    reveal_strlit(":");
    if k == 2 {
        assert(v.skip(1)[0] == v[1]);
        assert(spec_counts_prefix(v.skip(1), 1) == spec_quoted(v.skip(1)[0].0) + ":"@
            + spec_u64_dec(v.skip(1)[0].1 as nat));
        assert(spec_quoted(v.skip(1)[0].0) == spec_quoted(v[1].0));
        assert(spec_u64_dec(v.skip(1)[0].1 as nat) == spec_u64_dec(v[1].1 as nat));
        assert(spec_counts_prefix(v, 2) == spec_counts_prefix(v, 1) + ","@ + (spec_quoted(v[1].0)
            + ":"@ + spec_u64_dec(v[1].1 as nat)));
    } else {
        lemma_counts_prefix_shift(v, k - 1);
        assert(v.skip(1)[k - 2] == v[k - 1]);
        assert((spec_quoted(v[0].0) + ":"@ + spec_u64_dec(v[0].1 as nat) + ","@
            + spec_counts_prefix(v.skip(1), k - 2)) + ","@ + (spec_quoted(v[k - 1].0) + ":"@
            + spec_u64_dec(v[k - 1].1 as nat)) =~= spec_quoted(v[0].0) + ":"@ + spec_u64_dec(
            v[0].1 as nat,
        ) + ","@ + (spec_counts_prefix(v.skip(1), k - 2) + ","@ + (spec_quoted(v.skip(1)[k - 2].0)
            + ":"@ + spec_u64_dec(v.skip(1)[k - 2].1 as nat))));
    }
}

/// The full prefix is the comma-separated counter text.
proof fn lemma_counts_prefix_full(v: Seq<(Seq<char>, u32)>)
    ensures
        spec_counts_prefix(v, v.len() as int) == spec_counts_items(v),
    decreases v.len(),
{
    reveal_strlit(",");
    reveal_strlit(":");
    if v.len() > 1 {
        lemma_counts_prefix_full(v.skip(1));
        lemma_counts_prefix_shift(v, v.len() as int);
        assert(spec_quoted(v[0].0) + ":"@ + spec_u64_dec(v[0].1 as nat) + ","@ + spec_counts_items(
            v.skip(1),
        ) =~= spec_counts_items(v));
    }
}

/// Canonical wire text of a diagnostics report.
pub open spec fn spec_report_json(d: DiagnosticsReportModel) -> Seq<char> {
    "{\"timestamp\":"@ + spec_quoted(d.timestamp) + ",\"total_entries\":"@ + spec_u64_dec(
        d.total_entries as nat,
    ) + ",\"entries_by_level\":{"@ + spec_counts_items(d.entries_by_level)
        + "},\"recent_entries\":["@ + spec_entries_items(d.recent_entries) + "]}"@
}

/// Append the canonical wire text of a diagnostics report.
#[verifier::rlimit(100)]
pub fn push_report_json(out: &mut String, d: &DiagnosticsReport)
    ensures
        final(out)@ == old(out)@ + spec_report_json(d@),
{
    out.append("{\"timestamp\":");
    push_quoted(out, d.timestamp.as_str());
    out.append(",\"total_entries\":");
    push_u64(out, d.total_entries as u64);
    out.append(",\"entries_by_level\":{");
    let ghost base1 = out@;
    let ghost mc = spec_level_counts(d.entries_by_level@);
    let mut i: usize = 0;
    while i < d.entries_by_level.len()
        invariant
            0 <= i <= d.entries_by_level.len(),
            mc == spec_level_counts(d.entries_by_level@),
            mc.len() == d.entries_by_level.len(),
            out@ == base1 + spec_counts_prefix(mc, i as int),
        decreases d.entries_by_level.len() - i,
    {
        if i > 0 {
            push_char(out, ',');
        }
        push_quoted(out, d.entries_by_level[i].0.as_str());
        push_char(out, ':');
        push_u64(out, d.entries_by_level[i].1 as u64);
        proof {
            reveal_strlit(",");
            reveal_strlit(":");
            assert(mc[i as int] == (d.entries_by_level@[i as int].0@, d.entries_by_level@[i as int].1));
            assert(out@ =~= base1 + spec_counts_prefix(mc, i + 1));
        }
        i = i + 1;
    }
    out.append("},\"recent_entries\":[");
    let ghost base2 = out@;
    let ghost me = spec_entries(d.recent_entries@);
    let mut j: usize = 0;
    while j < d.recent_entries.len()
        invariant
            0 <= j <= d.recent_entries.len(),
            me == spec_entries(d.recent_entries@),
            me.len() == d.recent_entries.len(),
            out@ == base2 + spec_entries_prefix(me, j as int),
        decreases d.recent_entries.len() - j,
    {
        if j > 0 {
            push_char(out, ',');
        }
        push_entry_json(out, &d.recent_entries[j]);
        proof {
            reveal_strlit(",");
            assert(me[j as int] == d.recent_entries@[j as int]@);
            assert(out@ =~= base2 + spec_entries_prefix(me, j + 1));
        }
        j = j + 1;
    }
    out.append("]}");
    proof {
        lemma_counts_prefix_full(mc);
        lemma_entries_prefix_full(me);
        assert(final(out)@ =~= old(out)@ + spec_report_json(d@));
    }
}

// ---------------------------------------------------------------------
// Best-effort parsing of the diagnostics section
// ---------------------------------------------------------------------
//
// The diagnostics section is decoded on a best-effort basis: these parsers
// rebuild the report from canonical text, and the packet parser falls back
// to an empty report when the section does not parse.  Their contracts
// only bound the returned position; the proved round-trip law covers the
// sequence number, the timestamp, the health snapshot and the readings.

/// Parse an optional context object at character index `i`.
fn parse_context_at(s: &str, i: usize) -> (r: Option<(Option<Vec<(String, String)>>, usize)>)
    requires
        i <= s@.len(),
    ensures
        r matches Some(q) ==> i <= q.1 <= s@.len(),
{
    let len = s.unicode_len();
    if i < len && s.get_char(i) == '{' {
        if i + 1 < len && s.get_char(i + 1) == '}' {
            return Option::Some((Option::Some(Vec::new()), i + 2));
        }
        let mut out: Vec<(String, String)> = Vec::new();
        let mut j = i + 1;
        let mut guard: usize = 0;
        loop
            invariant_except_break
                i <= j <= s@.len(),
                guard <= s@.len(),
                len == s@.len(),
            ensures
                i <= j <= s@.len(),
            decreases s@.len() - guard,
        {
            if guard >= len {
                return Option::None;
            }
            guard = guard + 1;
            let (key, e1) = match parse_quoted_at(s, j) {
                Option::Some(p) => p,
                Option::None => {
                    return Option::None;
                },
            };
            let e2 = match expect_lit(s, e1, ":") {
                Option::Some(e) => e,
                Option::None => {
                    return Option::None;
                },
            };
            let (value, e3) = match parse_quoted_at(s, e2) {
                Option::Some(p) => p,
                Option::None => {
                    return Option::None;
                },
            };
            out.push((key, value));
            if e3 < len && s.get_char(e3) == ',' {
                j = e3 + 1;
            } else if e3 < len && s.get_char(e3) == '}' {
                j = e3 + 1;
                break;
            } else {
                return Option::None;
            }
        }
        Option::Some((Option::Some(out), j))
    } else {
        match expect_lit(s, i, "null") {
            Option::Some(e) => Option::Some((Option::None, e)),
            Option::None => Option::None,
        }
    }
}

/// Parse one diagnostic entry at character index `i`.
fn parse_entry_at(s: &str, i: usize) -> (r: Option<(DiagnosticEntry, usize)>)
    requires
        i <= s@.len(),
    ensures
        r matches Some(q) ==> i <= q.1 <= s@.len(),
{
    let e0 = match expect_lit(s, i, "{\"level\":\"") {
        Option::Some(e) => e,
        Option::None => {
            return Option::None;
        },
    };
    let (level, e1) = match parse_level_at(s, e0) {
        Option::Some(p) => p,
        Option::None => {
            return Option::None;
        },
    };
    let e2 = match expect_lit(s, e1, "\",\"timestamp\":") {
        Option::Some(e) => e,
        Option::None => {
            return Option::None;
        },
    };
    let (timestamp, e3) = match parse_quoted_at(s, e2) {
        Option::Some(p) => p,
        Option::None => {
            return Option::None;
        },
    };
    let e4 = match expect_lit(s, e3, ",\"component_id\":") {
        Option::Some(e) => e,
        Option::None => {
            return Option::None;
        },
    };
    let (component_id, e5) = match parse_quoted_at(s, e4) {
        Option::Some(p) => p,
        Option::None => {
            return Option::None;
        },
    };
    let e6 = match expect_lit(s, e5, ",\"message\":") {
        Option::Some(e) => e,
        Option::None => {
            return Option::None;
        },
    };
    let (message, e7) = match parse_quoted_at(s, e6) {
        Option::Some(p) => p,
        Option::None => {
            return Option::None;
        },
    };
    let e8 = match expect_lit(s, e7, ",\"code\":") {
        Option::Some(e) => e,
        Option::None => {
            return Option::None;
        },
    };
    let (code, e9) = match parse_opt_text_at(s, e8) {
        Option::Some(p) => p,
        Option::None => {
            return Option::None;
        },
    };
    let e10 = match expect_lit(s, e9, ",\"context\":") {
        Option::Some(e) => e,
        Option::None => {
            return Option::None;
        },
    };
    let (context, e11) = match parse_context_at(s, e10) {
        Option::Some(p) => p,
        Option::None => {
            return Option::None;
        },
    };
    let e12 = match expect_lit(s, e11, "}") {
        Option::Some(e) => e,
        Option::None => {
            return Option::None;
        },
    };
    Option::Some(
        (DiagnosticEntry { level, timestamp, component_id, message, code, context }, e12),
    )
}

/// Parse a diagnostics report at character index `i`.
fn parse_report_at(s: &str, i: usize) -> (r: Option<(DiagnosticsReport, usize)>)
    requires
        i <= s@.len(),
    ensures
        r matches Some(q) ==> i <= q.1 <= s@.len(),
{
    let len = s.unicode_len();
    let e0 = match expect_lit(s, i, "{\"timestamp\":") {
        Option::Some(e) => e,
        Option::None => {
            return Option::None;
        },
    };
    let (timestamp, e1) = match parse_quoted_at(s, e0) {
        Option::Some(p) => p,
        Option::None => {
            return Option::None;
        },
    };
    let e2 = match expect_lit(s, e1, ",\"total_entries\":") {
        Option::Some(e) => e,
        Option::None => {
            return Option::None;
        },
    };
    let (total, e3) = match parse_u64_at(s, e2) {
        Option::Some(p) => p,
        Option::None => {
            return Option::None;
        },
    };
    if total > u32::MAX as u64 {
        return Option::None;
    }
    let e4 = match expect_lit(s, e3, ",\"entries_by_level\":{") {
        Option::Some(e) => e,
        Option::None => {
            return Option::None;
        },
    };
    let mut counts: Vec<(String, u32)> = Vec::new();
    let mut j = e4;
    if j < len && s.get_char(j) == '}' {
        j = j + 1;
    } else {
        let mut guard: usize = 0;
        loop
            invariant_except_break
                i <= j <= s@.len(),
                guard <= s@.len(),
                len == s@.len(),
            ensures
                i <= j <= s@.len(),
            decreases s@.len() - guard,
        {
            if guard >= len {
                return Option::None;
            }
            guard = guard + 1;
            let (key, f1) = match parse_quoted_at(s, j) {
                Option::Some(p) => p,
                Option::None => {
                    return Option::None;
                },
            };
            let f2 = match expect_lit(s, f1, ":") {
                Option::Some(e) => e,
                Option::None => {
                    return Option::None;
                },
            };
            let (count, f3) = match parse_u64_at(s, f2) {
                Option::Some(p) => p,
                Option::None => {
                    return Option::None;
                },
            };
            if count > u32::MAX as u64 {
                return Option::None;
            }
            counts.push((key, count as u32));
            if f3 < len && s.get_char(f3) == ',' {
                j = f3 + 1;
            } else if f3 < len && s.get_char(f3) == '}' {
                j = f3 + 1;
                break;
            } else {
                return Option::None;
            }
        }
    }
    let e5 = match expect_lit(s, j, ",\"recent_entries\":[") {
        Option::Some(e) => e,
        Option::None => {
            return Option::None;
        },
    };
    let mut entries: Vec<DiagnosticEntry> = Vec::new();
    let mut k = e5;
    if k < len && s.get_char(k) == ']' {
        k = k + 1;
    } else {
        let mut guard: usize = 0;
        loop
            invariant_except_break
                i <= k <= s@.len(),
                guard <= s@.len(),
                len == s@.len(),
            ensures
                i <= k <= s@.len(),
            decreases s@.len() - guard,
        {
            if guard >= len {
                return Option::None;
            }
            guard = guard + 1;
            let (entry, g1) = match parse_entry_at(s, k) {
                Option::Some(p) => p,
                Option::None => {
                    return Option::None;
                },
            };
            entries.push(entry);
            if g1 < len && s.get_char(g1) == ',' {
                k = g1 + 1;
            } else if g1 < len && s.get_char(g1) == ']' {
                k = g1 + 1;
                break;
            } else {
                return Option::None;
            }
        }
    }
    let e6 = match expect_lit(s, k, "}") {
        Option::Some(e) => e,
        Option::None => {
            return Option::None;
        },
    };
    Option::Some(
        (
            DiagnosticsReport {
                timestamp,
                total_entries: total as u32,
                entries_by_level: counts,
                recent_entries: entries,
            },
            e6,
        ),
    )
}

// ---------------------------------------------------------------------
// Whole packets
// ---------------------------------------------------------------------

/// Canonical wire text of a whole telemetry packet.
pub open spec fn spec_packet_json(p: TelemetryPacketModel) -> Seq<char> {
    "{\"sequence\":"@ + spec_u64_dec(p.sequence as nat) + ",\"timestamp\":"@ + spec_quoted(
        p.timestamp,
    ) + ",\"health\":"@ + spec_health_json(p.health) + ",\"sensor_readings\":"@
        + spec_readings_json(p.sensor_readings) + ",\"diagnostics\":"@ + spec_report_json(
        p.diagnostics,
    ) + "}"@
}

/// Parse the head of a packet: everything up to and including the
/// `diagnostics` key.  The returned rest is the diagnostics text followed
/// by the closing brace.
pub open spec fn spec_parse_packet_head(s: Seq<char>) -> Option<
    ((u64, Seq<char>, SystemHealthModel, Seq<SensorReadingModel>), Seq<char>),
> {
    if !starts_with(s, "{\"sequence\":"@) {
        Option::None
    } else {
        match spec_parse_u64(s.skip("{\"sequence\":"@.len() as int)) {
            Option::None => Option::None,
            Option::Some((sequence, s1)) => if !starts_with(s1, ",\"timestamp\":"@) {
                Option::None
            } else {
                match spec_parse_quoted(s1.skip(",\"timestamp\":"@.len() as int)) {
                    Option::None => Option::None,
                    Option::Some((timestamp, s2)) => if !starts_with(s2, ",\"health\":"@) {
                        Option::None
                    } else {
                        match spec_parse_health(s2.skip(",\"health\":"@.len() as int)) {
                            Option::None => Option::None,
                            Option::Some((health, s3)) => if !starts_with(
                                s3,
                                ",\"sensor_readings\":"@,
                            ) {
                                Option::None
                            } else {
                                match spec_parse_readings(
                                    s3.skip(",\"sensor_readings\":"@.len() as int),
                                ) {
                                    Option::None => Option::None,
                                    Option::Some((readings, s4)) => if !starts_with(
                                        s4,
                                        ",\"diagnostics\":"@,
                                    ) {
                                        Option::None
                                    } else {
                                        Option::Some(
                                            (
                                                (sequence, timestamp, health, readings),
                                                s4.skip(",\"diagnostics\":"@.len() as int),
                                            ),
                                        )
                                    },
                                }
                            },
                        }
                    },
                }
            },
        }
    }
}

/// The flat packet rendering regrouped as its leading literal and the
/// right-nested chain of the remaining pieces.
proof fn lemma_packet_json_shape(p: TelemetryPacketModel, rest: Seq<char>)
    ensures
        spec_packet_json(p) + rest == "{\"sequence\":"@ + (spec_u64_dec(p.sequence as nat) + (
        ",\"timestamp\":"@ + (spec_quoted(p.timestamp) + (",\"health\":"@ + (spec_health_json(
            p.health,
        ) + (",\"sensor_readings\":"@ + (spec_readings_json(p.sensor_readings) + (
        ",\"diagnostics\":"@ + (spec_report_json(p.diagnostics) + ("}"@ + rest)))))))))),
{
    let a1 = "{\"sequence\":"@;
    let a2 = spec_u64_dec(p.sequence as nat);
    let a3 = ",\"timestamp\":"@;
    let a4 = spec_quoted(p.timestamp);
    let a5 = ",\"health\":"@;
    let a6 = spec_health_json(p.health);
    let a7 = ",\"sensor_readings\":"@;
    let a8 = spec_readings_json(p.sensor_readings);
    let a9 = ",\"diagnostics\":"@;
    let a10 = spec_report_json(p.diagnostics);
    let a11 = "}"@;
    lemma_concat_assoc(a1 + a2 + a3 + a4 + a5 + a6 + a7 + a8 + a9 + a10, a11, rest);
    lemma_concat_assoc(a1 + a2 + a3 + a4 + a5 + a6 + a7 + a8 + a9, a10, a11 + rest);
    lemma_concat_assoc(a1 + a2 + a3 + a4 + a5 + a6 + a7 + a8, a9, a10 + (a11 + rest));
    lemma_concat_assoc(a1 + a2 + a3 + a4 + a5 + a6 + a7, a8, a9 + (a10 + (a11 + rest)));
    lemma_concat_assoc(a1 + a2 + a3 + a4 + a5 + a6, a7, a8 + (a9 + (a10 + (a11 + rest))));
    lemma_concat_assoc(a1 + a2 + a3 + a4 + a5, a6, a7 + (a8 + (a9 + (a10 + (a11 + rest)))));
    lemma_concat_assoc(a1 + a2 + a3 + a4, a5, a6 + (a7 + (a8 + (a9 + (a10 + (a11 + rest))))));
    lemma_concat_assoc(a1 + a2 + a3, a4, a5 + (a6 + (a7 + (a8 + (a9 + (a10 + (a11 + rest)))))));
    lemma_concat_assoc(
        a1 + a2,
        a3,
        a4 + (a5 + (a6 + (a7 + (a8 + (a9 + (a10 + (a11 + rest))))))),
    );
    lemma_concat_assoc(
        a1,
        a2,
        a3 + (a4 + (a5 + (a6 + (a7 + (a8 + (a9 + (a10 + (a11 + rest)))))))),
    );
}

/// Round trip at the packet level: parsing the canonical text of a packet
/// recovers its sequence number, timestamp, health snapshot and sensor
/// readings, and leaves exactly the diagnostics text and the closing
/// brace.  With the sequence number, the health and the full readings
/// recovered, in particular the number of readings survives the trip.
#[verifier::rlimit(100)]
pub proof fn lemma_parse_print_packet_head(p: TelemetryPacketModel)
    ensures
        spec_parse_packet_head(spec_packet_json(p)) == Option::Some(
            (
                (p.sequence, p.timestamp, p.health, p.sensor_readings),
                spec_report_json(p.diagnostics) + ("}"@ + Seq::<char>::empty()),
            ),
        ),
{
    reveal_strlit("{\"sequence\":");
    reveal_strlit(",\"timestamp\":");
    reveal_strlit(",\"health\":");
    reveal_strlit(",\"sensor_readings\":");
    reveal_strlit(",\"diagnostics\":");
    reveal_strlit("}");
    let rest = Seq::<char>::empty();
    let s0 = spec_packet_json(p) + rest;
    assert(s0 =~= spec_packet_json(p));
    let t5 = spec_report_json(p.diagnostics) + ("}"@ + rest);
    let t4 = ",\"diagnostics\":"@ + t5;
    let t3r = spec_readings_json(p.sensor_readings) + t4;
    let t3 = ",\"sensor_readings\":"@ + t3r;
    let t2h = spec_health_json(p.health) + t3;
    let t2 = ",\"health\":"@ + t2h;
    let t1q = spec_quoted(p.timestamp) + t2;
    let t1 = ",\"timestamp\":"@ + t1q;
    let t0 = spec_u64_dec(p.sequence as nat) + t1;
    lemma_packet_json_shape(p, rest);
    lemma_starts_with_concat("{\"sequence\":"@, t0);
    assert(t1[0] == ',');
    lemma_parse_print_u64(p.sequence, t1);
    lemma_starts_with_concat(",\"timestamp\":"@, t1q);
    lemma_parse_print_quoted(p.timestamp, t2);
    lemma_starts_with_concat(",\"health\":"@, t2h);
    lemma_parse_print_health(p.health, t3);
    lemma_starts_with_concat(",\"sensor_readings\":"@, t3r);
    lemma_parse_print_readings(p.sensor_readings, t4);
    lemma_starts_with_concat(",\"diagnostics\":"@, t5);
}

/// The bytes of a string: the UTF-8 encoding of its characters.
pub(crate) fn string_utf8_bytes(s: &str) -> (r: Vec<u8>)
    ensures
        r@ == vstd::utf8::encode_utf8(s@),
{
    vstd::slice::slice_to_vec(s.as_bytes())
}

/// Relies on `core::str::from_utf8`: it accepts exactly the valid UTF-8
/// byte strings and decodes them to their characters.
#[verifier::external_body]
fn utf8_to_string(b: &Vec<u8>) -> (r: Option<String>)
    ensures
        match r {
            Option::Some(t) => vstd::utf8::valid_utf8(b@) && t@ == vstd::utf8::decode_utf8(b@),
            Option::None => !vstd::utf8::valid_utf8(b@),
        },
{
    match core::str::from_utf8(b.as_slice()) {
        Result::Ok(t) => Option::Some(t.to_string()),
        Result::Err(_) => Option::None,
    }
}

impl TelemetryPacket {
    /// Serialize to the canonical wire text.
    pub fn to_json(&self) -> (r: String)
        ensures
            r@ == spec_packet_json(self@),
    {
        let mut out = String::new();
        out.append("{\"sequence\":");
        push_u64(&mut out, self.sequence);
        out.append(",\"timestamp\":");
        push_quoted(&mut out, self.timestamp.as_str());
        out.append(",\"health\":");
        push_health_json(&mut out, &self.health);
        out.append(",\"sensor_readings\":");
        push_readings_json(&mut out, &self.sensor_readings);
        out.append(",\"diagnostics\":");
        push_report_json(&mut out, &self.diagnostics);
        out.append("}");
        proof {
            assert(out@ =~= spec_packet_json(self@));
        }
        out
    }

    /// Serialize to the canonical wire text as UTF-8 bytes.
    pub fn to_json_bytes(&self) -> (r: Vec<u8>)
        ensures
            r@ == vstd::utf8::encode_utf8(spec_packet_json(self@)),
    {
        let json = self.to_json();
        string_utf8_bytes(json.as_str())
    }

    /// Parse a packet from its canonical wire text.  The head of the text
    /// (sequence, timestamp, health and readings) is recovered exactly;
    /// the diagnostics section is decoded on a best-effort basis and an
    /// unreadable one yields an empty report.
    pub fn from_json(json: &str) -> (r: Option<TelemetryPacket>)
        ensures
            match spec_parse_packet_head(json@) {
                Option::Some(h) => r matches Some(q) && q.sequence == h.0.0 && q.timestamp@
                    == h.0.1 && q.health@ == h.0.2 && spec_readings(q.sensor_readings@) == h.0.3,
                Option::None => r is None,
            },
{
    proof {
        assert(json@.skip(0) =~= json@);
    }
    let e0 = match expect_lit(json, 0, "{\"sequence\":") {
        Option::Some(e) => e,
        Option::None => {
            return Option::None;
        },
    };
    let (sequence, e1) = match parse_u64_at(json, e0) {
        Option::Some(p) => p,
        Option::None => {
            return Option::None;
        },
    };
    let e2 = match expect_lit(json, e1, ",\"timestamp\":") {
        Option::Some(e) => e,
        Option::None => {
            return Option::None;
        },
    };
    let (timestamp, e3) = match parse_quoted_at(json, e2) {
        Option::Some(p) => p,
        Option::None => {
            return Option::None;
        },
    };
    let e4 = match expect_lit(json, e3, ",\"health\":") {
        Option::Some(e) => e,
        Option::None => {
            return Option::None;
        },
    };
    let (health, e5) = match parse_health_at(json, e4) {
        Option::Some(p) => p,
        Option::None => {
            return Option::None;
        },
    };
    let e6 = match expect_lit(json, e5, ",\"sensor_readings\":") {
        Option::Some(e) => e,
        Option::None => {
            return Option::None;
        },
    };
    let (sensor_readings, e7) = match parse_readings_at(json, e6) {
        Option::Some(p) => p,
        Option::None => {
            return Option::None;
        },
    };
    let e8 = match expect_lit(json, e7, ",\"diagnostics\":") {
        Option::Some(e) => e,
        Option::None => {
            return Option::None;
        },
    };
    let diagnostics = match parse_report_at(json, e8) {
        Option::Some((rep, _e9)) => rep,
        Option::None => DiagnosticsReport::new(),
    };
    Option::Some(TelemetryPacket { sequence, timestamp, health, sensor_readings, diagnostics })
}

    /// Parse a packet from canonical wire text given as UTF-8 bytes.
    pub fn from_json_bytes(bytes: &Vec<u8>) -> (r: Option<TelemetryPacket>)
        ensures
            vstd::utf8::valid_utf8(bytes@) ==> (match spec_parse_packet_head(
                vstd::utf8::decode_utf8(bytes@),
            ) {
                Option::Some(h) => r matches Some(q) && q.sequence == h.0.0 && q.timestamp@
                    == h.0.1 && q.health@ == h.0.2 && spec_readings(q.sensor_readings@) == h.0.3,
                Option::None => r is None,
            }),
            !vstd::utf8::valid_utf8(bytes@) ==> r is None,
    {
        match utf8_to_string(bytes) {
            Option::Some(text) => TelemetryPacket::from_json(text.as_str()),
            Option::None => Option::None,
        }
    }

    /// Size of the canonical wire rendering in bytes.
    pub fn size_bytes(&self) -> (r: usize)
        ensures
            r == vstd::utf8::encode_utf8(spec_packet_json(self@)).len(),
    {
        let bytes = self.to_json_bytes();
        bytes.len()
    }
}

// ---------------------------------------------------------------------
// Batches of packets
// ---------------------------------------------------------------------

/// Canonical wire text of the elements of a packet array.
pub open spec fn spec_packets_items(v: Seq<TelemetryPacketModel>) -> Seq<char>
    decreases v.len(),
{
    if v.len() == 0 {
        Seq::<char>::empty()
    } else if v.len() == 1 {
        spec_packet_json(v[0])
    } else {
        spec_packet_json(v[0]) + ","@ + spec_packets_items(v.skip(1))
    }
}

/// Canonical wire text of a whole batch, as an array of packets.
pub open spec fn spec_batch_json(v: Seq<TelemetryPacketModel>) -> Seq<char> {
    "["@ + spec_packets_items(v) + "]"@
}

/// The wire text of the first `k` packets of a batch.
pub open spec fn spec_packets_prefix(v: Seq<TelemetryPacketModel>, k: int) -> Seq<char>
    decreases k,
{
    if k <= 0 {
        Seq::<char>::empty()
    } else if k == 1 {
        spec_packet_json(v[0])
    } else {
        spec_packets_prefix(v, k - 1) + ","@ + spec_packet_json(v[k - 1])
    }
}

/// A prefix of `v` of length `k >= 2` splits off its head packet.
#[verifier::rlimit(100)]
proof fn lemma_packets_prefix_shift(v: Seq<TelemetryPacketModel>, k: int)
    requires
        2 <= k <= v.len(),
    ensures
        spec_packets_prefix(v, k) == spec_packet_json(v[0]) + (","@ + spec_packets_prefix(
            v.skip(1),
            k - 1,
        )),
    decreases k,
{
    reveal_strlit(",");
    if k == 2 {
        assert(v.skip(1)[0] == v[1]);
        assert(spec_packets_prefix(v.skip(1), 1) == spec_packet_json(v.skip(1)[0]));
        assert(spec_packet_json(v.skip(1)[0]) == spec_packet_json(v[1]));
        assert(spec_packets_prefix(v, 2) == spec_packets_prefix(v, 1) + ","@ + spec_packet_json(
            v[1],
        ));
        assert(spec_packets_prefix(v, 1) + ","@ + spec_packet_json(v[1]) =~= spec_packet_json(
            v[0],
        ) + (","@ + spec_packet_json(v[1])));
    } else {
        lemma_packets_prefix_shift(v, k - 1);
        assert(v.skip(1)[k - 2] == v[k - 1]);
        assert((spec_packet_json(v[0]) + (","@ + spec_packets_prefix(v.skip(1), k - 2))) + ","@
            + spec_packet_json(v[k - 1]) =~= spec_packet_json(v[0]) + (","@ + (
        spec_packets_prefix(v.skip(1), k - 2) + ","@ + spec_packet_json(v.skip(1)[k - 2]))));
    }
}

/// The full prefix is the comma-separated packet text.
#[verifier::rlimit(100)]
proof fn lemma_packets_prefix_full(v: Seq<TelemetryPacketModel>)
    ensures
        spec_packets_prefix(v, v.len() as int) == spec_packets_items(v),
    decreases v.len(),
{
    reveal_strlit(",");
    if v.len() > 1 {
        lemma_packets_prefix_full(v.skip(1));
        lemma_packets_prefix_shift(v, v.len() as int);
        assert(spec_packet_json(v[0]) + (","@ + spec_packets_items(v.skip(1)))
            =~= spec_packets_items(v));
    }
}

/// View of a sequence of packets.
pub open spec fn spec_packets(v: Seq<TelemetryPacket>) -> Seq<TelemetryPacketModel> {
    v.map_values(|p: TelemetryPacket| p@)
}

/// Serialize a whole batch to the canonical wire text, as an array of
/// packets in batch order.
#[verifier::rlimit(100)]
pub fn batch_to_json(batch: &Vec<TelemetryPacket>) -> (r: String)
    ensures
        r@ == spec_batch_json(spec_packets(batch@)),
{
    let mut out = String::new();
    push_char(&mut out, '[');
    let ghost m = spec_packets(batch@);
    let mut i: usize = 0;
    while i < batch.len()
        invariant
            0 <= i <= batch.len(),
            m == spec_packets(batch@),
            m.len() == batch.len(),
            out@ == seq!['['] + spec_packets_prefix(m, i as int),
        decreases batch.len() - i,
    {
        if i > 0 {
            push_char(&mut out, ',');
        }
        let piece = batch[i].to_json();
        out.append(piece.as_str());
        proof {
            reveal_strlit(",");
            assert(m[i as int] == batch@[i as int]@);
            assert(out@ =~= seq!['['] + spec_packets_prefix(m, i + 1));
        }
        i = i + 1;
    }
    push_char(&mut out, ']');
    proof {
        reveal_strlit("[");
        reveal_strlit("]");
        lemma_packets_prefix_full(m);
        assert(out@ =~= spec_batch_json(m));
    }
    out
}

} // verus!