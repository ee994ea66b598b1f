//! Liveness and readiness reports.

use std::time::{Duration, SystemTime, SystemTimeError};
use sysinfo::System;
use vstd::prelude::*;

verus! {

/// The answer to a liveness probe.
#[derive(Debug)]
pub struct HealthResponse {
    pub status: &'static str,
    pub timestamp: u64,
    pub version: &'static str,
}

/// What a readiness report is made of.
#[derive(Debug, Clone, Copy)]
pub struct ReadinessChecks {
    pub accepting_requests: bool,
    pub memory_ok: bool,
}

/// The answer to a readiness probe.
#[derive(Debug)]
pub struct ReadinessResponse {
    pub ready: bool,
    pub checks: ReadinessChecks,
    pub timestamp: u64,
}

/// `std::time::SystemTime`, a point in time by the machine's clock; opaque.
#[verifier::external_type_specification]
#[verifier::external_body]
pub struct ExSystemTime(SystemTime);

/// `std::time::SystemTimeError`, the failure of `duration_since`; opaque.
#[verifier::external_type_specification]
#[verifier::external_body]
pub struct ExSystemTimeError(SystemTimeError);

/// `sysinfo::System`, a record of what the machine reports; opaque.
#[verifier::external_type_specification]
#[verifier::external_body]
pub struct ExSystem(System);

/// `SystemTime::now` reads the clock: nothing is known of what it returns.
pub assume_specification[ SystemTime::now ]() -> SystemTime;

/// `SystemTime::duration_since` fails where the earlier time is the later
/// one: nothing is stated of its result.
pub assume_specification[ SystemTime::duration_since ](
    time: &SystemTime,
    earlier: SystemTime,
) -> Result<Duration, SystemTimeError>;

/// The whole seconds that a duration holds.
pub uninterp spec fn whole_seconds(duration: Duration) -> u64;

/// `Duration::as_secs` gives the whole seconds of a duration. A duration is
/// opaque here, so the contract gives that number a name and says nothing
/// else of it.
pub assume_specification[ Duration::as_secs ](duration: &Duration) -> (seconds: u64)
    ensures
        seconds == whole_seconds(*duration),
;

/// `sysinfo::System::new` makes a system record with nothing loaded.
pub assume_specification[ System::new ]() -> System;

/// `sysinfo::System::refresh_memory` reads the machine's memory usage into
/// the record.
pub assume_specification[ System::refresh_memory ](system: &mut System);

/// `sysinfo::System::available_memory` gives the memory that was available at
/// the last refresh, in bytes: a reading of the machine, of which nothing is
/// known.
pub assume_specification[ System::available_memory ](system: &System) -> u64;

/// `sysinfo::System::total_memory` gives the memory that the machine had at
/// the last refresh, in bytes: a reading of the machine, of which nothing is
/// known.
pub assume_specification[ System::total_memory ](system: &System) -> u64;

/// The start of Unix time: the constant `SystemTime::UNIX_EPOCH` of `std`, an
/// opaque value of which nothing is stated.
#[verifier::external_body]
fn unix_epoch() -> SystemTime {
    SystemTime::UNIX_EPOCH
}

/// The version that liveness reports carry.
pub fn version() -> (version: &'static str)
    ensures
        version@ == "0.1.0"@,
{
    "0.1.0"
}

/// More than a twentieth of the memory is available. A machine that reports no
/// memory at all passes.
pub open spec fn enough_memory(available: u64, total: u64) -> bool {
    total == 0 || available * 20 > total
}

/// Whether the memory figures of a machine are healthy.
pub fn memory_ok(available: u64, total: u64) -> (ok: bool)
    ensures
        ok == enough_memory(available, total),
{
    if total > 0 {
        let scaled: u128 = (available as u128) * 20;
        scaled > total as u128
    } else {
        true
    }
}

/// The timestamp for the time that has passed since the Unix epoch: its whole
/// seconds, or zero where the clock stood before the epoch and no time has.
pub fn seconds_or_zero(elapsed: Result<Duration, SystemTimeError>) -> (seconds: u64)
    ensures
        seconds == match elapsed {
            Ok(passed) => whole_seconds(passed),
            Err(_) => 0,
        },
{
    match elapsed {
        Ok(passed) => passed.as_secs(),
        Err(_) => 0,
    }
}

/// The seconds since the Unix epoch, by the machine's clock; zero where the
/// clock stands before the epoch. The clock decides: every number can come
/// back, and what is made of the clock's answer is [`seconds_or_zero`].
pub fn current_timestamp() -> u64 {
    seconds_or_zero(SystemTime::now().duration_since(unix_epoch()))
}

/// Reads the machine's memory figures and judges them. The machine decides:
/// either answer can come back, and what is made of the figures is
/// [`memory_ok`].
pub fn check_memory() -> bool {
    let mut system = System::new();
    system.refresh_memory();
    let available = system.available_memory();
    let total = system.total_memory();
    memory_ok(available, total)
}

/// The liveness report for a given time.
pub fn health_at(timestamp: u64) -> (report: HealthResponse)
    ensures
        report.status@ == "healthy"@,
        report.timestamp == timestamp,
        report.version@ == "0.1.0"@,
{
    HealthResponse { status: "healthy", timestamp, version: version() }
}

/// The liveness report for now. Its status is always `healthy`.
pub fn health_check() -> (report: HealthResponse)
    ensures
        report.status@ == "healthy"@,
        report.version@ == "0.1.0"@,
{
    health_at(current_timestamp())
}

/// The readiness report for given findings: ready means accepting requests
/// with healthy memory.
pub fn readiness_at(accepting_requests: bool, memory_ok: bool, timestamp: u64) -> (report:
    ReadinessResponse)
    ensures
        report.ready == (accepting_requests && memory_ok),
        report.checks.accepting_requests == accepting_requests,
        report.checks.memory_ok == memory_ok,
        report.timestamp == timestamp,
{
    ReadinessResponse {
        ready: accepting_requests && memory_ok,
        checks: ReadinessChecks { accepting_requests, memory_ok },
        timestamp,
    }
}

/// The readiness report for now, given whether the service still accepts
/// requests. Whatever the machine reports, the service is ready only while
/// it accepts requests.
pub fn readiness_check(accepting_requests: bool) -> (report: ReadinessResponse)
    ensures
        report.checks.accepting_requests == accepting_requests,
        report.ready == (accepting_requests && report.checks.memory_ok),
{
    let memory_ok = check_memory();
    readiness_at(accepting_requests, memory_ok, current_timestamp())
}

} // verus!
