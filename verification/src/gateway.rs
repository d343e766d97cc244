//! The display-state gateway: which requests go to the operating system's
//! display configuration, and what its answers mean.
//!
//! The gateway itself never talks to the system. It says what to ask, takes
//! the answer as plain numbers, and decides: which display paths are active,
//! whether HDR is on, and whether a switch of the HDR mode succeeded.

use crate::text::{decimal, decimal_digits, push_decimal, push_signed_decimal};
use vstd::prelude::*;

verus! {

/// Request kind: read the advanced-color information of one display target.
pub const GET_ADVANCED_COLOR_INFO: i32 = 9;

/// Request kind: set the advanced-color state of one display target.
pub const SET_ADVANCED_COLOR_STATE: i32 = 10;

/// The bit of the advanced-color information word that says HDR is enabled.
pub const ADVANCED_COLOR_ENABLED: u32 = 0x2;

/// The value of a set request that turns advanced color on.
pub const ENABLE_FLAG: u32 = 0x1;

/// The status with which the system reports success.
pub const STATUS_SUCCESS: i32 = 0;

/// One active output: an adapter, named by the two halves of its identifier,
/// and a target on that adapter.
#[derive(Clone, Copy, Debug, PartialEq, Eq, Structural)]
pub struct DisplayPath {
    pub adapter_low: u32,
    pub adapter_high: i32,
    pub target_id: u32,
}

/// A request about one display path. `value` is what a set request carries;
/// a get request carries zero.
#[derive(Clone, Copy, Debug, PartialEq, Eq, Structural)]
pub struct DeviceRequest {
    pub kind: i32,
    pub path: DisplayPath,
    pub value: u32,
}

/// What the system answered to a get request: its status, and the
/// advanced-color information word.
#[derive(Clone, Copy, Debug, PartialEq, Eq, Structural)]
pub struct PathReading {
    pub status: i32,
    pub value: u32,
}

/// What the system answered to a set request for the target `target_id`.
#[derive(Clone, Copy, Debug, PartialEq, Eq, Structural)]
pub struct WriteOutcome {
    pub target_id: u32,
    pub status: i32,
}

/// The two calls that make up an enumeration of the display topology.
#[derive(Clone, Copy, Debug, PartialEq, Eq, Structural)]
pub enum QueryStage {
    BufferSizes,
    Paths,
}

#[derive(Clone, Debug, PartialEq, Eq)]
pub enum GatewayError {
    /// A call of the topology enumeration failed with the status `code`.
    QueryFailure { stage: QueryStage, code: u32 },
    /// No display path accepted the new state; `log` holds one line per path.
    ToggleFailure { log: String },
}

/// How many entries the two buffers of the topology query must hold.
#[derive(Clone, Copy, Debug, PartialEq, Eq, Structural)]
pub struct BufferPlan {
    pub paths: u32,
    pub modes: u32,
}

impl QueryStage {
    /// The name of the system call of this stage.
    pub open spec fn spec_call_name(self) -> Seq<char> {
        match self {
            QueryStage::BufferSizes => "GetDisplayConfigBufferSizes"@,
            QueryStage::Paths => "QueryDisplayConfig"@,
        }
    }

    pub fn call_name(self) -> (name: &'static str)
        ensures
            name@ == self.spec_call_name(),
    {
        match self {
            QueryStage::BufferSizes => "GetDisplayConfigBufferSizes",
            QueryStage::Paths => "QueryDisplayConfig",
        }
    }
}

impl GatewayError {
    /// The text of the error: for a failed query, the call and its status;
    /// for a failed switch, the log.
    pub open spec fn spec_message(self) -> Seq<char> {
        match self {
            GatewayError::QueryFailure { stage, code } => stage.spec_call_name()
                + " failed: WIN32_ERROR("@ + decimal_digits(code as nat) + ")"@,
            GatewayError::ToggleFailure { log } => log@,
        }
    }

    pub fn message(&self) -> (text: String)
        ensures
            text@ == self.spec_message(),
    {
        match self {
            GatewayError::QueryFailure { stage, code } => {
                let mut text: String = String::from_str(stage.call_name());
                text.append(" failed: WIN32_ERROR(");
                push_decimal(&mut text, *code as u64);
                text.append(")");
                text
            },
            GatewayError::ToggleFailure { log } => log.clone(),
        }
    }
}

impl DisplayPath {
    /// The request that reads this path's advanced-color information.
    pub fn read_request(self) -> (r: DeviceRequest)
        ensures
            r == (DeviceRequest { kind: GET_ADVANCED_COLOR_INFO, path: self, value: 0 }),
    {
        DeviceRequest { kind: GET_ADVANCED_COLOR_INFO, path: self, value: 0 }
    }

    /// The request that turns this path's advanced color on or off.
    pub fn write_request(self, enable: bool) -> (r: DeviceRequest)
        ensures
            r == (DeviceRequest {
                kind: SET_ADVANCED_COLOR_STATE,
                path: self,
                value: if enable {
                    ENABLE_FLAG
                } else {
                    0
                },
            }),
    {
        DeviceRequest {
            kind: SET_ADVANCED_COLOR_STATE,
            path: self,
            value: if enable {
                ENABLE_FLAG
            } else {
                0
            },
        }
    }
}

/// The first call of an enumeration asked for the buffer sizes. On success
/// the sizes are handed on; any other status is a query failure, and the
/// second call is not to be made.
pub fn buffer_plan(status: u32, path_count: u32, mode_count: u32) -> (r: Result<
    BufferPlan,
    GatewayError,
>)
    ensures
        status == 0 ==> r == Ok::<BufferPlan, GatewayError>(
            BufferPlan { paths: path_count, modes: mode_count },
        ),
        status != 0 ==> r == Err::<BufferPlan, GatewayError>(
            GatewayError::QueryFailure { stage: QueryStage::BufferSizes, code: status },
        ),
{
    if status == 0 {
        Ok(BufferPlan { paths: path_count, modes: mode_count })
    } else {
        Err(GatewayError::QueryFailure { stage: QueryStage::BufferSizes, code: status })
    }
}

/// The paths of `buffer` that the system filled: the first `returned`, or all
/// of them if there are fewer.
pub open spec fn filled_paths(buffer: Seq<DisplayPath>, returned: nat) -> Seq<DisplayPath> {
    if returned < buffer.len() {
        buffer.subrange(0, returned as int)
    } else {
        buffer
    }
}

/// The second call of an enumeration filled `buffer` and said how many
/// entries it wrote. On success those entries are the active paths, in the
/// system's order; on any other status there are no paths at all, only the
/// failure.
pub fn active_paths(status: u32, returned: u32, buffer: Vec<DisplayPath>) -> (r: Result<
    Vec<DisplayPath>,
    GatewayError,
>)
    ensures
        status == 0 ==> r is Ok && r->Ok_0@ == filled_paths(buffer@, returned as nat),
        status != 0 ==> r == Err::<Vec<DisplayPath>, GatewayError>(
            GatewayError::QueryFailure { stage: QueryStage::Paths, code: status },
        ),
{
    if status != 0 {
        return Err(GatewayError::QueryFailure { stage: QueryStage::Paths, code: status });
    }
    let mut paths = buffer;
    if (returned as usize) < paths.len() {
        paths.truncate(returned as usize);
    }
    Ok(paths)
}

impl PathReading {
    /// A path reports HDR when the query succeeded and the enabled bit is set.
    /// A failed query counts as "not enabled".
    pub open spec fn spec_reports_enabled(self) -> bool {
        self.status == STATUS_SUCCESS && self.value & ADVANCED_COLOR_ENABLED != 0
    }

    #[verifier::when_used_as_spec(spec_reports_enabled)]
    pub fn reports_enabled(self) -> (b: bool)
        ensures
            b == self.spec_reports_enabled(),
    {
        self.status == STATUS_SUCCESS && self.value & ADVANCED_COLOR_ENABLED != 0
    }
}

/// The overall HDR state: on if any path reports it.
pub open spec fn any_enabled(readings: Seq<PathReading>) -> bool {
    exists|i: int| 0 <= i < readings.len() && (#[trigger] readings[i]).spec_reports_enabled()
}

/// How many paths have to be asked before the overall state is known: all of
/// them up to and including the first that reports HDR.
pub open spec fn queries_needed(readings: Seq<PathReading>) -> nat
    decreases readings.len(),
{
    if readings.len() == 0 {
        0
    } else if readings[0].spec_reports_enabled() {
        1
    } else {
        1 + queries_needed(readings.skip(1))
    }
}

/// The overall HDR state of the given per-path readings.
pub fn read_state(readings: &Vec<PathReading>) -> (on: bool)
    ensures
        on == any_enabled(readings@),
{
    let mut i: usize = 0;
    while i < readings.len()
        invariant
            i <= readings.len(),
            forall|j: int| 0 <= j < i ==> !(#[trigger] readings@[j]).spec_reports_enabled(),
        decreases readings.len() - i,
    {
        if readings[i].reports_enabled() {
            return true;
        }
        i = i + 1;
    }
    false
}

/// A reading of the HDR state in progress: the paths to ask, how many were
/// asked so far, and whether the last answer reported HDR.
#[derive(Clone, Debug, PartialEq, Eq)]
pub struct ReadScan {
    pub paths: Vec<DisplayPath>,
    pub asked: usize,
    pub enabled: bool,
}

impl ReadScan {
    pub open spec fn wf(self) -> bool {
        self.asked <= self.paths.len()
    }

    /// The next request, while there is one: the scan ends with the first
    /// path that reports HDR, or with the last path.
    pub open spec fn spec_pending(self) -> Option<DeviceRequest> {
        if !self.enabled && self.asked < self.paths.len() {
            Some(
                DeviceRequest {
                    kind: GET_ADVANCED_COLOR_INFO,
                    path: self.paths[self.asked as int],
                    value: 0,
                },
            )
        } else {
            None
        }
    }

    /// The scan after the answer to its pending request; a scan that has
    /// nothing pending takes no answer.
    pub open spec fn spec_record(self, reading: PathReading) -> ReadScan {
        if self.spec_pending() is Some {
            ReadScan {
                paths: self.paths,
                asked: (self.asked + 1) as usize,
                enabled: reading.spec_reports_enabled(),
            }
        } else {
            self
        }
    }

    /// The scan after the answers `readings`, given in the order asked.
    pub open spec fn fed(self, readings: Seq<PathReading>) -> ReadScan
        decreases readings.len(),
    {
        if readings.len() == 0 {
            self
        } else {
            self.spec_record(readings[0]).fed(readings.skip(1))
        }
    }

    /// Starts a scan over the enumerated paths. With a failed enumeration
    /// there is nothing to ask, and the state is "off".
    pub fn begin(enumeration: Result<Vec<DisplayPath>, GatewayError>) -> (scan: ReadScan)
        ensures
            scan.wf(),
            scan.asked == 0,
            !scan.enabled,
            scan.paths@ == (match enumeration {
                Ok(paths) => paths@,
                Err(_) => Seq::<DisplayPath>::empty(),
            }),
            enumeration is Err ==> scan.spec_pending() is None,
    {
        match enumeration {
            Ok(paths) => ReadScan { paths, asked: 0, enabled: false },
            Err(_) => ReadScan { paths: Vec::new(), asked: 0, enabled: false },
        }
    }

    /// The request to make next, if the scan is not over.
    pub fn pending(&self) -> (r: Option<DeviceRequest>)
        ensures
            r == self.spec_pending(),
    {
        if !self.enabled && self.asked < self.paths.len() {
            Some(self.paths[self.asked].read_request())
        } else {
            None
        }
    }

    /// Takes the answer to the pending request.
    pub fn record(&mut self, reading: PathReading)
        ensures
            old(self).wf() ==> final(self).wf(),
            *final(self) == old(self).spec_record(reading),
    {
        if !self.enabled && self.asked < self.paths.len() {
            self.asked = self.asked + 1;
            self.enabled = reading.reports_enabled();
        }
    }

    /// The HDR state that the scan found; it is final once nothing is pending.
    pub fn state(&self) -> (on: bool)
        ensures
            on == self.enabled,
    {
        self.enabled
    }
}

/// A scan that is given the readings of its paths from some path onward
/// stops where the first of them reports HDR.
proof fn lemma_scan_from(scan: ReadScan, readings: Seq<PathReading>)
    requires
        scan.wf(),
        !scan.enabled,
        readings.len() == scan.paths.len() - scan.asked,
    ensures
        scan.fed(readings).paths == scan.paths,
        scan.fed(readings).spec_pending() is None,
        scan.fed(readings).enabled == any_enabled(readings),
        scan.fed(readings).asked == scan.asked + queries_needed(readings),
    decreases readings.len(),
{
    if readings.len() > 0 {
        let next = scan.spec_record(readings[0]);
        let rest = readings.skip(1);
        if readings[0].spec_reports_enabled() {
            lemma_finished_scan_ignores(next, rest);
        } else {
            lemma_scan_from(next, rest);
            if any_enabled(readings) {
                let i = choose|i: int|
                    0 <= i < readings.len() && (#[trigger] readings[i]).spec_reports_enabled();
                assert(rest[i - 1].spec_reports_enabled());
            }
            if any_enabled(rest) {
                let i = choose|i: int|
                    0 <= i < rest.len() && (#[trigger] rest[i]).spec_reports_enabled();
                assert(readings[i + 1].spec_reports_enabled());
            }
        }
    }
}

/// A scan with nothing pending stays as it is, whatever it is given.
proof fn lemma_finished_scan_ignores(scan: ReadScan, readings: Seq<PathReading>)
    requires
        scan.spec_pending() is None,
    ensures
        scan.fed(readings) == scan,
    decreases readings.len(),
{
    if readings.len() > 0 {
        lemma_finished_scan_ignores(scan, readings.skip(1));
    }
}

/// A fresh scan that is answered with the readings of its paths, in order,
/// ends with the overall HDR state of those readings, and asks no path
/// beyond the first that reports HDR.
pub proof fn lemma_scan_finds_state(scan: ReadScan, readings: Seq<PathReading>)
    requires
        scan.asked == 0,
        !scan.enabled,
        readings.len() == scan.paths.len(),
    ensures
        scan.fed(readings).spec_pending() is None,
        scan.fed(readings).enabled == any_enabled(readings),
        scan.fed(readings).asked == queries_needed(readings),
{
    lemma_scan_from(scan, readings);
}

/// The line of the log for one outcome: success, or the status that the
/// system gave, each with the target's identifier.
pub open spec fn diagnostic_line(outcome: WriteOutcome) -> Seq<char> {
    if outcome.status == STATUS_SUCCESS {
        "Success for ID "@ + decimal_digits(outcome.target_id as nat) + "\n"@
    } else {
        "Error "@ + decimal(outcome.status as int) + " for ID "@ + decimal_digits(
            outcome.target_id as nat,
        ) + "\n"@
    }
}

/// The log of a switch: the lines of all outcomes, in order.
pub open spec fn diagnostics(outcomes: Seq<WriteOutcome>) -> Seq<char>
    decreases outcomes.len(),
{
    if outcomes.len() == 0 {
        Seq::<char>::empty()
    } else {
        diagnostics(outcomes.drop_last()) + diagnostic_line(outcomes.last())
    }
}

pub open spec fn any_succeeded(outcomes: Seq<WriteOutcome>) -> bool {
    exists|i: int| 0 <= i < outcomes.len() && (#[trigger] outcomes[i]).status == STATUS_SUCCESS
}

/// Appends the line for one outcome to the log.
pub fn push_diagnostic_line(log: &mut String, outcome: WriteOutcome)
    ensures
        final(log)@ == old(log)@ + diagnostic_line(outcome),
{
    if outcome.status == STATUS_SUCCESS {
        log.append("Success for ID ");
        push_decimal(log, outcome.target_id as u64);
        log.append("\n");
        assert(final(log)@ =~= old(log)@ + diagnostic_line(outcome));
    } else {
        log.append("Error ");
        push_signed_decimal(log, outcome.status as i64);
        log.append(" for ID ");
        push_decimal(log, outcome.target_id as u64);
        log.append("\n");
        assert(final(log)@ =~= old(log)@ + diagnostic_line(outcome));
    }
}

/// Whether `r` is the result of a switch with the given outcomes: success
/// with the log if at least one write succeeded, the failure that carries the
/// log if none did.
pub open spec fn is_toggle_result(
    r: Result<String, GatewayError>,
    outcomes: Seq<WriteOutcome>,
) -> bool {
    match r {
        Ok(log) => any_succeeded(outcomes) && log@ == diagnostics(outcomes),
        Err(GatewayError::ToggleFailure { log }) => !any_succeeded(outcomes) && log@
            == diagnostics(outcomes),
        Err(GatewayError::QueryFailure { .. }) => false,
    }
}

/// The result of a switch, from the outcomes of all its writes. The switch
/// succeeded if at least one write did; it failed if every write failed, or
/// if there was none. Either way the log holds a line for every outcome.
pub fn toggle_report(outcomes: &Vec<WriteOutcome>) -> (r: Result<String, GatewayError>)
    ensures
        is_toggle_result(r, outcomes@),
{
    let mut log: String = String::new();
    let mut success_any: bool = false;
    let mut i: usize = 0;
    assert(outcomes@.subrange(0, 0) =~= Seq::<WriteOutcome>::empty());
    while i < outcomes.len()
        invariant
            i <= outcomes.len(),
            log@ == diagnostics(outcomes@.subrange(0, i as int)),
            success_any == any_succeeded(outcomes@.subrange(0, i as int)),
        decreases outcomes.len() - i,
    {
        let ghost before = outcomes@.subrange(0, i as int);
        let ghost after = outcomes@.subrange(0, i + 1);
        let outcome: WriteOutcome = outcomes[i];
        proof {
            assert(after.drop_last() =~= before);
            assert(after.last() == outcome);
            if any_succeeded(before) {
                let k = choose|k: int|
                    0 <= k < before.len() && (#[trigger] before[k]).status == STATUS_SUCCESS;
                assert(after[k].status == STATUS_SUCCESS);
            }
            if any_succeeded(after) && outcome.status != STATUS_SUCCESS {
                let k = choose|k: int|
                    0 <= k < after.len() && (#[trigger] after[k]).status == STATUS_SUCCESS;
                assert(before[k].status == STATUS_SUCCESS);
            }
            if outcome.status == STATUS_SUCCESS {
                assert(after[i as int].status == STATUS_SUCCESS);
            }
        }
        if outcome.status == STATUS_SUCCESS {
            success_any = true;
        }
        push_diagnostic_line(&mut log, outcome);
        i = i + 1;
    }
    assert(outcomes@.subrange(0, i as int) =~= outcomes@);
    if success_any {
        Ok(log)
    } else {
        Err(GatewayError::ToggleFailure { log })
    }
}

/// A switch of the HDR mode in progress: the paths to write to, the state to
/// set, and the outcomes of the writes made so far.
#[derive(Clone, Debug, PartialEq, Eq)]
pub struct ToggleRun {
    pub paths: Vec<DisplayPath>,
    pub enable: bool,
    pub outcomes: Vec<WriteOutcome>,
}

impl ToggleRun {
    /// The next write, while there is a path that was not written to.
    pub open spec fn spec_pending(self) -> Option<DeviceRequest> {
        if self.outcomes.len() < self.paths.len() {
            Some(
                DeviceRequest {
                    kind: SET_ADVANCED_COLOR_STATE,
                    path: self.paths[self.outcomes.len() as int],
                    value: if self.enable {
                        ENABLE_FLAG
                    } else {
                        0
                    },
                },
            )
        } else {
            None
        }
    }

    /// The outcomes after the status of the pending write came back; a run
    /// with nothing pending takes no status.
    pub open spec fn outcomes_after(self, status: i32) -> Seq<WriteOutcome> {
        if self.outcomes.len() < self.paths.len() {
            self.outcomes@.push(
                WriteOutcome {
                    target_id: self.paths[self.outcomes.len() as int].target_id,
                    status,
                },
            )
        } else {
            self.outcomes@
        }
    }

    /// Starts a switch over the enumerated paths. A failed enumeration fails
    /// the switch with the same error, before any write.
    pub fn begin(enumeration: Result<Vec<DisplayPath>, GatewayError>, enable: bool) -> (r: Result<
        ToggleRun,
        GatewayError,
    >)
        ensures
            match enumeration {
                Ok(paths) => r is Ok && r->Ok_0.paths@ == paths@ && r->Ok_0.enable == enable
                    && r->Ok_0.outcomes@.len() == 0,
                Err(e) => r == Err::<ToggleRun, GatewayError>(e),
            },
    {
        match enumeration {
            Ok(paths) => Ok(ToggleRun { paths, enable, outcomes: Vec::new() }),
            Err(e) => Err(e),
        }
    }

    /// The write to make next, if any is left.
    pub fn pending(&self) -> (r: Option<DeviceRequest>)
        ensures
            r == self.spec_pending(),
    {
        if self.outcomes.len() < self.paths.len() {
            Some(self.paths[self.outcomes.len()].write_request(self.enable))
        } else {
            None
        }
    }

    /// Takes the status of the pending write.
    pub fn record(&mut self, status: i32)
        ensures
            final(self).paths == old(self).paths,
            final(self).enable == old(self).enable,
            final(self).outcomes@ == old(self).outcomes_after(status),
    {
        if self.outcomes.len() < self.paths.len() {
            let target_id: u32 = self.paths[self.outcomes.len()].target_id;
            self.outcomes.push(WriteOutcome { target_id, status });
        }
    }

    /// The result of the switch, from the writes made so far.
    pub fn finish(&self) -> (r: Result<String, GatewayError>)
        ensures
            is_toggle_result(r, self.outcomes@),
    {
        toggle_report(&self.outcomes)
    }
}

/// The outcomes of a run that wrote to the first `statuses.len()` of `paths`
/// and got these statuses back.
pub open spec fn outcomes_of(paths: Seq<DisplayPath>, statuses: Seq<i32>) -> Seq<WriteOutcome> {
    Seq::new(
        statuses.len(),
        |i: int| WriteOutcome { target_id: paths[i].target_id, status: statuses[i] },
    )
}

/// A run writes to its paths in order, each once: a run that holds the
/// outcomes of its first paths, and is then given the status of its pending
/// write, holds the outcomes of one path more.
pub proof fn lemma_run_writes_in_order(run: ToggleRun, statuses: Seq<i32>, status: i32)
    requires
        statuses.len() < run.paths.len(),
        run.outcomes@ == outcomes_of(run.paths@, statuses),
    ensures
        run.spec_pending() matches Some(request) && request.path == run.paths[statuses.len()
            as int],
        run.outcomes_after(status) == outcomes_of(run.paths@, statuses.push(status)),
{
    assert(run.outcomes_after(status) =~= outcomes_of(run.paths@, statuses.push(status)));
}

/// The poller's memory: the HDR state that it saw last.
#[derive(Clone, Copy, Debug, PartialEq, Eq, Structural)]
pub struct Poller {
    pub last: bool,
}

/// The pause between two polls of the HDR state, in milliseconds.
pub const POLL_INTERVAL_MS: u64 = 2000;

impl Poller {
    /// What a poll that reads `current` announces: the new state if it
    /// differs from the remembered one, else nothing.
    pub open spec fn spec_announces(self, current: bool) -> Option<bool> {
        if current != self.last {
            Some(current)
        } else {
            None
        }
    }

    /// The announcements of a run of polls, in order.
    pub open spec fn announcements(self, reads: Seq<bool>) -> Seq<bool>
        decreases reads.len(),
    {
        if reads.len() == 0 {
            Seq::<bool>::empty()
        } else {
            let rest = (Poller { last: reads[0] }).announcements(reads.skip(1));
            match self.spec_announces(reads[0]) {
                Some(state) => seq![state] + rest,
                None => rest,
            }
        }
    }

    /// A poller that starts from the state read at startup.
    pub fn new(initial: bool) -> (p: Poller)
        ensures
            p.last == initial,
    {
        Poller { last: initial }
    }

    /// One poll read `current`. The poller remembers it, and announces it if
    /// and only if it differs from what was remembered before.
    pub fn observe(&mut self, current: bool) -> (announce: Option<bool>)
        ensures
            final(self).last == current,
            announce == old(self).spec_announces(current),
            announce is Some <==> current != old(self).last,
    {
        if current != self.last {
            self.last = current;
            Some(current)
        } else {
            None
        }
    }
}

/// No state is announced twice in a row: the first announcement is the
/// opposite of what the poller remembered, and each one after it is the
/// opposite of the one before.
pub proof fn lemma_announcements_alternate(p: Poller, reads: Seq<bool>)
    ensures
        forall|i: int|
            0 <= i < p.announcements(reads).len() ==> #[trigger] p.announcements(reads)[i] == (if i
                % 2 == 0 {
                !p.last
            } else {
                p.last
            }),
    decreases reads.len(),
{
    if reads.len() > 0 {
        let next = Poller { last: reads[0] };
        let rest = next.announcements(reads.skip(1));
        lemma_announcements_alternate(next, reads.skip(1));
        let all = p.announcements(reads);
        if reads[0] != p.last {
            assert(all == seq![reads[0]] + rest);
            assert forall|i: int| 0 <= i < all.len() implies #[trigger] all[i] == (if i % 2 == 0 {
                !p.last
            } else {
                p.last
            }) by {
                if i > 0 {
                    assert(all[i] == rest[i - 1]);
                }
            }
        }
    }
}

/// Polls that all read the remembered state announce nothing.
pub proof fn lemma_steady_reads_announce_nothing(p: Poller, reads: Seq<bool>)
    requires
        forall|i: int| 0 <= i < reads.len() ==> reads[i] == p.last,
    ensures
        p.announcements(reads).len() == 0,
    decreases reads.len(),
{
    if reads.len() > 0 {
        let rest = reads.skip(1);
        assert(forall|i: int| 0 <= i < rest.len() ==> rest[i] == reads[i + 1]);
        lemma_steady_reads_announce_nothing(Poller { last: reads[0] }, rest);
    }
}

} // verus!
