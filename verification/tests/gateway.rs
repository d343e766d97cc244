use hdr_widget::gateway::{
    active_paths, buffer_plan, read_state, toggle_report, BufferPlan, DeviceRequest, DisplayPath,
    GatewayError, PathReading, Poller, QueryStage, ReadScan, ToggleRun, WriteOutcome,
    ADVANCED_COLOR_ENABLED, ENABLE_FLAG, GET_ADVANCED_COLOR_INFO, POLL_INTERVAL_MS,
    SET_ADVANCED_COLOR_STATE, STATUS_SUCCESS,
};

fn path(target_id: u32) -> DisplayPath {
    DisplayPath { adapter_low: 0x1234, adapter_high: 0, target_id }
}

fn on() -> PathReading {
    PathReading { status: 0, value: 0x3 }
}

fn off() -> PathReading {
    PathReading { status: 0, value: 0x1 }
}

fn failed() -> PathReading {
    PathReading { status: 31, value: 0x3 }
}

fn run_scan(paths: Vec<DisplayPath>, readings: &[PathReading]) -> (bool, usize) {
    let mut scan = ReadScan::begin(Ok(paths));
    let mut asked = 0;
    while let Some(request) = scan.pending() {
        assert_eq!(request.kind, GET_ADVANCED_COLOR_INFO);
        scan.record(readings[asked]);
        asked += 1;
    }
    (scan.state(), asked)
}

#[test]
fn constants_are_those_of_the_display_configuration() {
    assert_eq!(GET_ADVANCED_COLOR_INFO, 9);
    assert_eq!(SET_ADVANCED_COLOR_STATE, 10);
    assert_eq!(ADVANCED_COLOR_ENABLED, 2);
    assert_eq!(ENABLE_FLAG, 1);
    assert_eq!(STATUS_SUCCESS, 0);
    assert_eq!(POLL_INTERVAL_MS, 2000);
}

#[test]
fn read_state_of_no_paths_is_off() {
    assert!(!read_state(&vec![]));
}

#[test]
fn read_state_of_disabled_paths_is_off() {
    assert!(!read_state(&vec![off()]));
    assert!(!read_state(&vec![off(), off(), off()]));
    assert!(!read_state(&vec![PathReading { status: 0, value: 0 }]));
    assert!(!read_state(&vec![PathReading { status: 0, value: 0xffff_fffd }]));
}

#[test]
fn read_state_is_on_if_any_path_is_on() {
    assert!(read_state(&vec![on()]));
    assert!(read_state(&vec![off(), on()]));
    assert!(read_state(&vec![on(), off()]));
    assert!(read_state(&vec![off(), off(), on(), off()]));
    assert!(read_state(&vec![PathReading { status: 0, value: 2 }]));
    assert!(read_state(&vec![PathReading { status: 0, value: u32::MAX }]));
}

#[test]
fn a_failed_query_counts_as_not_enabled() {
    assert!(!read_state(&vec![failed()]));
    assert!(!read_state(&vec![failed(), off()]));
    assert!(read_state(&vec![failed(), on()]));
    assert!(!failed().reports_enabled());
    assert!(!PathReading { status: -1, value: 2 }.reports_enabled());
    assert!(on().reports_enabled());
    assert!(!off().reports_enabled());
}

#[test]
fn requests_carry_the_path() {
    let p = DisplayPath { adapter_low: 7, adapter_high: -2, target_id: 4353 };
    assert_eq!(p.read_request(), DeviceRequest { kind: 9, path: p, value: 0 });
    assert_eq!(p.write_request(true), DeviceRequest { kind: 10, path: p, value: 1 });
    assert_eq!(p.write_request(false), DeviceRequest { kind: 10, path: p, value: 0 });
}

#[test]
fn buffer_plan_hands_on_the_sizes() {
    assert_eq!(buffer_plan(0, 3, 7), Ok(BufferPlan { paths: 3, modes: 7 }));
    assert_eq!(buffer_plan(0, 0, 0), Ok(BufferPlan { paths: 0, modes: 0 }));
}

#[test]
fn buffer_plan_fails_on_any_other_status() {
    assert_eq!(
        buffer_plan(87, 3, 7),
        Err(GatewayError::QueryFailure { stage: QueryStage::BufferSizes, code: 87 })
    );
    assert_eq!(
        buffer_plan(u32::MAX, 0, 0),
        Err(GatewayError::QueryFailure { stage: QueryStage::BufferSizes, code: u32::MAX })
    );
}

#[test]
fn active_paths_are_the_filled_entries() {
    let buffer = vec![path(1), path(2), path(3)];
    assert_eq!(active_paths(0, 3, buffer.clone()), Ok(vec![path(1), path(2), path(3)]));
    assert_eq!(active_paths(0, 2, buffer.clone()), Ok(vec![path(1), path(2)]));
    assert_eq!(active_paths(0, 0, buffer.clone()), Ok(vec![]));
    assert_eq!(active_paths(0, 9, buffer.clone()), Ok(vec![path(1), path(2), path(3)]));
    assert_eq!(active_paths(0, 0, vec![]), Ok(vec![]));
}

#[test]
fn active_paths_gives_no_partial_result_on_failure() {
    let buffer = vec![path(1), path(2), path(3)];
    assert_eq!(
        active_paths(122, 2, buffer),
        Err(GatewayError::QueryFailure { stage: QueryStage::Paths, code: 122 })
    );
}

#[test]
fn error_messages_name_the_call_and_the_status() {
    assert_eq!(
        GatewayError::QueryFailure { stage: QueryStage::BufferSizes, code: 5 }.message(),
        "GetDisplayConfigBufferSizes failed: WIN32_ERROR(5)"
    );
    assert_eq!(
        GatewayError::QueryFailure { stage: QueryStage::Paths, code: 122 }.message(),
        "QueryDisplayConfig failed: WIN32_ERROR(122)"
    );
    assert_eq!(
        GatewayError::QueryFailure { stage: QueryStage::Paths, code: u32::MAX }.message(),
        "QueryDisplayConfig failed: WIN32_ERROR(4294967295)"
    );
    assert_eq!(
        GatewayError::ToggleFailure { log: String::from("Error 87 for ID 1\n") }.message(),
        "Error 87 for ID 1\n"
    );
    assert_eq!(QueryStage::BufferSizes.call_name(), "GetDisplayConfigBufferSizes");
    assert_eq!(QueryStage::Paths.call_name(), "QueryDisplayConfig");
}

#[test]
fn scan_stops_at_the_first_enabled_path() {
    let paths = vec![path(1), path(2), path(3), path(4)];
    assert_eq!(run_scan(paths.clone(), &[off(), on(), on(), off()]), (true, 2));
    assert_eq!(run_scan(paths.clone(), &[on(), off(), off(), off()]), (true, 1));
    assert_eq!(run_scan(paths.clone(), &[off(), failed(), off(), on()]), (true, 4));
}

#[test]
fn scan_asks_every_path_when_none_is_enabled() {
    let paths = vec![path(1), path(2), path(3)];
    assert_eq!(run_scan(paths.clone(), &[off(), failed(), off()]), (false, 3));
    assert_eq!(run_scan(vec![], &[]), (false, 0));
}

#[test]
fn scan_asks_the_paths_in_order() {
    let mut scan = ReadScan::begin(Ok(vec![path(10), path(20)]));
    assert_eq!(scan.pending(), Some(path(10).read_request()));
    scan.record(off());
    assert_eq!(scan.pending(), Some(path(20).read_request()));
    scan.record(off());
    assert_eq!(scan.pending(), None);
    assert!(!scan.state());
    scan.record(on());
    assert!(!scan.state());
    assert_eq!(scan.asked, 2);
}

#[test]
fn scan_agrees_with_read_state() {
    let kinds = [on(), off(), failed()];
    for a in kinds {
        for b in kinds {
            for c in kinds {
                let readings = vec![a, b, c];
                let (state, _) = run_scan(vec![path(1), path(2), path(3)], &readings);
                assert_eq!(state, read_state(&readings));
            }
        }
    }
}

#[test]
fn scan_over_a_failed_enumeration_is_off() {
    let scan = ReadScan::begin(Err(GatewayError::QueryFailure {
        stage: QueryStage::BufferSizes,
        code: 5,
    }));
    assert_eq!(scan.pending(), None);
    assert!(!scan.state());
}

#[test]
fn toggle_report_succeeds_if_any_write_succeeds() {
    let outcomes = vec![
        WriteOutcome { target_id: 4353, status: 0 },
        WriteOutcome { target_id: 4354, status: 87 },
    ];
    assert_eq!(
        toggle_report(&outcomes),
        Ok(String::from("Success for ID 4353\nError 87 for ID 4354\n"))
    );
    let outcomes = vec![
        WriteOutcome { target_id: 1, status: 31 },
        WriteOutcome { target_id: 2, status: 31 },
        WriteOutcome { target_id: 3, status: 0 },
    ];
    assert_eq!(
        toggle_report(&outcomes),
        Ok(String::from("Error 31 for ID 1\nError 31 for ID 2\nSuccess for ID 3\n"))
    );
    assert_eq!(
        toggle_report(&vec![WriteOutcome { target_id: 0, status: 0 }]),
        Ok(String::from("Success for ID 0\n"))
    );
}

#[test]
fn toggle_report_fails_if_every_write_fails() {
    let outcomes = vec![
        WriteOutcome { target_id: 4353, status: 87 },
        WriteOutcome { target_id: 4354, status: -1 },
    ];
    assert_eq!(
        toggle_report(&outcomes),
        Err(GatewayError::ToggleFailure {
            log: String::from("Error 87 for ID 4353\nError -1 for ID 4354\n")
        })
    );
    assert_eq!(
        toggle_report(&vec![WriteOutcome { target_id: u32::MAX, status: i32::MIN }]),
        Err(GatewayError::ToggleFailure {
            log: String::from("Error -2147483648 for ID 4294967295\n")
        })
    );
}

#[test]
fn toggle_report_without_paths_fails_with_an_empty_log() {
    assert_eq!(toggle_report(&vec![]), Err(GatewayError::ToggleFailure { log: String::new() }));
}

#[test]
fn toggle_run_writes_to_every_path() {
    let mut run = ToggleRun::begin(Ok(vec![path(1), path(2), path(3)]), true).unwrap();
    let mut requests = vec![];
    let statuses = [5, 0, 5];
    while let Some(request) = run.pending() {
        run.record(statuses[requests.len()]);
        requests.push(request);
    }
    assert_eq!(
        requests,
        vec![path(1).write_request(true), path(2).write_request(true), path(3).write_request(true)]
    );
    assert_eq!(
        run.finish(),
        Ok(String::from("Error 5 for ID 1\nSuccess for ID 2\nError 5 for ID 3\n"))
    );
    run.record(0);
    assert_eq!(
        run.outcomes,
        vec![
            WriteOutcome { target_id: 1, status: 5 },
            WriteOutcome { target_id: 2, status: 0 },
            WriteOutcome { target_id: 3, status: 5 },
        ]
    );
}

#[test]
fn toggle_run_can_switch_off() {
    let mut run = ToggleRun::begin(Ok(vec![path(9)]), false).unwrap();
    assert_eq!(run.pending(), Some(DeviceRequest { kind: 10, path: path(9), value: 0 }));
    run.record(1);
    assert_eq!(run.pending(), None);
    assert_eq!(
        run.finish(),
        Err(GatewayError::ToggleFailure { log: String::from("Error 1 for ID 9\n") })
    );
}

#[test]
fn toggle_run_passes_on_a_failed_enumeration() {
    let failure = GatewayError::QueryFailure { stage: QueryStage::Paths, code: 122 };
    assert_eq!(ToggleRun::begin(Err(failure.clone()), true), Err(failure));
}

#[test]
fn toggle_run_without_paths_fails() {
    let run = ToggleRun::begin(Ok(vec![]), true).unwrap();
    assert_eq!(run.pending(), None);
    assert_eq!(run.finish(), Err(GatewayError::ToggleFailure { log: String::new() }));
}

#[test]
fn poller_announces_only_changes() {
    let mut poller = Poller::new(false);
    assert_eq!(poller.observe(false), None);
    assert_eq!(poller.observe(true), Some(true));
    assert_eq!(poller.observe(true), None);
    assert_eq!(poller.observe(true), None);
    assert_eq!(poller.observe(false), Some(false));
    assert_eq!(poller.observe(false), None);
    assert_eq!(poller.last, false);
}

#[test]
fn poller_is_silent_on_identical_reads() {
    for initial in [false, true] {
        let mut poller = Poller::new(initial);
        for _ in 0..100 {
            assert_eq!(poller.observe(initial), None);
        }
    }
}

#[test]
fn poller_never_announces_a_state_twice_in_a_row() {
    let reads = [true, true, false, true, false, false, false, true, true];
    let mut poller = Poller::new(true);
    let mut announced = vec![];
    for r in reads {
        if let Some(state) = poller.observe(r) {
            announced.push(state);
        }
    }
    assert_eq!(announced, vec![false, true, false, true]);
}
