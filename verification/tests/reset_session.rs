use reset_graphics_for_rdp::device::PnpEntity;
use reset_graphics_for_rdp::error::QueryError;
use reset_graphics_for_rdp::error::ResetError;
use reset_graphics_for_rdp::reset::CommandOutcome;
use reset_graphics_for_rdp::reset::ResetAction;
use reset_graphics_for_rdp::reset::ResetEvent;
use reset_graphics_for_rdp::reset::accepts_event;
use reset_graphics_for_rdp::reset::next_action;
use reset_graphics_for_rdp::reset::reset_report;
use reset_graphics_for_rdp::reset::resolve_instance_id;
use reset_graphics_for_rdp::reset::start_reset;
use reset_graphics_for_rdp::reset::step;

fn entity(name: &str, id: Option<&str>) -> PnpEntity {
    PnpEntity {
        name: Some(String::from(name)),
        pnp_device_id: id.map(String::from),
    }
}

/// Drives one reset session against scripted outcomes, recording every
/// action the session asks for, and returns the log and the final report.
fn drive(
    name: &str,
    query_result: Result<Vec<PnpEntity>, QueryError>,
    command_outcomes: Vec<CommandOutcome>,
) -> (Vec<String>, Result<&'static str, String>) {
    let mut log: Vec<String> = Vec::new();
    let mut query_result = Some(query_result);
    let mut command_outcomes = command_outcomes.into_iter();
    let mut state = start_reset(String::from(name));
    loop {
        let event = match next_action(&state) {
            ResetAction::RunQuery { query } => {
                log.push(format!("query {query}"));
                ResetEvent::QueryDone {
                    result: query_result.take().expect("one query per session"),
                }
            }
            ResetAction::RunCommand { disable, args } => {
                let kind = if disable { "disable" } else { "enable" };
                log.push(format!("command {kind} {}", args.join(" ")));
                ResetEvent::CommandDone {
                    outcome: command_outcomes.next().expect("an outcome per command"),
                }
            }
            ResetAction::Wait { seconds } => {
                log.push(format!("wait {seconds}"));
                ResetEvent::WaitDone
            }
            ResetAction::Succeed => return (log, reset_report(Ok(()))),
            ResetAction::Fail { error } => return (log, reset_report(Err(error))),
        };
        assert!(accepts_event(&state, &event));
        state = step(state, event);
    }
}

fn exit(success: bool, status: &str) -> CommandOutcome {
    CommandOutcome::Exited {
        success,
        status: String::from(status),
    }
}

#[test]
fn unmatched_name_fails_before_any_command() {
    let (log, report) = drive("Ghost GPU", Ok(Vec::new()), Vec::new());
    assert_eq!(report, Err(String::from("GPU not found")));
    assert_eq!(log.len(), 1);
    assert!(log[0].starts_with("query "));
    assert!(log.iter().all(|line| !line.starts_with("command")));
}

#[test]
fn missing_identifier_fails_before_any_command() {
    let rows = vec![entity("NVIDIA RTX 3070", None)];
    let (log, report) = drive("NVIDIA RTX 3070", Ok(rows), Vec::new());
    assert_eq!(report, Err(String::from("DeviceID missing")));
    assert_eq!(log.len(), 1);
    assert!(log.iter().all(|line| !line.starts_with("command")));
}

#[test]
fn successful_reset_disables_waits_then_enables() {
    let rows = vec![entity("NVIDIA RTX 3070", Some("PCI\\VEN_10DE\\4&1"))];
    let outcomes = vec![exit(true, "exit status: 0"), exit(true, "exit status: 0")];
    let (log, report) = drive("NVIDIA RTX 3070", Ok(rows), outcomes);
    assert_eq!(report, Ok("OK"));
    assert_eq!(
        log,
        vec![
            String::from(
                "query SELECT Name, PNPDeviceID FROM Win32_PnPEntity WHERE Name = 'NVIDIA RTX 3070'"
            ),
            String::from(
                "command disable -NoProfile -NonInteractive -Command Disable-PnpDevice -InstanceId \"PCI\\VEN_10DE\\4&1\" -Confirm:$false -ErrorAction Stop"
            ),
            String::from("wait 3"),
            String::from(
                "command enable -NoProfile -NonInteractive -Command Enable-PnpDevice -InstanceId \"PCI\\VEN_10DE\\4&1\" -Confirm:$false -ErrorAction Stop"
            ),
        ]
    );
}

#[test]
fn failed_disable_prevents_the_enable_command() {
    let rows = vec![entity("NVIDIA RTX 3070", Some("PCI\\VEN_10DE\\4&1"))];
    let outcomes = vec![exit(false, "exit code: 1")];
    let (log, report) = drive("NVIDIA RTX 3070", Ok(rows), outcomes);
    assert_eq!(
        report,
        Err(String::from("Disable-PnpDevice failed: exit code: 1"))
    );
    assert_eq!(
        log.iter().filter(|line| line.starts_with("command")).count(),
        1
    );
    assert!(log.iter().all(|line| !line.starts_with("command enable")));
    assert!(log.iter().all(|line| !line.starts_with("wait")));
}

#[test]
fn failed_enable_reports_its_status() {
    let rows = vec![entity("NVIDIA RTX 3070", Some("PCI\\VEN_10DE\\4&1"))];
    let outcomes = vec![exit(true, "exit status: 0"), exit(false, "exit code: 5")];
    let (log, report) = drive("NVIDIA RTX 3070", Ok(rows), outcomes);
    assert_eq!(
        report,
        Err(String::from("Enable-PnpDevice failed: exit code: 5"))
    );
    assert_eq!(
        log.iter().filter(|line| line.starts_with("command")).count(),
        2
    );
}

#[test]
fn command_launch_failure_surfaces_its_text() {
    let rows = vec![entity("NVIDIA RTX 3070", Some("PCI\\VEN_10DE\\4&1"))];
    let outcomes = vec![CommandOutcome::LaunchFailed {
        detail: String::from("program not found"),
    }];
    let (_log, report) = drive("NVIDIA RTX 3070", Ok(rows), outcomes);
    assert_eq!(report, Err(String::from("program not found")));
}

#[test]
fn query_failure_surfaces_its_text_and_issues_no_command() {
    let failure = QueryError::Exec {
        detail: String::from("bad query"),
    };
    let (log, report) = drive("NVIDIA RTX 3070", Err(failure), Vec::new());
    assert_eq!(report, Err(String::from("bad query")));
    assert!(log.iter().all(|line| !line.starts_with("command")));
}

#[test]
fn ambiguous_name_uses_the_first_match() {
    let rows = vec![
        entity("Twin GPU", Some("FIRST\\ID")),
        entity("Twin GPU", Some("SECOND\\ID")),
    ];
    let outcomes = vec![exit(true, "exit status: 0"), exit(true, "exit status: 0")];
    let (log, report) = drive("Twin GPU", Ok(rows), outcomes);
    assert_eq!(report, Ok("OK"));
    assert!(log[1].contains("FIRST\\ID"));
    assert!(log.iter().all(|line| !line.contains("SECOND\\ID")));
}

#[test]
fn resolve_of_no_rows_is_not_found() {
    let r = resolve_instance_id(Vec::new());
    assert!(matches!(r, Err(ResetError::NotFound)));
}

#[test]
fn resolve_of_row_without_identifier_is_missing_id() {
    let r = resolve_instance_id(vec![entity("A", None)]);
    assert!(matches!(r, Err(ResetError::MissingDeviceId)));
}

#[test]
fn resolve_takes_the_first_identifier() {
    let r = resolve_instance_id(vec![entity("A", Some("ID-A")), entity("A", Some("ID-B"))]);
    assert_eq!(r.unwrap(), "ID-A");
}

#[test]
fn terminal_states_accept_no_event() {
    let failed = step(
        start_reset(String::from("X")),
        ResetEvent::QueryDone { result: Ok(Vec::new()) },
    );
    assert!(!accepts_event(&failed, &ResetEvent::WaitDone));
    assert!(!accepts_event(
        &failed,
        &ResetEvent::QueryDone { result: Ok(Vec::new()) }
    ));
    match next_action(&failed) {
        ResetAction::Fail { error } => assert_eq!(error.message(), "GPU not found"),
        _ => panic!("a failed session must keep reporting its failure"),
    }
}

#[test]
fn event_kinds_are_checked_against_the_state() {
    let state = start_reset(String::from("X"));
    let query_event = ResetEvent::QueryDone { result: Ok(Vec::new()) };
    assert!(accepts_event(&state, &query_event));
    assert!(!accepts_event(&state, &ResetEvent::WaitDone));
    let failed = step(state, query_event);
    assert!(!accepts_event(&failed, &ResetEvent::WaitDone));
}

#[test]
fn reset_report_maps_success_to_the_fixed_marker() {
    assert_eq!(reset_report(Ok(())), Ok("OK"));
}

#[test]
fn reset_report_maps_each_failure_to_its_text() {
    assert_eq!(
        reset_report(Err(ResetError::NotFound)),
        Err(String::from("GPU not found"))
    );
    assert_eq!(
        reset_report(Err(ResetError::MissingDeviceId)),
        Err(String::from("DeviceID missing"))
    );
    assert_eq!(
        reset_report(Err(ResetError::Query {
            error: QueryError::InterfaceInit {
                detail: String::from("no COM")
            }
        })),
        Err(String::from("no COM"))
    );
    assert_eq!(
        reset_report(Err(ResetError::CommandLaunch {
            disable: true,
            detail: String::from("spawn failed")
        })),
        Err(String::from("spawn failed"))
    );
    assert_eq!(
        reset_report(Err(ResetError::CommandFailed {
            disable: false,
            status: String::from("exit code: 2")
        })),
        Err(String::from("Enable-PnpDevice failed: exit code: 2"))
    );
}
