use eventstore_core::commands::{
    CMD_CLIENT_IDENTIFIED, CMD_HEARTBEAT_REQUEST, CMD_HEARTBEAT_RESPONSE, CMD_IDENTIFY_CLIENT,
    CMD_WRITE_EVENTS, CMD_WRITE_EVENTS_COMPLETED,
};
use eventstore_core::driver::{Core, Msg, Output};
use eventstore_core::package::Package;
use eventstore_core::registry::Operation;
use eventstore_core::types::{OperationError, Retry, Settings};

fn write_op() -> Operation {
    Operation {
        cmd: CMD_WRITE_EVENTS,
        response_cmd: CMD_WRITE_EVENTS_COMPLETED,
        creds_opt: None,
        payload: vec![0xAB],
    }
}

fn connect(core: &mut Core, now: u64) {
    let mut out = Vec::new();
    core.handle_msg(Msg::Start, now, &mut out);
    assert!(matches!(out[0], Output::ConnectTransport));
    let mut out = Vec::new();
    core.handle_msg(Msg::Connected, now, &mut out);
    let identify = match &out[0] {
        Output::Send(pkg) => pkg.clone(),
        _ => panic!("expected the identification package"),
    };
    assert_eq!(identify.cmd, CMD_IDENTIFY_CLIENT);
    let mut out = Vec::new();
    core.handle_msg(
        Msg::Pkg(Package::new(CMD_CLIENT_IDENTIFIED, identify.correlation)),
        now,
        &mut out,
    );
}

fn sent_packages(out: &[Output]) -> Vec<Package> {
    out.iter()
        .filter_map(|o| match o {
            Output::Send(p) => Some(p.clone()),
            _ => None,
        })
        .collect()
}

#[test]
fn happy_write_resolves_the_sink_and_empties_the_registry() {
    let mut core = Core::new(Settings::default(), 0);
    connect(&mut core, 0);
    let mut out = Vec::new();
    let key = core.submit(write_op(), 0, &mut out);
    let sent = sent_packages(&out);
    assert_eq!(sent.len(), 1);
    assert_eq!(sent[0].cmd, CMD_WRITE_EVENTS);
    let reply = Package::with_payload(
        CMD_WRITE_EVENTS_COMPLETED,
        sent[0].correlation,
        None,
        vec![0x01, 0x02],
    );
    let mut out = Vec::new();
    core.handle_msg(Msg::Pkg(reply), 5, &mut out);
    match &out[0] {
        Output::CompleteOp { key: k, response } => {
            assert_eq!(*k, key);
            assert_eq!(response.payload, vec![0x01, 0x02]);
        },
        _ => panic!("expected the completion"),
    }
    assert_eq!(core.in_flight(), 0);
}

#[test]
fn write_timeout_with_retry_uses_three_ids_then_times_out() {
    let mut settings = Settings::default();
    settings.operation_retry = Retry::Only(2);
    settings.operation_timeout = 50;
    settings.operation_check_period = 50;
    let mut core = Core::new(settings, 0);
    connect(&mut core, 0);
    let mut out = Vec::new();
    let key = core.submit(write_op(), 0, &mut out);
    let mut ids: Vec<u128> = sent_packages(&out).iter().map(|p| p.correlation).collect();
    for now in [50u64, 100] {
        let mut out = Vec::new();
        core.handle_msg(Msg::Tick, now, &mut out);
        for pkg in sent_packages(&out) {
            if pkg.cmd == CMD_WRITE_EVENTS {
                ids.push(pkg.correlation);
            }
        }
    }
    let mut out = Vec::new();
    core.handle_msg(Msg::Tick, 150, &mut out);
    let failed = out.iter().any(|o| {
        matches!(o, Output::FailOp { key: k, error } if *k == key && *error == OperationError::OperationTimeout)
    });
    assert!(failed, "expected the timeout failure");
    assert_eq!(ids.len(), 3);
    assert!(ids[0] != ids[1] && ids[1] != ids[2] && ids[0] != ids[2]);
    assert_eq!(core.in_flight(), 0);
}

#[test]
fn reconnect_mid_flight_resubmits_and_resolves_the_original_sink() {
    let mut settings = Settings::default();
    settings.connection_retry = Retry::Only(1);
    let mut core = Core::new(settings, 0);
    connect(&mut core, 0);
    let mut out = Vec::new();
    let key = core.submit(write_op(), 0, &mut out);
    let first_id = sent_packages(&out)[0].correlation;
    // The transport drops before any response.
    let mut out = Vec::new();
    core.handle_msg(Msg::Disconnected, 10, &mut out);
    assert!(matches!(out[0], Output::ConnectTransport));
    // The socket reopens and the client identifies again.
    let mut out = Vec::new();
    core.handle_msg(Msg::Connected, 20, &mut out);
    let identify = sent_packages(&out)[0].clone();
    let mut out = Vec::new();
    core.handle_msg(Msg::Pkg(Package::new(CMD_CLIENT_IDENTIFIED, identify.correlation)), 20, &mut out);
    let resent: Vec<Package> = sent_packages(&out)
        .into_iter()
        .filter(|p| p.cmd == CMD_WRITE_EVENTS)
        .collect();
    assert_eq!(resent.len(), 1);
    assert_ne!(resent[0].correlation, first_id);
    // The response under the fresh id resolves the original sink.
    let reply = Package::with_payload(CMD_WRITE_EVENTS_COMPLETED, resent[0].correlation, None, vec![]);
    let mut out = Vec::new();
    core.handle_msg(Msg::Pkg(reply), 30, &mut out);
    assert!(matches!(out[0], Output::CompleteOp { key: k, .. } if k == key));
}

#[test]
fn heartbeat_timeout_drops_and_reconnects() {
    let mut settings = Settings::default();
    settings.heartbeat_delay = 10;
    settings.heartbeat_timeout = 20;
    let mut core = Core::new(settings, 0);
    connect(&mut core, 0);
    // Quiet connection: one probe at 10 ms.
    let mut out = Vec::new();
    core.handle_msg(Msg::Tick, 10, &mut out);
    let sent = sent_packages(&out);
    assert_eq!(sent.len(), 1);
    assert_eq!(sent[0].cmd, CMD_HEARTBEAT_REQUEST);
    // Still quiet at 30 ms: the connection is declared dead.
    let mut out = Vec::new();
    core.handle_msg(Msg::Tick, 30, &mut out);
    assert!(out.iter().any(|o| matches!(o, Output::CloseTransport)));
    // The supervisor begins the reconnect when the transport reports it.
    let mut out = Vec::new();
    core.handle_msg(Msg::Disconnected, 31, &mut out);
    assert!(matches!(out[0], Output::ConnectTransport));
}

#[test]
fn heartbeat_request_is_answered_in_kind() {
    let mut core = Core::new(Settings::default(), 0);
    connect(&mut core, 0);
    let mut out = Vec::new();
    core.handle_msg(Msg::Pkg(Package::new(CMD_HEARTBEAT_REQUEST, 777)), 5, &mut out);
    let sent = sent_packages(&out);
    assert_eq!(sent.len(), 1);
    assert_eq!(sent[0].cmd, CMD_HEARTBEAT_RESPONSE);
    assert_eq!(sent[0].correlation, 777);
}

#[test]
fn shutdown_fails_in_flight_operations_and_closes() {
    let mut core = Core::new(Settings::default(), 0);
    connect(&mut core, 0);
    let mut out = Vec::new();
    let key = core.submit(write_op(), 0, &mut out);
    let mut out = Vec::new();
    core.handle_msg(Msg::Shutdown, 10, &mut out);
    assert!(out.iter().any(|o| {
        matches!(o, Output::FailOp { key: k, error } if *k == key && *error == OperationError::ConnectionClosed)
    }));
    assert!(out.iter().any(|o| matches!(o, Output::Closed)));
    // Submissions after closing fail at once.
    let mut out = Vec::new();
    let key2 = core.submit(write_op(), 11, &mut out);
    assert!(matches!(
        out[0],
        Output::FailOp { key: k, error: OperationError::ConnectionClosed } if k == key2
    ));
}

#[test]
fn submission_while_disconnected_queues_until_identified() {
    let mut core = Core::new(Settings::default(), 0);
    let mut out = Vec::new();
    core.handle_msg(Msg::Start, 0, &mut out);
    let mut out = Vec::new();
    let _key = core.submit(write_op(), 0, &mut out);
    assert!(sent_packages(&out).is_empty());
    assert_eq!(core.in_flight(), 1);
    let mut out = Vec::new();
    core.handle_msg(Msg::Connected, 5, &mut out);
    let identify = sent_packages(&out)[0].clone();
    let mut out = Vec::new();
    core.handle_msg(Msg::Pkg(Package::new(CMD_CLIENT_IDENTIFIED, identify.correlation)), 5, &mut out);
    let flushed: Vec<Package> = sent_packages(&out)
        .into_iter()
        .filter(|p| p.cmd == CMD_WRITE_EVENTS)
        .collect();
    assert_eq!(flushed.len(), 1);
}

#[test]
fn default_user_credentials_are_attached_to_requests() {
    let mut settings = Settings::default();
    settings.default_user = Some(eventstore_core::package::Credentials::new(
        b"admin".to_vec(),
        b"changeit".to_vec(),
    ));
    let mut core = Core::new(settings, 0);
    connect(&mut core, 0);
    let mut out = Vec::new();
    let _ = core.submit(write_op(), 0, &mut out);
    let sent = sent_packages(&out);
    assert_eq!(sent.len(), 1);
    let creds = sent[0].creds_opt.as_ref().expect("default credentials");
    assert_eq!(creds.login, b"admin".to_vec());
    assert_eq!(creds.password, b"changeit".to_vec());
    // An explicit credential on the operation wins over the default.
    let mut op = write_op();
    op.creds_opt = Some(eventstore_core::package::Credentials::new(
        b"user".to_vec(),
        b"pw".to_vec(),
    ));
    let mut out = Vec::new();
    let _ = core.submit(op, 0, &mut out);
    let sent = sent_packages(&out);
    let creds = sent[0].creds_opt.as_ref().expect("operation credentials");
    assert_eq!(creds.login, b"user".to_vec());
}

#[test]
fn protocol_error_fails_the_sink_and_forces_a_disconnect() {
    let mut core = Core::new(Settings::default(), 0);
    connect(&mut core, 0);
    let mut out = Vec::new();
    let key = core.submit(write_op(), 0, &mut out);
    let corr = sent_packages(&out)[0].correlation;
    // An unexpected command for a known correlation id is a protocol error.
    let reply = Package::with_payload(0x77, corr, None, vec![]);
    let mut out = Vec::new();
    core.handle_msg(Msg::Pkg(reply), 5, &mut out);
    assert_eq!(out.len(), 2);
    assert!(matches!(
        out[0],
        Output::FailOp { key: k, error: OperationError::ProtocolError } if k == key
    ));
    assert!(matches!(out[1], Output::CloseTransport));
}
