//! The worker lifecycle: command serialization, one reply per command,
//! and startup-failure reporting on the exit notification.

use hekk::{
    fmt_guid_to_string, run_worker, setup, ComCommand, Guid, HResult, LogEvent,
    NetConProperties, NetConnection, NetConnectionManager, ResetError, WorkerExit,
};

fn guid(n: u8) -> Guid {
    Guid {
        data1: n as u32,
        data2: 0xABCD,
        data3: 0xEF01,
        data4: [1, 2, 3, 4, 5, 6, 7, n],
    }
}

fn connection(n: u8) -> NetConnection {
    NetConnection::new(NetConProperties::new(
        guid(n),
        format!("Connection {}", n),
        format!("Device {}", n),
        2,
        3,
        0,
    ))
}

fn manager(count: u8) -> NetConnectionManager {
    NetConnectionManager::new((0..count).map(connection).collect())
}

fn reset_command(adapter_name: String) -> ComCommand {
    ComCommand::ResetNetworkConnection {
        adapter_name,
        adapter_description: String::from("no such device"),
    }
}

#[test]
fn thirty_two_commands_each_get_one_reply_in_order() {
    let m = manager(8);
    // Thirty-two back-to-back submissions: valid targets cycling over
    // the eight connections, with every fourth targeting nothing.
    let mut commands = Vec::new();
    for i in 0..32u8 {
        if i % 4 == 3 {
            commands.push(reset_command(String::from(
                "{00000000-0000-0000-0000-000000000000}",
            )));
        } else {
            commands.push(reset_command(format!("{{{}}}", fmt_guid_to_string(&guid(i % 8)))));
        }
    }
    let mut log = setup();
    let (replies, exit) = run_worker(Ok(()), Ok(m), &commands, &mut log);
    assert_eq!(exit, WorkerExit::CleanShutdown);
    assert_eq!(replies.len(), 32);
    for (i, reply) in replies.iter().enumerate() {
        if i % 4 == 3 {
            assert_eq!(*reply, Err(ResetError::NotFound));
        } else {
            assert_eq!(*reply, Ok(()));
        }
    }
    // The log brackets the run and holds one fallback notice per
    // unresolved command, in submission order.
    assert_eq!(log.get(0), LogEvent::WorkerStarted);
    assert_eq!(log.len(), 2 + 8);
    assert_eq!(log.get(log.len() - 1), LogEvent::WorkerShutdown);
    for k in 1..9 {
        assert_eq!(log.get(k), LogEvent::DescriptionFallback);
    }
}

#[test]
fn apartment_init_failure_reports_once_and_processes_nothing() {
    let code = HResult::from_code(-2147417850);
    let commands = vec![
        reset_command(String::from("{11111111-2222-3333-4444-555555555555}")),
        reset_command(String::from("{66666666-7777-8888-9999-AAAAAAAAAAAA}")),
    ];
    let mut log = setup();
    let (replies, exit) = run_worker(Err(code), Ok(manager(2)), &commands, &mut log);
    assert_eq!(exit, WorkerExit::ApartmentInitFailed(code));
    assert_eq!(replies.len(), 0);
    // Only the start was logged: no command was ever processed.
    assert_eq!(log.len(), 1);
    assert_eq!(log.get(0), LogEvent::WorkerStarted);
}

#[test]
fn manager_creation_failure_reports_once_and_processes_nothing() {
    let code = HResult::from_code(-2147221164);
    let commands = vec![reset_command(String::from("{x}"))];
    let mut log = setup();
    let (replies, exit) = run_worker(Ok(()), Err(code), &commands, &mut log);
    assert_eq!(exit, WorkerExit::ManagerCreationFailed(code));
    assert_eq!(replies.len(), 0);
    assert_eq!(log.len(), 1);
}

#[test]
fn queue_capacity_matches_the_design_bound() {
    assert_eq!(hekk::MAX_BUFFERED_COMMANDS, 32);
}

#[test]
fn closed_channel_error_names_itself() {
    assert_eq!(hekk::SubmitError::ChannelClosed.message(), "request channel closed");
}

#[test]
fn empty_queue_drains_cleanly() {
    let mut log = setup();
    let (replies, exit) = run_worker(Ok(()), Ok(manager(1)), &Vec::new(), &mut log);
    assert_eq!(exit, WorkerExit::CleanShutdown);
    assert_eq!(replies.len(), 0);
    assert_eq!(log.len(), 2);
    assert_eq!(log.get(0), LogEvent::WorkerStarted);
    assert_eq!(log.get(1), LogEvent::WorkerShutdown);
    assert_eq!(log.get(0).message(), "Starting COM thread");
    assert_eq!(log.get(1).message(), "Shutting down COM thread");
}

#[test]
fn replies_reflect_platform_failures_per_command() {
    let mut m = manager(2);
    m.connections[1].disconnect_outcome = Some(HResult::from_code(-7));
    let commands = vec![
        reset_command(format!("{{{}}}", fmt_guid_to_string(&guid(0)))),
        reset_command(format!("{{{}}}", fmt_guid_to_string(&guid(1)))),
    ];
    let mut log = setup();
    let (replies, exit) = run_worker(Ok(()), Ok(m), &commands, &mut log);
    assert_eq!(exit, WorkerExit::CleanShutdown);
    assert_eq!(replies.len(), 2);
    assert_eq!(replies[0], Ok(()));
    assert_eq!(replies[1], Err(ResetError::Platform(HResult::from_code(-7))));
}
