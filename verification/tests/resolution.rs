//! Connection resolution: first-pass GUID matching, second-pass
//! description fallback, "not found", and error propagation.

use hekk::{
    find_network_connection, fmt_guid_to_string, setup, Guid, HResult, LogEvent,
    NetConProperties, NetConnection, NetConnectionManager, ResetError,
};

fn guid(n: u8) -> Guid {
    Guid {
        data1: 0x1000 + n as u32,
        data2: 0x2222,
        data3: 0x3333,
        data4: [0x44, 0x55, 0x66, 0x77, 0x88, 0x99, 0xAA, n],
    }
}

fn connection(n: u8) -> NetConnection {
    NetConnection::new(NetConProperties::new(
        guid(n),
        format!("Local Area Connection {}", n),
        format!("Acme Ethernet Adapter {}", n),
        2,
        3,
        0,
    ))
}

fn manager(count: u8) -> NetConnectionManager {
    NetConnectionManager::new((0..count).map(connection).collect())
}

#[test]
fn first_pass_returns_third_of_five_without_fallback() {
    let m = manager(5);
    let mut log = setup();
    let target = format!("{{{}}}", fmt_guid_to_string(&guid(2)));
    let (c, p) = find_network_connection(&m, &target, "no such device", &mut log)
        .expect("no platform error")
        .expect("present");
    assert_eq!(p.name(), "Local Area Connection 2");
    assert_eq!(c.get_properties().expect("snapshot").name(), "Local Area Connection 2");
    // The second pass never ran: no fallback notice was logged.
    assert_eq!(log.len(), 0);
}

#[test]
fn braces_do_not_change_the_resolution_result() {
    let m = manager(5);
    let bare = fmt_guid_to_string(&guid(3));
    let braced = format!("{{{}}}", bare);

    let mut log_bare = setup();
    let found_bare = find_network_connection(&m, &bare, "", &mut log_bare)
        .expect("no platform error")
        .expect("present");
    let mut log_braced = setup();
    let found_braced = find_network_connection(&m, &braced, "", &mut log_braced)
        .expect("no platform error")
        .expect("present");
    assert_eq!(found_bare.1.name(), found_braced.1.name());
    assert_eq!(found_bare.1.name(), "Local Area Connection 3");
    assert_eq!(log_bare.len(), log_braced.len());
}

#[test]
fn description_fallback_returns_second_and_logs_notice() {
    let m = manager(4);
    let mut log = setup();
    let (_, p) = find_network_connection(
        &m,
        "{00000000-0000-0000-0000-000000000000}",
        "Acme Ethernet Adapter 1",
        &mut log,
    )
        .expect("no platform error")
        .expect("present");
    assert_eq!(p.name(), "Local Area Connection 1");
    assert_eq!(log.len(), 1);
    assert_eq!(log.get(0), LogEvent::DescriptionFallback);
    assert_eq!(
        log.get(0).message(),
        "Failed to locate connection, comparing descriptions..."
    );
}

#[test]
fn no_match_is_not_found_not_an_error() {
    let m = manager(3);
    let mut log = setup();
    let r = find_network_connection(
        &m,
        "{00000000-0000-0000-0000-000000000000}",
        "no such device",
        &mut log,
    );
    assert!(matches!(r, Ok(None)));
    assert_eq!(log.len(), 1);
    assert_eq!(log.get(0), LogEvent::DescriptionFallback);
}

#[test]
fn guid_compare_is_case_sensitive() {
    let m = manager(1);
    let mut log = setup();
    let lowercase = fmt_guid_to_string(&guid(0)).to_lowercase();
    let r = find_network_connection(&m, &lowercase, "no such device", &mut log);
    assert!(matches!(r, Ok(None)));
}

#[test]
fn property_fetch_failure_aborts_the_search() {
    let mut m = manager(3);
    m.connections[1].get_properties_outcome = Some(HResult::from_code(-2147418113));
    let mut log = setup();
    // Even a first-pass match later in the order is never reached.
    let target = fmt_guid_to_string(&guid(2));
    let r = find_network_connection(&m, &target, "", &mut log);
    assert_eq!(r.unwrap_err().code(), -2147418113);
    assert_eq!(log.len(), 0);
}

#[test]
fn enumeration_failure_aborts_the_search() {
    let mut m = manager(3);
    m.enum_connections_outcome = Some(HResult::from_code(-2147024891));
    let mut log = setup();
    let r = find_network_connection(&m, "x", "y", &mut log);
    assert_eq!(r.unwrap_err().code(), -2147024891);
    assert_eq!(log.len(), 0);
}

#[test]
fn reset_disconnects_then_connects() {
    let m = manager(2);
    let mut log = setup();
    let target = fmt_guid_to_string(&guid(1));
    let r = hekk::reset_network_connection(&m, &target, "", &mut log);
    assert_eq!(r, Ok(()));
}

#[test]
fn reset_not_found_is_its_own_error() {
    let m = manager(2);
    let mut log = setup();
    let r = hekk::reset_network_connection(
        &m,
        "{00000000-0000-0000-0000-000000000000}",
        "no such device",
        &mut log,
    );
    assert_eq!(r, Err(ResetError::NotFound));
    assert_eq!(
        ResetError::NotFound.message(),
        "failed to find network connection"
    );
}

#[test]
fn reset_aborts_on_disconnect_failure_and_skips_connect() {
    let mut m = manager(1);
    m.connections[0].disconnect_outcome = Some(HResult::from_code(-100));
    m.connections[0].connect_outcome = Some(HResult::from_code(-200));
    let mut log = setup();
    let target = fmt_guid_to_string(&guid(0));
    let r = hekk::reset_network_connection(&m, &target, "", &mut log);
    // The reported failure is the disconnect's, not the connect's.
    assert_eq!(r, Err(ResetError::Platform(HResult::from_code(-100))));
}

#[test]
fn reset_reports_connect_failure_after_clean_disconnect() {
    let mut m = manager(1);
    m.connections[0].connect_outcome = Some(HResult::from_code(-200));
    let mut log = setup();
    let target = fmt_guid_to_string(&guid(0));
    let r = hekk::reset_network_connection(&m, &target, "", &mut log);
    assert_eq!(r, Err(ResetError::Platform(HResult::from_code(-200))));
}
