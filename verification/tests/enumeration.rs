//! The enumerator protocol: N connections yield N items and then
//! exhaustion, whichever completion code the platform uses.

use hekk::{Guid, HResult, NetConProperties, NetConnection, NetConnectionManager};

fn connection(n: u8) -> NetConnection {
    NetConnection::new(NetConProperties::new(
        Guid {
            data1: n as u32,
            data2: 0,
            data3: 0,
            data4: [0; 8],
        },
        format!("Connection {}", n),
        format!("Device {}", n),
        2,
        3,
        0,
    ))
}

fn manager(count: u8, s_false: bool) -> NetConnectionManager {
    let mut m = NetConnectionManager::new((0..count).map(connection).collect());
    m.exhaustion_code_is_s_false = s_false;
    m
}

fn advance_names(m: &NetConnectionManager, times: usize) -> Vec<Option<String>> {
    let mut e = m.iter().expect("enumerator");
    let mut out = Vec::new();
    for _ in 0..times {
        let item = e.next_connection().expect("fetch never fails in the model");
        out.push(item.map(|c| {
            c.get_properties().expect("snapshot").name()
        }));
    }
    out
}

#[test]
fn three_connections_give_three_items_then_exhaustion() {
    let m = manager(3, true);
    let names = advance_names(&m, 4);
    assert_eq!(names.len(), 4);
    assert_eq!(names[0].as_deref(), Some("Connection 0"));
    assert_eq!(names[1].as_deref(), Some("Connection 1"));
    assert_eq!(names[2].as_deref(), Some("Connection 2"));
    assert_eq!(names[3], None);
}

#[test]
fn both_exhaustion_codes_yield_identical_outcomes() {
    let with_s_false = advance_names(&manager(3, true), 5);
    let with_zero_count = advance_names(&manager(3, false), 5);
    assert_eq!(with_s_false, with_zero_count);
}

#[test]
fn empty_set_is_exhausted_at_once() {
    let names = advance_names(&manager(0, true), 2);
    assert_eq!(names, vec![None, None]);
}

#[test]
fn skip_passes_over_connections() {
    let m = manager(5, true);
    let mut e = m.iter().expect("enumerator");
    e.skip_connection(2).expect("skip");
    let item = e.next_connection().expect("fetch").expect("present");
    assert_eq!(item.get_properties().expect("snapshot").name(), "Connection 2");
}

#[test]
fn skip_past_the_end_exhausts() {
    let m = manager(2, true);
    let mut e = m.iter().expect("enumerator");
    e.skip_connection(10).expect("skip");
    assert!(e.next_connection().expect("fetch").is_none());
}

#[test]
fn reset_rewinds_to_the_start() {
    let m = manager(2, true);
    let mut e = m.iter().expect("enumerator");
    let _ = e.next_connection().expect("fetch");
    let _ = e.next_connection().expect("fetch");
    assert!(e.next_connection().expect("fetch").is_none());
    e.reset().expect("reset");
    let again = e.next_connection().expect("fetch").expect("present");
    assert_eq!(again.get_properties().expect("snapshot").name(), "Connection 0");
}

#[test]
fn enumeration_request_failure_is_reported() {
    let mut m = manager(2, true);
    m.enum_connections_outcome = Some(HResult::from_code(-2147024891));
    let r = m.iter();
    assert_eq!(r.unwrap_err().code(), -2147024891);
}
