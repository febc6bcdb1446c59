//! Decoding of platform status, media-type, characteristics, and the
//! enumeration protocol's completion codes.

use hekk::{interpret_fetch, FetchInterpretation, HResult, MediaType, NetConStatus};
use hekk::properties::{
    NetConCharacteristicFlags, NCCF_ALL_USERS, NCCF_BLUETOOTH_MASK, NCCF_FIREWALLED,
    NCCF_LAN_MASK, NCCF_NONE,
};

#[test]
fn status_decodes_all_thirteen_variants() {
    let expected = [
        NetConStatus::Disconnected,
        NetConStatus::Connecting,
        NetConStatus::Connected,
        NetConStatus::Disconnecting,
        NetConStatus::HardwareNotPresent,
        NetConStatus::HardwareDisabled,
        NetConStatus::HardwareMalfunction,
        NetConStatus::MediaDisconnected,
        NetConStatus::Authenticating,
        NetConStatus::AuthenticationSucceeded,
        NetConStatus::AuthenticationFailed,
        NetConStatus::InvalidAddress,
        NetConStatus::CredentialsRequired,
    ];
    for (code, variant) in expected.iter().enumerate() {
        assert_eq!(NetConStatus::try_from(code as u32), Ok(*variant));
    }
}

#[test]
fn status_preserves_unrecognized_codes() {
    assert_eq!(NetConStatus::try_from(13), Err(13));
    assert_eq!(NetConStatus::try_from(4096), Err(4096));
}

#[test]
fn media_type_decodes_all_ten_variants() {
    let expected = [
        MediaType::NoMedia,
        MediaType::Direct,
        MediaType::Isdn,
        MediaType::Lan,
        MediaType::Phone,
        MediaType::Tunnel,
        MediaType::Pppoe,
        MediaType::Bridge,
        MediaType::SharedAccessHostLan,
        MediaType::SharedAccessHostRas,
    ];
    for (code, variant) in expected.iter().enumerate() {
        assert_eq!(MediaType::try_from(code as u32), Ok(*variant));
    }
}

#[test]
fn media_type_preserves_unrecognized_codes() {
    assert_eq!(MediaType::try_from(10), Err(10));
    assert_eq!(MediaType::try_from(u32::MAX), Err(u32::MAX));
}

#[test]
fn characteristics_accept_defined_bits() {
    let flags = NetConCharacteristicFlags::from_bits(NCCF_ALL_USERS | NCCF_FIREWALLED)
        .expect("defined bits");
    assert_eq!(flags.bits(), 0x401);
    assert!(flags.contains(NCCF_ALL_USERS));
    assert!(flags.contains(NCCF_FIREWALLED));
    assert!(!flags.contains(NCCF_LAN_MASK));
    assert!(NetConCharacteristicFlags::from_bits(NCCF_NONE).is_some());
    assert!(NetConCharacteristicFlags::from_bits(NCCF_BLUETOOTH_MASK | NCCF_LAN_MASK).is_some());
}

#[test]
fn characteristics_reject_undefined_bits() {
    assert!(NetConCharacteristicFlags::from_bits(0x1000000).is_none());
    assert!(NetConCharacteristicFlags::from_bits(0x1000000 | NCCF_ALL_USERS).is_none());
}

#[test]
fn fetch_zero_count_success_means_exhausted() {
    assert_eq!(interpret_fetch(0, 0), FetchInterpretation::Exhausted);
}

#[test]
fn fetch_no_more_items_code_means_exhausted() {
    assert_eq!(interpret_fetch(1, 0), FetchInterpretation::Exhausted);
    assert_eq!(interpret_fetch(1, 1), FetchInterpretation::Exhausted);
}

#[test]
fn fetch_success_with_item_means_item() {
    assert_eq!(interpret_fetch(0, 1), FetchInterpretation::Item);
}

#[test]
fn fetch_other_codes_are_hard_errors() {
    let e_fail: i32 = -2147467259;
    assert_eq!(
        interpret_fetch(e_fail, 0),
        FetchInterpretation::Failed(HResult::from_code(e_fail))
    );
    // Undocumented positive codes are not treated as completion.
    assert_eq!(interpret_fetch(2, 0), FetchInterpretation::Failed(HResult::from_code(2)));
}

#[test]
fn hresult_message_renders_the_hex_code() {
    assert_eq!(HResult::from_code(-2147467259).message(), "HRESULT 0x80004005");
    assert_eq!(HResult::from_code(1).message(), "HRESULT 0x00000001");
    assert_eq!(HResult::from_code(-1).message(), "HRESULT 0xFFFFFFFF");
}

#[test]
fn hresult_failure_is_the_negative_codes() {
    assert!(HResult::from_code(-1).is_failure());
    assert!(!HResult::from_code(0).is_failure());
    assert!(!HResult::from_code(1).is_failure());
    assert_eq!(HResult::from_code(-5).code(), -5);
}
