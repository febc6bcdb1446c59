//! GUID rendering and adapter-identity normalization.

use hekk::{fmt_guid_to_string, normalize_adapter_name, Guid};

fn sample_guids() -> Vec<Guid> {
    vec![
        Guid {
            data1: 0xBA126AD1,
            data2: 0x2166,
            data3: 0x11D1,
            data4: [0xB1, 0xD0, 0x00, 0x80, 0x5F, 0xC1, 0x27, 0x0E],
        },
        Guid {
            data1: 0,
            data2: 0,
            data3: 0,
            data4: [0; 8],
        },
        Guid {
            data1: 0xFFFFFFFF,
            data2: 0xFFFF,
            data3: 0xFFFF,
            data4: [0xFF; 8],
        },
        Guid {
            data1: 0x00000001,
            data2: 0x0203,
            data3: 0x0405,
            data4: [0x06, 0x07, 0x08, 0x09, 0x0A, 0x0B, 0x0C, 0x0D],
        },
        Guid {
            data1: 0xC08956A2,
            data2: 0x1CD3,
            data3: 0x11D1,
            data4: [0xB1, 0xC5, 0x00, 0x80, 0x5F, 0xC1, 0x27, 0x0E],
        },
    ]
}

#[test]
fn guid_renders_connection_manager_class_id() {
    let guid = Guid {
        data1: 0xBA126AD1,
        data2: 0x2166,
        data3: 0x11D1,
        data4: [0xB1, 0xD0, 0x00, 0x80, 0x5F, 0xC1, 0x27, 0x0E],
    };
    assert_eq!(fmt_guid_to_string(&guid), "BA126AD1-2166-11D1-B1D0-00805FC1270E");
}

#[test]
fn guid_rendering_is_36_chars_zero_padded() {
    let guid = Guid {
        data1: 1,
        data2: 2,
        data3: 3,
        data4: [0, 0, 0, 0, 0, 0, 0, 4],
    };
    let s = fmt_guid_to_string(&guid);
    assert_eq!(s.len(), 36);
    assert_eq!(s, "00000001-0002-0003-0000-000000000004");
}

#[test]
fn guid_rendering_matches_uuid_crate() {
    for guid in sample_guids() {
        let ours = fmt_guid_to_string(&guid);
        let uuid = uuid::Uuid::from_fields(guid.data1, guid.data2, guid.data3, &guid.data4);
        let mut buffer = uuid::Uuid::encode_buffer();
        let theirs = uuid.hyphenated().encode_upper(&mut buffer);
        assert_eq!(ours.as_str(), &*theirs);
    }
}

#[test]
fn normalize_strips_surrounding_braces() {
    assert_eq!(
        normalize_adapter_name("{BA126AD1-2166-11D1-B1D0-00805FC1270E}"),
        "BA126AD1-2166-11D1-B1D0-00805FC1270E"
    );
}

#[test]
fn normalize_keeps_bare_identity() {
    assert_eq!(
        normalize_adapter_name("BA126AD1-2166-11D1-B1D0-00805FC1270E"),
        "BA126AD1-2166-11D1-B1D0-00805FC1270E"
    );
}

#[test]
fn normalize_strips_only_one_layer() {
    assert_eq!(normalize_adapter_name("{{x}}"), "{x}");
}

#[test]
fn normalize_handles_one_sided_braces() {
    assert_eq!(normalize_adapter_name("{x"), "x");
    assert_eq!(normalize_adapter_name("x}"), "x");
    assert_eq!(normalize_adapter_name("{"), "");
    assert_eq!(normalize_adapter_name("}"), "");
    assert_eq!(normalize_adapter_name(""), "");
    assert_eq!(normalize_adapter_name("{}"), "");
}
