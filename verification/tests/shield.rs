use rustdesk_sdk::shield::with_unwind_default;
use rustdesk_sdk::strings::{to_c_string, BridgeString};

#[test]
fn a_returned_value_passes_through() {
    assert!(with_unwind_default(Some(true)));
    assert_eq!(with_unwind_default(Some(7i32)), 7);
    assert_eq!(with_unwind_default(Some(-1i32)), -1);
    let text = with_unwind_default(Some(to_c_string("id".to_string())));
    assert_eq!(text.map(|buffer| buffer.into_bytes()), Some(b"id\0".to_vec()));
}

#[test]
fn a_cut_short_flag_is_false() {
    assert!(!with_unwind_default::<bool>(None));
}

#[test]
fn a_cut_short_code_is_zero() {
    assert_eq!(with_unwind_default::<i32>(None), 0);
}

#[test]
fn a_cut_short_string_is_absent() {
    assert!(with_unwind_default::<Option<BridgeString>>(None).is_none());
}
