use stylus_control::control::XiaomiStylusControl;
use stylus_control::control::pen_present;
use stylus_control::control::power_value;
use stylus_control::control::report_status;
use stylus_control::model::AttrState;
use stylus_control::model::StylusError;

fn attrs(digitizer: Option<&str>, writable: bool, presence: Option<&str>) -> AttrState {
    AttrState {
        digitizer: digitizer.map(|s| s.to_string()),
        digitizer_writable: writable,
        presence: presence.map(|s| s.to_string()),
    }
}

#[test]
fn set_power_enables_digitizer() {
    let ctl = XiaomiStylusControl;
    let mut st = attrs(None, true, None);
    assert_eq!(ctl.PenControl(&mut st, true), Ok(true));
    assert_eq!(st.digitizer, Some("1".to_string()));
}

#[test]
fn set_power_disables_digitizer() {
    let ctl = XiaomiStylusControl;
    let mut st = attrs(Some("1"), true, None);
    assert_eq!(ctl.PenControl(&mut st, false), Ok(true));
    assert_eq!(st.digitizer, Some("0".to_string()));
}

#[test]
fn set_power_denied_when_unwritable() {
    let ctl = XiaomiStylusControl;
    let mut st = attrs(Some("0"), false, Some("AA:BB:CC:DD:EE:FF"));
    assert_eq!(ctl.PenControl(&mut st, true), Err(StylusError::PermissionDenied));
    assert_eq!(st.digitizer, Some("0".to_string()));
    assert_eq!(st.presence, Some("AA:BB:CC:DD:EE:FF".to_string()));
}

#[test]
fn status_false_when_presence_missing() {
    let ctl = XiaomiStylusControl;
    let mut st = attrs(Some("1"), true, None);
    assert_eq!(ctl.getPenStatus(&mut st), Ok(false));
    assert_eq!(st.digitizer, Some("0".to_string()));
}

#[test]
fn status_false_when_presence_zero() {
    let ctl = XiaomiStylusControl;
    let mut st = attrs(Some("1"), true, Some("0"));
    assert_eq!(ctl.getPenStatus(&mut st), Ok(false));
    assert_eq!(st.digitizer, Some("0".to_string()));
}

#[test]
fn status_true_when_pen_paired() {
    let ctl = XiaomiStylusControl;
    let mut st = attrs(Some("0"), true, Some("AA:BB:CC:DD:EE:FF"));
    assert_eq!(ctl.getPenStatus(&mut st), Ok(true));
    assert_eq!(st.digitizer, Some("1".to_string()));
}

#[test]
fn status_repeated_query_is_stable() {
    let ctl = XiaomiStylusControl;
    let mut st = attrs(None, true, Some("AA:BB:CC:DD:EE:FF"));
    let first = ctl.getPenStatus(&mut st);
    let digitizer_after_first = st.digitizer.clone();
    let second = ctl.getPenStatus(&mut st);
    assert_eq!(first, second);
    assert_eq!(st.digitizer, digitizer_after_first);
    assert_eq!(st.presence, Some("AA:BB:CC:DD:EE:FF".to_string()));
}

#[test]
fn status_denied_propagates() {
    let ctl = XiaomiStylusControl;
    let mut st = attrs(Some("0"), false, Some("AA:BB:CC:DD:EE:FF"));
    assert_eq!(ctl.getPenStatus(&mut st), Err(StylusError::PermissionDenied));
    assert_eq!(st.digitizer, Some("0".to_string()));
}

#[test]
fn power_value_text() {
    assert_eq!(power_value(true), "1".to_string());
    assert_eq!(power_value(false), "0".to_string());
}

#[test]
fn pen_present_reads_attribute() {
    assert!(!pen_present(&None));
    assert!(!pen_present(&Some("0".to_string())));
    assert!(pen_present(&Some("AA:BB:CC:DD:EE:FF".to_string())));
    assert!(pen_present(&Some("00".to_string())));
}

#[test]
fn report_status_propagates_write_outcome() {
    assert_eq!(report_status(true, true), Ok(true));
    assert_eq!(report_status(false, true), Ok(false));
    assert_eq!(report_status(true, false), Err(StylusError::PermissionDenied));
    assert_eq!(report_status(false, false), Err(StylusError::PermissionDenied));
}
