use sway_tabs::error::IpcError;
use sway_tabs::model::{
    ApplicationIdleInhibitor, Border, ExecResult, FullscreenMode, Layout, NodeType, Orientation,
    Unequal, UserIdleInhibitor,
};

#[test]
fn enum_names_are_read() {
    assert_eq!(NodeType::from_name("con"), Some(NodeType::Container));
    assert_eq!(NodeType::from_name("floating_con"), Some(NodeType::FloatingContainer));
    assert_eq!(Border::from_name("csd"), Some(Border::Csd));
    assert_eq!(Border::from_name("none"), Some(Border::NoBorder));
    assert_eq!(Layout::from_name("tabbed"), Some(Layout::Tabbed));
    assert_eq!(Layout::from_name("splith"), Some(Layout::SplitH));
    assert_eq!(Orientation::from_name("vertical"), Some(Orientation::Vertical));
    assert_eq!(UserIdleInhibitor::from_name("fullscreen"), Some(UserIdleInhibitor::Fullscreen));
    assert_eq!(ApplicationIdleInhibitor::from_name("enabled"), Some(ApplicationIdleInhibitor::Enabled));
}

#[test]
fn unknown_enum_names_are_refused() {
    assert_eq!(Layout::from_name("Tabbed"), None);
    assert_eq!(Layout::from_name(""), None);
    assert_eq!(NodeType::from_name("container"), None);
    assert_eq!(Border::from_name("nonex"), None);
    assert_eq!(Orientation::from_name("diagonal"), None);
}

#[test]
fn fullscreen_codes_decode() {
    assert_eq!(FullscreenMode::try_from(0u32), Ok(FullscreenMode::NotFullscreen));
    assert_eq!(FullscreenMode::try_from(1u32), Ok(FullscreenMode::Full));
    assert_eq!(FullscreenMode::try_from(2u32), Ok(FullscreenMode::Global));
    assert_eq!(FullscreenMode::try_from(3u32), Err(Unequal()));
    assert_eq!(FullscreenMode::try_from(u32::MAX), Err(Unequal()));
}

#[test]
fn fullscreen_round_trip() {
    for v in 0u32..3 {
        let m = FullscreenMode::try_from(v).unwrap();
        assert_eq!(u32::from(m), v);
    }
}

#[test]
fn exec_success_ignores_other_fields() {
    assert_eq!(ExecResult::from_fields(true, None, None), Ok(ExecResult::Success));
    assert_eq!(
        ExecResult::from_fields(true, Some(true), Some("x".to_string())),
        Ok(ExecResult::Success)
    );
}

#[test]
fn exec_failure_needs_both_fields() {
    assert_eq!(
        ExecResult::from_fields(false, Some(true), Some("bad".to_string())),
        Ok(ExecResult::Error { parse_error: true, error: "bad".to_string() })
    );
    assert_eq!(ExecResult::from_fields(false, None, Some("bad".to_string())), Err(IpcError::Decode));
    assert_eq!(ExecResult::from_fields(false, Some(false), None), Err(IpcError::Decode));
}
