use voce::app_state::AppState;
use voce::panel::ipc::{js_update_call, PanelCmd};
use voce::ui::{filter_toggle_label, menu_command, startup_plan, MenuCommand, PanelAction, SavedProfile};
use voce::events::InferenceCmd;

#[test]
fn js_identifiers() {
    assert_eq!(AppState::Idle.as_js_str(), "IDLE");
    assert_eq!(AppState::ModelLoading.as_js_str(), "MODEL_LOADING");
    assert_eq!(AppState::OnboardingReady.as_js_str(), "ONBOARDING_READY");
    assert_eq!(AppState::Recording { index: 1 }.as_js_str(), "RECORDING_1");
    assert_eq!(AppState::Recording { index: 2 }.as_js_str(), "RECORDING_2");
    assert_eq!(AppState::Recording { index: 7 }.as_js_str(), "RECORDING_2");
    assert_eq!(AppState::Adapting.as_js_str(), "ADAPTING");
    assert_eq!(AppState::TestReady.as_js_str(), "TEST_READY");
    assert_eq!(AppState::Testing.as_js_str(), "TESTING");
    assert_eq!(AppState::PlayingBack.as_js_str(), "PLAYING_BACK");
    assert_eq!(AppState::PlayingBackRaw.as_js_str(), "PLAYING_BACK_RAW");
    assert_eq!(AppState::ActiveStandby.as_js_str(), "ACTIVE_STANDBY");
    assert_eq!(AppState::Filtering.as_js_str(), "FILTERING");
}

#[test]
fn tray_labels_and_filter_flags() {
    assert_eq!(AppState::Idle.tray_label(), "Voce");
    assert_eq!(AppState::Recording { index: 2 }.tray_label(), "Voce — recording…");
    assert_eq!(AppState::PlayingBackRaw.tray_label(), "Voce — playing back…");
    assert_eq!(AppState::ActiveStandby.tray_label(), "Voce — active ●");
    assert!(AppState::Filtering.is_filtering());
    assert!(!AppState::ActiveStandby.is_filtering());
    assert!(AppState::ActiveStandby.filter_active());
    assert!(!AppState::TestReady.filter_active());
    assert_eq!(filter_toggle_label(true), "Resume filter");
    assert_eq!(filter_toggle_label(false), "Pause filter");
}

#[test]
fn menu_ids() {
    assert_eq!(menu_command("quit"), Some(MenuCommand::Quit));
    assert_eq!(menu_command("reenroll"), Some(MenuCommand::Reenroll));
    assert_eq!(menu_command("toggle_filter"), Some(MenuCommand::ToggleFilter));
    assert_eq!(menu_command("status"), None);
    assert_eq!(menu_command("quit "), None);
}

#[test]
fn panel_commands_dispatch() {
    match (PanelCmd::StartRecording { index: 2 }).action::<()>() {
        PanelAction::Inference(InferenceCmd::StartEnrollment { index }) => assert_eq!(index, 2),
        _ => panic!("start_recording must start enrollment"),
    }
    assert!(matches!(PanelCmd::StopTest.action::<()>(), PanelAction::Inference(InferenceCmd::StopTest)));
    assert!(matches!(PanelCmd::SetNoiseSuppression { enabled: false }.action::<()>(), PanelAction::SetNoiseSuppression { enabled: false }));
    assert!(matches!(PanelCmd::FullReset.action::<()>(), PanelAction::Ignore));
    assert!(matches!(PanelCmd::Reenroll.action::<()>(), PanelAction::Reenroll));
}

#[test]
fn startup_decisions() {
    let p = startup_plan(SavedProfile::Ready(7u8));
    assert_eq!(p.start_filter, Some(7));
    assert_eq!(p.state, Some(AppState::ActiveStandby));
    assert!(!p.open_panel);
    let p = startup_plan(SavedProfile::<u8>::Missing);
    assert_eq!(p.start_filter, None);
    assert_eq!(p.state, Some(AppState::OnboardingReady));
    assert!(p.open_panel);
    let p = startup_plan(SavedProfile::<u8>::Unreadable);
    assert!(p.start_filter.is_none() && p.state.is_none() && !p.open_panel);
    let p = startup_plan(SavedProfile::<u8>::WrongDimension);
    assert!(p.start_filter.is_none() && p.state.is_none() && !p.open_panel);
}

#[test]
fn js_call_quotes_payload() {
    let call = js_update_call(r#"{"event":"state_changed","state":"IDLE"}"#).unwrap();
    assert_eq!(call, r#"window.__voce_update("{\"event\":\"state_changed\",\"state\":\"IDLE\"}")"#);
    let call = js_update_call("a\u{2028}b").unwrap();
    assert_eq!(call, "window.__voce_update(\"a\u{2028}b\")");
}

#[test]
fn js_call_escapes_controls_quotes_and_backslashes() {
    let call = js_update_call("\"\\\u{8}\t\n\u{c}\r\u{1}\u{1f}é").unwrap();
    assert_eq!(call, "window.__voce_update(\"\\\"\\\\\\b\\t\\n\\f\\r\\u0001\\u001fé\")");
}
