use kuma_agent::ui::{ui_step, UiAction, UiEvent};

#[test]
fn first_start_opens_settings() {
    assert_eq!(ui_step(false, UiEvent::Started { config_exists: false }), (false, UiAction::OpenSettings));
    assert_eq!(ui_step(false, UiEvent::Started { config_exists: true }), (false, UiAction::Nothing));
}

#[test]
fn tray_menu() {
    assert_eq!(ui_step(false, UiEvent::MenuSettings), (false, UiAction::OpenSettings));
    assert_eq!(ui_step(true, UiEvent::MenuSettings), (true, UiAction::OpenSettings));
    assert_eq!(ui_step(true, UiEvent::MenuExit), (true, UiAction::Exit));
}

#[test]
fn at_most_one_settings_window() {
    assert_eq!(ui_step(false, UiEvent::OpenSettings), (true, UiAction::CreateWindowAndSendConfig));
    assert_eq!(ui_step(true, UiEvent::OpenSettings), (true, UiAction::FocusWindow));
}

#[test]
fn closing_drops_the_window() {
    assert_eq!(ui_step(true, UiEvent::CloseSettings), (false, UiAction::DropWindow));
    assert_eq!(ui_step(true, UiEvent::WindowCloseRequested), (false, UiAction::DropWindow));
    assert_eq!(ui_step(false, UiEvent::WindowCloseRequested), (false, UiAction::DropWindow));
}

#[test]
fn settings_take_effect_only_once_saved() {
    assert_eq!(ui_step(true, UiEvent::SettingsSubmitted), (true, UiAction::AutostartThenSave));
    assert_eq!(
        ui_step(true, UiEvent::SaveFinished { ok: true }),
        (true, UiAction::ApplyConfig { notify_page: true })
    );
    assert_eq!(
        ui_step(false, UiEvent::SaveFinished { ok: true }),
        (false, UiAction::ApplyConfig { notify_page: false })
    );
    assert_eq!(ui_step(true, UiEvent::SaveFinished { ok: false }), (true, UiAction::LogSaveError));
}

#[test]
fn test_results_go_to_an_open_window_only() {
    assert_eq!(ui_step(true, UiEvent::TestFinished), (true, UiAction::PostTestResult));
    assert_eq!(ui_step(false, UiEvent::TestFinished), (false, UiAction::Nothing));
}
