//! The decisions of the tray and the settings window: what each event of
//! the user interface leads to, given whether the window is open.
use vstd::prelude::*;

verus! {

/// What happens in the user interface.
#[derive(Clone, Copy, Debug, PartialEq, Eq, Structural)]
pub enum UiEvent {
    /// The agent has started; `config_exists` tells whether a settings file
    /// was there.
    Started { config_exists: bool },
    /// The tray menu's "Settings" was chosen.
    MenuSettings,
    /// The tray menu's "Exit" was chosen.
    MenuExit,
    /// The settings window was asked for.
    OpenSettings,
    /// The settings page asked to be closed.
    CloseSettings,
    /// The window's close button was pressed.
    WindowCloseRequested,
    /// The settings page submitted settings.
    SettingsSubmitted,
    /// Saving submitted settings ended, successfully or not.
    SaveFinished { ok: bool },
    /// A device test started from the settings page ended.
    TestFinished,
}

/// What the agent does in answer to an event.
#[derive(Clone, Copy, Debug, PartialEq, Eq, Structural)]
pub enum UiAction {
    /// Nothing.
    Nothing,
    /// End the agent.
    Exit,
    /// Ask for the settings window (an `OpenSettings` event follows).
    OpenSettings,
    /// Create the settings window and send it the current settings.
    CreateWindowAndSendConfig,
    /// Bring the open settings window to the front.
    FocusWindow,
    /// Drop the settings window.
    DropWindow,
    /// Apply the autostart setting, then save the submitted settings.
    AutostartThenSave,
    /// Put the saved settings into effect, telling the page where asked.
    ApplyConfig { notify_page: bool },
    /// Record that saving failed; the settings in effect stay as they are.
    LogSaveError,
    /// Hand the test result to the settings page.
    PostTestResult,
}

/// What `event` leads to when the settings window is open or not (as
/// `window_open` says): whether the window is open afterwards, and the
/// action to take. The first start without a settings file opens the
/// settings; there is never more than one settings window; submitted
/// settings take effect only once they are saved.
pub fn ui_step(window_open: bool, event: UiEvent) -> (r: (bool, UiAction))
    ensures
        event matches UiEvent::Started { config_exists } ==> r == (window_open, if config_exists {
            UiAction::Nothing
        } else {
            UiAction::OpenSettings
        }),
        event == UiEvent::MenuSettings ==> r == (window_open, UiAction::OpenSettings),
        event == UiEvent::MenuExit ==> r == (window_open, UiAction::Exit),
        event == UiEvent::OpenSettings ==> r == (true, if window_open {
            UiAction::FocusWindow
        } else {
            UiAction::CreateWindowAndSendConfig
        }),
        event == UiEvent::CloseSettings ==> r == (false, UiAction::DropWindow),
        event == UiEvent::WindowCloseRequested ==> r == (false, UiAction::DropWindow),
        event == UiEvent::SettingsSubmitted ==> r == (window_open, UiAction::AutostartThenSave),
        event matches UiEvent::SaveFinished { ok } ==> r == (window_open, if ok {
            (UiAction::ApplyConfig { notify_page: window_open })
        } else {
            UiAction::LogSaveError
        }),
        event == UiEvent::TestFinished ==> r == (window_open, if window_open {
            UiAction::PostTestResult
        } else {
            UiAction::Nothing
        }),
        r.1 == UiAction::CreateWindowAndSendConfig ==> !window_open && r.0,
        r.1 == UiAction::DropWindow ==> !r.0,
        r.1 != UiAction::CreateWindowAndSendConfig && r.1 != UiAction::DropWindow && r.1
            != UiAction::FocusWindow ==> r.0 == window_open,
{
    match event {
        UiEvent::Started { config_exists } => {
            if config_exists {
                (window_open, UiAction::Nothing)
            } else {
                (window_open, UiAction::OpenSettings)
            }
        },
        UiEvent::MenuSettings => (window_open, UiAction::OpenSettings),
        UiEvent::MenuExit => (window_open, UiAction::Exit),
        UiEvent::OpenSettings => {
            if window_open {
                (true, UiAction::FocusWindow)
            } else {
                (true, UiAction::CreateWindowAndSendConfig)
            }
        },
        UiEvent::CloseSettings => (false, UiAction::DropWindow),
        UiEvent::WindowCloseRequested => (false, UiAction::DropWindow),
        UiEvent::SettingsSubmitted => (window_open, UiAction::AutostartThenSave),
        UiEvent::SaveFinished { ok } => {
            if ok {
                (window_open, UiAction::ApplyConfig { notify_page: window_open })
            } else {
                (window_open, UiAction::LogSaveError)
            }
        },
        UiEvent::TestFinished => {
            if window_open {
                (window_open, UiAction::PostTestResult)
            } else {
                (window_open, UiAction::Nothing)
            }
        },
    }
}

} // verus!
