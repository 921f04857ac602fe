//! Decisions of the main thread's user interface: tray labels, menu and
//! panel commands, and what to do once the models are ready.

use vstd::prelude::*;
use crate::app_state::AppState;
use crate::events::InferenceCmd;
use crate::panel::ipc::PanelCmd;
use crate::text::str_eq;

verus! {

/// Where the BlackHole virtual audio driver can be downloaded.
pub const BLACKHOLE_URL: &'static str = "https://existential.audio/blackhole/";

impl AppState {
    /// Whether the speaker filter is live in this state.
    pub open spec fn spec_is_filtering(self) -> bool {
        self is Filtering
    }

    /// Whether the filter runs in this state (live or standing by).
    pub open spec fn spec_filter_active(self) -> bool {
        self is Filtering || self is ActiveStandby
    }

    /// Whether the speaker filter is live in this state.
    pub fn is_filtering(&self) -> (r: bool)
        ensures
            r == self.spec_is_filtering(),
    {
        matches!(self, AppState::Filtering)
    }

    /// Whether the filter runs in this state: the tray's filter toggle is
    /// enabled only then.
    pub fn filter_active(&self) -> (r: bool)
        ensures
            r == self.spec_filter_active(),
    {
        matches!(self, AppState::Filtering | AppState::ActiveStandby)
    }

    /// The tray menu's status line for this state.
    pub fn tray_label(&self) -> (r: &'static str)
        ensures
            r@ == tray_label_of(*self),
    {
        match self {
            AppState::ModelLoading => "Voce — loading…",
            AppState::OnboardingReady => "Voce — ready to enroll",
            AppState::Recording { .. } => "Voce — recording…",
            AppState::Adapting => "Voce — adapting…",
            AppState::TestReady => "Voce — test your voice",
            AppState::Testing => "Voce — testing…",
            AppState::PlayingBack | AppState::PlayingBackRaw => "Voce — playing back…",
            AppState::ActiveStandby | AppState::Filtering => "Voce — active ●",
            AppState::Idle => "Voce",
        }
    }
}

/// The tray menu's status line for a state.
pub open spec fn tray_label_of(s: AppState) -> Seq<char> {
    match s {
        AppState::ModelLoading => "Voce — loading…"@,
        AppState::OnboardingReady => "Voce — ready to enroll"@,
        AppState::Recording { .. } => "Voce — recording…"@,
        AppState::Adapting => "Voce — adapting…"@,
        AppState::TestReady => "Voce — test your voice"@,
        AppState::Testing => "Voce — testing…"@,
        AppState::PlayingBack | AppState::PlayingBackRaw => "Voce — playing back…"@,
        AppState::ActiveStandby | AppState::Filtering => "Voce — active ●"@,
        AppState::Idle => "Voce"@,
    }
}

/// The label of the tray's filter toggle.
pub fn filter_toggle_label(paused: bool) -> (r: &'static str)
    ensures
        r@ == if paused { "Resume filter"@ } else { "Pause filter"@ },
{
    if paused {
        "Resume filter"
    } else {
        "Pause filter"
    }
}

/// Commands of the tray menu.
#[derive(Debug, Clone, Copy, PartialEq, Eq, Structural)]
pub enum MenuCommand {
    Quit,
    Reenroll,
    ToggleFilter,
}

/// The tray menu command an item id stands for; other ids do nothing.
pub fn menu_command(id: &str) -> (r: Option<MenuCommand>)
    ensures
        r == if id@ == "quit"@ {
            Some(MenuCommand::Quit)
        } else if id@ == "reenroll"@ {
            Some(MenuCommand::Reenroll)
        } else if id@ == "toggle_filter"@ {
            Some(MenuCommand::ToggleFilter)
        } else {
            None::<MenuCommand>
        },
{
    if str_eq(id, "quit") {
        Some(MenuCommand::Quit)
    } else if str_eq(id, "reenroll") {
        Some(MenuCommand::Reenroll)
    } else if str_eq(id, "toggle_filter") {
        Some(MenuCommand::ToggleFilter)
    } else {
        None
    }
}

/// What the main thread does for a panel command.
pub enum PanelAction<E> {
    /// Open the BlackHole download page in the browser.
    OpenBlackholeLink,
    /// Forward a command to the inference task.
    Inference(InferenceCmd<E>),
    /// Play the last filtered test capture again.
    ReplayTest,
    /// Play the last unfiltered test capture again.
    ReplayTestRaw,
    /// Stop the playback in progress.
    StopPlayback,
    /// Close the panel and report the filter standing by.
    ConfirmEnrollment,
    /// Delete the saved profile, stop the filter and return to onboarding.
    Reenroll,
    /// Pause the filter if it runs, resume it if paused.
    ToggleFilter,
    /// Switch noise suppression on or off and tell the panel.
    SetNoiseSuppression { enabled: bool },
    /// A command the main thread does not act on.
    Ignore,
}

/// What the main thread does for a panel command.
pub open spec fn panel_action_matches<E>(cmd: PanelCmd, a: PanelAction<E>) -> bool {
    match cmd {
        PanelCmd::OpenBlackholeLink => a is OpenBlackholeLink,
        PanelCmd::StartRecording { index } => a matches PanelAction::Inference(InferenceCmd::StartEnrollment { index: i }) && i == index,
        PanelCmd::StartTest => a matches PanelAction::Inference(InferenceCmd::StartTest),
        PanelCmd::StopTest => a matches PanelAction::Inference(InferenceCmd::StopTest),
        PanelCmd::ReplayTest => a is ReplayTest,
        PanelCmd::ReplayTestRaw => a is ReplayTestRaw,
        PanelCmd::StopPlayback => a is StopPlayback,
        PanelCmd::ConfirmEnrollment => a is ConfirmEnrollment,
        PanelCmd::Reenroll => a is Reenroll,
        PanelCmd::ToggleFilter => a is ToggleFilter,
        PanelCmd::SetNoiseSuppression { enabled } => a matches PanelAction::SetNoiseSuppression { enabled: e } && e == enabled,
        PanelCmd::InstallDriver | PanelCmd::FullReset | PanelCmd::OpenSystemSound => a is Ignore,
    }
}

impl PanelCmd {
    /// What the main thread does for this command.
    pub fn action<E>(self) -> (r: PanelAction<E>)
        ensures
            panel_action_matches(self, r),
    {
        match self {
            PanelCmd::OpenBlackholeLink => PanelAction::OpenBlackholeLink,
            PanelCmd::StartRecording { index } => PanelAction::Inference(InferenceCmd::StartEnrollment { index }),
            PanelCmd::StartTest => PanelAction::Inference(InferenceCmd::StartTest),
            PanelCmd::StopTest => PanelAction::Inference(InferenceCmd::StopTest),
            PanelCmd::ReplayTest => PanelAction::ReplayTest,
            PanelCmd::ReplayTestRaw => PanelAction::ReplayTestRaw,
            PanelCmd::StopPlayback => PanelAction::StopPlayback,
            PanelCmd::ConfirmEnrollment => PanelAction::ConfirmEnrollment,
            PanelCmd::Reenroll => PanelAction::Reenroll,
            PanelCmd::ToggleFilter => PanelAction::ToggleFilter,
            PanelCmd::SetNoiseSuppression { enabled } => PanelAction::SetNoiseSuppression { enabled },
            PanelCmd::InstallDriver | PanelCmd::FullReset | PanelCmd::OpenSystemSound => PanelAction::Ignore,
        }
    }
}

/// The name the panel's script gives a command (its `cmd` tag).
pub open spec fn cmd_name(c: PanelCmd) -> Seq<char> {
    match c {
        PanelCmd::StartRecording { .. } => "start_recording"@,
        PanelCmd::StartTest => "start_test"@,
        PanelCmd::StopTest => "stop_test"@,
        PanelCmd::ReplayTest => "replay_test"@,
        PanelCmd::ReplayTestRaw => "replay_test_raw"@,
        PanelCmd::StopPlayback => "stop_playback"@,
        PanelCmd::ConfirmEnrollment => "confirm_enrollment"@,
        PanelCmd::Reenroll => "reenroll"@,
        PanelCmd::OpenBlackholeLink => "open_blackhole_link"@,
        PanelCmd::ToggleFilter => "toggle_filter"@,
        PanelCmd::SetNoiseSuppression { .. } => "set_noise_suppression"@,
        PanelCmd::InstallDriver => "install_driver"@,
        PanelCmd::FullReset => "full_reset"@,
        PanelCmd::OpenSystemSound => "open_system_sound"@,
    }
}

/// The panel button an action answers, by the name of its command; the
/// inference commands the panel cannot send, and doing nothing, answer none.
pub open spec fn action_name<E>(a: PanelAction<E>) -> Seq<char> {
    match a {
        PanelAction::OpenBlackholeLink => "open_blackhole_link"@,
        PanelAction::Inference(InferenceCmd::StartEnrollment { .. }) => "start_recording"@,
        PanelAction::Inference(InferenceCmd::StartTest) => "start_test"@,
        PanelAction::Inference(InferenceCmd::StopTest) => "stop_test"@,
        PanelAction::Inference(_) => Seq::empty(),
        PanelAction::ReplayTest => "replay_test"@,
        PanelAction::ReplayTestRaw => "replay_test_raw"@,
        PanelAction::StopPlayback => "stop_playback"@,
        PanelAction::ConfirmEnrollment => "confirm_enrollment"@,
        PanelAction::Reenroll => "reenroll"@,
        PanelAction::ToggleFilter => "toggle_filter"@,
        PanelAction::SetNoiseSuppression { .. } => "set_noise_suppression"@,
        PanelAction::Ignore => Seq::empty(),
    }
}

/// Law: every panel command the main thread acts on is answered by the action
/// of the same name, with the command's own arguments (the recording index,
/// the noise suppression setting); the driver and reset commands are ignored.
pub proof fn lemma_command_gets_action_of_its_name<E>(cmd: PanelCmd, a: PanelAction<E>)
    requires
        panel_action_matches(cmd, a),
    ensures
        (cmd is InstallDriver || cmd is FullReset || cmd is OpenSystemSound) <==> (a is Ignore),
        !(a is Ignore) ==> action_name(a) == cmd_name(cmd),
        cmd matches PanelCmd::StartRecording { index } ==> (a == PanelAction::<E>::Inference(
            InferenceCmd::StartEnrollment { index },
        )),
        cmd matches PanelCmd::SetNoiseSuppression { enabled } ==> (a == (PanelAction::<E>::SetNoiseSuppression {
            enabled,
        })),
{
}

/// Law: the tray's filter toggle is enabled exactly in the states whose status
/// line shows the filter active, and always while the filter is live.
pub proof fn lemma_filter_toggle_follows_status(s: AppState)
    ensures
        s.spec_is_filtering() ==> s.spec_filter_active(),
        s.spec_filter_active() <==> (tray_label_of(s) == tray_label_of(AppState::ActiveStandby)),
{
    reveal_strlit("Voce — active ●");
    reveal_strlit("Voce — loading…");
    reveal_strlit("Voce — ready to enroll");
    reveal_strlit("Voce — recording…");
    reveal_strlit("Voce — adapting…");
    reveal_strlit("Voce — test your voice");
    reveal_strlit("Voce — testing…");
    reveal_strlit("Voce — playing back…");
    reveal_strlit("Voce");
    let active = tray_label_of(AppState::ActiveStandby);
    match s {
        AppState::ActiveStandby | AppState::Filtering => {},
        AppState::Idle => assert(tray_label_of(s).len() != active.len()),
        _ => assert(tray_label_of(s)[7] != active[7] || tray_label_of(s)[8] != active[8]),
    }
}

/// What was found of a saved voice profile when the models became ready.
pub enum SavedProfile<E> {
    /// No profile file: first launch.
    Missing,
    /// A profile file exists but could not be read.
    Unreadable,
    /// A profile was read but its embedding has the wrong dimension.
    WrongDimension,
    /// A profile with a full embedding.
    Ready(E),
}

/// What the main thread does once the models are ready.
pub struct StartupPlan<E> {
    /// Start the filter with this enrolled embedding.
    pub start_filter: Option<E>,
    /// The state to report, if any.
    pub state: Option<AppState>,
    /// Whether to open the panel (first launch).
    pub open_panel: bool,
}

/// A returning user with a usable profile goes straight to filtering
/// (standing by); a first launch shows onboarding with the panel open; an
/// unusable profile changes nothing.
pub fn startup_plan<E>(saved: SavedProfile<E>) -> (r: StartupPlan<E>)
    ensures
        match saved {
            SavedProfile::Ready(e) => r.start_filter == Some(e) && r.state == Some(AppState::ActiveStandby) && !r.open_panel,
            SavedProfile::Missing => r.start_filter is None && r.state == Some(AppState::OnboardingReady) && r.open_panel,
            _ => r.start_filter is None && r.state is None && !r.open_panel,
        },
{
    match saved {
        SavedProfile::Ready(e) => StartupPlan { start_filter: Some(e), state: Some(AppState::ActiveStandby), open_panel: false },
        SavedProfile::Missing => StartupPlan { start_filter: None, state: Some(AppState::OnboardingReady), open_panel: true },
        _ => StartupPlan { start_filter: None, state: None, open_panel: false },
    }
}

} // verus!
