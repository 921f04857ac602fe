use vstd::prelude::*;

verus! {

/// Application state machine.
///
/// Transitions:
/// Idle → ModelLoading → OnboardingReady → Recording(1) → Recording(2)
/// → Adapting → TestReady → ActiveStandby ↔ Filtering
#[derive(Debug, Clone, Copy, PartialEq, Eq, Structural)]
pub enum AppState {
    /// Initial state before anything starts.
    Idle,
    /// Downloading / loading ONNX models.
    ModelLoading,
    /// Models ready; awaiting first enrollment recording.
    OnboardingReady,
    /// Recording enrollment sample (1 or 2).
    Recording { index: u8 },
    /// Extracting and averaging embeddings from recordings.
    Adapting,
    /// Enrollment complete; user can run a test.
    TestReady,
    /// Test recording in progress.
    Testing,
    /// Captured audio is playing back through speakers (filtered).
    PlayingBack,
    /// Captured audio is playing back through speakers (unfiltered).
    PlayingBackRaw,
    /// Enrolled and idle — filter running but mic not active.
    ActiveStandby,
    /// Filter actively processing speech.
    Filtering,
}

/// The identifier of each state as the panel's script knows it.
pub open spec fn js_name(s: AppState) -> Seq<char> {
    match s {
        AppState::Idle => "IDLE"@,
        AppState::ModelLoading => "MODEL_LOADING"@,
        AppState::OnboardingReady => "ONBOARDING_READY"@,
        AppState::Recording { index } => if index == 1 { "RECORDING_1"@ } else { "RECORDING_2"@ },
        AppState::Adapting => "ADAPTING"@,
        AppState::TestReady => "TEST_READY"@,
        AppState::Testing => "TESTING"@,
        AppState::PlayingBack => "PLAYING_BACK"@,
        AppState::PlayingBackRaw => "PLAYING_BACK_RAW"@,
        AppState::ActiveStandby => "ACTIVE_STANDBY"@,
        AppState::Filtering => "FILTERING"@,
    }
}

impl AppState {
    /// Returns the string identifier sent to the panel JS.
    pub fn as_js_str(&self) -> (r: &'static str)
        ensures
            r@ == js_name(*self),
    {
        match self {
            AppState::Idle => "IDLE",
            AppState::ModelLoading => "MODEL_LOADING",
            AppState::OnboardingReady => "ONBOARDING_READY",
            AppState::Recording { index } => if *index == 1 { "RECORDING_1" } else { "RECORDING_2" },
            AppState::Adapting => "ADAPTING",
            AppState::TestReady => "TEST_READY",
            AppState::Testing => "TESTING",
            AppState::PlayingBack => "PLAYING_BACK",
            AppState::PlayingBackRaw => "PLAYING_BACK_RAW",
            AppState::ActiveStandby => "ACTIVE_STANDBY",
            AppState::Filtering => "FILTERING",
        }
    }
}

/// The states the application reports: recordings are numbered 1 and 2.
pub open spec fn reported(s: AppState) -> bool {
    s matches AppState::Recording { index } ==> (index == 1 || index == 2)
}

/// Law: the panel tells every reported state apart — two reported states
/// with the same identifier are the same state.
pub proof fn lemma_js_names_distinct(a: AppState, b: AppState)
    requires
        reported(a),
        reported(b),
        js_name(a) == js_name(b),
    ensures
        a == b,
{
    reveal_strlit("IDLE");
    reveal_strlit("MODEL_LOADING");
    reveal_strlit("ONBOARDING_READY");
    reveal_strlit("RECORDING_1");
    reveal_strlit("RECORDING_2");
    reveal_strlit("ADAPTING");
    reveal_strlit("TEST_READY");
    reveal_strlit("TESTING");
    reveal_strlit("PLAYING_BACK");
    reveal_strlit("PLAYING_BACK_RAW");
    reveal_strlit("ACTIVE_STANDBY");
    reveal_strlit("FILTERING");
    let x = js_name(a);
    let y = js_name(b);
    if x.len() == y.len() && x.len() > 0 {
        assert(x[0] == y[0]);
    }
    if x.len() == y.len() && x.len() > 2 {
        assert(x[1] == y[1]);
        assert(x[2] == y[2]);
    }
    if x.len() == y.len() && x.len() > 12 {
        assert(x[x.len() - 1] == y[y.len() - 1]);
        assert(x[8] == y[8]);
    }
    if x.len() == y.len() && x.len() == 11 {
        assert(x[10] == y[10]);
    }
}

} // verus!
