//! What the proxy does when it is loaded: the answer to the loader's
//! notification, and the start-up sequence as a state machine whose steps a
//! host performs and reports back.

use vstd::prelude::*;

verus! {

/// The loader's notification that the library was attached to a process.
pub const DLL_PROCESS_ATTACH: u32 = 1;

/// The Windows `TRUE`.
pub const BOOL_TRUE: i32 = 1;

/// The Windows `FALSE`.
pub const BOOL_FALSE: i32 = 0;

/// What the entry point does with a notification.
#[derive(PartialEq, Eq, Structural, Clone, Copy, Debug)]
pub enum EntryAction {
    /// Run the start-up sequence and answer with its result.
    RunStartup,
    /// Answer at once with the given value.
    Reply(i32),
}

pub open spec fn spec_entry_action(call_reason: u32) -> EntryAction {
    if call_reason == DLL_PROCESS_ATTACH {
        EntryAction::RunStartup
    } else {
        EntryAction::Reply(BOOL_TRUE)
    }
}

/// The entry point's decision: only the attach notification starts the
/// proxy; every other notification is accepted as it is.
pub fn dll_main_action(call_reason: u32) -> (a: EntryAction)
    ensures
        a == spec_entry_action(call_reason),
{
    if call_reason == DLL_PROCESS_ATTACH {
        EntryAction::RunStartup
    } else {
        EntryAction::Reply(BOOL_TRUE)
    }
}

/// The exports of the system library that the proxy forwards, each through
/// a slot of its own.
#[derive(PartialEq, Eq, Structural, Clone, Copy, Debug)]
pub enum ForwardedExport {
    DirectInput8Create,
    DllCanUnloadNow,
    DllGetClassObject,
    DllRegisterServer,
    DllUnregisterServer,
}

impl ForwardedExport {
    pub open spec fn spec_name(&self) -> Seq<char> {
        match self {
            ForwardedExport::DirectInput8Create => "DirectInput8Create"@,
            ForwardedExport::DllCanUnloadNow => "DllCanUnloadNow"@,
            ForwardedExport::DllGetClassObject => "DllGetClassObject"@,
            ForwardedExport::DllRegisterServer => "DllRegisterServer"@,
            ForwardedExport::DllUnregisterServer => "DllUnregisterServer"@,
        }
    }

    pub open spec fn spec_slot(&self) -> usize {
        match self {
            ForwardedExport::DirectInput8Create => 0,
            ForwardedExport::DllCanUnloadNow => 1,
            ForwardedExport::DllGetClassObject => 2,
            ForwardedExport::DllRegisterServer => 3,
            ForwardedExport::DllUnregisterServer => 4,
        }
    }

    /// The name under which the system library exports the function.
    pub fn name(&self) -> (n: &'static str)
        ensures
            n@ == self.spec_name(),
    {
        match self {
            ForwardedExport::DirectInput8Create => "DirectInput8Create",
            ForwardedExport::DllCanUnloadNow => "DllCanUnloadNow",
            ForwardedExport::DllGetClassObject => "DllGetClassObject",
            ForwardedExport::DllRegisterServer => "DllRegisterServer",
            ForwardedExport::DllUnregisterServer => "DllUnregisterServer",
        }
    }

    /// The slot that holds the resolved address.
    pub fn slot(&self) -> (s: usize)
        ensures
            s == self.spec_slot(),
    {
        match self {
            ForwardedExport::DirectInput8Create => 0,
            ForwardedExport::DllCanUnloadNow => 1,
            ForwardedExport::DllGetClassObject => 2,
            ForwardedExport::DllRegisterServer => 3,
            ForwardedExport::DllUnregisterServer => 4,
        }
    }
}

/// The game functions that the proxy detours.
#[derive(PartialEq, Eq, Structural, Clone, Copy, Debug)]
pub enum GameHook {
    /// Draws the video settings menu.
    VideoSettingsDraw,
    /// Handles input in the video settings menu.
    VideoSettingsUpdate,
    /// Loads the permanent data at start-up.
    PermLoad,
}

impl GameHook {
    /// The order in which the detours are installed.
    pub open spec fn spec_order(&self) -> int {
        match self {
            GameHook::VideoSettingsDraw => 0,
            GameHook::VideoSettingsUpdate => 1,
            GameHook::PermLoad => 2,
        }
    }

    pub open spec fn spec_target(&self) -> u32 {
        match self {
            GameHook::VideoSettingsDraw => 0x00511ea0,
            GameHook::VideoSettingsUpdate => 0x0050ef80,
            GameHook::PermLoad => 0x004ca5b0,
        }
    }

    /// The address of the game function in the game's image.
    pub fn target_address(&self) -> (a: u32)
        ensures
            a == self.spec_target(),
    {
        match self {
            GameHook::VideoSettingsDraw => 0x00511ea0,
            GameHook::VideoSettingsUpdate => 0x0050ef80,
            GameHook::PermLoad => 0x004ca5b0,
        }
    }
}

/// The path of the system library whose exports are forwarded.
pub fn system_library_path() -> (p: &'static str)
    ensures
        p@ == "C:\\Windows\\System32\\dinput8.dll"@,
{
    "C:\\Windows\\System32\\dinput8.dll"
}

/// A step of the start-up sequence.
#[derive(PartialEq, Eq, Structural, Clone, Copy, Debug)]
pub enum StartupStep {
    /// Open a console and detach standard output from it.
    OpenConsole,
    /// Load the system library.
    LoadSystemLibrary,
    /// Look the export up in the system library and keep its address.
    ResolveExport(ForwardedExport),
    /// Detour the game function and enable the detour.
    InstallHook(GameHook),
    /// Stop, answering the loader with the value.
    Finish(i32),
}

/// How a step went, as the host reports it.
#[derive(PartialEq, Eq, Structural, Clone, Copy, Debug)]
pub enum StepOutcome {
    /// The step was carried out.
    Done,
    /// The system library could not be loaded.
    LibraryMissing,
}

/// An outcome that the step can have: only loading the library can fail.
pub open spec fn outcome_fits(step: StartupStep, outcome: StepOutcome) -> bool {
    outcome == StepOutcome::LibraryMissing ==> step == StartupStep::LoadSystemLibrary
}

/// The position of a step in `successful_run`.
pub open spec fn run_position(step: StartupStep) -> int {
    match step {
        StartupStep::OpenConsole => 0,
        StartupStep::LoadSystemLibrary => 1,
        StartupStep::ResolveExport(e) => 2 + e.spec_slot(),
        StartupStep::InstallHook(h) => 7 + h.spec_order(),
        StartupStep::Finish(_) => 10,
    }
}

/// The step after `step`: none after a finish; `FALSE` at once where the
/// library is missing; otherwise the next step of `successful_run`.
pub open spec fn spec_next_step(step: StartupStep, outcome: StepOutcome) -> Option<StartupStep> {
    if step is Finish {
        None
    } else if outcome == StepOutcome::LibraryMissing {
        Some(StartupStep::Finish(BOOL_FALSE))
    } else {
        Some(successful_run()[run_position(step) + 1])
    }
}

/// The step the start-up sequence begins with.
pub open spec fn first_startup_step_spec() -> StartupStep {
    StartupStep::OpenConsole
}

/// The step the start-up sequence begins with.
pub fn first_startup_step() -> (s: StartupStep)
    ensures
        s == first_startup_step_spec(),
{
    StartupStep::OpenConsole
}

/// The step that follows `step` once it went as `outcome` says; `None` once
/// the sequence has finished.
pub fn next_startup_step(step: StartupStep, outcome: StepOutcome) -> (r: Option<StartupStep>)
    requires
        outcome_fits(step, outcome),
    ensures
        r == spec_next_step(step, outcome),
{
    match step {
        StartupStep::OpenConsole => Some(StartupStep::LoadSystemLibrary),
        StartupStep::LoadSystemLibrary => match outcome {
            StepOutcome::LibraryMissing => Some(StartupStep::Finish(BOOL_FALSE)),
            StepOutcome::Done => Some(StartupStep::ResolveExport(ForwardedExport::DirectInput8Create)),
        },
        StartupStep::ResolveExport(e) => match e {
            ForwardedExport::DirectInput8Create => Some(
                StartupStep::ResolveExport(ForwardedExport::DllCanUnloadNow),
            ),
            ForwardedExport::DllCanUnloadNow => Some(
                StartupStep::ResolveExport(ForwardedExport::DllGetClassObject),
            ),
            ForwardedExport::DllGetClassObject => Some(
                StartupStep::ResolveExport(ForwardedExport::DllRegisterServer),
            ),
            ForwardedExport::DllRegisterServer => Some(
                StartupStep::ResolveExport(ForwardedExport::DllUnregisterServer),
            ),
            ForwardedExport::DllUnregisterServer => Some(
                StartupStep::InstallHook(GameHook::VideoSettingsDraw),
            ),
        },
        StartupStep::InstallHook(h) => match h {
            GameHook::VideoSettingsDraw => Some(StartupStep::InstallHook(GameHook::VideoSettingsUpdate)),
            GameHook::VideoSettingsUpdate => Some(StartupStep::InstallHook(GameHook::PermLoad)),
            GameHook::PermLoad => Some(StartupStep::Finish(BOOL_TRUE)),
        },
        StartupStep::Finish(_) => None,
    }
}

/// The sequence of steps when every step is carried out.
pub open spec fn successful_run() -> Seq<StartupStep> {
    seq![
        StartupStep::OpenConsole,
        StartupStep::LoadSystemLibrary,
        StartupStep::ResolveExport(ForwardedExport::DirectInput8Create),
        StartupStep::ResolveExport(ForwardedExport::DllCanUnloadNow),
        StartupStep::ResolveExport(ForwardedExport::DllGetClassObject),
        StartupStep::ResolveExport(ForwardedExport::DllRegisterServer),
        StartupStep::ResolveExport(ForwardedExport::DllUnregisterServer),
        StartupStep::InstallHook(GameHook::VideoSettingsDraw),
        StartupStep::InstallHook(GameHook::VideoSettingsUpdate),
        StartupStep::InstallHook(GameHook::PermLoad),
        StartupStep::Finish(BOOL_TRUE),
    ]
}

/// How many steps at most remain after `step`.
pub open spec fn steps_left(step: StartupStep) -> nat {
    (10 - run_position(step)) as nat
}

/// Law: when every step is carried out, the sequence opens the console,
/// loads the library, resolves each forwarded export in slot order, installs
/// each detour, and answers `TRUE`; then it stops.
pub proof fn lemma_successful_run()
    ensures
        successful_run()[0] == first_startup_step_spec(),
        forall|i: int|
            0 <= i < successful_run().len() - 1 ==> spec_next_step(
                #[trigger] successful_run()[i],
                StepOutcome::Done,
            ) == Some(successful_run()[i + 1]),
        spec_next_step(successful_run().last(), StepOutcome::Done) is None,
        forall|e: ForwardedExport|
            successful_run()[2 + #[trigger] e.spec_slot()] == StartupStep::ResolveExport(e),
{
    assert forall|i: int|
        0 <= i < successful_run().len() - 1 implies spec_next_step(
        #[trigger] successful_run()[i],
        StepOutcome::Done,
    ) == Some(successful_run()[i + 1]) by {
        assert(0 <= i < 10);
        if i == 0 {} else if i == 1 {} else if i == 2 {} else if i == 3 {} else if i == 4 {}
        else if i == 5 {} else if i == 6 {} else if i == 7 {} else if i == 8 {} else {}
    }
}

/// Law: the sequence fails only where the system library is missing; it then
/// answers `FALSE` at once, before any export is resolved or any detour
/// installed, and stops.
pub proof fn lemma_failure_is_immediate(step: StartupStep, outcome: StepOutcome)
    requires
        outcome_fits(step, outcome),
    ensures
        spec_next_step(step, outcome) == Some(StartupStep::Finish(BOOL_FALSE))
            <==> outcome == StepOutcome::LibraryMissing,
        outcome == StepOutcome::LibraryMissing ==> spec_next_step(
            StartupStep::Finish(BOOL_FALSE),
            StepOutcome::Done,
        ) is None,
{
}

/// Law: every step brings the sequence closer to its end, so it finishes
/// after at most ten steps past the first.
pub proof fn lemma_startup_terminates(step: StartupStep, outcome: StepOutcome)
    requires
        outcome_fits(step, outcome),
    ensures
        spec_next_step(step, outcome) matches Some(next) ==> steps_left(next) < steps_left(step),
        spec_next_step(step, outcome) is None <==> step is Finish,
        steps_left(first_startup_step_spec()) == 10,
{
}

} // verus!
