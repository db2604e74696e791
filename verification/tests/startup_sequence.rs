use dinput8_saga::startup::{
    dll_main_action, first_startup_step, next_startup_step, system_library_path, EntryAction,
    ForwardedExport, GameHook, StartupStep, StepOutcome, BOOL_FALSE, BOOL_TRUE,
    DLL_PROCESS_ATTACH,
};

#[test]
fn only_attach_starts_the_proxy() {
    assert_eq!(dll_main_action(DLL_PROCESS_ATTACH), EntryAction::RunStartup);
    assert_eq!(DLL_PROCESS_ATTACH, 1);
    for reason in [0u32, 2, 3, 7] {
        assert_eq!(dll_main_action(reason), EntryAction::Reply(BOOL_TRUE));
    }
    assert_eq!(BOOL_TRUE, 1);
    assert_eq!(BOOL_FALSE, 0);
}

#[test]
fn successful_startup_runs_every_step_once() {
    let mut steps = Vec::new();
    let mut step = Some(first_startup_step());
    while let Some(s) = step {
        steps.push(s);
        step = next_startup_step(s, StepOutcome::Done);
    }
    assert_eq!(
        steps,
        vec![
            StartupStep::OpenConsole,
            StartupStep::LoadSystemLibrary,
            StartupStep::ResolveExport(ForwardedExport::DirectInput8Create),
            StartupStep::ResolveExport(ForwardedExport::DllCanUnloadNow),
            StartupStep::ResolveExport(ForwardedExport::DllGetClassObject),
            StartupStep::ResolveExport(ForwardedExport::DllRegisterServer),
            StartupStep::ResolveExport(ForwardedExport::DllUnregisterServer),
            StartupStep::InstallHook(GameHook::VideoSettingsDraw),
            StartupStep::InstallHook(GameHook::VideoSettingsUpdate),
            StartupStep::InstallHook(GameHook::PermLoad),
            StartupStep::Finish(BOOL_TRUE),
        ]
    );
}

#[test]
fn missing_library_fails_at_once() {
    let next = next_startup_step(StartupStep::LoadSystemLibrary, StepOutcome::LibraryMissing);
    assert_eq!(next, Some(StartupStep::Finish(BOOL_FALSE)));
    assert_eq!(next_startup_step(StartupStep::Finish(BOOL_FALSE), StepOutcome::Done), None);
}

#[test]
fn exports_and_hooks_are_named() {
    let exports = [
        (ForwardedExport::DirectInput8Create, "DirectInput8Create", 0),
        (ForwardedExport::DllCanUnloadNow, "DllCanUnloadNow", 1),
        (ForwardedExport::DllGetClassObject, "DllGetClassObject", 2),
        (ForwardedExport::DllRegisterServer, "DllRegisterServer", 3),
        (ForwardedExport::DllUnregisterServer, "DllUnregisterServer", 4),
    ];
    for (e, name, slot) in exports {
        assert_eq!(e.name(), name);
        assert_eq!(e.slot(), slot);
    }
    assert_eq!(GameHook::VideoSettingsDraw.target_address(), 0x00511ea0);
    assert_eq!(GameHook::VideoSettingsUpdate.target_address(), 0x0050ef80);
    assert_eq!(GameHook::PermLoad.target_address(), 0x004ca5b0);
    assert_eq!(system_library_path(), "C:\\Windows\\System32\\dinput8.dll");
}
