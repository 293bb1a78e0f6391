use meatycapture::capability::Capability;
use meatycapture::config::{RegistrationError, StartupConfig};
use meatycapture::launch::{settle_run, Launcher, Phase, StartupError};
use meatycapture::platform::PlatformClass;

#[test]
fn mobile_targets_are_classified_mobile() {
    assert_eq!(PlatformClass::from_target_os("android"), PlatformClass::Mobile);
    assert_eq!(PlatformClass::from_target_os("ios"), PlatformClass::Mobile);
}

#[test]
fn other_targets_are_classified_desktop() {
    for os in ["linux", "macos", "windows", "freebsd", "", "Android", "iosx"] {
        assert_eq!(PlatformClass::from_target_os(os), PlatformClass::Desktop, "{}", os);
    }
}

#[test]
fn desktop_predicate() {
    assert!(PlatformClass::Desktop.is_desktop());
    assert!(!PlatformClass::Mobile.is_desktop());
}

#[test]
fn catalog_lists_filesystem_then_shell() {
    assert_eq!(Capability::all(), vec![Capability::Filesystem, Capability::Shell]);
}

#[test]
fn capability_gating_per_platform() {
    assert!(Capability::Filesystem.is_enabled_on(PlatformClass::Desktop));
    assert!(Capability::Filesystem.is_enabled_on(PlatformClass::Mobile));
    assert!(Capability::Shell.is_enabled_on(PlatformClass::Desktop));
    assert!(!Capability::Shell.is_enabled_on(PlatformClass::Mobile));
}

#[test]
fn desktop_configuration_registers_filesystem_then_shell() {
    let c = StartupConfig::for_platform(PlatformClass::Desktop);
    assert_eq!(c.plugins(), vec![Capability::Filesystem, Capability::Shell]);
    assert_eq!(c.len(), 2);
    assert_eq!(c.platform(), PlatformClass::Desktop);
}

#[test]
fn mobile_configuration_registers_filesystem_only() {
    let c = StartupConfig::for_platform(PlatformClass::Mobile);
    assert_eq!(c.plugins(), vec![Capability::Filesystem]);
    assert!(c.contains(Capability::Filesystem));
    assert!(!c.contains(Capability::Shell));
    assert_eq!(c.platform(), PlatformClass::Mobile);
}

#[test]
fn configuration_is_the_same_on_every_construction() {
    for p in [PlatformClass::Desktop, PlatformClass::Mobile] {
        let a = StartupConfig::for_platform(p);
        let b = StartupConfig::for_platform(p);
        assert_eq!(a.plugins(), b.plugins());
    }
}

#[test]
fn filesystem_comes_before_shell() {
    let plugins = StartupConfig::for_platform(PlatformClass::Desktop).plugins();
    let fs = plugins.iter().position(|c| *c == Capability::Filesystem).unwrap();
    let sh = plugins.iter().position(|c| *c == Capability::Shell).unwrap();
    assert!(fs < sh);
}

#[test]
fn new_configuration_is_empty() {
    let c = StartupConfig::new(PlatformClass::Desktop);
    assert_eq!(c.len(), 0);
    assert!(c.plugins().is_empty());
    assert!(!c.contains(Capability::Filesystem));
}

#[test]
fn register_appends_in_order() {
    let mut c = StartupConfig::new(PlatformClass::Desktop);
    assert_eq!(c.register(Capability::Shell), Ok(()));
    assert_eq!(c.register(Capability::Filesystem), Ok(()));
    assert_eq!(c.plugins(), vec![Capability::Shell, Capability::Filesystem]);
}

#[test]
fn register_refuses_shell_on_mobile() {
    let mut c = StartupConfig::new(PlatformClass::Mobile);
    assert_eq!(c.register(Capability::Shell), Err(RegistrationError::Unavailable));
    assert_eq!(c.len(), 0);
}

#[test]
fn register_refuses_duplicates() {
    let mut c = StartupConfig::new(PlatformClass::Mobile);
    assert_eq!(c.register(Capability::Filesystem), Ok(()));
    assert_eq!(c.register(Capability::Filesystem), Err(RegistrationError::AlreadyRegistered));
    assert_eq!(c.plugins(), vec![Capability::Filesystem]);
}

#[test]
fn launcher_starts_once() {
    let mut l = Launcher::new(PlatformClass::Desktop);
    assert_eq!(l.phase(), Phase::NotStarted);
    assert_eq!(l.platform(), PlatformClass::Desktop);
    let plugins = l.start().unwrap();
    assert_eq!(plugins, vec![Capability::Filesystem, Capability::Shell]);
    assert_eq!(l.phase(), Phase::Running);
    assert!(matches!(l.start(), Err(StartupError::AlreadyStarted)));
    assert_eq!(l.phase(), Phase::Running);
}

#[test]
fn launcher_on_mobile_hands_out_filesystem_only() {
    let mut l = Launcher::new(PlatformClass::Mobile);
    assert_eq!(l.start().unwrap(), vec![Capability::Filesystem]);
}

#[test]
fn successful_run_settles_ok() {
    assert!(settle_run(Ok(())).is_ok());
}

#[test]
fn failed_run_is_passed_on() {
    match settle_run(Err("no display".to_string())) {
        Err(StartupError::RunFailed(d)) => assert_eq!(d, "no display"),
        other => panic!("unexpected {:?}", other),
    }
}

#[test]
fn headlines_name_the_failure() {
    let e = StartupError::RunFailed("x".to_string());
    assert_eq!(e.headline(), "error while running tauri application");
    assert_eq!(StartupError::AlreadyStarted.headline(), "application already started");
}
