use directories::ProjectDirs;
use quic_p2p::dirs::{desktop_dir, Target, TargetOs, NO_DEFAULT_DIR};
use quic_p2p::{project_dir, Dirs, Error, IoErrorKind, Platform};
use std::path::PathBuf;

#[test]
fn non_desktop_has_no_default_dir() {
    match project_dir(Platform::NonDesktop) {
        Err(Error::Configuration(reason)) => assert_eq!(
            reason,
            "No default project dir on non-desktop platforms. User must provide an override path."
        ),
        other => panic!("unexpected result: {:?}", other),
    }
}

#[test]
fn non_desktop_fails_every_time() {
    for _ in 0..3 {
        assert!(matches!(
            project_dir(Platform::NonDesktop),
            Err(Error::Configuration(reason)) if reason == NO_DEFAULT_DIR
        ));
    }
}

#[test]
fn desktop_gives_directories_or_not_found() {
    match project_dir(Platform::Desktop) {
        Ok(Dirs::Desktop(_)) => {}
        Err(error) => assert_eq!(error, Error::Io(IoErrorKind::NotFound)),
    }
}

#[test]
fn desktop_agrees_with_the_lookup() {
    let expected = ProjectDirs::from("net", "MaidSafe", "quic-p2p");
    match (project_dir(Platform::Desktop), expected) {
        (Ok(Dirs::Desktop(got)), Some(expected)) => {
            assert_eq!(got.project_path(), expected.project_path());
            assert_eq!(got.config_dir(), expected.config_dir());
            assert_eq!(got.data_dir(), expected.data_dir());
        }
        (Err(error), None) => assert_eq!(error, Error::Io(IoErrorKind::NotFound)),
        (got, expected) => panic!("{:?} does not go with {:?}", got, expected),
    }
}

#[test]
fn nothing_found_is_an_io_error() {
    match desktop_dir(None) {
        Err(error) => assert_eq!(error, Error::Io(IoErrorKind::NotFound)),
        Ok(dirs) => panic!("unexpected directories: {:?}", dirs),
    }
}

#[test]
fn found_directories_are_handed_on() {
    if let Some(found) = ProjectDirs::from_path(PathBuf::from("some-app")) {
        match desktop_dir(Some(found.clone())) {
            Ok(Dirs::Desktop(got)) => {
                assert_eq!(got.project_path(), found.project_path());
                assert_eq!(got.cache_dir(), found.cache_dir());
            }
            Err(error) => panic!("unexpected error: {:?}", error),
        }
    }
}

fn target(unix: bool, windows: bool, os: TargetOs) -> Target {
    Target { unix, windows, os }
}

#[test]
fn unix_targets_are_desktops_unless_mobile() {
    assert_eq!(Platform::of(target(true, false, TargetOs::Other)), Platform::Desktop);
    assert_eq!(Platform::of(target(true, false, TargetOs::Android)), Platform::NonDesktop);
    assert_eq!(Platform::of(target(true, false, TargetOs::AndroidEabi)), Platform::NonDesktop);
    assert_eq!(Platform::of(target(true, false, TargetOs::Ios)), Platform::NonDesktop);
}

#[test]
fn windows_targets_are_desktops() {
    assert_eq!(Platform::of(target(false, true, TargetOs::Other)), Platform::Desktop);
    assert_eq!(Platform::of(target(false, true, TargetOs::Android)), Platform::Desktop);
    assert_eq!(Platform::of(target(true, true, TargetOs::Ios)), Platform::Desktop);
}

#[test]
fn other_targets_are_no_desktops() {
    assert_eq!(Platform::of(target(false, false, TargetOs::Other)), Platform::NonDesktop);
    assert_eq!(Platform::of(target(false, false, TargetOs::Android)), Platform::NonDesktop);
    assert_eq!(Platform::of(target(false, false, TargetOs::Ios)), Platform::NonDesktop);
}
