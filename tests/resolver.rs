use libmask::{HaxeVersion, Host, Platform, Probe, ValidationError};

fn posix_home(home: &str) -> Host {
    Host { home: Some(home.to_string()), search_path: None, platform: Platform::Posix }
}

fn no_home() -> Host {
    Host { home: None, search_path: None, platform: Platform::Posix }
}

#[test]
fn installations_root_is_under_home() {
    let r = HaxeVersion::get_haxe_installations(&posix_home("/home/u"));
    assert_eq!(r, Ok("/home/u/.haxe".to_string()));
}

#[test]
fn installations_root_with_trailing_separator() {
    let r = HaxeVersion::get_haxe_installations(&posix_home("/home/u/"));
    assert_eq!(r, Ok("/home/u/.haxe".to_string()));
}

#[test]
fn installations_root_on_windows() {
    let host = Host {
        home: Some("C:\\Users\\u".to_string()),
        search_path: None,
        platform: Platform::Windows,
    };
    let v = HaxeVersion("4.3.7".to_string());
    assert_eq!(v.get_path(&host), Ok("C:\\Users\\u\\.haxe\\4.3.7".to_string()));
    assert_eq!(v.get_std_path(&host), Ok("C:\\Users\\u\\.haxe\\4.3.7\\std".to_string()));
}

#[test]
fn get_version_joins_root_and_identifier() {
    let r = HaxeVersion::get_version(&posix_home("/home/u"), "4.2.5");
    assert_eq!(r, Ok("/home/u/.haxe/4.2.5".to_string()));
}

#[test]
fn get_path_and_std_path() {
    let v = HaxeVersion("4.3.7".to_string());
    let host = posix_home("/home/u");
    assert_eq!(v.get_path(&host), Ok("/home/u/.haxe/4.3.7".to_string()));
    assert_eq!(v.get_std_path(&host), Ok("/home/u/.haxe/4.3.7/std".to_string()));
}

#[test]
fn validate_present_version() {
    let v = HaxeVersion("4.3.7".to_string());
    let r = v.get_path_installed(&posix_home("/home/u"), Probe::Present);
    assert_eq!(r, Ok("/home/u/.haxe/4.3.7".to_string()));
}

#[test]
fn validate_absent_version() {
    let v = HaxeVersion("9.9.9".to_string());
    let r = v.get_path_installed(&posix_home("/home/u"), Probe::Absent);
    assert_eq!(r, Err(ValidationError::NotInstalled { version: "9.9.9".to_string() }));
}

#[test]
fn validate_probe_failure_is_not_absence() {
    let v = HaxeVersion("4.3.7".to_string());
    let r = v.get_path_installed(
        &posix_home("/home/u"),
        Probe::Failed("permission denied".to_string()),
    );
    assert_eq!(r, Err(ValidationError::ExistenceCheckFailed("permission denied".to_string())));
}

#[test]
fn unknown_home_blocks_every_validation() {
    for version in ["4.3.7", "9.9.9", ""] {
        let v = HaxeVersion(version.to_string());
        for probe in [Probe::Present, Probe::Absent, Probe::Failed("x".to_string())] {
            assert_eq!(
                v.get_path_installed(&no_home(), probe),
                Err(ValidationError::RootUnavailable)
            );
        }
        assert_eq!(v.get_path(&no_home()), Err(ValidationError::RootUnavailable));
        assert_eq!(v.get_std_path(&no_home()), Err(ValidationError::RootUnavailable));
    }
    assert_eq!(
        HaxeVersion::get_haxe_installations(&no_home()),
        Err(ValidationError::RootUnavailable)
    );
}

#[test]
fn marker_path_lies_inside_installation() {
    let v = HaxeVersion("4.3.7".to_string());
    let host = posix_home("/home/u");
    let dir = v.get_path(&host).unwrap();
    let marker = v.get_std_path(&host).unwrap();
    assert!(marker.starts_with(&dir));
    assert_eq!(&marker[dir.len()..], "/std");
}
