use ffprobe_sidecar::EffectivePath;
use ffprobe_sidecar::ProbeError;
use ffprobe_sidecar::ffprobe_is_installed;
use ffprobe_sidecar::ffprobe_path;
use ffprobe_sidecar::ffprobe_sidecar_path;
use ffprobe_sidecar::ffprobe_version;
use ffprobe_sidecar::ffprobe_version_with_path;
use ffprobe_sidecar::version_command;

#[test]
fn sidecar_path_unix_has_no_extension() {
    let r = ffprobe_sidecar_path("/usr/local/bin/app", false);
    assert_eq!(r, Ok(String::from("/usr/local/bin/ffprobe")));
}

#[test]
fn sidecar_path_windows_has_exe_extension() {
    let r = ffprobe_sidecar_path("C:\\Tools\\app.exe", true);
    assert_eq!(r, Ok(String::from("C:\\Tools\\ffprobe.exe")));
}

#[test]
fn sidecar_path_windows_accepts_forward_slashes() {
    let r = ffprobe_sidecar_path("C:/Tools/app.exe", true);
    assert_eq!(r, Ok(String::from("C:/Tools/ffprobe.exe")));
}

#[test]
fn sidecar_path_backslash_is_no_separator_outside_windows() {
    let r = ffprobe_sidecar_path("C:\\Tools\\app", false);
    assert_eq!(r, Err(ProbeError::NoParent));
}

#[test]
fn sidecar_path_under_root_keeps_the_root() {
    let r = ffprobe_sidecar_path("/app", false);
    assert_eq!(r, Ok(String::from("/ffprobe")));
}

#[test]
fn sidecar_path_without_parent_is_an_error() {
    assert_eq!(ffprobe_sidecar_path("app", false), Err(ProbeError::NoParent));
    assert_eq!(ffprobe_sidecar_path("", true), Err(ProbeError::NoParent));
}

#[test]
fn effective_path_uses_an_existing_sidecar() {
    let r = ffprobe_path(Some(String::from("/opt/app/ffprobe")), true);
    assert_eq!(r, EffectivePath::Sidecar(String::from("/opt/app/ffprobe")));
}

#[test]
fn effective_path_falls_back_when_the_sidecar_is_missing() {
    let r = ffprobe_path(Some(String::from("/opt/app/ffprobe")), false);
    assert_eq!(r, EffectivePath::SystemSearch(String::from("ffprobe")));
}

#[test]
fn effective_path_falls_back_when_resolution_failed() {
    assert_eq!(
        ffprobe_path(None, false),
        EffectivePath::SystemSearch(String::from("ffprobe"))
    );
    assert_eq!(
        ffprobe_path(None, true),
        EffectivePath::SystemSearch(String::from("ffprobe"))
    );
}

#[test]
fn installed_only_on_a_successful_exit() {
    assert!(ffprobe_is_installed(Some(true)));
    assert!(!ffprobe_is_installed(Some(false)));
    assert!(!ffprobe_is_installed(None));
}

#[test]
fn version_command_passes_version_flag_only() {
    let path = EffectivePath::SystemSearch(String::from("ffprobe"));
    let c = version_command(&path);
    assert_eq!(c.program, String::from("ffprobe"));
    assert_eq!(c.args, vec![String::from("-version")]);
    assert!(c.no_window);
}

#[test]
fn version_returns_captured_text_unmodified() {
    let banner = b"ffprobe version 6.1.1 Copyright (c) 2007\n".to_vec();
    let r = ffprobe_version(Some(banner));
    assert_eq!(
        r,
        Ok(String::from("ffprobe version 6.1.1 Copyright (c) 2007\n"))
    );
}

#[test]
fn version_decodes_multibyte_text() {
    let text = String::from("ffprobe v\u{00e9}rsion\n");
    let r = ffprobe_version_with_path(Some(text.clone().into_bytes()));
    assert_eq!(r, Ok(text));
}

#[test]
fn version_reports_a_failed_launch() {
    assert_eq!(ffprobe_version(None), Err(ProbeError::LaunchFailed));
    assert_eq!(ffprobe_version_with_path(None), Err(ProbeError::LaunchFailed));
}

#[test]
fn version_rejects_output_that_is_not_text() {
    let r = ffprobe_version_with_path(Some(vec![0xff, 0xfe, 0x00]));
    assert_eq!(r, Err(ProbeError::InvalidUtf8));
}
