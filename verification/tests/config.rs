use repman::command::Outcome;
use repman::config::{basedir, KEY_NOT_FOUND_STATUS};
use repman::error::CloneError;

fn config_exit(status: i32, stdout: &[u8]) -> Outcome {
    Outcome { exit_status: Some(status), stdout: stdout.to_vec() }
}

#[test]
fn basedir_is_the_trimmed_output() {
    assert_eq!(basedir(config_exit(0, b"/home/u/src\n")), Ok("/home/u/src".to_string()));
    assert_eq!(basedir(config_exit(0, b"  \t/home/u/src \r\n")), Ok("/home/u/src".to_string()));
    assert_eq!(basedir(config_exit(0, b"/")), Ok("/".to_string()));
}

#[test]
fn basedir_keeps_whitespace_inside_the_path() {
    assert_eq!(basedir(config_exit(0, b"/home/u/my src\n")), Ok("/home/u/my src".to_string()));
}

#[test]
fn basedir_may_hold_any_text() {
    let out = "/home/\u{00fc}ser/\u{6e90}\n".as_bytes();
    assert_eq!(basedir(config_exit(0, out)), Ok("/home/\u{00fc}ser/\u{6e90}".to_string()));
}

#[test]
fn basedir_trims_whitespace_of_every_script() {
    let out = "\u{00a0}\u{3000}\u{2003}/srv\u{0085}\u{2028}\u{205f}".as_bytes();
    assert_eq!(basedir(config_exit(0, out)), Ok("/srv".to_string()));
}

#[test]
fn basedir_does_not_trim_what_is_no_whitespace() {
    let out = "\u{200b}/srv".as_bytes();
    assert_eq!(basedir(config_exit(0, out)), Err(CloneError::ConfigInvalid));
    let out = "/srv\u{200b}\n".as_bytes();
    assert_eq!(basedir(config_exit(0, out)), Ok("/srv\u{200b}".to_string()));
}

#[test]
fn basedir_missing_when_key_is_not_found() {
    assert_eq!(KEY_NOT_FOUND_STATUS, 1);
    assert_eq!(basedir(config_exit(1, b"")), Err(CloneError::ConfigMissing));
    assert_eq!(basedir(config_exit(1, b"/home/u/src\n")), Err(CloneError::ConfigMissing));
}

#[test]
fn basedir_invalid_when_empty() {
    assert_eq!(basedir(config_exit(0, b"")), Err(CloneError::ConfigInvalid));
    assert_eq!(basedir(config_exit(0, b"\n")), Err(CloneError::ConfigInvalid));
    assert_eq!(basedir(config_exit(0, b" \t \n")), Err(CloneError::ConfigInvalid));
}

#[test]
fn basedir_invalid_when_relative() {
    assert_eq!(basedir(config_exit(0, b"src\n")), Err(CloneError::ConfigInvalid));
    assert_eq!(basedir(config_exit(0, b"./src\n")), Err(CloneError::ConfigInvalid));
    assert_eq!(basedir(config_exit(0, b"~/src\n")), Err(CloneError::ConfigInvalid));
    assert_eq!(basedir(config_exit(0, b"home/u/src/\n")), Err(CloneError::ConfigInvalid));
}

#[test]
fn basedir_read_error_for_any_other_status() {
    assert_eq!(basedir(config_exit(2, b"/home/u/src\n")), Err(CloneError::ConfigReadError));
    assert_eq!(basedir(config_exit(-1, b"/home/u/src\n")), Err(CloneError::ConfigReadError));
    assert_eq!(basedir(config_exit(128, b"")), Err(CloneError::ConfigReadError));
    assert_eq!(basedir(config_exit(i32::MIN, b"")), Err(CloneError::ConfigReadError));
}

#[test]
fn basedir_read_error_without_a_status() {
    let outcome = Outcome { exit_status: None, stdout: b"/home/u/src\n".to_vec() };
    assert_eq!(basedir(outcome), Err(CloneError::ConfigReadError));
}

#[test]
fn basedir_output_must_be_text() {
    assert_eq!(basedir(config_exit(0, &[0x2f, 0xc3, 0x28])), Err(CloneError::OutputNotText));
    assert_eq!(basedir(config_exit(0, &[0xff])), Err(CloneError::OutputNotText));
    assert_eq!(basedir(config_exit(0, &[0x2f, 0xed, 0xa0, 0x80])), Err(CloneError::OutputNotText));
}

#[test]
fn basedir_status_is_looked_at_before_the_output() {
    assert_eq!(basedir(config_exit(1, &[0xff])), Err(CloneError::ConfigMissing));
    assert_eq!(basedir(config_exit(5, &[0xff])), Err(CloneError::ConfigReadError));
}
