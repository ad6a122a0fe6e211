//! Units for the error taxonomy and the pid decimal text.

use daemonkit::config::DaemonConfig;
use daemonkit::error::{Error, ErrorKind};
use daemonkit::pid_text::{parse_decimal, render_decimal};

#[test]
fn custom_error_keeps_kind_and_description() {
    let e = Error::custom(ErrorKind::SessionDetachFailed, String::from("setsid refused"));
    assert_eq!(e.kind(), ErrorKind::SessionDetachFailed);
    assert!(!e.is_io_error());
    assert_eq!(e.as_io_error(), None);
    assert_eq!(e.description.as_deref(), Some("setsid refused"));
}

#[test]
fn os_error_carries_its_code() {
    let e = Error::from_os(ErrorKind::DirectoryChangeFailed, 13);
    assert_eq!(e.kind(), ErrorKind::DirectoryChangeFailed);
    assert!(e.is_io_error());
    assert_eq!(e.as_io_error(), Some(13));
    assert!(e.description.is_none());
}

#[test]
fn bare_error_has_neither_code_nor_description() {
    let e = Error::bare(ErrorKind::GroupLookupFailed);
    assert_eq!(e.kind(), ErrorKind::GroupLookupFailed);
    assert!(!e.is_io_error());
    assert_eq!(e.as_io_error(), None);
    assert!(e.description.is_none());
}

#[test]
fn duplicate_preserves_every_field() {
    let e = Error::custom(ErrorKind::PidFileWriteFailed, String::from("disk full"));
    let d = e.duplicate();
    assert_eq!(d.kind(), e.kind());
    assert_eq!(d.as_io_error(), e.as_io_error());
    assert_eq!(d.description, e.description);
}

#[test]
fn kind_names_are_distinct_and_readable() {
    let lock = Error::bare(ErrorKind::PidFileLockFailed);
    let open = Error::bare(ErrorKind::PidFileOpenFailed);
    assert_eq!(lock.kind_name(), "pid file lock failed");
    assert_eq!(open.kind_name(), "pid file open failed");
    assert_ne!(lock.kind_name(), open.kind_name());
}

#[test]
fn renders_pid_as_decimal_text() {
    assert_eq!(render_decimal(12345), b"12345".to_vec());
    assert_eq!(render_decimal(0), b"0".to_vec());
    assert_eq!(render_decimal(7), b"7".to_vec());
    assert_eq!(
        render_decimal(u64::MAX),
        b"18446744073709551615".to_vec()
    );
}

#[test]
fn freshly_written_pid_reads_back_as_the_same_integer() {
    let written = render_decimal(12345);
    assert_eq!(parse_decimal(&written), Some(12345));
}

#[test]
fn parse_round_trips_every_rendered_value_tried() {
    for n in [0u64, 1, 9, 10, 99, 100, 4242, 65535, u64::MAX - 1, u64::MAX] {
        assert_eq!(parse_decimal(&render_decimal(n)), Some(n));
    }
}

#[test]
fn parse_rejects_what_is_not_a_decimal_number() {
    assert_eq!(parse_decimal(&Vec::new()), None);
    assert_eq!(parse_decimal(&b"12a4".to_vec()), None);
    assert_eq!(parse_decimal(&b"-5".to_vec()), None);
    assert_eq!(parse_decimal(&b" 5".to_vec()), None);
    // One past the largest representable value.
    assert_eq!(parse_decimal(&b"18446744073709551616".to_vec()), None);
    // Leading zeros are still digits.
    assert_eq!(parse_decimal(&b"007".to_vec()), Some(7));
}

#[test]
fn config_constructor_defaults_everything_else_off() {
    let c = DaemonConfig::new(Some(b"/run/svc.pid".to_vec()), None, None);
    assert_eq!(c.pid_file_path, Some(b"/run/svc.pid".to_vec()));
    assert_eq!(c.working_directory, None);
    assert_eq!(c.file_creation_mask, None);
    assert_eq!(c.chroot_path, None);
    assert!(c.target_group.is_none());
    assert!(c.target_user.is_none());
    assert!(!c.chown_pid_file);
}
