use robot_link::error::ControlError;
use robot_link::validate::{
    normalize_mecanum_command, sanitize_identifier, sanitize_serial_path, shell_quote,
};

#[test]
fn identifier_with_allowed_characters_is_unchanged() {
    for v in ["pi", "robot-01", "my_host.local", "A.b-C_9"] {
        assert_eq!(sanitize_identifier(v, "ssh_host").ok(), Some(v.to_string()));
    }
}

#[test]
fn identifier_empty_fails_with_field_name() {
    let e = sanitize_identifier("", "ssh_user").unwrap_err();
    assert!(matches!(e, ControlError::EmptyField(ref f) if f == "ssh_user"));
    assert_eq!(e.message(), "ssh_user cannot be empty");
}

#[test]
fn identifier_with_other_characters_fails() {
    for v in ["pi host", "a;b", "x$y", "é", "a/b", "h\n"] {
        let e = sanitize_identifier(v, "ssh_host").unwrap_err();
        assert_eq!(e.message(), "Invalid characters in ssh_host");
    }
}

#[test]
fn device_path_rules() {
    assert_eq!(sanitize_serial_path("/dev/ttyUSB0").ok(), Some("/dev/ttyUSB0".to_string()));
    assert_eq!(
        sanitize_serial_path("/etc/passwd").unwrap_err().message(),
        "Serial path must start with /dev/"
    );
    assert!(matches!(sanitize_serial_path("dev/ttyUSB0"), Err(ControlError::SerialPathPrefix)));
    assert!(matches!(sanitize_serial_path("/dev"), Err(ControlError::SerialPathPrefix)));
    assert!(matches!(sanitize_serial_path(""), Err(ControlError::SerialPathPrefix)));
    assert!(matches!(
        sanitize_serial_path("/dev/tty USB0"),
        Err(ControlError::SerialPathCharacters)
    ));
    assert!(matches!(sanitize_serial_path("/dev/x;rm"), Err(ControlError::SerialPathCharacters)));
}

#[test]
fn command_normalization() {
    assert_eq!(normalize_mecanum_command("f").ok(), Some('F'));
    assert_eq!(normalize_mecanum_command("F").ok(), Some('F'));
    assert_eq!(normalize_mecanum_command(" f extra").ok(), Some('F'));
    assert_eq!(normalize_mecanum_command("\ts").ok(), Some('S'));
    for c in ["b", "l", "r", "q", "e"] {
        assert!(normalize_mecanum_command(c).is_ok());
    }
    assert!(matches!(normalize_mecanum_command("X"), Err(ControlError::UnsupportedCommand)));
    assert!(matches!(normalize_mecanum_command(""), Err(ControlError::EmptyCommand)));
    assert!(matches!(normalize_mecanum_command("   "), Err(ControlError::EmptyCommand)));
    assert_eq!(
        normalize_mecanum_command("X").unwrap_err().message(),
        "Unsupported mecanum command (allowed: F,B,L,R,Q,E,S)"
    );
}

#[test]
fn shell_quote_exact() {
    assert_eq!(shell_quote("abc"), "'abc'");
    assert_eq!(shell_quote(""), "''");
    assert_eq!(shell_quote("it's"), "'it'\\''s'");
    assert_eq!(shell_quote("a b;c"), "'a b;c'");
}

/// Reads one shell word made of single-quoted runs and backslash escapes.
fn read_word(s: &str) -> Option<String> {
    let mut out = String::new();
    let mut chars = s.chars();
    let mut quoted = false;
    while let Some(c) = chars.next() {
        if quoted {
            if c == '\'' {
                quoted = false;
            } else {
                out.push(c);
            }
        } else if c == '\'' {
            quoted = true;
        } else if c == '\\' {
            out.push(chars.next()?);
        } else {
            return None;
        }
    }
    if quoted {
        None
    } else {
        Some(out)
    }
}

#[test]
fn shell_quote_round_trips_as_one_word() {
    for v in ["x'; rm -rf / #", "'", "''", "a 'b' c", "plain", "tab\there"] {
        assert_eq!(read_word(&shell_quote(v)), Some(v.to_string()));
    }
}
