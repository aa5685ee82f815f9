use robot_link::error::ControlError;
use robot_link::ssh::{
    build_remote_script, finish_ssh_dispatch, hold_duration, pick_binary, prepare_ssh_dispatch,
    resolve_ssh_bin, resolve_sshpass_bin, ssh_baud, ssh_invocation, HelperOutcome,
};

fn plan(password: Option<&str>, baud: Option<u32>, cmd: &str, dur: Option<u32>) -> robot_link::ssh::SshDispatchPlan {
    prepare_ssh_dispatch(" pi ", "robot", password.map(|p| p.to_string()), "/dev/ttyUSB0", baud, cmd, dur)
        .ok()
        .unwrap()
}

#[test]
fn duration_is_clamped_to_ten_seconds() {
    assert_eq!(plan(None, None, "f", Some(99999)).duration_ms, 10000);
    assert_eq!(plan(None, None, "f", None).duration_ms, 500);
    assert_eq!(plan(None, None, "f", Some(0)).duration_ms, 0);
    assert_eq!(hold_duration(Some(10001)), 10000);
}

#[test]
fn baud_is_clamped() {
    assert_eq!(plan(None, Some(50), "f", None).baud, 1200);
    assert_eq!(plan(None, Some(5000000), "f", None).baud, 1000000);
    assert_eq!(plan(None, None, "f", None).baud, 9600);
    assert_eq!(ssh_baud(Some(115200)), 115200);
}

#[test]
fn plan_fields() {
    let p = plan(Some("  "), None, " r", Some(1500));
    assert_eq!(p.target, "robot@pi");
    assert_eq!(p.command, 'R');
    assert_eq!(p.serial_path, "/dev/ttyUSB0");
    assert!(p.password.is_none());
    let q = plan(Some("secret"), None, "f", None);
    assert_eq!(q.password.as_deref(), Some("secret"));
}

#[test]
fn plan_errors_in_order() {
    let e = prepare_ssh_dispatch("", "", None, "/etc", None, "X", None).err().unwrap();
    assert_eq!(e.message(), "ssh_host cannot be empty");
    let e = prepare_ssh_dispatch("pi", "bad user", None, "/etc", None, "X", None).err().unwrap();
    assert_eq!(e.message(), "Invalid characters in ssh_user");
    let e = prepare_ssh_dispatch("pi", "u", None, "/etc", None, "X", None).err().unwrap();
    assert!(matches!(e, ControlError::SerialPathPrefix));
    let e = prepare_ssh_dispatch("pi", "u", None, "/dev/tty0", None, "X", None).err().unwrap();
    assert!(matches!(e, ControlError::UnsupportedCommand));
}

#[test]
fn remote_script_for_timed_command() {
    let s = build_remote_script("/dev/ttyUSB0", 9600, 'F', 1500);
    assert_eq!(
        s,
        "python3 -c 'import serial,time;s=serial.Serial(\"/dev/ttyUSB0\",9600,timeout=1);time.sleep(2.0);s.write(b'\\''F'\\'');s.flush();time.sleep(1.500);s.write(b'\\''S'\\'');s.flush();s.close()'"
    );
}

#[test]
fn remote_script_for_stop_or_zero_hold() {
    let expected = "python3 -c 'import serial,time;s=serial.Serial(\"/dev/ttyACM0\",1200,timeout=1);time.sleep(2.0);s.write(b'\\''S'\\'');s.flush();s.close()'";
    assert_eq!(build_remote_script("/dev/ttyACM0", 1200, 'S', 500), expected);
    assert_eq!(build_remote_script("/dev/ttyACM0", 1200, 'F', 0), expected);
    let s = build_remote_script("/dev/ttyACM0", 1200, 'B', 10000);
    assert!(s.contains("time.sleep(10.000)"));
    let s = build_remote_script("/dev/ttyACM0", 1200, 'B', 7);
    assert!(s.contains("time.sleep(0.007)"));
}

#[test]
fn invocation_without_password() {
    let p = plan(None, None, "f", None);
    let inv = ssh_invocation(&p, "/usr/bin/ssh", "/usr/bin/sshpass");
    assert_eq!(inv.program, "/usr/bin/ssh");
    assert_eq!(&inv.args[..5], &["-o", "BatchMode=yes", "-o", "ConnectTimeout=5", "robot@pi"]);
    assert_eq!(inv.args[5], "sh");
    assert_eq!(inv.args[6], "-lc");
    assert_eq!(inv.args[7], robot_link::validate::shell_quote(&p.remote_script));
    assert_eq!(inv.args.len(), 8);
}

#[test]
fn invocation_with_password() {
    let p = plan(Some("pw"), None, "f", None);
    let inv = ssh_invocation(&p, "ssh", "sshpass");
    assert_eq!(inv.program, "sshpass");
    assert_eq!(&inv.args[..3], &["-p", "pw", "ssh"]);
    assert!(inv.args.contains(&"StrictHostKeyChecking=accept-new".to_string()));
    assert_eq!(inv.args.len(), 15);
}

#[test]
fn outcome_success_gives_status() {
    let p = plan(None, None, "l", Some(99999));
    let out = HelperOutcome::Finished { success: true, stdout: vec![], stderr: vec![], status: "exit status: 0".to_string() };
    let st = finish_ssh_dispatch(p, out).ok().unwrap();
    assert_eq!(st.target, "robot@pi");
    assert_eq!(st.command, "L");
    assert_eq!(st.duration_ms, 10000);
    assert_eq!(st.serial_path, "/dev/ttyUSB0");
}

#[test]
fn outcome_failure_prefers_stderr_then_stdout_then_status() {
    let mk = |e: &[u8], o: &[u8]| HelperOutcome::Finished {
        success: false,
        stdout: o.to_vec(),
        stderr: e.to_vec(),
        status: "exit status: 255".to_string(),
    };
    let m = |o| finish_ssh_dispatch(plan(None, None, "f", None), o).err().unwrap().message();
    assert_eq!(m(mk(b" denied \n", b"out")), "SSH dispatch failed: denied");
    assert_eq!(m(mk(b"  ", b" out\n")), "SSH dispatch failed: out");
    assert_eq!(m(mk(b"", b"")), "SSH dispatch failed: ssh exited with status exit status: 255");
    assert_eq!(m(mk(b"\xffbad", b"")), "SSH dispatch failed: \u{fffd}bad");
}

#[test]
fn outcome_not_started() {
    let nf = HelperOutcome::NotStarted { not_found: true, description: "No such file".to_string() };
    let e = finish_ssh_dispatch(plan(Some("pw"), None, "f", None), nf).err().unwrap();
    assert!(matches!(e, ControlError::SshpassMissing));
    let nf = HelperOutcome::NotStarted { not_found: true, description: "No such file".to_string() };
    let e = finish_ssh_dispatch(plan(None, None, "f", None), nf).err().unwrap();
    assert_eq!(e.message(), "Failed to execute ssh: No such file");
}

#[test]
fn binary_resolution() {
    let c = vec!["/a".to_string(), "/b".to_string()];
    assert_eq!(pick_binary(&c, &vec![false, true], "x"), "/b");
    assert_eq!(pick_binary(&c, &vec![true, true], "x"), "/a");
    assert_eq!(pick_binary(&c, &vec![false, false], "x"), "x");
    let s = resolve_ssh_bin();
    assert!(["/usr/bin/ssh", "/bin/ssh", "ssh"].contains(&s.as_str()));
    let s = resolve_sshpass_bin();
    assert!(s.ends_with("sshpass"));
}
