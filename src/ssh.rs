//! The one-shot SSH dispatcher: validated plan, remote script, helper
//! invocation, and the reading of the helper's outcome.
use vstd::prelude::*;
use crate::error::{ControlError, ErrorView};
use crate::text::{
    decimal, decimal_string, decode_lossy, digit_char, lossy_utf8, push_char, str_append,
    string_from, trim, trimmed,
};
use crate::status::MecanumDispatchStatus;
use crate::validate::{
    all_path_chars, command_result, identifier_result, normalize_mecanum_command,
    sanitize_identifier, sanitize_serial_path, serial_path_result, shell_quote, shell_quoted, quote_body, read_words, lemma_read_quoted_rest, is_plain_shell_char,
};

verus! {

pub const DEFAULT_SSH_BAUD: u32 = 9600;
pub const MIN_BAUD: u32 = 1200;
pub const MAX_BAUD: u32 = 1000000;
pub const DEFAULT_HOLD_MS: u32 = 500;
pub const MAX_HOLD_MS: u32 = 10000;

/// `x` brought into `[lo, hi]`.
pub open spec fn clamped(x: int, lo: int, hi: int) -> int {
    if x < lo {
        lo
    } else if x > hi {
        hi
    } else {
        x
    }
}

/// The baud rate used for an SSH dispatch: 9600 when absent, kept within
/// `[1200, 1000000]`.
pub open spec fn effective_baud(baud: Option<u32>) -> int {
    clamped(
        match baud {
            Some(b) => b as int,
            None => DEFAULT_SSH_BAUD as int,
        },
        MIN_BAUD as int,
        MAX_BAUD as int,
    )
}

/// How long a command is held: 500 ms when absent, at most 10000 ms.
pub open spec fn effective_hold(duration: Option<u32>) -> int {
    clamped(
        match duration {
            Some(d) => d as int,
            None => DEFAULT_HOLD_MS as int,
        },
        0,
        MAX_HOLD_MS as int,
    )
}

pub fn ssh_baud(baud_rate: Option<u32>) -> (r: u32)
    ensures
        r == effective_baud(baud_rate),
{
    let b = match baud_rate {
        Some(b) => b,
        None => DEFAULT_SSH_BAUD,
    };
    if b < MIN_BAUD {
        MIN_BAUD
    } else if b > MAX_BAUD {
        MAX_BAUD
    } else {
        b
    }
}

pub fn hold_duration(duration_ms: Option<u32>) -> (r: u32)
    ensures
        r == effective_hold(duration_ms),
        r <= MAX_HOLD_MS,
{
    let d = match duration_ms {
        Some(d) => d,
        None => DEFAULT_HOLD_MS,
    };
    if d > MAX_HOLD_MS {
        MAX_HOLD_MS
    } else {
        d
    }
}

/// `ms` milliseconds written as seconds with three decimals.
pub open spec fn seconds_text(ms: nat) -> Seq<char> {
    decimal(ms / 1000) + seq![
        '.',
        digit_char((ms % 1000) / 100),
        digit_char((ms % 100) / 10),
        digit_char(ms % 10),
    ]
}

/// The Python program run on the robot: open the device, let it settle for two
/// seconds, then send the stop byte, or send the command byte, hold it, and
/// send the stop byte.
pub open spec fn python_program(serial: Seq<char>, baud: nat, cmd: char, hold: nat) -> Seq<char> {
    let opening = "import serial,time;s=serial.Serial(\""@ + serial + "\","@ + decimal(baud)
        + ",timeout=1);time.sleep(2.0);"@;
    if cmd == 'S' || hold == 0 {
        opening + "s.write(b'S');s.flush();s.close()"@
    } else {
        opening + "s.write(b'"@ + seq![cmd] + "');s.flush();time.sleep("@ + seconds_text(hold)
            + ");s.write(b'S');s.flush();s.close()"@
    }
}

/// The shell command that runs the Python program.
pub open spec fn remote_script(serial: Seq<char>, baud: nat, cmd: char, hold: nat) -> Seq<char> {
    "python3 -c "@ + shell_quoted(python_program(serial, baud, cmd, hold))
}

fn seconds_string(ms: u32) -> (r: String)
    ensures
        r@ == seconds_text(ms as nat),
{
    let mut s = decimal_string((ms / 1000) as u64);
    push_char(&mut s, '.');
    push_char(&mut s, (48u8 + ((ms % 1000) / 100) as u8) as char);
    push_char(&mut s, (48u8 + ((ms % 100) / 10) as u8) as char);
    push_char(&mut s, (48u8 + (ms % 10) as u8) as char);
    assert(s@ =~= seconds_text(ms as nat));
    s
}

/// Builds the remote command for a validated device path.
pub fn build_remote_script(serial_path: &str, baud: u32, cmd: char, hold_ms: u32) -> (r: String)
    requires
        all_path_chars(serial_path@),
    ensures
        r@ == remote_script(serial_path@, baud as nat, cmd, hold_ms as nat),
{
    let mut p = string_from("import serial,time;s=serial.Serial(\"");
    str_append(&mut p, serial_path);
    str_append(&mut p, "\",");
    let b = decimal_string(baud as u64);
    str_append(&mut p, b.as_str());
    str_append(&mut p, ",timeout=1);time.sleep(2.0);");
    let ghost opening = p@;
    if cmd == 'S' || hold_ms == 0 {
        str_append(&mut p, "s.write(b'S');s.flush();s.close()");
    } else {
        str_append(&mut p, "s.write(b'");
        push_char(&mut p, cmd);
        str_append(&mut p, "');s.flush();time.sleep(");
        let secs = seconds_string(hold_ms);
        str_append(&mut p, secs.as_str());
        str_append(&mut p, ");s.write(b'S');s.flush();s.close()");
    }
    assert(p@ =~= python_program(serial_path@, baud as nat, cmd, hold_ms as nat));
    let q = shell_quote(p.as_str());
    let mut r = string_from("python3 -c ");
    str_append(&mut r, q.as_str());
    r
}

/// A validated SSH dispatch, ready to be handed to the helper process.
pub struct SshDispatchPlan {
    /// `user@host`.
    pub target: String,
    pub command: char,
    pub duration_ms: u32,
    pub baud: u32,
    pub serial_path: String,
    pub remote_script: String,
    /// The password, when a non-blank one was given.
    pub password: Option<String>,
}

/// The first validation failure of an SSH dispatch request, if any.
pub open spec fn ssh_request_error(
    host: Seq<char>,
    user: Seq<char>,
    serial: Seq<char>,
    command: Seq<char>,
) -> Option<ErrorView> {
    if identifier_result(trimmed(host), "ssh_host"@) is Err {
        Some(identifier_result(trimmed(host), "ssh_host"@)->Err_0)
    } else if identifier_result(trimmed(user), "ssh_user"@) is Err {
        Some(identifier_result(trimmed(user), "ssh_user"@)->Err_0)
    } else if serial_path_result(trimmed(serial)) is Err {
        Some(serial_path_result(trimmed(serial))->Err_0)
    } else if command_result(command) is Err {
        Some(command_result(command)->Err_0)
    } else {
        None
    }
}

/// Validates an SSH dispatch request and builds its plan.
pub fn prepare_ssh_dispatch(
    ssh_host: &str,
    ssh_user: &str,
    ssh_password: Option<String>,
    serial_path: &str,
    baud_rate: Option<u32>,
    command: &str,
    duration_ms: Option<u32>,
) -> (r: Result<SshDispatchPlan, ControlError>)
    ensures
        ssh_request_error(ssh_host@, ssh_user@, serial_path@, command@) matches Some(e) ==> (r
            matches Err(err) && err@ == e),
        ssh_request_error(ssh_host@, ssh_user@, serial_path@, command@) is None ==> (r matches Ok(
            plan,
        ) && {
            let host = trimmed(ssh_host@);
            let user = trimmed(ssh_user@);
            let serial = trimmed(serial_path@);
            let cmd = command_result(command@)->Ok_0;
            &&& plan.target@ == user + "@"@ + host
            &&& plan.command == cmd
            &&& plan.duration_ms == effective_hold(duration_ms)
            &&& plan.baud == effective_baud(baud_rate)
            &&& plan.serial_path@ == serial
            &&& plan.remote_script@ == remote_script(
                serial,
                plan.baud as nat,
                cmd,
                plan.duration_ms as nat,
            )
            &&& plan.password == match ssh_password {
                Some(p) => if trimmed(p@).len() > 0 {
                    Some(p)
                } else {
                    None
                },
                None => None,
            }
        }),
{
    let th = trim(ssh_host);
    let host = match sanitize_identifier(th.as_str(), "ssh_host") {
        Ok(h) => h,
        Err(e) => return Err(e),
    };
    let tu = trim(ssh_user);
    let user = match sanitize_identifier(tu.as_str(), "ssh_user") {
        Ok(u) => u,
        Err(e) => return Err(e),
    };
    let ts = trim(serial_path);
    let serial = match sanitize_serial_path(ts.as_str()) {
        Ok(s) => s,
        Err(e) => return Err(e),
    };
    let cmd = match normalize_mecanum_command(command) {
        Ok(c) => c,
        Err(e) => return Err(e),
    };
    let baud = ssh_baud(baud_rate);
    let hold = hold_duration(duration_ms);
    let mut target = string_from(user.as_str());
    str_append(&mut target, "@");
    str_append(&mut target, host.as_str());
    let script = build_remote_script(serial.as_str(), baud, cmd, hold);
    let password = match ssh_password {
        Some(p) => {
            let tp = trim(p.as_str());
            if tp.as_str().is_empty() {
                None
            } else {
                Some(p)
            }
        },
        None => None,
    };
    Ok(
        SshDispatchPlan {
            target,
            command: cmd,
            duration_ms: hold,
            baud,
            serial_path: serial,
            remote_script: script,
            password,
        },
    )
}

/// The views of a sequence of strings.
pub open spec fn views(v: Seq<String>) -> Seq<Seq<char>> {
    v.map_values(|s: String| s@)
}

fn push_arg(v: &mut Vec<String>, s: &str)
    ensures
        views(final(v)@) == views(old(v)@).push(s@),
{
    v.push(string_from(s));
    assert(views(v@) =~= views(old(v)@).push(s@));
}

/// A helper process to start: the program and its arguments.
pub struct SshInvocation {
    pub program: String,
    pub args: Vec<String>,
}

/// The words that run `script` under a login shell on the remote side. `ssh`
/// joins its trailing arguments with spaces, so the script goes as one quoted
/// word.
pub open spec fn remote_words(script: Seq<char>) -> Seq<Seq<char>> {
    seq!["sh"@, "-lc"@, shell_quoted(script)]
}

/// Words joined with single spaces, as `ssh` joins the remote command.
pub open spec fn space_joined(ws: Seq<Seq<char>>) -> Seq<char>
    decreases ws.len(),
{
    if ws.len() == 0 {
        seq![]
    } else if ws.len() == 1 {
        ws[0]
    } else {
        ws[0] + seq![' '] + space_joined(ws.drop_first())
    }
}

/// The remote shell reads the command line that `ssh` forms from the remote
/// words as exactly `sh`, `-lc` and the script, the script as one literal
/// argument whatever quotes or spaces it holds.
pub proof fn lemma_remote_command_reads_back(script: Seq<char>)
    ensures
        read_words(space_joined(remote_words(script)), false, seq![]) == Some(
            seq!["sh"@, "-lc"@, script],
        ),
{
    reveal_strlit("sh");
    reveal_strlit("-lc");
    let ws = remote_words(script);
    let q = shell_quoted(script);
    assert(ws.drop_first().drop_first() =~= seq![q]);
    assert(ws.drop_first() =~= seq!["-lc"@, q]);
    let line = space_joined(ws);
    assert("sh"@ =~= seq!['s', 'h']);
    assert("-lc"@ =~= seq!['-', 'l', 'c']);
    assert(space_joined(ws.drop_first().drop_first()) == q);
    assert(space_joined(ws.drop_first()) == "-lc"@ + seq![' '] + q);
    assert(line == "sh"@ + seq![' '] + ("-lc"@ + seq![' '] + q));
    assert(line =~= seq!['s', 'h', ' ', '-', 'l', 'c', ' '] + q);
    // The quoted word, from its opening quote to the end.
    lemma_read_quoted_rest(script, seq![], seq![]);
    let qb = quote_body(script) + seq!['\''] + Seq::<char>::empty();
    assert(q.drop_first() =~= qb);
    assert(read_words(q, false, seq![]) == read_words(qb, true, seq![]));
    assert(seq![] + script =~= script);
    assert(read_words(Seq::<char>::empty(), false, script) == Some(seq![script]));
    // "-lc " then the quoted word.
    let l2 = seq!['-', 'l', 'c', ' '] + q;
    assert(l2.drop_first() =~= seq!['l', 'c', ' '] + q);
    assert(l2.drop_first().drop_first() =~= seq!['c', ' '] + q);
    assert(l2.drop_first().drop_first().drop_first() =~= seq![' '] + q);
    assert((seq![' '] + q).drop_first() =~= q);
    assert(seq![].push('-').push('l').push('c') =~= "-lc"@);
    assert(read_words(seq![' '] + q, false, "-lc"@) == Some(seq!["-lc"@, script]));
    assert(is_plain_shell_char('-') && is_plain_shell_char('l') && is_plain_shell_char('c'));
    assert(read_words(seq!['c', ' '] + q, false, seq!['-', 'l']) == read_words(
        seq![' '] + q,
        false,
        seq!['-', 'l'].push('c'),
    ));
    assert(seq!['-', 'l'].push('c') =~= "-lc"@);
    assert(read_words(seq!['l', 'c', ' '] + q, false, seq!['-']) == read_words(
        seq!['c', ' '] + q,
        false,
        seq!['-'].push('l'),
    ));
    assert(seq!['-'].push('l') =~= seq!['-', 'l']);
    assert(read_words(l2, false, seq![]) == read_words(
        seq!['l', 'c', ' '] + q,
        false,
        Seq::<char>::empty().push('-'),
    ));
    assert(Seq::<char>::empty().push('-') =~= seq!['-']);
    assert(read_words(l2, false, seq![]) == Some(seq!["-lc"@, script]));
    // "sh " then the rest.
    let l1 = seq!['s', 'h', ' '] + l2;
    assert(line =~= l1);
    assert(l1.drop_first() =~= seq!['h', ' '] + l2);
    assert(l1.drop_first().drop_first() =~= seq![' '] + l2);
    assert((seq![' '] + l2).drop_first() =~= l2);
    assert(seq![].push('s').push('h') =~= "sh"@);
    assert(seq!["sh"@] + seq!["-lc"@, script] =~= seq!["sh"@, "-lc"@, script]);
    assert(read_words(seq![' '] + l2, false, "sh"@) == Some(seq!["sh"@, "-lc"@, script]));
    assert(is_plain_shell_char('s') && is_plain_shell_char('h'));
    assert(read_words(seq!['h', ' '] + l2, false, seq!['s']) == read_words(
        seq![' '] + l2,
        false,
        seq!['s'].push('h'),
    ));
    assert(seq!['s'].push('h') =~= "sh"@);
    assert(read_words(l1, false, seq![]) == read_words(
        seq!['h', ' '] + l2,
        false,
        Seq::<char>::empty().push('s'),
    ));
    assert(Seq::<char>::empty().push('s') =~= seq!['s']);
}

/// The arguments of the helper process: through `sshpass` with password
/// authentication when a password is present, else `ssh` in batch mode.
pub open spec fn ssh_args(
    target: Seq<char>,
    script: Seq<char>,
    password: Option<Seq<char>>,
    ssh_bin: Seq<char>,
) -> Seq<Seq<char>> {
    match password {
        Some(p) => seq![
            "-p"@,
            p,
            ssh_bin,
            "-o"@,
            "ConnectTimeout=5"@,
            "-o"@,
            "PubkeyAuthentication=no"@,
            "-o"@,
            "PreferredAuthentications=password,keyboard-interactive"@,
            "-o"@,
            "StrictHostKeyChecking=accept-new"@,
            target,
        ] + remote_words(script),
        None => seq!["-o"@, "BatchMode=yes"@, "-o"@, "ConnectTimeout=5"@, target] + remote_words(
            script,
        ),
    }
}

pub open spec fn password_view(p: Option<String>) -> Option<Seq<char>> {
    match p {
        Some(s) => Some(s@),
        None => None,
    }
}

/// The helper process that carries out `plan`.
pub fn ssh_invocation(plan: &SshDispatchPlan, ssh_bin: &str, sshpass_bin: &str) -> (r:
    SshInvocation)
    ensures
        r.program@ == (if plan.password is Some {
            sshpass_bin@
        } else {
            ssh_bin@
        }),
        views(r.args@) == ssh_args(
            plan.target@,
            plan.remote_script@,
            password_view(plan.password),
            ssh_bin@,
        ),
{
    let mut args: Vec<String> = Vec::new();
    let program = match &plan.password {
        Some(p) => {
            push_arg(&mut args, "-p");
            push_arg(&mut args, p.as_str());
            push_arg(&mut args, ssh_bin);
            push_arg(&mut args, "-o");
            push_arg(&mut args, "ConnectTimeout=5");
            push_arg(&mut args, "-o");
            push_arg(&mut args, "PubkeyAuthentication=no");
            push_arg(&mut args, "-o");
            push_arg(&mut args, "PreferredAuthentications=password,keyboard-interactive");
            push_arg(&mut args, "-o");
            push_arg(&mut args, "StrictHostKeyChecking=accept-new");
            string_from(sshpass_bin)
        },
        None => {
            push_arg(&mut args, "-o");
            push_arg(&mut args, "BatchMode=yes");
            push_arg(&mut args, "-o");
            push_arg(&mut args, "ConnectTimeout=5");
            string_from(ssh_bin)
        },
    };
    push_arg(&mut args, plan.target.as_str());
    push_arg(&mut args, "sh");
    push_arg(&mut args, "-lc");
    let quoted = shell_quote(plan.remote_script.as_str());
    push_arg(&mut args, quoted.as_str());
    assert(views(args@) =~= ssh_args(
        plan.target@,
        plan.remote_script@,
        password_view(plan.password),
        ssh_bin@,
    ));
    SshInvocation { program, args }
}

/// The first candidate marked present, else `fallback`.
pub open spec fn first_present(
    candidates: Seq<Seq<char>>,
    present: Seq<bool>,
    fallback: Seq<char>,
) -> Seq<char>
    decreases candidates.len(),
{
    if candidates.len() == 0 || present.len() == 0 {
        fallback
    } else if present[0] {
        candidates[0]
    } else {
        first_present(candidates.drop_first(), present.drop_first(), fallback)
    }
}

/// Picks the first candidate whose presence flag is set, else `fallback`.
pub fn pick_binary(candidates: &Vec<String>, present: &Vec<bool>, fallback: &str) -> (r: String)
    ensures
        r@ == first_present(views(candidates@), present@, fallback@),
{
    let mut i: usize = 0;
    assert(views(candidates@).subrange(0, candidates@.len() as int) =~= views(candidates@));
    assert(present@.subrange(0, present@.len() as int) =~= present@);
    while i < candidates.len() && i < present.len()
        invariant
            i <= candidates@.len(),
            i <= present@.len(),
            first_present(views(candidates@), present@, fallback@) == first_present(
                views(candidates@).subrange(i as int, candidates@.len() as int),
                present@.subrange(i as int, present@.len() as int),
                fallback@,
            ),
        decreases candidates@.len() - i,
    {
        let ghost c = views(candidates@).subrange(i as int, candidates@.len() as int);
        let ghost p = present@.subrange(i as int, present@.len() as int);
        assert(c.drop_first() =~= views(candidates@).subrange(i + 1, candidates@.len() as int));
        assert(p.drop_first() =~= present@.subrange(i + 1, present@.len() as int));
        if present[i] {
            return string_from(candidates[i].as_str());
        }
        i += 1;
    }
    assert(views(candidates@).subrange(i as int, candidates@.len() as int).len() == 0
        || present@.subrange(i as int, present@.len() as int).len() == 0);
    string_from(fallback)
}

/// Relies on `std::path::Path::exists`: whether a file is at `path` now.
#[verifier::external_body]
fn path_exists(path: &str) -> (r: bool) {
    std::path::Path::new(path).exists()
}

fn resolve_first(candidates: &Vec<String>, fallback: &str) -> (r: String)
    ensures
        exists|present: Seq<bool>| r@ == first_present(views(candidates@), present, fallback@),
{
    let mut present: Vec<bool> = Vec::new();
    let mut i: usize = 0;
    while i < candidates.len()
        invariant
            i <= candidates@.len(),
        decreases candidates@.len() - i,
    {
        present.push(path_exists(candidates[i].as_str()));
        i += 1;
    }
    pick_binary(candidates, &present, fallback)
}

/// Where `sshpass` is: the first of the usual install locations that exists,
/// else the bare name, for processes that do not inherit a login shell's
/// search path.
pub fn resolve_sshpass_bin() -> (r: String)
    ensures
        exists|present: Seq<bool>|
            r@ == first_present(
                seq!["/opt/homebrew/bin/sshpass"@, "/usr/local/bin/sshpass"@, "/usr/bin/sshpass"@],
                present,
                "sshpass"@,
            ),
{
    let mut c: Vec<String> = Vec::new();
    push_arg(&mut c, "/opt/homebrew/bin/sshpass");
    push_arg(&mut c, "/usr/local/bin/sshpass");
    push_arg(&mut c, "/usr/bin/sshpass");
    assert(views(c@) =~= seq![
        "/opt/homebrew/bin/sshpass"@,
        "/usr/local/bin/sshpass"@,
        "/usr/bin/sshpass"@,
    ]);
    resolve_first(&c, "sshpass")
}

/// Where `ssh` is: the first of the usual install locations that exists, else
/// the bare name.
pub fn resolve_ssh_bin() -> (r: String)
    ensures
        exists|present: Seq<bool>|
            r@ == first_present(seq!["/usr/bin/ssh"@, "/bin/ssh"@], present, "ssh"@),
{
    let mut c: Vec<String> = Vec::new();
    push_arg(&mut c, "/usr/bin/ssh");
    push_arg(&mut c, "/bin/ssh");
    assert(views(c@) =~= seq!["/usr/bin/ssh"@, "/bin/ssh"@]);
    resolve_first(&c, "ssh")
}

/// What became of the helper process.
pub enum HelperOutcome {
    /// It ran to its end.
    Finished { success: bool, stdout: Vec<u8>, stderr: Vec<u8>, status: String },
    /// It could not be started; `not_found` when the program was not found.
    NotStarted { not_found: bool, description: String },
}

/// The reason given for an unsuccessful run: its trimmed standard error,
/// else its trimmed standard output, else its exit status.
pub open spec fn failure_details(stderr: Seq<char>, stdout: Seq<char>, status: Seq<char>) -> Seq<
    char,
> {
    if trimmed(stderr).len() > 0 {
        trimmed(stderr)
    } else if trimmed(stdout).len() > 0 {
        trimmed(stdout)
    } else {
        "ssh exited with status "@ + status
    }
}

/// The error of an SSH dispatch whose helper did not succeed, if any.
pub open spec fn helper_error(uses_password: bool, outcome: HelperOutcome) -> Option<ErrorView> {
    match outcome {
        HelperOutcome::NotStarted { not_found, description } => if uses_password && not_found {
            Some(ErrorView::SshpassMissing)
        } else {
            Some(ErrorView::Subprocess("Failed to execute ssh: "@ + description@))
        },
        HelperOutcome::Finished { success, stdout, stderr, status } => if success {
            None
        } else {
            Some(
                ErrorView::Subprocess(
                    "SSH dispatch failed: "@ + failure_details(
                        lossy_utf8(stderr@),
                        lossy_utf8(stdout@),
                        status@,
                    ),
                ),
            )
        },
    }
}

/// Reads the helper's outcome: the dispatch status when it succeeded, else
/// the error that describes why not.
pub fn finish_ssh_dispatch(plan: SshDispatchPlan, outcome: HelperOutcome) -> (r: Result<
    MecanumDispatchStatus,
    ControlError,
>)
    ensures
        helper_error(plan.password is Some, outcome) matches Some(e) ==> (r matches Err(err)
            && err@ == e),
        helper_error(plan.password is Some, outcome) is None ==> (r matches Ok(st) && {
            &&& st.target@ == plan.target@
            &&& st.command@ == seq![plan.command]
            &&& st.duration_ms == plan.duration_ms
            &&& st.serial_path@ == plan.serial_path@
        }),
{
    match outcome {
        HelperOutcome::NotStarted { not_found, description } => {
            if plan.password.is_some() && not_found {
                Err(ControlError::SshpassMissing)
            } else {
                let mut m = string_from("Failed to execute ssh: ");
                str_append(&mut m, description.as_str());
                Err(ControlError::Subprocess(m))
            }
        },
        HelperOutcome::Finished { success, stdout, stderr, status } => {
            if success {
                let mut command = String::new();
                push_char(&mut command, plan.command);
                assert(command@ =~= seq![plan.command]);
                Ok(
                    MecanumDispatchStatus {
                        target: plan.target,
                        command,
                        duration_ms: plan.duration_ms,
                        serial_path: plan.serial_path,
                    },
                )
            } else {
                let err_text = trim(decode_lossy(stderr.as_slice()).as_str());
                let out_text = trim(decode_lossy(stdout.as_slice()).as_str());
                let details = if !err_text.as_str().is_empty() {
                    err_text
                } else if !out_text.as_str().is_empty() {
                    out_text
                } else {
                    let mut d = string_from("ssh exited with status ");
                    str_append(&mut d, status.as_str());
                    d
                };
                let mut m = string_from("SSH dispatch failed: ");
                str_append(&mut m, details.as_str());
                Err(ControlError::Subprocess(m))
            }
        },
    }
}

} // verus!
