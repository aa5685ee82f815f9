//! The serial line protocol: framing of received bytes into lines, the
//! reader's step on each read, outgoing lines and the code-upload batch.
use vstd::prelude::*;
use crate::error::{ControlError, ErrorView};
use crate::ssh::views;
use crate::status::SerialPortEntry;
use crate::text::{
    chars_of, decimal, decimal_string, decode_lossy, lossy_utf8, push_char, push_range,
    str_append, string_from, trim, trim_bounds, trim_end, trimmed, trimmed_end,
};

verus! {

pub const DEFAULT_SERIAL_BAUD: u32 = 115200;

/// The baud rate of a serial connection: 115200 unless given.
pub fn serial_baud(baud_rate: Option<u32>) -> (r: u32)
    ensures
        r == match baud_rate {
            Some(b) => b,
            None => DEFAULT_SERIAL_BAUD,
        },
{
    match baud_rate {
        Some(b) => b,
        None => DEFAULT_SERIAL_BAUD,
    }
}

/// Framing of `s` from position `i`, the current line having begun at
/// `start`: the non-empty trimmed lines that end in a newline, in order, and
/// the text after the last newline.
pub open spec fn frame_from(s: Seq<char>, start: int, i: int) -> (Seq<Seq<char>>, Seq<char>)
    decreases s.len() - i,
{
    if i >= s.len() {
        (seq![], s.subrange(start, s.len() as int))
    } else if s[i] == '\n' {
        let line = trimmed(s.subrange(start, i));
        let rest = frame_from(s, i + 1, i + 1);
        (if line.len() > 0 {
            seq![line] + rest.0
        } else {
            rest.0
        }, rest.1)
    } else {
        frame_from(s, start, i + 1)
    }
}

pub open spec fn frame(s: Seq<char>) -> (Seq<Seq<char>>, Seq<char>) {
    frame_from(s, 0, 0)
}

fn copy_range(cs: &Vec<char>, from: usize, to: usize) -> (r: Vec<char>)
    requires
        from <= to <= cs@.len(),
    ensures
        r@ == cs@.subrange(from as int, to as int),
{
    let mut out: Vec<char> = Vec::new();
    let mut i: usize = from;
    while i < to
        invariant
            from <= i <= to <= cs@.len(),
            out@ == cs@.subrange(from as int, i as int),
        decreases to - i,
    {
        out.push(cs[i]);
        i += 1;
        assert(out@ =~= cs@.subrange(from as int, i as int));
    }
    out
}

fn trimmed_range(cs: &Vec<char>, from: usize, to: usize) -> (r: String)
    requires
        from <= to <= cs@.len(),
    ensures
        r@ == trimmed(cs@.subrange(from as int, to as int)),
{
    let seg = copy_range(cs, from, to);
    let (lo, hi) = trim_bounds(&seg);
    let mut out = String::new();
    push_range(&mut out, &seg, lo, hi);
    assert(out@ =~= trimmed(seg@));
    out
}

/// Splits `cs` into its complete lines and the unterminated rest.
fn split_frames(cs: &Vec<char>) -> (r: (Vec<String>, String))
    ensures
        views(r.0@) == frame(cs@).0,
        r.1@ == frame(cs@).1,
{
    let ghost s = cs@;
    let mut out: Vec<String> = Vec::new();
    let mut start: usize = 0;
    let mut i: usize = 0;
    while i < cs.len()
        invariant
            s == cs@,
            start <= i <= cs@.len(),
            frame(s).0 == views(out@) + frame_from(s, start as int, i as int).0,
            frame(s).1 == frame_from(s, start as int, i as int).1,
        decreases cs@.len() - i,
    {
        if cs[i] == '\n' {
            let line = trimmed_range(cs, start, i);
            let ghost rest = frame_from(s, i + 1, i + 1);
            if line.as_str().is_empty() {
                assert(frame_from(s, start as int, i as int).0 == rest.0);
            } else {
                let ghost before = views(out@);
                out.push(line);
                assert(views(out@) =~= before.push(line@));
                assert(frame(s).0 =~= views(out@) + rest.0);
            }
            i += 1;
            start = i;
        } else {
            i += 1;
        }
    }
    let mut tail = String::new();
    push_range(&mut tail, cs, start, cs.len());
    assert(frame(s).0 =~= views(out@));
    (out, tail)
}

/// What the background reader saw on one turn of its loop.
pub enum ReadEvent {
    /// The session was cancelled.
    Cancelled,
    /// Bytes arrived.
    Data(Vec<u8>),
    /// Nothing arrived before the read timed out, or the read returned no bytes.
    Idle,
    /// The read failed, with the error's description.
    Failed(String),
}

/// What the reader does next: emit these lines, then stop or go on.
pub struct ReaderStep {
    pub lines: Vec<String>,
    pub stop: bool,
}

/// Holds the text received after the last newline.
pub struct LineFramer {
    pub pending: String,
}

impl LineFramer {
    pub fn new() -> (r: Self)
        ensures
            r.pending@.len() == 0,
    {
        LineFramer { pending: String::new() }
    }

    /// Adds received bytes; returns the lines they complete.
    pub fn push_bytes(&mut self, chunk: &[u8]) -> (r: Vec<String>)
        ensures
            views(r@) == frame(old(self).pending@ + lossy_utf8(chunk@)).0,
            final(self).pending@ == frame(old(self).pending@ + lossy_utf8(chunk@)).1,
    {
        let text = decode_lossy(chunk);
        let mut all = string_from(self.pending.as_str());
        str_append(&mut all, text.as_str());
        let cs = chars_of(all.as_str());
        let (lines, rest) = split_frames(&cs);
        self.pending = rest;
        lines
    }

    /// One turn of the reader: on data, the completed lines; on a failed
    /// read, one `ERR SERIAL_READ` line and stop; on cancellation, stop.
    pub fn on_read(&mut self, event: ReadEvent) -> (r: ReaderStep)
        ensures
            match event {
                ReadEvent::Cancelled => r.stop && r.lines@.len() == 0 && final(self).pending
                    == old(self).pending,
                ReadEvent::Idle => !r.stop && r.lines@.len() == 0 && final(self).pending == old(
                    self,
                ).pending,
                ReadEvent::Failed(m) => r.stop && views(r.lines@) == seq![
                    "ERR SERIAL_READ "@ + m@,
                ],
                ReadEvent::Data(b) => !r.stop && views(r.lines@) == frame(
                    old(self).pending@ + lossy_utf8(b@),
                ).0 && final(self).pending@ == frame(old(self).pending@ + lossy_utf8(b@)).1,
            },
    {
        match event {
            ReadEvent::Cancelled => ReaderStep { lines: Vec::new(), stop: true },
            ReadEvent::Idle => ReaderStep { lines: Vec::new(), stop: false },
            ReadEvent::Failed(m) => {
                let mut line = string_from("ERR SERIAL_READ ");
                str_append(&mut line, m.as_str());
                let mut lines: Vec<String> = Vec::new();
                lines.push(line);
                assert(views(lines@) =~= seq!["ERR SERIAL_READ "@ + m@]);
                ReaderStep { lines, stop: true }
            },
            ReadEvent::Data(b) => {
                let lines = self.push_bytes(b.as_slice());
                ReaderStep { lines, stop: false }
            },
        }
    }
}

/// The bytes written for one outgoing line: the text trimmed, then a newline.
pub fn serial_line_wire(text: &str) -> (r: String)
    ensures
        r@ == trimmed(text@).push('\n'),
{
    let mut w = trim(text);
    push_char(&mut w, '\n');
    w
}

/// The lines of `s` from position `i`, the current one having begun at
/// `start`, split at newlines; a last line left empty by a final newline is
/// not one.
pub open spec fn lines_from(s: Seq<char>, start: int, i: int) -> Seq<Seq<char>>
    decreases s.len() - i,
{
    if i >= s.len() {
        if start < s.len() {
            seq![s.subrange(start, s.len() as int)]
        } else {
            seq![]
        }
    } else if s[i] == '\n' {
        seq![s.subrange(start, i)] + lines_from(s, i + 1, i + 1)
    } else {
        lines_from(s, start, i + 1)
    }
}

/// The source lines of a code upload. Splitting at `\n` and stripping each
/// line's trailing whitespace also removes the `\r` of `\r\n` endings.
pub open spec fn source_lines(code: Seq<char>) -> Seq<Seq<char>> {
    lines_from(code, 0, 0)
}

/// `CODE <index> <line>`, the index counted from 1.
pub open spec fn code_line(index: nat, line: Seq<char>) -> Seq<char> {
    "CODE "@ + decimal(index) + seq![' '] + trimmed_end(line)
}

/// The lines of the upload batch: a header with the count, one `CODE` line
/// per source line, and the terminator.
pub open spec fn upload_frame(lines: Seq<Seq<char>>) -> Seq<Seq<char>> {
    seq!["BEGIN_CODE_UPLOAD "@ + decimal(lines.len())] + Seq::new(
        lines.len(),
        |i: int| code_line((i + 1) as nat, lines[i]),
    ) + seq!["END_CODE_UPLOAD"@]
}

fn split_source_lines(cs: &Vec<char>) -> (r: Vec<String>)
    ensures
        views(r@) == lines_from(cs@, 0, 0),
{
    let ghost s = cs@;
    let mut out: Vec<String> = Vec::new();
    let mut start: usize = 0;
    let mut i: usize = 0;
    while i < cs.len()
        invariant
            s == cs@,
            start <= i <= cs@.len(),
            lines_from(s, 0, 0) == views(out@) + lines_from(s, start as int, i as int),
        decreases cs@.len() - i,
    {
        if cs[i] == '\n' {
            let mut line = String::new();
            push_range(&mut line, cs, start, i);
            let ghost before = views(out@);
            out.push(line);
            assert(views(out@) =~= before.push(line@));
            assert(lines_from(s, 0, 0) =~= views(out@) + lines_from(s, i + 1, i + 1));
            i += 1;
            start = i;
        } else {
            i += 1;
        }
    }
    if start < cs.len() {
        let mut line = String::new();
        push_range(&mut line, cs, start, cs.len());
        let ghost before = views(out@);
        out.push(line);
        assert(views(out@) =~= before.push(line@));
    }
    assert(lines_from(s, 0, 0) =~= views(out@));
    out
}

/// The batch of a code upload and the number of source lines it carries.
pub struct CodeUpload {
    /// The lines to write, in order, without their newlines.
    pub lines: Vec<String>,
    pub line_count: usize,
}

/// The upload batch for `code`, one line per element, without newlines; fails
/// when the code has no line.
pub fn code_upload_lines(code: &str) -> (r: Result<CodeUpload, ControlError>)
    ensures
        source_lines(code@).len() == 0 ==> (r matches Err(e) && e@ == ErrorView::NoCodeContent),
        source_lines(code@).len() > 0 ==> (r matches Ok(u) && views(u.lines@) == upload_frame(
            source_lines(code@),
        ) && u.line_count == source_lines(code@).len()),
{
    let cs = chars_of(code);
    let src = split_source_lines(&cs);
    let n = src.len();
    if n == 0 {
        return Err(ControlError::NoCodeContent);
    }
    let ghost lines = source_lines(code@);
    let mut out: Vec<String> = Vec::new();
    let mut head = string_from("BEGIN_CODE_UPLOAD ");
    let count = decimal_string(n as u64);
    str_append(&mut head, count.as_str());
    out.push(head);
    let mut k: usize = 0;
    while k < n
        invariant
            n == src@.len(),
            views(src@) == lines,
            k <= n,
            views(out@) == seq!["BEGIN_CODE_UPLOAD "@ + decimal(lines.len())] + Seq::new(
                k as nat,
                |i: int| code_line((i + 1) as nat, lines[i]),
            ),
        decreases n - k,
    {
        let mut line = string_from("CODE ");
        let idx = decimal_string((k + 1) as u64);
        str_append(&mut line, idx.as_str());
        push_char(&mut line, ' ');
        let body = trim_end(src[k].as_str());
        str_append(&mut line, body.as_str());
        let ghost before = views(out@);
        out.push(line);
        assert(views(src@)[k as int] == src@[k as int]@);
        assert(src@[k as int]@ == lines[k as int]);
        assert(line@ =~= code_line((k + 1) as nat, lines[k as int]));
        assert(views(out@) =~= before.push(line@));
        assert(views(out@) =~= seq!["BEGIN_CODE_UPLOAD "@ + decimal(lines.len())] + Seq::new(
            (k + 1) as nat,
            |i: int| code_line((i + 1) as nat, lines[i]),
        ));
        k += 1;
    }
    let ghost before = views(out@);
    out.push(string_from("END_CODE_UPLOAD"));
    assert(views(out@) =~= before.push("END_CODE_UPLOAD"@));
    assert(views(out@) =~= upload_frame(lines));
    Ok(CodeUpload { lines: out, line_count: n })
}

/// The upload batch of `n` source lines is `n + 2` lines: the header with the
/// count, the numbered source lines in order, and the terminator.
pub proof fn lemma_upload_frame_shape(lines: Seq<Seq<char>>)
    ensures
        upload_frame(lines).len() == lines.len() + 2,
        upload_frame(lines)[0] == "BEGIN_CODE_UPLOAD "@ + decimal(lines.len()),
        forall|i: int|
            0 <= i < lines.len() ==> #[trigger] upload_frame(lines)[i + 1] == "CODE "@ + decimal(
                (i + 1) as nat,
            ) + seq![' '] + trimmed_end(lines[i]),
        upload_frame(lines)[lines.len() + 1int] == "END_CODE_UPLOAD"@,
{
    let n = lines.len();
    let head = seq!["BEGIN_CODE_UPLOAD "@ + decimal(n)];
    let body = Seq::new(n, |i: int| code_line((i + 1) as nat, lines[i]));
    assert forall|i: int| 0 <= i < n implies #[trigger] upload_frame(lines)[i + 1] == "CODE "@
        + decimal((i + 1) as nat) + seq![' '] + trimmed_end(lines[i]) by {
        assert(upload_frame(lines)[i + 1] == body[i]);
    }
}

/// How a serial port is attached, as the system reports it.
pub enum PortKind {
    Usb { product: Option<String> },
    Bluetooth,
    Pci,
    Unknown,
}

pub open spec fn port_kind_label(kind: PortKind) -> Seq<char> {
    match kind {
        PortKind::Usb { product } => match product {
            Some(p) => "usb:"@ + p@,
            None => "usb"@,
        },
        PortKind::Bluetooth => "bluetooth"@,
        PortKind::Pci => "pci"@,
        PortKind::Unknown => "unknown"@,
    }
}

/// The label of a port kind: `usb:<product>`, `usb`, `bluetooth`, `pci` or
/// `unknown`.
pub fn port_type_name(kind: &PortKind) -> (r: String)
    ensures
        r@ == port_kind_label(*kind),
{
    match kind {
        PortKind::Usb { product } => match product {
            Some(p) => {
                let mut l = string_from("usb:");
                str_append(&mut l, p.as_str());
                l
            },
            None => string_from("usb"),
        },
        PortKind::Bluetooth => string_from("bluetooth"),
        PortKind::Pci => string_from("pci"),
        PortKind::Unknown => string_from("unknown"),
    }
}

/// The listing entry of a port.
pub fn port_entry(port_name: &str, kind: &PortKind) -> (r: SerialPortEntry)
    ensures
        r.port_name@ == port_name@,
        r.port_type@ == port_kind_label(*kind),
{
    SerialPortEntry { port_name: string_from(port_name), port_type: port_type_name(kind) }
}

} // verus!
