//! Validation of identifiers, device paths and motor commands, and shell quoting.
use vstd::prelude::*;
use crate::error::{ControlError, ErrorView};
use crate::text::{chars_of, push_char, str_append, string_of, trim_bounds, trimmed};

verus! {

pub open spec fn is_alnum(c: char) -> bool {
    let u = c as u32;
    (48 <= u <= 57) || (65 <= u <= 90) || (97 <= u <= 122)
}

/// Characters allowed in a host or user name.
pub open spec fn is_ident_char(c: char) -> bool {
    is_alnum(c) || c == '.' || c == '-' || c == '_'
}

/// Characters allowed in a device path.
pub open spec fn is_path_char(c: char) -> bool {
    is_ident_char(c) || c == '/'
}

pub open spec fn all_ident_chars(s: Seq<char>) -> bool {
    forall|i: int| 0 <= i < s.len() ==> #[trigger] is_ident_char(s[i])
}

pub open spec fn all_path_chars(s: Seq<char>) -> bool {
    forall|i: int| 0 <= i < s.len() ==> #[trigger] is_path_char(s[i])
}

/// Outcome of `sanitize_identifier`, on views.
pub open spec fn identifier_result(value: Seq<char>, field: Seq<char>) -> Result<
    Seq<char>,
    ErrorView,
> {
    if value.len() == 0 {
        Err(ErrorView::EmptyField(field))
    } else if all_ident_chars(value) {
        Ok(value)
    } else {
        Err(ErrorView::InvalidCharacters(field))
    }
}

pub open spec fn device_prefix() -> Seq<char> {
    seq!['/', 'd', 'e', 'v', '/']
}

/// Outcome of `sanitize_serial_path`, on views.
pub open spec fn serial_path_result(path: Seq<char>) -> Result<Seq<char>, ErrorView> {
    if !(device_prefix().len() <= path.len() && path.subrange(0, 5) == device_prefix()) {
        Err(ErrorView::SerialPathPrefix)
    } else if all_path_chars(path) {
        Ok(path)
    } else {
        Err(ErrorView::SerialPathCharacters)
    }
}

/// The view of a result that carries a string.
pub open spec fn string_result(r: Result<String, ControlError>) -> Result<Seq<char>, ErrorView> {
    match r {
        Ok(s) => Ok(s@),
        Err(e) => Err(e@),
    }
}

pub open spec fn char_result(r: Result<char, ControlError>) -> Result<char, ErrorView> {
    match r {
        Ok(c) => Ok(c),
        Err(e) => Err(e@),
    }
}

pub open spec fn ascii_upper(c: char) -> char {
    if 97 <= (c as u32) <= 122 {
        ((c as u32) - 32) as char
    } else {
        c
    }
}

pub open spec fn is_mecanum_letter(c: char) -> bool {
    c == 'F' || c == 'B' || c == 'L' || c == 'R' || c == 'Q' || c == 'E' || c == 'S'
}

/// Outcome of `normalize_mecanum_command`: the first character of the trimmed
/// input, upper-cased, if it names a command.
pub open spec fn command_result(command: Seq<char>) -> Result<char, ErrorView> {
    let t = trimmed(command);
    if t.len() == 0 {
        Err(ErrorView::EmptyCommand)
    } else if is_mecanum_letter(ascii_upper(t[0])) {
        Ok(ascii_upper(t[0]))
    } else {
        Err(ErrorView::UnsupportedCommand)
    }
}

fn is_alphanumeric(c: char) -> (r: bool)
    ensures
        r == is_alnum(c),
{
    let u = c as u32;
    (48 <= u && u <= 57) || (65 <= u && u <= 90) || (97 <= u && u <= 122)
}

fn is_identifier_char(c: char) -> (r: bool)
    ensures
        r == is_ident_char(c),
{
    is_alphanumeric(c) || c == '.' || c == '-' || c == '_'
}

fn to_ascii_upper(c: char) -> (r: char)
    ensures
        r == ascii_upper(c),
{
    let u = c as u32;
    if 97 <= u && u <= 122 {
        ((u - 32) as u8) as char
    } else {
        c
    }
}

/// Accepts a non-empty value made of ASCII letters, digits, `.`, `-` and `_`,
/// and returns it unchanged; `field_name` names the value in the error.
pub fn sanitize_identifier(value: &str, field_name: &str) -> (r: Result<String, ControlError>)
    ensures
        string_result(r) == identifier_result(value@, field_name@),
{
    let cs = chars_of(value);
    if cs.len() == 0 {
        return Err(ControlError::EmptyField(string_of(&chars_of(field_name))));
    }
    let mut i: usize = 0;
    while i < cs.len()
        invariant
            i <= cs@.len(),
            cs@ == value@,
            forall|k: int| 0 <= k < i ==> #[trigger] is_ident_char(cs@[k]),
        decreases cs@.len() - i,
    {
        if !is_identifier_char(cs[i]) {
            return Err(ControlError::InvalidCharacters(string_of(&chars_of(field_name))));
        }
        i += 1;
    }
    Ok(string_of(&cs))
}

/// Accepts a path that begins with `/dev/` and is made of ASCII letters,
/// digits, `/`, `.`, `-` and `_`, and returns it unchanged.
pub fn sanitize_serial_path(path: &str) -> (r: Result<String, ControlError>)
    ensures
        string_result(r) == serial_path_result(path@),
{
    let cs = chars_of(path);
    if !(cs.len() >= 5 && cs[0] == '/' && cs[1] == 'd' && cs[2] == 'e' && cs[3] == 'v' && cs[4]
        == '/') {
        assert(cs@.len() >= 5 ==> cs@.subrange(0, 5)[0] == cs@[0] && cs@.subrange(0, 5)[1]
            == cs@[1] && cs@.subrange(0, 5)[2] == cs@[2] && cs@.subrange(0, 5)[3] == cs@[3]
            && cs@.subrange(0, 5)[4] == cs@[4]);
        return Err(ControlError::SerialPathPrefix);
    }
    assert(cs@.subrange(0, 5) =~= device_prefix());
    let mut i: usize = 0;
    while i < cs.len()
        invariant
            i <= cs@.len(),
            cs@ == path@,
            path@.len() >= 5 && path@.subrange(0, 5) == device_prefix(),
            forall|k: int| 0 <= k < i ==> #[trigger] is_path_char(cs@[k]),
        decreases cs@.len() - i,
    {
        let c = cs[i];
        if !(is_identifier_char(c) || c == '/') {
            assert(!is_path_char(path@[i as int]));
            assert(!all_path_chars(path@));
            return Err(ControlError::SerialPathCharacters);
        }
        i += 1;
    }
    Ok(string_of(&cs))
}

/// The first character of the trimmed command, upper-cased, when it is one of
/// `F`, `B`, `L`, `R`, `Q`, `E`, `S`.
pub fn normalize_mecanum_command(command: &str) -> (r: Result<char, ControlError>)
    ensures
        char_result(r) == command_result(command@),
{
    let cs = chars_of(command);
    let (lo, hi) = trim_bounds(&cs);
    if lo == hi {
        return Err(ControlError::EmptyCommand);
    }
    assert(trimmed(command@)[0] == cs@[lo as int]);
    let c = to_ascii_upper(cs[lo]);
    if c == 'F' || c == 'B' || c == 'L' || c == 'R' || c == 'Q' || c == 'E' || c == 'S' {
        Ok(c)
    } else {
        Err(ControlError::UnsupportedCommand)
    }
}

// ---------------------------------------------------------------------------
// Shell quoting

/// The body of a single-quoted shell word for `v`: each `'` becomes `'\''`.
pub open spec fn quote_body(v: Seq<char>) -> Seq<char>
    decreases v.len(),
{
    if v.len() == 0 {
        seq![]
    } else {
        (if v[0] == '\'' {
            seq!['\'', '\\', '\'', '\'']
        } else {
            seq![v[0]]
        }) + quote_body(v.drop_first())
    }
}

/// `v` as one single-quoted shell word.
pub open spec fn shell_quoted(v: Seq<char>) -> Seq<char> {
    seq!['\''] + quote_body(v) + seq!['\'']
}

/// How a POSIX shell reads a word made only of single-quoted runs and
/// backslash escapes: the literal argument it denotes, or `None` when the text
/// is not exactly one such word (an unclosed quote, or an unquoted character
/// that the shell would interpret).
pub open spec fn read_shell_word(s: Seq<char>, in_quote: bool) -> Option<Seq<char>>
    decreases s.len(),
{
    if s.len() == 0 {
        if in_quote {
            None
        } else {
            Some(seq![])
        }
    } else if in_quote {
        if s[0] == '\'' {
            read_shell_word(s.drop_first(), false)
        } else {
            match read_shell_word(s.drop_first(), true) {
                Some(rest) => Some(seq![s[0]] + rest),
                None => None,
            }
        }
    } else if s[0] == '\'' {
        read_shell_word(s.drop_first(), true)
    } else if s[0] == '\\' && s.len() >= 2 {
        match read_shell_word(s.drop_first().drop_first(), false) {
            Some(rest) => Some(seq![s[1]] + rest),
            None => None,
        }
    } else {
        None
    }
}

proof fn lemma_quote_body_reads_back(v: Seq<char>)
    ensures
        read_shell_word(quote_body(v) + seq!['\''], true) == Some(v),
    decreases v.len(),
{
    let s = quote_body(v) + seq!['\''];
    if v.len() == 0 {
        assert(s =~= seq!['\'']);
        assert(s.drop_first() =~= seq![]);
        assert(read_shell_word(s.drop_first(), false) == Some(Seq::<char>::empty()));
        assert(v =~= seq![]);
    } else {
        let t = quote_body(v.drop_first()) + seq!['\''];
        lemma_quote_body_reads_back(v.drop_first());
        assert(read_shell_word(t, true) == Some(v.drop_first()));
        if v[0] == '\'' {
            assert(s =~= seq!['\'', '\\', '\'', '\''] + t);
            let s1 = s.drop_first();
            assert(s1 =~= seq!['\\', '\'', '\''] + t);
            let s3 = s1.drop_first().drop_first();
            assert(s3 =~= seq!['\''] + t);
            assert(s3.drop_first() =~= t);
            assert(read_shell_word(s3, false) == read_shell_word(t, true));
            assert(read_shell_word(s1, false) == Some(seq![s1[1]] + v.drop_first()));
            assert(seq![s1[1]] + v.drop_first() =~= v);
            assert(read_shell_word(s, true) == read_shell_word(s1, false));
        } else {
            assert(s =~= seq![v[0]] + t);
            assert(s.drop_first() =~= t);
            assert(seq![v[0]] + v.drop_first() =~= v);
            assert(read_shell_word(s, true) == Some(seq![s[0]] + v.drop_first()));
        }
    }
}

/// Quoting a value and reading it back as a shell would gives back exactly the
/// value, as one literal argument, whatever quotes or spaces it holds.
pub proof fn lemma_shell_quote_round_trip(v: Seq<char>)
    ensures
        read_shell_word(shell_quoted(v), false) == Some(v),
{
    lemma_quote_body_reads_back(v);
    let s = shell_quoted(v);
    assert(s.drop_first() =~= quote_body(v) + seq!['\'']);
}

/// Characters a shell takes literally outside quotes.
pub open spec fn is_plain_shell_char(c: char) -> bool {
    is_alnum(c) || c == '-' || c == '_' || c == '.' || c == '/' || c == ','
}

/// How a POSIX shell splits a command line whose words are separated by
/// single spaces and made of plain characters, single-quoted runs and
/// backslash escapes; `word` is the word read so far. `None` when the line
/// holds anything else, or an unclosed quote.
pub open spec fn read_words(s: Seq<char>, in_quote: bool, word: Seq<char>) -> Option<
    Seq<Seq<char>>,
>
    decreases s.len(),
{
    if s.len() == 0 {
        if in_quote {
            None
        } else {
            Some(seq![word])
        }
    } else if in_quote {
        if s[0] == '\'' {
            read_words(s.drop_first(), false, word)
        } else {
            read_words(s.drop_first(), true, word.push(s[0]))
        }
    } else if s[0] == ' ' {
        match read_words(s.drop_first(), false, seq![]) {
            Some(ws) => Some(seq![word] + ws),
            None => None,
        }
    } else if s[0] == '\'' {
        read_words(s.drop_first(), true, word)
    } else if s[0] == '\\' && s.len() >= 2 {
        read_words(s.drop_first().drop_first(), false, word.push(s[1]))
    } else if is_plain_shell_char(s[0]) {
        read_words(s.drop_first(), false, word.push(s[0]))
    } else {
        None
    }
}

/// Inside a quoted word, the rest of a quoted value is read literally.
pub proof fn lemma_read_quoted_rest(v: Seq<char>, rest: Seq<char>, word: Seq<char>)
    ensures
        read_words(quote_body(v) + seq!['\''] + rest, true, word) == read_words(
            rest,
            false,
            word + v,
        ),
    decreases v.len(),
{
    let s = quote_body(v) + seq!['\''] + rest;
    if v.len() == 0 {
        assert(s =~= seq!['\''] + rest);
        assert(s.drop_first() =~= rest);
        assert(word + v =~= word);
    } else {
        let t = quote_body(v.drop_first()) + seq!['\''] + rest;
        if v[0] == '\'' {
            lemma_read_quoted_rest(v.drop_first(), rest, word.push('\''));
            assert(s =~= seq!['\'', '\\', '\'', '\''] + t);
            let s1 = s.drop_first();
            assert(s1 =~= seq!['\\', '\'', '\''] + t);
            let s3 = s1.drop_first().drop_first();
            assert(s3 =~= seq!['\''] + t);
            assert(s3.drop_first() =~= t);
            assert(word.push('\'') + v.drop_first() =~= word + v);
            assert(read_words(s3, false, word.push('\'')) == read_words(t, true, word.push('\'')));
            assert(read_words(s1, false, word) == read_words(s3, false, word.push(s1[1])));
        } else {
            lemma_read_quoted_rest(v.drop_first(), rest, word.push(v[0]));
            assert(s =~= seq![v[0]] + t);
            assert(s.drop_first() =~= t);
            assert(word.push(v[0]) + v.drop_first() =~= word + v);
        }
    }
}

pub open spec fn quote_piece(c: char) -> Seq<char> {
    if c == '\'' {
        seq!['\'', '\\', '\'', '\'']
    } else {
        seq![c]
    }
}

proof fn lemma_quote_body_push(a: Seq<char>, c: char)
    ensures
        quote_body(a.push(c)) == quote_body(a) + quote_piece(c),
    decreases a.len(),
{
    if a.len() == 0 {
        assert(a.push(c).drop_first() =~= seq![]);
        assert(quote_body(a.push(c)) =~= quote_piece(c) + quote_body(seq![]));
        assert(quote_body(a.push(c)) =~= quote_body(a) + quote_piece(c));
    } else {
        lemma_quote_body_push(a.drop_first(), c);
        assert(a.push(c).drop_first() =~= a.drop_first().push(c));
        assert(quote_body(a.push(c)) =~= quote_body(a) + quote_piece(c));
    }
}

/// `value` wrapped in single quotes, each embedded `'` written as `'\''`.
pub fn shell_quote(value: &str) -> (r: String)
    ensures
        r@ == shell_quoted(value@),
{
    let cs = chars_of(value);
    let mut out = String::new();
    push_char(&mut out, '\'');
    let mut k: usize = 0;
    while k < cs.len()
        invariant
            k <= cs@.len(),
            cs@ == value@,
            out@ == seq!['\''] + quote_body(cs@.subrange(0, k as int)),
        decreases cs@.len() - k,
    {
        let c = cs[k];
        proof {
            assert(cs@.subrange(0, k + 1) =~= cs@.subrange(0, k as int).push(c));
            lemma_quote_body_push(cs@.subrange(0, k as int), c);
        }
        if c == '\'' {
            str_append(&mut out, "'\\''");
            proof { reveal_strlit("'\\''"); }
            assert(out@ =~= seq!['\''] + quote_body(cs@.subrange(0, k + 1)));
        } else {
            push_char(&mut out, c);
            assert(out@ =~= seq!['\''] + quote_body(cs@.subrange(0, k + 1)));
        }
        k += 1;
    }
    push_char(&mut out, '\'');
    assert(cs@.subrange(0, cs@.len() as int) =~= value@);
    assert(out@ =~= shell_quoted(value@));
    out
}

} // verus!
