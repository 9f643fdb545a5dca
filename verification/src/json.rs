use vstd::prelude::*;
use crate::message::role_token;
use crate::message::role_token_str;
use crate::message::Message;

verus! {

// ------------------------------------------------------------------
// The request body: a JSON array of {role, content} objects, in
// conversation order. The format is part of the backend protocol, so it is
// pinned down here character by character.
// ------------------------------------------------------------------

/// The lowercase hexadecimal digits, indexable by value.
pub open spec fn hex_digits() -> Seq<char> {
    seq!['0', '1', '2', '3', '4', '5', '6', '7', '8', '9', 'a', 'b', 'c', 'd', 'e', 'f']
}

/// How one character travels inside a JSON string literal: quote and
/// backslash are escaped, the common control characters get their two-letter
/// escapes, every other control character a `\u00XX` escape, and everything
/// else stands as itself.
pub open spec fn escape_char(c: char) -> Seq<char> {
    if c == '"' {
        seq!['\\', '"']
    } else if c == '\\' {
        seq!['\\', '\\']
    } else if c == '\n' {
        seq!['\\', 'n']
    } else if c == '\r' {
        seq!['\\', 'r']
    } else if c == '\t' {
        seq!['\\', 't']
    } else if (c as u32) < 32 {
        seq!['\\', 'u', '0', '0'] + seq![
            hex_digits()[(c as u32) as int / 16],
            hex_digits()[(c as u32) as int % 16],
        ]
    } else {
        seq![c]
    }
}

/// A whole text, escaped character by character.
pub open spec fn escape_text(s: Seq<char>) -> Seq<char>
    decreases s.len(),
{
    if s.len() == 0 {
        Seq::empty()
    } else {
        escape_text(s.drop_last()) + escape_char(s.last())
    }
}

/// A JSON string literal: the escaped text between double quotes.
pub open spec fn string_lit(s: Seq<char>) -> Seq<char> {
    seq!['"'] + escape_text(s) + seq!['"']
}

/// One message as a JSON object: `{"role":"...","content":"..."}`.
pub open spec fn message_json(m: Message) -> Seq<char> {
    "{\"role\":"@ + string_lit(role_token(m.role)) + ",\"content\":"@ + string_lit(m.content@)
        + "}"@
}

/// The array elements, comma-separated, in conversation order.
pub open spec fn messages_json(ms: Seq<Message>) -> Seq<char>
    decreases ms.len(),
{
    if ms.len() == 0 {
        Seq::empty()
    } else if ms.len() == 1 {
        message_json(ms[0])
    } else {
        messages_json(ms.drop_last()) + seq![','] + message_json(ms.last())
    }
}

/// The whole request body: the messages as a JSON array.
pub open spec fn request_body(ms: Seq<Message>) -> Seq<char> {
    seq!['['] + messages_json(ms) + seq![']']
}

/// Relies on String::push: appends exactly the one given character.
#[verifier::external_body]
fn push_char(s: &mut String, c: char)
    ensures
        final(s)@ == old(s)@ + seq![c],
{
    s.push(c);
}

/// Append the hex digit for a value below sixteen.
fn push_hex_digit(out: &mut String, v: u32)
    requires
        v < 16,
    ensures
        final(out)@ == old(out)@ + seq![hex_digits()[v as int]],
{
    let c: char = if v == 0 {
        '0'
    } else if v == 1 {
        '1'
    } else if v == 2 {
        '2'
    } else if v == 3 {
        '3'
    } else if v == 4 {
        '4'
    } else if v == 5 {
        '5'
    } else if v == 6 {
        '6'
    } else if v == 7 {
        '7'
    } else if v == 8 {
        '8'
    } else if v == 9 {
        '9'
    } else if v == 10 {
        'a'
    } else if v == 11 {
        'b'
    } else if v == 12 {
        'c'
    } else if v == 13 {
        'd'
    } else if v == 14 {
        'e'
    } else {
        'f'
    };
    push_char(out, c);
}

/// Append one content character in its escaped form.
fn push_escaped_char(out: &mut String, c: char)
    ensures
        final(out)@ == old(out)@ + escape_char(c),
{
    if c == '"' {
        push_char(out, '\\');
        push_char(out, '"');
    } else if c == '\\' {
        push_char(out, '\\');
        push_char(out, '\\');
    } else if c == '\n' {
        push_char(out, '\\');
        push_char(out, 'n');
    } else if c == '\r' {
        push_char(out, '\\');
        push_char(out, 'r');
    } else if c == '\t' {
        push_char(out, '\\');
        push_char(out, 't');
    } else {
        let u = c as u32;
        if u < 32 {
            push_char(out, '\\');
            push_char(out, 'u');
            push_char(out, '0');
            push_char(out, '0');
            push_hex_digit(out, u / 16);
            push_hex_digit(out, u % 16);
        } else {
            push_char(out, c);
        }
    }
    proof {
        assert(final(out)@ =~= old(out)@ + escape_char(c));
    }
}

/// Append a whole JSON string literal for the given text.
fn push_string_lit(out: &mut String, s: &str)
    ensures
        final(out)@ == old(out)@ + string_lit(s@),
{
    push_char(out, '"');
    let n = s.unicode_len();
    let mut i: usize = 0;
    while i < n
        invariant
            n == s@.len(),
            i <= n,
            out@ == old(out)@ + seq!['"'] + escape_text(s@.take(i as int)),
        decreases n - i,
    {
        let c = s.get_char(i);
        push_escaped_char(out, c);
        proof {
            assert(s@.take(i + 1 as int).drop_last() =~= s@.take(i as int));
            assert(s@.take(i + 1 as int).last() == s@[i as int]);
            assert(out@ =~= old(out)@ + seq!['"'] + escape_text(s@.take(i + 1 as int)));
        }
        i = i + 1;
    }
    push_char(out, '"');
    proof {
        assert(s@.take(n as int) =~= s@);
        assert(final(out)@ =~= old(out)@ + string_lit(s@));
    }
}

/// Append one message as its JSON object.
fn push_message_json(out: &mut String, m: &Message)
    ensures
        final(out)@ == old(out)@ + message_json(*m),
{
    out.append("{\"role\":");
    push_string_lit(out, role_token_str(m.role));
    out.append(",\"content\":");
    push_string_lit(out, m.content.as_str());
    out.append("}");
    proof {
        assert(final(out)@ =~= old(out)@ + message_json(*m));
    }
}

/// Serialize an ordered message sequence as the backend request body.
pub fn encode_request(ms: &Vec<Message>) -> (r: String)
    ensures
        r@ == request_body(ms@),
{
    let mut out = String::from_str("[");
    proof {
        reveal_strlit("[");
    }
    let n = ms.len();
    let mut i: usize = 0;
    while i < n
        invariant
            n == ms@.len(),
            i <= n,
            out@ == seq!['['] + messages_json(ms@.take(i as int)),
        decreases n - i,
    {
        if i > 0 {
            push_char(&mut out, ',');
        }
        push_message_json(&mut out, &ms[i]);
        proof {
            assert(ms@.take(i + 1 as int).drop_last() =~= ms@.take(i as int));
            assert(ms@.take(i + 1 as int).last() == ms@[i as int]);
            if i == 0 {
                assert(messages_json(ms@.take(1)) == message_json(ms@[0]));
                assert(out@ =~= seq!['['] + messages_json(ms@.take(i + 1 as int)));
            } else {
                assert(out@ =~= seq!['['] + messages_json(ms@.take(i + 1 as int)));
            }
        }
        i = i + 1;
    }
    push_char(&mut out, ']');
    proof {
        assert(ms@.take(n as int) =~= ms@);
        assert(out@ =~= request_body(ms@));
    }
    out
}

// ------------------------------------------------------------------
// The response body: a JSON object `{"output": string, "time": number}`,
// members in either order, with the usual JSON whitespace between tokens.
// The parser accepts exactly the grammar below; anything else is a
// malformed response.
// ------------------------------------------------------------------

/// The whitespace JSON allows between tokens.
pub open spec fn is_ws(c: char) -> bool {
    c == ' ' || c == '\n' || c == '\r' || c == '\t'
}

/// The first position at or after `i` that holds no whitespace.
pub open spec fn ws_end(s: Seq<char>, i: int) -> int
    decreases s.len() - i,
{
    if 0 <= i < s.len() && is_ws(s[i]) {
        ws_end(s, i + 1)
    } else {
        i
    }
}

/// The characters a number token is made of.
pub open spec fn is_num_char(c: char) -> bool {
    ||| c == '+'
    ||| c == '-'
    ||| c == '.'
    ||| c == 'e'
    ||| c == 'E'
    ||| (('0' as u32) <= (c as u32) && (c as u32) <= ('9' as u32))
}

/// The end of the number token starting at `i`: the first position holding
/// none of its characters.
pub open spec fn num_end(s: Seq<char>, i: int) -> int
    decreases s.len() - i,
{
    if 0 <= i < s.len() && is_num_char(s[i]) {
        num_end(s, i + 1)
    } else {
        i
    }
}

/// The character a two-letter escape stands for, if the letter is one.
pub open spec fn unescaped(c: char) -> Option<char> {
    if c == '"' {
        Some('"')
    } else if c == '\\' {
        Some('\\')
    } else if c == '/' {
        Some('/')
    } else if c == 'b' {
        Some('\u{0008}')
    } else if c == 'f' {
        Some('\u{000C}')
    } else if c == 'n' {
        Some('\n')
    } else if c == 'r' {
        Some('\r')
    } else if c == 't' {
        Some('\t')
    } else {
        None
    }
}

/// The value of a hexadecimal digit, or minus one.
pub open spec fn hex_val(c: char) -> int {
    let u = c as u32;
    if 48 <= u && u <= 57 {
        u - 48
    } else if 97 <= u && u <= 102 {
        u - 87
    } else if 65 <= u && u <= 70 {
        u - 55
    } else {
        -1
    }
}

/// Whether `c` is a hexadecimal digit.
pub open spec fn is_hex(c: char) -> bool {
    hex_val(c) >= 0
}

/// The body of a JSON string literal, read from position `i` (just past the
/// opening quote): the decoded text and the position just past the closing
/// quote. Escapes accepted: the two-letter ones and `\u00XX`.
pub open spec fn str_body(s: Seq<char>, i: int) -> Option<(Seq<char>, int)>
    decreases s.len() - i,
{
    if !(0 <= i < s.len()) {
        None
    } else if s[i] == '"' {
        Some((Seq::empty(), i + 1))
    } else if s[i] == '\\' {
        if i + 2 <= s.len() && unescaped(s[i + 1]) is Some {
            match str_body(s, i + 2) {
                Some(t) => Some((seq![unescaped(s[i + 1]).unwrap()] + t.0, t.1)),
                None => None,
            }
        } else if i + 6 <= s.len() && s[i + 1] == 'u' && s[i + 2] == '0' && s[i + 3] == '0'
            && is_hex(s[i + 4]) && is_hex(s[i + 5]) {
            match str_body(s, i + 6) {
                Some(t) => Some(
                    (seq![(((16 * hex_val(s[i + 4]) + hex_val(s[i + 5])) as u32) as char)] + t.0, t.1),
                ),
                None => None,
            }
        } else {
            None
        }
    } else {
        match str_body(s, i + 1) {
            Some(t) => Some((seq![s[i]] + t.0, t.1)),
            None => None,
        }
    }
}

/// One object member starting at position `i`: its key, its value — decoded
/// text for a string value, nothing for a number value — and the position
/// just past the value.
pub open spec fn member(s: Seq<char>, i: int) -> Option<(Seq<char>, Option<Seq<char>>, int)> {
    if !(0 <= i < s.len() && s[i] == '"') {
        None
    } else {
        match str_body(s, i + 1) {
            None => None,
            Some(k) => {
                let c = ws_end(s, k.1);
                if !(c < s.len() && s[c] == ':') {
                    None
                } else {
                    let v = ws_end(s, c + 1);
                    if v < s.len() && s[v] == '"' {
                        match str_body(s, v + 1) {
                            None => None,
                            Some(sv) => Some((k.0, Some(sv.0), sv.1)),
                        }
                    } else {
                        if num_end(s, v) > v {
                            Some((k.0, None, num_end(s, v)))
                        } else {
                            None
                        }
                    }
                }
            },
        }
    }
}

/// The output text of a well-formed response body, or nothing for a
/// malformed one: an object of exactly the members `output` (a string) and
/// `time` (a number), in either order, and nothing but whitespace around
/// them.
pub open spec fn response_output(s: Seq<char>) -> Option<Seq<char>> {
    let i0 = ws_end(s, 0);
    if !(i0 < s.len() && s[i0] == '{') {
        None
    } else {
        match member(s, ws_end(s, i0 + 1)) {
            None => None,
            Some(m1) => {
                let j = ws_end(s, m1.2);
                if !(j < s.len() && s[j] == ',') {
                    None
                } else {
                    match member(s, ws_end(s, j + 1)) {
                        None => None,
                        Some(m2) => {
                            let k = ws_end(s, m2.2);
                            if !(k < s.len() && s[k] == '}') {
                                None
                            } else if ws_end(s, k + 1) != s.len() {
                                None
                            } else if m1.0 == "output"@ && m1.1 is Some && m2.0 == "time"@
                                && m2.1 is None {
                                m1.1
                            } else if m1.0 == "time"@ && m1.1 is None && m2.0 == "output"@
                                && m2.1 is Some {
                                m2.1
                            } else {
                                None
                            }
                        },
                    }
                }
            },
        }
    }
}

/// [`escape_text`] unfolds from the front as well as from the back.
proof fn lemma_escape_text_front(s: Seq<char>)
    requires
        s.len() > 0,
    ensures
        escape_text(s) == escape_char(s[0]) + escape_text(s.drop_first()),
    decreases s.len(),
{
    if s.len() == 1 {
        assert(s.drop_last() =~= Seq::<char>::empty());
        assert(s.drop_first() =~= Seq::<char>::empty());
        assert(escape_text(s) =~= escape_char(s[0]) + escape_text(s.drop_first()));
    } else {
        let d = s.drop_last();
        lemma_escape_text_front(d);
        assert(d[0] == s[0]);
        assert(s.drop_first().drop_last() =~= d.drop_first());
        assert(s.drop_first().last() == s.last());
        assert(escape_text(s) == escape_text(d) + escape_char(s.last()));
        assert(escape_text(s.drop_first()) == escape_text(d.drop_first()) + escape_char(s.last()));
        assert(escape_text(s) =~= escape_char(s[0]) + escape_text(s.drop_first()));
    }
}

/// Parsing inverts escaping: wherever the buffer holds the escaped form of a
/// text followed by a closing quote, the string-body parser succeeds,
/// decodes exactly the original text, and stops just past the quote. So a
/// string literal written by the encoder is always read back unchanged.
pub proof fn lemma_str_body_inverts_escape(t: Seq<char>, i: int, s: Seq<char>)
    requires
        0 <= i,
        i + escape_text(s).len() + 1 <= t.len(),
        t.subrange(i, i + escape_text(s).len()) == escape_text(s),
        t[i + escape_text(s).len()] == '"',
    ensures
        str_body(t, i) == Some((s, i + escape_text(s).len() + 1)),
    decreases s.len(),
{
    if s.len() == 0 {
        assert(escape_text(s).len() == 0);
        assert(t[i] == '"');
        assert(s =~= Seq::<char>::empty());
    } else {
        let c = s[0];
        let e = escape_char(c);
        let rest = s.drop_first();
        lemma_escape_text_front(s);
        let re = escape_text(rest);
        let le = e.len();
        let lr = re.len();
        assert(escape_text(s) == e + re);
        assert forall|j: int| 0 <= j < le + lr implies t[i + j] == (e + re)[j] by {
            assert(t.subrange(i, i + (le + lr))[j] == t[i + j]);
        }
        let i2 = i + le;
        assert(t.subrange(i2, i2 + lr) =~= re) by {
            assert forall|j: int| 0 <= j < lr implies t.subrange(i2, i2 + lr)[j] == re[j] by {
                assert(t[i2 + j] == (e + re)[le + j]);
            }
        }
        assert(t[i2 + lr] == '"');
        lemma_str_body_inverts_escape(t, i2, rest);
        assert(t[i] == e[0]) by {
            assert(t[i + 0] == (e + re)[0]);
        }
        if le >= 2 {
            assert(t[i + 1] == e[1]) by {
                assert(t[i + 1] == (e + re)[1]);
            }
        }
        if le == 6 {
            assert(t[i + 2] == e[2]) by {
                assert(t[i + 2] == (e + re)[2]);
            }
            assert(t[i + 3] == e[3]) by {
                assert(t[i + 3] == (e + re)[3]);
            }
            assert(t[i + 4] == e[4]) by {
                assert(t[i + 4] == (e + re)[4]);
            }
            assert(t[i + 5] == e[5]) by {
                assert(t[i + 5] == (e + re)[5]);
            }
        }
        if c == '"' {
            assert(t[i] == '\\' && t[i + 1] == '"');
            assert(seq!['"'] + rest =~= s);
        } else if c == '\\' {
            assert(t[i] == '\\' && t[i + 1] == '\\');
            assert(seq!['\\'] + rest =~= s);
        } else if c == '\n' {
            assert(t[i] == '\\' && t[i + 1] == 'n');
            assert(seq!['\n'] + rest =~= s);
        } else if c == '\r' {
            assert(t[i] == '\\' && t[i + 1] == 'r');
            assert(seq!['\r'] + rest =~= s);
        } else if c == '\t' {
            assert(t[i] == '\\' && t[i + 1] == 't');
            assert(seq!['\t'] + rest =~= s);
        } else if (c as u32) < 32 {
            let v = (c as u32) as int;
            assert(e =~= seq!['\\', 'u', '0', '0', hex_digits()[v / 16], hex_digits()[v % 16]]);
            assert(t[i] == '\\' && t[i + 1] == 'u' && t[i + 2] == '0' && t[i + 3] == '0');
            assert(unescaped('u') is None);
            assert(v / 16 == 0 || v / 16 == 1);
            assert(hex_val(hex_digits()[v / 16]) == v / 16);
            let k2 = v % 16;
            assert(0 <= k2 < 16);
            assert(hex_val(hex_digits()[k2]) == k2);
            assert(16 * hex_val(t[i + 4]) + hex_val(t[i + 5]) == v);
            vstd::utf8::char_u32_cast(c, c as u32);
            assert((((16 * hex_val(t[i + 4]) + hex_val(t[i + 5])) as u32) as char) == c);
            assert(seq![c] + rest =~= s);
        } else {
            assert(e =~= seq![c]);
            assert(t[i] == c);
            assert(t[i] != '"' && t[i] != '\\');
            assert(seq![c] + rest =~= s);
        }
    }
}

/// Encode/decode coherence for whole literals: a JSON string literal
/// written by the encoder parses as a string body (from just past its
/// opening quote) back to exactly the text it was written from, consuming
/// the whole literal.
pub proof fn lemma_string_lit_round_trip(s: Seq<char>)
    ensures
        str_body(string_lit(s), 1) == Some((s, string_lit(s).len() as int)),
{
    let t = string_lit(s);
    let le = escape_text(s).len() as int;
    assert(t.subrange(1, 1 + le) =~= escape_text(s)) by {
        assert forall|j: int| 0 <= j < le implies t.subrange(1, 1 + le)[j] == escape_text(s)[j] by {
            assert(t[1 + j] == (seq!['"'] + escape_text(s) + seq!['"'])[1 + j]);
        }
    }
    assert(t[1 + le] == '"');
    lemma_str_body_inverts_escape(t, 1, s);
}

/// The executable counterpart of [`unescaped`].
fn unescape_exec(c: char) -> (r: Option<char>)
    ensures
        r == unescaped(c),
{
    if c == '"' {
        Some('"')
    } else if c == '\\' {
        Some('\\')
    } else if c == '/' {
        Some('/')
    } else if c == 'b' {
        Some('\u{0008}')
    } else if c == 'f' {
        Some('\u{000C}')
    } else if c == 'n' {
        Some('\n')
    } else if c == 'r' {
        Some('\r')
    } else if c == 't' {
        Some('\t')
    } else {
        None
    }
}

/// The executable counterpart of [`hex_val`]/[`is_hex`].
fn hex_val_exec(c: char) -> (r: Option<u32>)
    ensures
        r is Some <==> is_hex(c),
        r matches Some(v) ==> v == hex_val(c) && v < 16,
{
    let u = c as u32;
    if 48 <= u && u <= 57 {
        Some(u - 48)
    } else if 97 <= u && u <= 102 {
        Some(u - 87)
    } else if 65 <= u && u <= 70 {
        Some(u - 55)
    } else {
        None
    }
}

/// The executable counterpart of [`is_ws`].
fn is_ws_exec(c: char) -> (b: bool)
    ensures
        b == is_ws(c),
{
    c == ' ' || c == '\n' || c == '\r' || c == '\t'
}

/// The executable counterpart of [`is_num_char`].
fn is_num_char_exec(c: char) -> (b: bool)
    ensures
        b == is_num_char(c),
{
    let u = c as u32;
    c == '+' || c == '-' || c == '.' || c == 'e' || c == 'E' || (48 <= u && u <= 57)
}

/// Skip whitespace from `i`.
fn skip_ws(s: &str, i: usize) -> (j: usize)
    requires
        i <= s@.len(),
    ensures
        j == ws_end(s@, i as int),
        i <= j <= s@.len(),
{
    let n = s.unicode_len();
    let mut j = i;
    while j < n && is_ws_exec(s.get_char(j))
        invariant
            i <= j <= n,
            n == s@.len(),
            ws_end(s@, i as int) == ws_end(s@, j as int),
        decreases n - j,
    {
        j = j + 1;
    }
    j
}

/// Skip a number token from `i`.
fn skip_number(s: &str, i: usize) -> (j: usize)
    requires
        i <= s@.len(),
    ensures
        j == num_end(s@, i as int),
        i <= j <= s@.len(),
{
    let n = s.unicode_len();
    let mut j = i;
    while j < n && is_num_char_exec(s.get_char(j))
        invariant
            i <= j <= n,
            n == s@.len(),
            num_end(s@, i as int) == num_end(s@, j as int),
        decreases n - j,
    {
        j = j + 1;
    }
    j
}

/// Read a string-literal body from `start` (just past the opening quote).
fn parse_string_body(s: &str, start: usize) -> (r: Option<(String, usize)>)
    requires
        start <= s@.len(),
    ensures
        r is Some <==> str_body(s@, start as int) is Some,
        r matches Some(p) ==> {
            &&& str_body(s@, start as int) matches Some(t)
            &&& p.0@ == t.0
            &&& p.1 == t.1
            &&& p.1 <= s@.len()
        },
{
    let n = s.unicode_len();
    let mut out = String::new();
    let mut j = start;
    while j < n
        invariant
            start <= j <= n,
            n == s@.len(),
            (str_body(s@, start as int) is Some) == (str_body(s@, j as int) is Some),
            str_body(s@, start as int) matches Some(t) ==> {
                &&& str_body(s@, j as int) matches Some(u)
                &&& t.0 == out@ + u.0
                &&& t.1 == u.1
            },
        decreases n - j,
    {
        let c = s.get_char(j);
        if c == '"' {
            proof {
                assert(str_body(s@, j as int) matches Some(u) && u.0 == Seq::<char>::empty()
                    && u.1 == j + 1);
                if str_body(s@, start as int) is Some {
                    let t = str_body(s@, start as int).unwrap();
                    assert(t.0 =~= out@);
                }
            }
            return Some((out, j + 1));
        } else if c == '\\' {
            if j + 1 >= n {
                return None;
            }
            let e = s.get_char(j + 1);
            match unescape_exec(e) {
                Some(d) => {
                    proof {
                        let sb = str_body(s@, (j + 2) as int);
                        if sb is Some {
                            let u = sb.unwrap();
                            assert((out@ + seq![d]) + u.0 =~= out@ + (seq![d] + u.0));
                        }
                    }
                    push_char(&mut out, d);
                    j = j + 2;
                },
                None => {
                    if e == 'u' && n - j >= 6 && s.get_char(j + 2) == '0' && s.get_char(j + 3)
                        == '0' {
                        let h1 = hex_val_exec(s.get_char(j + 4));
                        let h2 = hex_val_exec(s.get_char(j + 5));
                        match (h1, h2) {
                            (Some(a), Some(b)) => {
                                let d: char = ((16 * a + b) as u8) as char;
                                proof {
                                    let sb = str_body(s@, (j + 6) as int);
                                    if sb is Some {
                                        let u = sb.unwrap();
                                        assert((out@ + seq![d]) + u.0 =~= out@ + (seq![d] + u.0));
                                    }
                                }
                                push_char(&mut out, d);
                                j = j + 6;
                            },
                            _ => {
                                return None;
                            },
                        }
                    } else {
                        return None;
                    }
                },
            }
        } else {
            proof {
                let sb = str_body(s@, (j + 1) as int);
                if sb is Some {
                    let u = sb.unwrap();
                    assert((out@ + seq![c]) + u.0 =~= out@ + (seq![c] + u.0));
                }
            }
            push_char(&mut out, c);
            j = j + 1;
        }
    }
    None
}

/// Read one object member from `i`.
fn parse_member(s: &str, i: usize) -> (r: Option<(String, Option<String>, usize)>)
    requires
        i <= s@.len(),
    ensures
        r is Some <==> member(s@, i as int) is Some,
        r matches Some(p) ==> {
            &&& member(s@, i as int) matches Some(m)
            &&& p.0@ == m.0
            &&& (p.1 is Some <==> m.1 is Some)
            &&& (p.1 matches Some(v) ==> m.1 matches Some(w) && v@ == w)
            &&& p.2 == m.2
            &&& p.2 <= s@.len()
        },
{
    let n = s.unicode_len();
    if i >= n || s.get_char(i) != '"' {
        return None;
    }
    let (key, after_key) = match parse_string_body(s, i + 1) {
        Some(p) => p,
        None => {
            return None;
        },
    };
    let c = skip_ws(s, after_key);
    if c >= n || s.get_char(c) != ':' {
        return None;
    }
    let v = skip_ws(s, c + 1);
    if v < n && s.get_char(v) == '"' {
        match parse_string_body(s, v + 1) {
            Some(p) => Some((key, Some(p.0), p.1)),
            None => None,
        }
    } else {
        let e = skip_number(s, v);
        if e > v {
            Some((key, None, e))
        } else {
            None
        }
    }
}

/// Parse a backend response body: the `output` text of a well-formed
/// response, or nothing for a malformed one.
pub fn parse_response(s: &str) -> (r: Option<String>)
    ensures
        r is Some <==> response_output(s@) is Some,
        r matches Some(o) ==> response_output(s@) == Some(o@),
{
    let n = s.unicode_len();
    let i0 = skip_ws(s, 0);
    if i0 >= n || s.get_char(i0) != '{' {
        return None;
    }
    let m1 = match parse_member(s, skip_ws(s, i0 + 1)) {
        Some(m) => m,
        None => {
            return None;
        },
    };
    let j = skip_ws(s, m1.2);
    if j >= n || s.get_char(j) != ',' {
        return None;
    }
    let m2 = match parse_member(s, skip_ws(s, j + 1)) {
        Some(m) => m,
        None => {
            return None;
        },
    };
    let k = skip_ws(s, m2.2);
    if k >= n || s.get_char(k) != '}' {
        return None;
    }
    if skip_ws(s, k + 1) != n {
        return None;
    }
    let output_key = String::from_str("output");
    let time_key = String::from_str("time");
    let (k1, v1, _) = m1;
    let (k2, v2, _) = m2;
    if k1 == output_key && v1.is_some() && k2 == time_key && v2.is_none() {
        match v1 {
            Some(o) => Some(o),
            None => None,
        }
    } else if k1 == time_key && v1.is_none() && k2 == output_key && v2.is_some() {
        match v2 {
            Some(o) => Some(o),
            None => None,
        }
    } else {
        None
    }
}

} // verus!
