//! The reply document grammar and its parser.
//!
//! A reply is a tree of objects, arrays, strings, numbers, booleans and
//! null. The grammar is defined once, as the specification functions
//! `spec_parse_value`, `spec_parse_elements` and `spec_parse_members`, and
//! the executable parser is proved to return exactly what they define.
//! Numbers keep their raw lexeme, so no floating point is involved; string
//! escapes are the seven single-character ones (`\" \\ \/ \n \t \r` plus
//! backspace and form feed) — a `\u` escape is not part of this grammar and
//! fails the parse.

use vstd::prelude::*;
use vstd::string::*;
use crate::common::is_digit_char;

verus! {

/// The mathematical shape of a reply document.
pub enum JsonV {
    Null,
    Bool(bool),
    Num(Seq<char>),
    Str(Seq<char>),
    Arr(Seq<JsonV>),
    Obj(Seq<(Seq<char>, JsonV)>),
}

/// A decoded reply document. Numbers keep the raw lexeme they arrived in;
/// object members keep their reply order.
#[derive(Debug)]
pub enum Json {
    Null,
    Bool(bool),
    Num(String),
    Str(String),
    Arr(Vec<Json>),
    Obj(Vec<(String, Json)>),
}

/// The shape of a decoded document.
pub open spec fn json_view(j: Json) -> JsonV
    decreases j,
{
    match j {
        Json::Null => JsonV::Null,
        Json::Bool(b) => JsonV::Bool(b),
        Json::Num(s) => JsonV::Num(s@),
        Json::Str(s) => JsonV::Str(s@),
        Json::Arr(v) => JsonV::Arr(
            Seq::new(
                v@.len(),
                |i: int|
                    if 0 <= i < v@.len() {
                        json_view(v@[i])
                    } else {
                        JsonV::Null
                    },
            ),
        ),
        Json::Obj(m) => JsonV::Obj(
            Seq::new(
                m@.len(),
                |i: int|
                    if 0 <= i < m@.len() {
                        (m@[i].0@, json_view(m@[i].1))
                    } else {
                        (Seq::<char>::empty(), JsonV::Null)
                    },
            ),
        ),
    }
}

impl View for Json {
    type V = JsonV;

    open spec fn view(&self) -> JsonV {
        json_view(*self)
    }
}

/// The shapes of a sequence of decoded documents.
pub open spec fn json_seq_view(v: Seq<Json>) -> Seq<JsonV> {
    Seq::new(v.len(), |i: int| v[i]@)
}

/// The shapes of a sequence of decoded object members.
pub open spec fn json_pairs_view(m: Seq<(String, Json)>) -> Seq<(Seq<char>, JsonV)> {
    Seq::new(m.len(), |i: int| (m[i].0@, m[i].1@))
}

/// The whitespace the grammar allows between tokens.
pub open spec fn is_ws(c: char) -> bool {
    c == ' ' || c == '\n' || c == '\t' || c == '\r'
}

/// The first position at or after `i` that holds no whitespace.
pub open spec fn skip_ws(s: Seq<char>, i: int) -> int
    decreases s.len() - i,
{
    if 0 <= i < s.len() && is_ws(s[i]) {
        skip_ws(s, i + 1)
    } else {
        i
    }
}

/// The first position at or after `i` that holds no digit.
pub open spec fn scan_digits(s: Seq<char>, i: int) -> int
    decreases s.len() - i,
{
    if 0 <= i < s.len() && is_digit_char(s[i]) {
        scan_digits(s, i + 1)
    } else {
        i
    }
}

/// What a backslash escape stands for; `None` is a rejected escape.
pub open spec fn unescape_char(c: char) -> Option<char> {
    if c == '"' {
        Option::Some('"')
    } else if c == '\\' {
        Option::Some('\\')
    } else if c == '/' {
        Option::Some('/')
    } else if c == 'n' {
        Option::Some('\n')
    } else if c == 't' {
        Option::Some('\t')
    } else if c == 'r' {
        Option::Some('\r')
    } else if c == 'b' {
        Option::Some('\u{0008}')
    } else if c == 'f' {
        Option::Some('\u{000C}')
    } else {
        Option::None
    }
}

/// Parse the body of a string literal from just after its opening quote:
/// the decoded contents and the position after the closing quote.
pub open spec fn parse_str_chars(s: Seq<char>, i: int) -> Option<(Seq<char>, int)>
    decreases s.len() - i,
{
    if !(0 <= i < s.len()) {
        Option::None
    } else if s[i] == '"' {
        Option::Some((Seq::<char>::empty(), i + 1))
    } else if s[i] == '\\' {
        if i + 2 <= s.len() {
            match unescape_char(s[i + 1]) {
                Option::Some(c) => match parse_str_chars(s, i + 2) {
                    Option::Some((t, j)) => Option::Some((seq![c] + t, j)),
                    Option::None => Option::None,
                },
                Option::None => Option::None,
            }
        } else {
            Option::None
        }
    } else {
        match parse_str_chars(s, i + 1) {
            Option::Some((t, j)) => Option::Some((seq![s[i]] + t, j)),
            Option::None => Option::None,
        }
    }
}

/// Where a number's exponent part ends, given `c` at its `e` marker; `c`
/// itself when no well-formed exponent follows.
pub open spec fn exp_end(s: Seq<char>, c: int) -> int {
    let p = c + 1;
    let q = if p < s.len() && (s[p] == '+' || s[p] == '-') {
        p + 1
    } else {
        p
    };
    if q < s.len() && is_digit_char(s[q]) {
        scan_digits(s, q)
    } else {
        c
    }
}

/// Parse a number lexeme: an optional sign, digits, an optional fraction,
/// an optional exponent. The lexeme is kept verbatim.
pub open spec fn parse_num(s: Seq<char>, i: int) -> Option<(Seq<char>, int)> {
    let a = if 0 <= i < s.len() && s[i] == '-' {
        i + 1
    } else {
        i
    };
    if !(0 <= a < s.len() && is_digit_char(s[a])) {
        Option::None
    } else {
        let b = scan_digits(s, a);
        let c = if b + 1 < s.len() && s[b] == '.' && is_digit_char(s[b + 1]) {
            scan_digits(s, b + 1)
        } else {
            b
        };
        let d = if c < s.len() && (s[c] == 'e' || s[c] == 'E') {
            exp_end(s, c)
        } else {
            c
        };
        Option::Some((s.subrange(i, d), d))
    }
}

/// Parse one value whose first character stands at `i` (no leading
/// whitespace).
pub open spec fn spec_parse_value(s: Seq<char>, i: int) -> Option<(JsonV, int)>
    decreases s.len() - i, 0int,
{
    if !(0 <= i < s.len()) {
        Option::None
    } else if s[i] == 'n' {
        if s.len() - i >= 4 && s[i + 1] == 'u' && s[i + 2] == 'l' && s[i + 3] == 'l' {
            Option::Some((JsonV::Null, i + 4))
        } else {
            Option::None
        }
    } else if s[i] == 't' {
        if s.len() - i >= 4 && s[i + 1] == 'r' && s[i + 2] == 'u' && s[i + 3] == 'e' {
            Option::Some((JsonV::Bool(true), i + 4))
        } else {
            Option::None
        }
    } else if s[i] == 'f' {
        if s.len() - i >= 5 && s[i + 1] == 'a' && s[i + 2] == 'l' && s[i + 3] == 's' && s[i + 4]
            == 'e' {
            Option::Some((JsonV::Bool(false), i + 5))
        } else {
            Option::None
        }
    } else if s[i] == '"' {
        match parse_str_chars(s, i + 1) {
            Option::Some((t, j)) => Option::Some((JsonV::Str(t), j)),
            Option::None => Option::None,
        }
    } else if s[i] == '[' {
        let j = skip_ws(s, i + 1);
        if j < s.len() && s[j] == ']' {
            Option::Some((JsonV::Arr(Seq::empty()), j + 1))
        } else if i < j && j <= s.len() {
            match spec_parse_elements(s, j) {
                Option::Some((vs, k)) => Option::Some((JsonV::Arr(vs), k)),
                Option::None => Option::None,
            }
        } else {
            Option::None
        }
    } else if s[i] == '{' {
        let j = skip_ws(s, i + 1);
        if j < s.len() && s[j] == '}' {
            Option::Some((JsonV::Obj(Seq::empty()), j + 1))
        } else if i < j && j <= s.len() {
            match spec_parse_members(s, j) {
                Option::Some((ms, k)) => Option::Some((JsonV::Obj(ms), k)),
                Option::None => Option::None,
            }
        } else {
            Option::None
        }
    } else if s[i] == '-' || is_digit_char(s[i]) {
        match parse_num(s, i) {
            Option::Some((t, j)) => Option::Some((JsonV::Num(t), j)),
            Option::None => Option::None,
        }
    } else {
        Option::None
    }
}

/// Parse a comma-separated run of values and the closing `]`, the first
/// value's first character standing at `i`.
pub open spec fn spec_parse_elements(s: Seq<char>, i: int) -> Option<(Seq<JsonV>, int)>
    decreases s.len() - i, 1int,
{
    if !(0 <= i <= s.len()) {
        Option::None
    } else {
        match spec_parse_value(s, i) {
            Option::None => Option::None,
            Option::Some((v, j)) => {
                let k = skip_ws(s, j);
                if k < s.len() && s[k] == ',' {
                    let m = skip_ws(s, k + 1);
                    if i < m && m <= s.len() {
                        match spec_parse_elements(s, m) {
                            Option::Some((vs, e)) => Option::Some((seq![v] + vs, e)),
                            Option::None => Option::None,
                        }
                    } else {
                        Option::None
                    }
                } else if k < s.len() && s[k] == ']' {
                    Option::Some((seq![v], k + 1))
                } else {
                    Option::None
                }
            },
        }
    }
}

/// Parse a comma-separated run of `"key": value` members and the closing
/// `}`, the first key's opening quote standing at `i`.
pub open spec fn spec_parse_members(s: Seq<char>, i: int) -> Option<
    (Seq<(Seq<char>, JsonV)>, int),
>
    decreases s.len() - i, 1int,
{
    if !(0 <= i < s.len() && s[i] == '"') {
        Option::None
    } else {
        match parse_str_chars(s, i + 1) {
            Option::None => Option::None,
            Option::Some((key, j)) => {
                let a = skip_ws(s, j);
                if a < s.len() && s[a] == ':' {
                    let b = skip_ws(s, a + 1);
                    if i < b && b <= s.len() {
                        match spec_parse_value(s, b) {
                            Option::None => Option::None,
                            Option::Some((v, c)) => {
                                let d = skip_ws(s, c);
                                if d < s.len() && s[d] == ',' {
                                    let e = skip_ws(s, d + 1);
                                    if i < e && e <= s.len() {
                                        match spec_parse_members(s, e) {
                                            Option::Some((ms, f)) => Option::Some(
                                                (seq![(key, v)] + ms, f),
                                            ),
                                            Option::None => Option::None,
                                        }
                                    } else {
                                        Option::None
                                    }
                                } else if d < s.len() && s[d] == '}' {
                                    Option::Some((seq![(key, v)], d + 1))
                                } else {
                                    Option::None
                                }
                            },
                        }
                    } else {
                        Option::None
                    }
                } else {
                    Option::None
                }
            },
        }
    }
}

/// Parse a whole reply: one value, possibly surrounded by whitespace,
/// reaching exactly to the end of the input.
pub open spec fn spec_parse_json(s: Seq<char>) -> Option<JsonV> {
    let i = skip_ws(s, 0);
    match spec_parse_value(s, i) {
        Option::Some((v, j)) => {
            if skip_ws(s, j) == s.len() {
                Option::Some(v)
            } else {
                Option::None
            }
        },
        Option::None => Option::None,
    }
}

/// Skip whitespace, executable form.
fn skip_ws_exec(s: &str, i: usize) -> (r: usize)
    requires
        i <= s@.len(),
    ensures
        r as int == skip_ws(s@, i as int),
        i <= r <= s@.len(),
        r < s@.len() ==> !is_ws(s@[r as int]),
{
    let n = s.unicode_len();
    let mut p = i;
    while p < n
        invariant
            n == s@.len(),
            i <= p <= n,
            skip_ws(s@, i as int) == skip_ws(s@, p as int),
        decreases n - p,
    {
        let c = s.get_char(p);
        if !(c == ' ' || c == '\n' || c == '\t' || c == '\r') {
            return p;
        }
        p += 1;
    }
    p
}

/// Skip digits, executable form.
fn scan_digits_exec(s: &str, i: usize) -> (r: usize)
    requires
        i <= s@.len(),
    ensures
        r as int == scan_digits(s@, i as int),
        i <= r <= s@.len(),
        r < s@.len() ==> !is_digit_char(s@[r as int]),
{
    let n = s.unicode_len();
    let mut p = i;
    while p < n
        invariant
            n == s@.len(),
            i <= p <= n,
            scan_digits(s@, i as int) == scan_digits(s@, p as int),
        decreases n - p,
    {
        let c = s.get_char(p);
        if !('0' <= c && c <= '9') {
            return p;
        }
        p += 1;
    }
    p
}

/// Parse a string literal's body from just after its opening quote.
fn parse_string_body(s: &str, i: usize) -> (r: Option<(String, usize)>)
    requires
        i <= s@.len(),
    ensures
        r matches Some((t, j)) ==> parse_str_chars(s@, i as int) == Option::Some(
            (t@, j as int),
        ) && i < j <= s@.len(),
        r is None ==> parse_str_chars(s@, i as int) is None,
{
    let n = s.unicode_len();
    let mut out = String::new();
    let mut p = i;
    while p < n
        invariant
            n == s@.len(),
            i <= p <= n,
            forall|t: Seq<char>, j: int|
                parse_str_chars(s@, p as int) == Option::Some((t, j)) ==> parse_str_chars(
                    s@,
                    i as int,
                ) == Option::Some((out@ + t, j)),
            parse_str_chars(s@, p as int) is None ==> parse_str_chars(s@, i as int) is None,
        decreases n - p,
    {
        let c = s.get_char(p);
        if c == '"' {
            proof {
                assert(parse_str_chars(s@, p as int) == Option::Some(
                    (Seq::<char>::empty(), p + 1),
                ));
                assert(out@ + Seq::<char>::empty() =~= out@);
            }
            return Some((out, p + 1));
        } else if c == '\\' {
            if p + 1 >= n {
                return None;
            }
            let e = s.get_char(p + 1);
            let ghost out0 = out@;
            if e == '"' {
                out.append("\"");
                proof {
                    reveal_strlit("\"");
                    assert(out@ =~= out0 + seq!['"']);
                }
            } else if e == '\\' {
                out.append("\\");
                proof {
                    reveal_strlit("\\");
                    assert(out@ =~= out0 + seq!['\\']);
                }
            } else if e == '/' {
                out.append("/");
                proof {
                    reveal_strlit("/");
                    assert(out@ =~= out0 + seq!['/']);
                }
            } else if e == 'n' {
                out.append("\n");
                proof {
                    reveal_strlit("\n");
                    assert(out@ =~= out0 + seq!['\n']);
                }
            } else if e == 't' {
                out.append("\t");
                proof {
                    reveal_strlit("\t");
                    assert(out@ =~= out0 + seq!['\t']);
                }
            } else if e == 'r' {
                out.append("\r");
                proof {
                    reveal_strlit("\r");
                    assert(out@ =~= out0 + seq!['\r']);
                }
            } else if e == 'b' {
                out.append("\u{0008}");
                proof {
                    reveal_strlit("\u{0008}");
                    assert(out@ =~= out0 + seq!['\u{0008}']);
                }
            } else if e == 'f' {
                out.append("\u{000C}");
                proof {
                    reveal_strlit("\u{000C}");
                    assert(out@ =~= out0 + seq!['\u{000C}']);
                }
            } else {
                return None;
            }
            proof {
                let c2 = unescape_char(s@[p as int + 1]).unwrap();
                assert forall|t: Seq<char>, j: int|
                    parse_str_chars(s@, p as int + 2) == Option::Some((t, j)) implies
                    parse_str_chars(s@, i as int) == Option::Some((out@ + t, j)) by {
                    assert(parse_str_chars(s@, p as int) == Option::Some((seq![c2] + t, j)));
                    assert(out0 + (seq![c2] + t) =~= out@ + t);
                }
            }
            p += 2;
        } else {
            let piece = s.substring_char(p, p + 1);
            let ghost out0 = out@;
            out.append(piece);
            proof {
                assert(out@ =~= out0 + seq![s@[p as int]]);
                assert forall|t: Seq<char>, j: int|
                    parse_str_chars(s@, p as int + 1) == Option::Some((t, j)) implies
                    parse_str_chars(s@, i as int) == Option::Some((out@ + t, j)) by {
                    assert(parse_str_chars(s@, p as int) == Option::Some(
                        (seq![s@[p as int]] + t, j),
                    ));
                    assert(out0 + (seq![s@[p as int]] + t) =~= out@ + t);
                }
            }
            p += 1;
        }
    }
    None
}

/// Parse a number lexeme, executable form.
fn parse_number(s: &str, i: usize) -> (r: Option<(String, usize)>)
    requires
        i <= s@.len(),
    ensures
        r matches Some((t, j)) ==> parse_num(s@, i as int) == Option::Some((t@, j as int)) && i
            < j <= s@.len(),
        r is None ==> parse_num(s@, i as int) is None,
{
    let n = s.unicode_len();
    let a = if i < n && s.get_char(i) == '-' {
        i + 1
    } else {
        i
    };
    if a >= n {
        return None;
    }
    let ca = s.get_char(a);
    if !('0' <= ca && ca <= '9') {
        return None;
    }
    let b = scan_digits_exec(s, a);
    let c = if b < n && s.get_char(b) == '.' && b + 1 < n && {
        let cb = s.get_char(b + 1);
        '0' <= cb && cb <= '9'
    } {
        scan_digits_exec(s, b + 1)
    } else {
        b
    };
    let d = if c < n && (s.get_char(c) == 'e' || s.get_char(c) == 'E') {
        let p = c + 1;
        let q = if p < n && (s.get_char(p) == '+' || s.get_char(p) == '-') {
            p + 1
        } else {
            p
        };
        if q < n && {
            let cq = s.get_char(q);
            '0' <= cq && cq <= '9'
        } {
            scan_digits_exec(s, q)
        } else {
            c
        }
    } else {
        c
    };
    let lex = s.substring_char(i, d);
    Some((String::from_str(lex), d))
}

/// Parse one value, executable form.
pub fn parse_value_exec(s: &str, i: usize) -> (r: Option<(Json, usize)>)
    requires
        i <= s@.len(),
    ensures
        r matches Some((v, j)) ==> spec_parse_value(s@, i as int) == Option::Some(
            (v@, j as int),
        ) && i < j <= s@.len(),
        r is None ==> spec_parse_value(s@, i as int) is None,
    decreases s@.len() - i, 0int,
{
    let n = s.unicode_len();
    if i >= n {
        return None;
    }
    let c = s.get_char(i);
    if c == 'n' {
        if n - i >= 4 && s.get_char(i + 1) == 'u' && s.get_char(i + 2) == 'l' && s.get_char(i + 3)
            == 'l' {
            Some((Json::Null, i + 4))
        } else {
            None
        }
    } else if c == 't' {
        if n - i >= 4 && s.get_char(i + 1) == 'r' && s.get_char(i + 2) == 'u' && s.get_char(i + 3)
            == 'e' {
            Some((Json::Bool(true), i + 4))
        } else {
            None
        }
    } else if c == 'f' {
        if n - i >= 5 && s.get_char(i + 1) == 'a' && s.get_char(i + 2) == 'l' && s.get_char(i + 3)
            == 's' && s.get_char(i + 4) == 'e' {
            Some((Json::Bool(false), i + 5))
        } else {
            None
        }
    } else if c == '"' {
        match parse_string_body(s, i + 1) {
            Some((t, j)) => Some((Json::Str(t), j)),
            None => None,
        }
    } else if c == '[' {
        let j = skip_ws_exec(s, i + 1);
        if j < n && s.get_char(j) == ']' {
            let r = (Json::Arr(Vec::new()), j + 1);
            proof {
                assert(r.0@ matches JsonV::Arr(vs) && vs =~= Seq::<JsonV>::empty());
                assert(r.0@ == JsonV::Arr(Seq::<JsonV>::empty()));
            }
            Some(r)
        } else {
            match parse_elements_exec(s, j) {
                Some((vs, k)) => {
                    let ghost vsg = vs@;
                    let out = Json::Arr(vs);
                    proof {
                        assert(out@ matches JsonV::Arr(x) && x =~= json_seq_view(vsg));
                    }
                    Some((out, k))
                },
                None => None,
            }
        }
    } else if c == '{' {
        let j = skip_ws_exec(s, i + 1);
        if j < n && s.get_char(j) == '}' {
            let r = (Json::Obj(Vec::new()), j + 1);
            proof {
                assert(r.0@ matches JsonV::Obj(ms) && ms =~= Seq::<(Seq<char>, JsonV)>::empty());
                assert(r.0@ == JsonV::Obj(Seq::<(Seq<char>, JsonV)>::empty()));
            }
            Some(r)
        } else {
            match parse_members_exec(s, j) {
                Some((ms, k)) => {
                    let ghost msg = ms@;
                    let out = Json::Obj(ms);
                    proof {
                        assert(out@ matches JsonV::Obj(x) && x =~= json_pairs_view(msg));
                    }
                    Some((out, k))
                },
                None => None,
            }
        }
    } else if c == '-' || ('0' <= c && c <= '9') {
        match parse_number(s, i) {
            Some((t, j)) => Some((Json::Num(t), j)),
            None => None,
        }
    } else {
        None
    }
}

/// Parse array elements, executable form.
fn parse_elements_exec(s: &str, i: usize) -> (r: Option<(Vec<Json>, usize)>)
    requires
        i <= s@.len(),
    ensures
        r matches Some((vs, j)) ==> spec_parse_elements(s@, i as int) == Option::Some(
            (json_seq_view(vs@), j as int),
        ) && i < j <= s@.len(),
        r is None ==> spec_parse_elements(s@, i as int) is None,
    decreases s@.len() - i, 1int,
{
    let n = s.unicode_len();
    let (v, j) = match parse_value_exec(s, i) {
        Some(p) => p,
        None => {
            return None;
        },
    };
    let k = skip_ws_exec(s, j);
    if k < n && s.get_char(k) == ',' {
        let m = skip_ws_exec(s, k + 1);
        match parse_elements_exec(s, m) {
            Some((mut vs, e)) => {
                let ghost tail = json_seq_view(vs@);
                vs.insert(0, v);
                proof {
                    assert(json_seq_view(vs@) =~= seq![v@] + tail);
                }
                Some((vs, e))
            },
            None => None,
        }
    } else if k < n && s.get_char(k) == ']' {
        let mut vs: Vec<Json> = Vec::new();
        vs.push(v);
        proof {
            assert(json_seq_view(vs@) =~= seq![v@]);
        }
        Some((vs, k + 1))
    } else {
        None
    }
}

/// Parse object members, executable form.
fn parse_members_exec(s: &str, i: usize) -> (r: Option<(Vec<(String, Json)>, usize)>)
    requires
        i <= s@.len(),
    ensures
        r matches Some((ms, j)) ==> spec_parse_members(s@, i as int) == Option::Some(
            (json_pairs_view(ms@), j as int),
        ) && i < j <= s@.len(),
        r is None ==> spec_parse_members(s@, i as int) is None,
    decreases s@.len() - i, 1int,
{
    let n = s.unicode_len();
    if i >= n || s.get_char(i) != '"' {
        return None;
    }
    let (key, j) = match parse_string_body(s, i + 1) {
        Some(p) => p,
        None => {
            return None;
        },
    };
    let a = skip_ws_exec(s, j);
    if !(a < n && s.get_char(a) == ':') {
        return None;
    }
    let b = skip_ws_exec(s, a + 1);
    let (v, c) = match parse_value_exec(s, b) {
        Some(p) => p,
        None => {
            return None;
        },
    };
    let d = skip_ws_exec(s, c);
    if d < n && s.get_char(d) == ',' {
        let e = skip_ws_exec(s, d + 1);
        match parse_members_exec(s, e) {
            Some((mut ms, f)) => {
                let ghost tail = json_pairs_view(ms@);
                let ghost kv = (key@, v@);
                ms.insert(0, (key, v));
                proof {
                    assert(json_pairs_view(ms@) =~= seq![kv] + tail);
                }
                Some((ms, f))
            },
            None => None,
        }
    } else if d < n && s.get_char(d) == '}' {
        let ghost kv = (key@, v@);
        let mut ms: Vec<(String, Json)> = Vec::new();
        ms.push((key, v));
        proof {
            assert(json_pairs_view(ms@) =~= seq![kv]);
        }
        Some((ms, d + 1))
    } else {
        None
    }
}

/// Parse a whole reply document.
pub fn parse_json(s: &str) -> (r: Option<Json>)
    ensures
        r matches Some(v) ==> spec_parse_json(s@) == Option::Some(v@),
        r is None ==> spec_parse_json(s@) is None,
{
    let n = s.unicode_len();
    let i = skip_ws_exec(s, 0);
    match parse_value_exec(s, i) {
        Some((v, j)) => {
            let k = skip_ws_exec(s, j);
            if k == n {
                Some(v)
            } else {
                None
            }
        },
        None => None,
    }
}

/// First value under a key, in member order; `None` when the key is absent.
pub open spec fn obj_lookup_spec(ps: Seq<(Seq<char>, JsonV)>, k: Seq<char>) -> Option<JsonV>
    decreases ps.len(),
{
    if ps.len() == 0 {
        Option::None
    } else if ps[0].0 == k {
        Option::Some(ps[0].1)
    } else {
        obj_lookup_spec(ps.drop_first(), k)
    }
}

impl Json {
    pub fn is_null(&self) -> (r: bool)
        ensures
            r == (self@ is Null),
    {
        matches!(self, Json::Null)
    }

    pub fn as_bool(&self) -> (r: Option<bool>)
        ensures
            r matches Some(b) ==> self@ == JsonV::Bool(b),
            r is None <==> !(self@ is Bool),
    {
        match self {
            Json::Bool(b) => Some(*b),
            _ => None,
        }
    }

    /// The raw lexeme of a number.
    pub fn as_num(&self) -> (r: Option<&String>)
        ensures
            r matches Some(t) ==> self@ == JsonV::Num(t@),
            r is None <==> !(self@ is Num),
    {
        match self {
            Json::Num(t) => Some(t),
            _ => None,
        }
    }

    pub fn as_str(&self) -> (r: Option<&String>)
        ensures
            r matches Some(t) ==> self@ == JsonV::Str(t@),
            r is None <==> !(self@ is Str),
    {
        match self {
            Json::Str(t) => Some(t),
            _ => None,
        }
    }

    pub fn as_arr(&self) -> (r: Option<&Vec<Json>>)
        ensures
            r matches Some(v) ==> self@ == JsonV::Arr(json_seq_view(v@)),
            r is None <==> !(self@ is Arr),
    {
        match self {
            Json::Arr(v) => {
                proof {
                    assert(self@ matches JsonV::Arr(vs) && vs =~= json_seq_view(v@));
                }
                Some(v)
            },
            _ => None,
        }
    }

    pub fn as_obj(&self) -> (r: Option<&Vec<(String, Json)>>)
        ensures
            r matches Some(m) ==> self@ == JsonV::Obj(json_pairs_view(m@)),
            r is None <==> !(self@ is Obj),
    {
        match self {
            Json::Obj(m) => {
                proof {
                    assert(self@ matches JsonV::Obj(ms) && ms =~= json_pairs_view(m@));
                }
                Some(m)
            },
            _ => None,
        }
    }
}

/// Look a key up among decoded object members, first match in member order.
pub fn obj_get<'a>(m: &'a Vec<(String, Json)>, k: &str) -> (r: Option<&'a Json>)
    ensures
        r matches Some(v) ==> obj_lookup_spec(json_pairs_view(m@), k@) == Option::Some(v@),
        r is None <==> obj_lookup_spec(json_pairs_view(m@), k@) is None,
{
    let ghost ps = json_pairs_view(m@);
    proof {
        assert(ps.skip(0) =~= ps);
    }
    let mut i: usize = 0;
    while i < m.len()
        invariant
            ps == json_pairs_view(m@),
            ps.len() == m@.len(),
            0 <= i <= m@.len(),
            obj_lookup_spec(ps, k@) == obj_lookup_spec(ps.skip(i as int), k@),
        decreases m@.len() - i,
    {
        if crate::common::str_eq(m[i].0.as_str(), k) {
            proof {
                assert(ps.skip(i as int)[0] == (m@[i as int].0@, m@[i as int].1@));
                assert(obj_lookup_spec(ps.skip(i as int), k@) == Option::Some(m@[i as int].1@));
            }
            return Some(&m[i].1);
        }
        proof {
            assert(ps.skip(i as int)[0].0 != k@);
            assert(ps.skip(i as int).drop_first() =~= ps.skip(i as int + 1));
        }
        i += 1;
    }
    proof {
        assert(ps.skip(m@.len() as int) =~= Seq::<(Seq<char>, JsonV)>::empty());
    }
    None
}

} // verus!
