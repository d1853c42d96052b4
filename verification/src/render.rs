//! Text rendering for the document compiler: decimal counts, escaped string
//! literals, separator joins, and insertion-ordered duplicate-free token
//! lists.

use vstd::prelude::*;
use vstd::string::*;

verus! {

/// The character for one decimal digit value.
pub open spec fn dec_digit_char(d: int) -> char {
    if d == 0 {
        '0'
    } else if d == 1 {
        '1'
    } else if d == 2 {
        '2'
    } else if d == 3 {
        '3'
    } else if d == 4 {
        '4'
    } else if d == 5 {
        '5'
    } else if d == 6 {
        '6'
    } else if d == 7 {
        '7'
    } else if d == 8 {
        '8'
    } else {
        '9'
    }
}

/// The usual decimal rendering of a number, most significant digit first,
/// with no leading zeros (`0` renders as "0").
pub open spec fn dec_str(n: nat) -> Seq<char>
    decreases n,
{
    if n < 10 {
        seq![dec_digit_char(n as int)]
    } else {
        dec_str(n / 10) + seq![dec_digit_char((n % 10) as int)]
    }
}

/// The single-character string for one decimal digit value.
fn digit_str(d: u32) -> (r: &'static str)
    requires
        d < 10,
    ensures
        r@ =~= seq![dec_digit_char(d as int)],
{
    proof {
        reveal_strlit("0");
        reveal_strlit("1");
        reveal_strlit("2");
        reveal_strlit("3");
        reveal_strlit("4");
        reveal_strlit("5");
        reveal_strlit("6");
        reveal_strlit("7");
        reveal_strlit("8");
        reveal_strlit("9");
    }
    if d == 0 {
        "0"
    } else if d == 1 {
        "1"
    } else if d == 2 {
        "2"
    } else if d == 3 {
        "3"
    } else if d == 4 {
        "4"
    } else if d == 5 {
        "5"
    } else if d == 6 {
        "6"
    } else if d == 7 {
        "7"
    } else if d == 8 {
        "8"
    } else {
        "9"
    }
}

/// Render a connection count in decimal.
pub fn u32_to_string(n: u32) -> (r: String)
    ensures
        r@ == dec_str(n as nat),
    decreases n,
{
    if n < 10 {
        String::from_str(digit_str(n))
    } else {
        let rest = u32_to_string(n / 10);
        rest.concat(digit_str(n % 10))
    }
}

/// How one character appears inside a double-quoted document literal.
pub open spec fn escape_char(c: char) -> Seq<char> {
    if c == '"' {
        seq!['\\', '"']
    } else if c == '\\' {
        seq!['\\', '\\']
    } else if c == '\n' {
        seq!['\\', 'n']
    } else if c == '\t' {
        seq!['\\', 't']
    } else if c == '\r' {
        seq!['\\', 'r']
    } else {
        seq![c]
    }
}

/// How a whole string appears inside a double-quoted document literal.
pub open spec fn escape_str_spec(s: Seq<char>) -> Seq<char>
    decreases s.len(),
{
    if s.len() == 0 {
        Seq::<char>::empty()
    } else {
        escape_str_spec(s.drop_last()) + escape_char(s.last())
    }
}

/// Escape a string for inclusion inside a double-quoted document literal.
pub fn escape_str(s: &str) -> (r: String)
    ensures
        r@ == escape_str_spec(s@),
{
    let n = s.unicode_len();
    let mut out = String::new();
    let mut i: usize = 0;
    while i < n
        invariant
            n == s@.len(),
            0 <= i <= n,
            out@ == escape_str_spec(s@.take(i as int)),
        decreases n - i,
    {
        let c = s.get_char(i);
        if c == '"' {
            out.append("\\\"");
            proof {
                reveal_strlit("\\\"");
                assert("\\\""@ =~= escape_char('"'));
            }
        } else if c == '\\' {
            out.append("\\\\");
            proof {
                reveal_strlit("\\\\");
                assert("\\\\"@ =~= escape_char('\\'));
            }
        } else if c == '\n' {
            out.append("\\n");
            proof {
                reveal_strlit("\\n");
                assert("\\n"@ =~= escape_char('\n'));
            }
        } else if c == '\t' {
            out.append("\\t");
            proof {
                reveal_strlit("\\t");
                assert("\\t"@ =~= escape_char('\t'));
            }
        } else if c == '\r' {
            out.append("\\r");
            proof {
                reveal_strlit("\\r");
                assert("\\r"@ =~= escape_char('\r'));
            }
        } else {
            let piece = s.substring_char(i, i + 1);
            out.append(piece);
            proof {
                assert(piece@ =~= escape_char(s@[i as int]));
            }
        }
        proof {
            assert(s@.take(i + 1).drop_last() =~= s@.take(i as int));
            assert(s@.take(i + 1).last() == s@[i as int]);
        }
        i += 1;
    }
    proof {
        assert(s@.take(n as int) =~= s@);
    }
    out
}

/// The views of a sequence of borrowed strings.
pub open spec fn str_views(ss: Seq<&str>) -> Seq<Seq<char>> {
    ss.map_values(|t: &str| t@)
}

/// The views of a sequence of owned strings.
pub open spec fn string_views(ss: Seq<String>) -> Seq<Seq<char>> {
    ss.map_values(|t: String| t@)
}

/// An optional token list, read as empty when absent.
pub open spec fn some_or_empty(o: Option<Seq<Seq<char>>>) -> Seq<Seq<char>> {
    match o {
        Option::Some(v) => v,
        Option::None => Seq::<Seq<char>>::empty(),
    }
}

/// The pieces joined with the separator between consecutive pieces.
pub open spec fn join_spec(fs: Seq<Seq<char>>, sep: Seq<char>) -> Seq<char>
    decreases fs.len(),
{
    if fs.len() == 0 {
        Seq::<char>::empty()
    } else if fs.len() == 1 {
        fs[0]
    } else {
        join_spec(fs.drop_last(), sep) + sep + fs.last()
    }
}

/// Join borrowed strings with a separator.
pub fn join_strs(fields: &Vec<&str>, sep: &str) -> (r: String)
    ensures
        r@ == join_spec(str_views(fields@), sep@),
{
    let ghost vs = str_views(fields@);
    let mut out = String::new();
    let mut i: usize = 0;
    while i < fields.len()
        invariant
            vs == str_views(fields@),
            vs.len() == fields@.len(),
            0 <= i <= fields@.len(),
            out@ == join_spec(vs.take(i as int), sep@),
        decreases fields@.len() - i,
    {
        if i > 0 {
            out.append(sep);
        }
        out.append(fields[i]);
        proof {
            assert(vs.take(i + 1).drop_last() =~= vs.take(i as int));
            assert(vs.take(i + 1).last() == fields@[i as int]@);
            if i == 0 {
                assert(join_spec(vs.take(1), sep@) == vs.take(1)[0]);
            }
        }
        i += 1;
    }
    proof {
        assert(vs.take(fields@.len() as int) =~= vs);
    }
    out
}

/// Adding a token to an insertion-ordered duplicate-free list: a no-op when
/// the token is already present, an append otherwise.
pub open spec fn add_token(ts: Seq<Seq<char>>, t: Seq<char>) -> Seq<Seq<char>> {
    if ts.contains(t) {
        ts
    } else {
        ts.push(t)
    }
}

/// Whether a token with this text is already in the list.
pub fn contains_token(fields: &Vec<String>, t: &str) -> (r: bool)
    ensures
        r == string_views(fields@).contains(t@),
{
    let ghost vs = string_views(fields@);
    let mut i: usize = 0;
    while i < fields.len()
        invariant
            vs == string_views(fields@),
            vs.len() == fields@.len(),
            0 <= i <= fields@.len(),
            forall|j: int| 0 <= j < i ==> vs[j] != t@,
        decreases fields@.len() - i,
    {
        if crate::common::str_eq(fields[i].as_str(), t) {
            proof {
                assert(vs[i as int] == t@);
            }
            return true;
        }
        i += 1;
    }
    proof {
        assert(!vs.contains(t@)) by {
            assert(forall|j: int| 0 <= j < vs.len() ==> vs[j] != t@);
        }
    }
    false
}

/// Push a token unless an equal one is already present; insertion order and
/// freedom from duplicates are both preserved.
pub fn push_token(fields: &mut Vec<String>, t: String)
    ensures
        string_views(final(fields)@) == add_token(string_views(old(fields)@), t@),
{
    if !contains_token(fields, t.as_str()) {
        let ghost before = string_views(fields@);
        fields.push(t);
        proof {
            assert(string_views(fields@) =~= before.push(t@));
        }
    }
}

/// Tokens free of duplicates: no two positions hold the same text.
pub open spec fn tokens_distinct(ts: Seq<Seq<char>>) -> bool {
    forall|i: int, j: int| 0 <= i < j < ts.len() ==> ts[i] != ts[j]
}

/// `add_token` preserves freedom from duplicates.
pub proof fn lemma_add_token_distinct(ts: Seq<Seq<char>>, t: Seq<char>)
    requires
        tokens_distinct(ts),
    ensures
        tokens_distinct(add_token(ts, t)),
{
    if !ts.contains(t) {
        assert forall|i: int, j: int|
            0 <= i < j < add_token(ts, t).len() implies add_token(ts, t)[i] != add_token(
            ts,
            t,
        )[j] by {
            if j == ts.len() {
                assert(ts[i] != t) by {
                    assert(!ts.contains(t));
                }
            }
        }
    }
}

/// Adding a token twice is the same as adding it once: the second addition
/// finds the token present and leaves the list unchanged.
pub proof fn lemma_add_token_idempotent(ts: Seq<Seq<char>>, t: Seq<char>)
    ensures
        add_token(add_token(ts, t), t) == add_token(ts, t),
{
    if !ts.contains(t) {
        assert(ts.push(t).contains(t)) by {
            assert(ts.push(t)[ts.len() as int] == t);
        }
    }
}

} // verus!
