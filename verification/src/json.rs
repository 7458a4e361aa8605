//! A small JSON value model and its compact rendering, used to assemble the
//! project envelope. Strings are escaped as the envelope's consumer expects:
//! quote and backslash, the named control-character escapes, and `\u00XX`
//! for the remaining control characters. Numbers are carried as raw number
//! text and rendered verbatim.

use vstd::prelude::*;

use crate::text::{cat3, hex2, hex2_of, push_char};

verus! {

/// The escape of one character inside a rendered JSON string.
pub open spec fn jesc_char(c: char) -> Seq<char> {
    if c == '"' {
        "\\\""@
    } else if c == '\\' {
        "\\\\"@
    } else if c == '\u{8}' {
        "\\b"@
    } else if c == '\u{c}' {
        "\\f"@
    } else if c == '\n' {
        "\\n"@
    } else if c == '\r' {
        "\\r"@
    } else if c == '\t' {
        "\\t"@
    } else if (c as u32) < 32 {
        "\\u00"@ + hex2_of((c as u32) as u8)
    } else {
        seq![c]
    }
}

pub open spec fn jesc(s: Seq<char>) -> Seq<char>
    decreases s.len(),
{
    if s.len() == 0 {
        Seq::empty()
    } else {
        jesc_char(s[0]) + jesc(s.skip(1))
    }
}

proof fn lemma_jesc_snoc(s: Seq<char>, c: char)
    ensures
        jesc(s.push(c)) == jesc(s) + jesc_char(c),
    decreases s.len(),
{
    reveal_with_fuel(jesc, 3);
    if s.len() == 0 {
        assert(s.push(c).skip(1) =~= Seq::<char>::empty());
        assert(s =~= Seq::<char>::empty());
        assert(s.push(c)[0] == c);
        assert(jesc(s.push(c)) =~= jesc(s) + jesc_char(c));
    } else {
        assert(s.push(c).skip(1) =~= s.skip(1).push(c));
        lemma_jesc_snoc(s.skip(1), c);
        assert(jesc(s.push(c)) =~= jesc(s) + jesc_char(c));
    }
}

/// Escapes a string's characters for embedding in a rendered JSON string.
pub fn jesc_exec(raw: &str) -> (res: String)
    ensures
        res@ == jesc(raw@),
{
    let n = raw.unicode_len();
    let mut res = String::new();
    let mut i: usize = 0;
    while i < n
        invariant
            n == raw@.len(),
            i <= n,
            res@ == jesc(raw@.take(i as int)),
        decreases n - i,
    {
        let c = raw.get_char(i);
        proof {
            lemma_jesc_snoc(raw@.take(i as int), c);
            assert(raw@.take(i as int).push(c) =~= raw@.take(i + 1 as int));
        }
        if c == '"' {
            res.append("\\\"");
        } else if c == '\\' {
            res.append("\\\\");
        } else if c == '\u{8}' {
            res.append("\\b");
        } else if c == '\u{c}' {
            res.append("\\f");
        } else if c == '\n' {
            res.append("\\n");
        } else if c == '\r' {
            res.append("\\r");
        } else if (c as u32) < 32 && c != '\t' {
            res.append("\\u00");
            let code: u32 = c as u32;
            let h = hex2(code as u8);
            res.append(h.as_str());
            assert(res@ =~= jesc(raw@.take(i as int)) + jesc_char(c));
        } else if c == '\t' {
            res.append("\\t");
        } else {
            push_char(&mut res, c);
            assert(res@ =~= jesc(raw@.take(i as int)) + jesc_char(c));
        }
        i = i + 1;
    }
    proof {
        assert(raw@.take(n as int) =~= raw@);
    }
    res
}

/// A rendered JSON string: the escaped text in double quotes.
pub open spec fn jstr(s: Seq<char>) -> Seq<char> {
    "\""@ + jesc(s) + "\""@
}

/// Renders a JSON string.
pub fn jstr_exec(raw: &str) -> (res: String)
    ensures
        res@ == jstr(raw@),
{
    let e = jesc_exec(raw);
    cat3("\"", e.as_str(), "\"")
}

} // verus!
