//! Text building blocks for the emitted target code: escaping, four-space
//! indentation, joining, decimal and hexadecimal rendering, and the
//! identifier test that drives keyword-argument partitioning.

use vstd::prelude::*;

verus! {

/// Appends one character to a `String`.
///
/// Relies on `String::push`: appends exactly the given character.
#[verifier::external_body]
pub fn push_char(s: &mut String, c: char)
    ensures
        final(s)@ == old(s)@.push(c),
{
    s.push(c);
}

/// The backslash escape used for string payloads embedded in emitted
/// single-quoted literals: quotes, backslash, and the three common
/// control characters become two-character escapes; everything else is kept.
pub open spec fn esc_char(c: char) -> Seq<char> {
    if c == '"' {
        "\\\""@
    } else if c == '\\' {
        "\\\\"@
    } else if c == '\'' {
        "\\'"@
    } else if c == '\n' {
        "\\n"@
    } else if c == '\r' {
        "\\r"@
    } else if c == '\t' {
        "\\t"@
    } else {
        seq![c]
    }
}

pub open spec fn escaped(s: Seq<char>) -> Seq<char>
    decreases s.len(),
{
    if s.len() == 0 {
        Seq::empty()
    } else {
        esc_char(s[0]) + escaped(s.skip(1))
    }
}

proof fn lemma_escaped_snoc(s: Seq<char>, c: char)
    ensures
        escaped(s.push(c)) == escaped(s) + esc_char(c),
    decreases s.len(),
{
    reveal_with_fuel(escaped, 3);
    if s.len() == 0 {
        assert(s.push(c).skip(1) =~= Seq::<char>::empty());
        assert(s =~= Seq::<char>::empty());
        assert(s.push(c)[0] == c);
        assert(escaped(s.push(c)) =~= escaped(s) + esc_char(c));
    } else {
        assert(s.push(c).skip(1) =~= s.skip(1).push(c));
        lemma_escaped_snoc(s.skip(1), c);
        assert(escaped(s.push(c)) =~= escaped(s) + esc_char(c));
    }
}

pub fn escape(raw: &str) -> (res: String)
    ensures
        res@ == escaped(raw@),
{
    let n = raw.unicode_len();
    let mut res = String::new();
    let mut i: usize = 0;
    while i < n
        invariant
            n == raw@.len(),
            i <= n,
            res@ == escaped(raw@.take(i as int)),
        decreases n - i,
    {
        let c = raw.get_char(i);
        proof {
            lemma_escaped_snoc(raw@.take(i as int), c);
            assert(raw@.take(i as int).push(c) =~= raw@.take(i + 1 as int));
        }
        if c == '"' {
            res.append("\\\"");
        } else if c == '\\' {
            res.append("\\\\");
        } else if c == '\'' {
            res.append("\\'");
        } else if c == '\n' {
            res.append("\\n");
        } else if c == '\r' {
            res.append("\\r");
        } else if c == '\t' {
            res.append("\\t");
        } else {
            push_char(&mut res, c);
            assert(res@ =~= escaped(raw@.take(i as int)) + esc_char(c));
        }
        i = i + 1;
    }
    proof {
        assert(raw@.take(n as int) =~= raw@);
    }
    res
}

/// Body of [`indented`]: after every line break the next line gets four
/// more spaces; a carriage return directly before a line break is dropped,
/// as the line-splitting of the original emitter did.
pub open spec fn indent_rest(s: Seq<char>) -> Seq<char>
    decreases s.len(),
{
    if s.len() == 0 {
        Seq::empty()
    } else if s[0] == '\r' && s.len() >= 2 && s[1] == '\n' {
        "\n    "@ + indent_rest(s.skip(2))
    } else if s[0] == '\n' {
        "\n    "@ + indent_rest(s.skip(1))
    } else {
        seq![s[0]] + indent_rest(s.skip(1))
    }
}

/// The emitted form of a nested block: every line of `s` indented by four
/// spaces. The empty text stays empty.
pub open spec fn indented(s: Seq<char>) -> Seq<char> {
    if s.len() == 0 {
        Seq::empty()
    } else {
        "    "@ + indent_rest(s)
    }
}

pub fn indent(code: &str) -> (res: String)
    ensures
        res@ == indented(code@),
{
    let n = code.unicode_len();
    if n == 0 {
        let res = String::new();
        proof {
            assert(res@ =~= indented(code@));
        }
        return res;
    }
    let mut res = String::from_str("    ");
    proof {
        assert(code@.skip(0) =~= code@);
        assert(res@ + indent_rest(code@.skip(0)) =~= "    "@ + indent_rest(code@));
    }
    let mut i: usize = 0;
    while i < n
        invariant
            n == code@.len(),
            n > 0,
            i <= n,
            res@ + indent_rest(code@.skip(i as int)) == "    "@ + indent_rest(code@),
        decreases n - i,
    {
        let c = code.get_char(i);
        if c == '\r' && i + 1 < n && code.get_char(i + 1) == '\n' {
            proof {
                assert(code@.skip(i as int).skip(2) =~= code@.skip(i + 2 as int));
            }
            res.append("\n    ");
            i = i + 2;
        } else if c == '\n' {
            proof {
                assert(code@.skip(i as int).skip(1) =~= code@.skip(i + 1 as int));
            }
            res.append("\n    ");
            i = i + 1;
        } else {
            proof {
                assert(code@.skip(i as int).skip(1) =~= code@.skip(i + 1 as int));
            }
            let ghost prev = res@;
            push_char(&mut res, c);
            proof {
                assert(seq![c] + indent_rest(code@.skip(i + 1 as int)) =~= indent_rest(
                    code@.skip(i as int),
                ));
                assert(res@ + indent_rest(code@.skip(i + 1 as int)) =~= prev + indent_rest(
                    code@.skip(i as int),
                ));
            }
            i = i + 1;
        }
    }
    proof {
        assert(code@.skip(n as int) =~= Seq::<char>::empty());
        assert(res@ =~= "    "@ + indent_rest(code@));
    }
    res
}

/// The given parts joined with the given separator, first part first.
pub open spec fn joined(parts: Seq<Seq<char>>, sep: Seq<char>) -> Seq<char>
    decreases parts.len(),
{
    if parts.len() == 0 {
        Seq::empty()
    } else if parts.len() == 1 {
        parts[0]
    } else {
        parts[0] + sep + joined(parts.skip(1), sep)
    }
}

pub proof fn lemma_joined_push(parts: Seq<Seq<char>>, sep: Seq<char>, p: Seq<char>)
    ensures
        parts.len() == 0 ==> joined(parts.push(p), sep) == p,
        parts.len() > 0 ==> joined(parts.push(p), sep) == joined(parts, sep) + sep + p,
    decreases parts.len(),
{
    reveal_with_fuel(joined, 3);
    if parts.len() == 0 {
        assert(joined(parts.push(p), sep) == parts.push(p)[0]);
    } else if parts.len() == 1 {
        assert(parts.push(p).skip(1) =~= seq![p]);
        assert(joined(seq![p], sep) == p);
        assert(parts.push(p)[0] == parts[0]);
        assert(joined(parts.push(p), sep) == parts[0] + sep + p);
    } else {
        assert(parts.push(p).skip(1) =~= parts.skip(1).push(p));
        lemma_joined_push(parts.skip(1), sep, p);
        assert(joined(parts.push(p), sep) =~= joined(parts, sep) + sep + p);
    }
}

/// View of a vector of built strings.
pub open spec fn views_of(parts: Seq<String>) -> Seq<Seq<char>> {
    parts.map_values(|p: String| p@)
}

pub fn join_strs(parts: &Vec<String>, sep: &str) -> (res: String)
    ensures
        res@ == joined(views_of(parts@), sep@),
{
    let mut res = String::new();
    let n = parts.len();
    let mut i: usize = 0;
    while i < n
        invariant
            n == parts@.len(),
            i <= n,
            res@ == joined(views_of(parts@).take(i as int), sep@),
        decreases n - i,
    {
        proof {
            assert(views_of(parts@).take(i as int).push(parts@[i as int]@) =~= views_of(
                parts@,
            ).take(i + 1 as int));
            lemma_joined_push(views_of(parts@).take(i as int), sep@, parts@[i as int]@);
        }
        if i > 0 {
            res.append(sep);
        }
        res.append(parts[i].as_str());
        proof {
            if i == 0 {
                assert(res@ =~= joined(views_of(parts@).take(i + 1 as int), sep@));
            }
        }
        i = i + 1;
    }
    proof {
        assert(views_of(parts@).take(n as int) =~= views_of(parts@));
    }
    res
}

pub fn cat2(a: &str, b: &str) -> (res: String)
    ensures
        res@ == a@ + b@,
{
    let mut res = String::from_str(a);
    res.append(b);
    res
}

pub fn cat3(a: &str, b: &str, c: &str) -> (res: String)
    ensures
        res@ == a@ + b@ + c@,
{
    let mut res = String::from_str(a);
    res.append(b);
    res.append(c);
    res
}

pub fn cat4(a: &str, b: &str, c: &str, d: &str) -> (res: String)
    ensures
        res@ == a@ + b@ + c@ + d@,
{
    let mut res = String::from_str(a);
    res.append(b);
    res.append(c);
    res.append(d);
    res
}

pub fn cat5(a: &str, b: &str, c: &str, d: &str, e: &str) -> (res: String)
    ensures
        res@ == a@ + b@ + c@ + d@ + e@,
{
    let mut res = String::from_str(a);
    res.append(b);
    res.append(c);
    res.append(d);
    res.append(e);
    res
}

pub fn cat6(a: &str, b: &str, c: &str, d: &str, e: &str, f: &str) -> (res: String)
    ensures
        res@ == a@ + b@ + c@ + d@ + e@ + f@,
{
    let mut res = String::from_str(a);
    res.append(b);
    res.append(c);
    res.append(d);
    res.append(e);
    res.append(f);
    res
}

pub fn cat7(a: &str, b: &str, c: &str, d: &str, e: &str, f: &str, g: &str) -> (res: String)
    ensures
        res@ == a@ + b@ + c@ + d@ + e@ + f@ + g@,
{
    let mut res = String::from_str(a);
    res.append(b);
    res.append(c);
    res.append(d);
    res.append(e);
    res.append(f);
    res.append(g);
    res
}

pub fn cat8(a: &str, b: &str, c: &str, d: &str, e: &str, f: &str, g: &str, h: &str) -> (res:
    String)
    ensures
        res@ == a@ + b@ + c@ + d@ + e@ + f@ + g@ + h@,
{
    let mut res = String::from_str(a);
    res.append(b);
    res.append(c);
    res.append(d);
    res.append(e);
    res.append(f);
    res.append(g);
    res.append(h);
    res
}

pub open spec fn digit_char(d: nat) -> char {
    if d == 0 {
        '0'
    } else if d == 1 {
        '1'
    } else if d == 2 {
        '2'
    } else if d == 3 {
        '3'
    } else if d == 4 {
        '4'
    } else if d == 5 {
        '5'
    } else if d == 6 {
        '6'
    } else if d == 7 {
        '7'
    } else if d == 8 {
        '8'
    } else {
        '9'
    }
}

/// Decimal rendering of a natural number, most significant digit first.
pub open spec fn dec_of(n: nat) -> Seq<char>
    decreases n,
{
    if n < 10 {
        seq![digit_char(n)]
    } else {
        dec_of(n / 10).push(digit_char(n % 10))
    }
}

fn digit_exec(d: u64) -> (c: char)
    requires
        d < 10,
    ensures
        c == digit_char(d as nat),
{
    if d == 0 {
        '0'
    } else if d == 1 {
        '1'
    } else if d == 2 {
        '2'
    } else if d == 3 {
        '3'
    } else if d == 4 {
        '4'
    } else if d == 5 {
        '5'
    } else if d == 6 {
        '6'
    } else if d == 7 {
        '7'
    } else if d == 8 {
        '8'
    } else {
        '9'
    }
}

pub fn fmt_u64(n: u64) -> (res: String)
    ensures
        res@ == dec_of(n as nat),
    decreases n,
{
    if n < 10 {
        let mut res = String::new();
        push_char(&mut res, digit_exec(n));
        proof {
            assert(res@ =~= dec_of(n as nat));
        }
        res
    } else {
        let mut res = fmt_u64(n / 10);
        push_char(&mut res, digit_exec(n % 10));
        res
    }
}

pub open spec fn hex_digit_char(d: nat) -> char {
    if d < 10 {
        digit_char(d)
    } else if d == 10 {
        'a'
    } else if d == 11 {
        'b'
    } else if d == 12 {
        'c'
    } else if d == 13 {
        'd'
    } else if d == 14 {
        'e'
    } else {
        'f'
    }
}

/// Two lowercase hex digits, as the pen-color lines render each channel.
pub open spec fn hex2_of(b: u8) -> Seq<char> {
    seq![hex_digit_char(b as nat / 16), hex_digit_char(b as nat % 16)]
}

fn hex_digit_exec(d: u64) -> (c: char)
    requires
        d < 16,
    ensures
        c == hex_digit_char(d as nat),
{
    if d < 10 {
        digit_exec(d)
    } else if d == 10 {
        'a'
    } else if d == 11 {
        'b'
    } else if d == 12 {
        'c'
    } else if d == 13 {
        'd'
    } else if d == 14 {
        'e'
    } else {
        'f'
    }
}

pub fn hex2(b: u8) -> (res: String)
    ensures
        res@ == hex2_of(b),
{
    let mut res = String::new();
    push_char(&mut res, hex_digit_exec(b as u64 / 16));
    push_char(&mut res, hex_digit_exec(b as u64 % 16));
    proof {
        assert(res@ =~= hex2_of(b));
    }
    res
}

/// First character of a valid target identifier: a letter or underscore.
pub open spec fn ident_start(c: char) -> bool {
    c == '_' || ('a' <= c && c <= 'z') || ('A' <= c && c <= 'Z')
}

/// Continuation character of a valid target identifier.
pub open spec fn ident_cont(c: char) -> bool {
    ident_start(c) || ('0' <= c && c <= '9')
}

/// Whether a name is a valid identifier in the target language: nonempty,
/// a letter or underscore first, then letters, digits and underscores.
pub open spec fn is_ident(s: Seq<char>) -> bool {
    s.len() > 0 && ident_start(s[0]) && (forall|i: int| 1 <= i < s.len() ==> ident_cont(#[trigger] s[i]))
}

pub fn is_py_ident(sym: &str) -> (res: bool)
    ensures
        res == is_ident(sym@),
{
    let n = sym.unicode_len();
    if n == 0 {
        return false;
    }
    let first = sym.get_char(0);
    if !(first == '_' || ('a' <= first && first <= 'z') || ('A' <= first && first <= 'Z')) {
        return false;
    }
    let mut i: usize = 1;
    while i < n
        invariant
            n == sym@.len(),
            1 <= i <= n,
            ident_start(sym@[0]),
            forall|j: int| 1 <= j < i ==> ident_cont(#[trigger] sym@[j]),
        decreases n - i,
    {
        let c = sym.get_char(i);
        if !(c == '_' || ('a' <= c && c <= 'z') || ('A' <= c && c <= 'Z') || ('0' <= c && c
            <= '9')) {
            return false;
        }
        i = i + 1;
    }
    true
}

/// The rendering of an optional trailing comment: nothing, or ` # ` and the
/// comment with every line break replaced by ` -- `.
pub open spec fn comment_body(s: Seq<char>) -> Seq<char>
    decreases s.len(),
{
    if s.len() == 0 {
        Seq::empty()
    } else if s[0] == '\n' {
        " -- "@ + comment_body(s.skip(1))
    } else {
        seq![s[0]] + comment_body(s.skip(1))
    }
}

pub open spec fn comment_text(c: Option<Seq<char>>) -> Seq<char> {
    match c {
        Option::None => Seq::empty(),
        Option::Some(s) => " # "@ + comment_body(s),
    }
}

/// View of an optional comment field.
pub open spec fn opt_view(c: Option<String>) -> Option<Seq<char>> {
    match c {
        Option::None => Option::None,
        Option::Some(s) => Option::Some(s@),
    }
}

proof fn lemma_comment_body_snoc(s: Seq<char>, c: char)
    ensures
        comment_body(s.push(c)) == comment_body(s) + (if c == '\n' {
            " -- "@
        } else {
            seq![c]
        }),
    decreases s.len(),
{
    reveal_with_fuel(comment_body, 3);
    if s.len() == 0 {
        assert(s.push(c).skip(1) =~= Seq::<char>::empty());
        assert(s =~= Seq::<char>::empty());
        assert(s.push(c)[0] == c);
        assert(comment_body(s.push(c)) =~= comment_body(s) + (if c == '\n' {
            " -- "@
        } else {
            seq![c]
        }));
    } else {
        assert(s.push(c).skip(1) =~= s.skip(1).push(c));
        lemma_comment_body_snoc(s.skip(1), c);
        assert(comment_body(s.push(c)) =~= comment_body(s) + (if c == '\n' {
            " -- "@
        } else {
            seq![c]
        }));
    }
}

pub fn fmt_comment(comment: &Option<String>) -> (res: String)
    ensures
        res@ == comment_text(opt_view(*comment)),
{
    match comment {
        Option::None => {
            let res = String::new();
            proof {
                assert(res@ =~= comment_text(opt_view(*comment)));
            }
            res
        },
        Option::Some(text) => {
            let mut res = String::from_str(" # ");
            let n = text.as_str().unicode_len();
            let mut i: usize = 0;
            while i < n
                invariant
                    n == text@.len(),
                    i <= n,
                    res@ == " # "@ + comment_body(text@.take(i as int)),
                decreases n - i,
            {
                let c = text.as_str().get_char(i);
                proof {
                    lemma_comment_body_snoc(text@.take(i as int), c);
                    assert(text@.take(i as int).push(c) =~= text@.take(i + 1 as int));
                }
                if c == '\n' {
                    res.append(" -- ");
                } else {
                    push_char(&mut res, c);
                    assert(res@ =~= " # "@ + (comment_body(text@.take(i as int)) + seq![c]));
                }
                i = i + 1;
            }
            proof {
                assert(text@.take(n as int) =~= text@);
            }
            res
        },
    }
}

} // verus!
