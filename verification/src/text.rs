//! Character-level string helpers used by request canonicalisation, prompt
//! building, error messages and configuration checks.
use vstd::prelude::*;
use vstd::string::*;

verus! {

/// Appends one character to a string (std `String::push`: "Appends the given
/// char to the end of this String").
#[verifier::external_body]
pub(crate) fn push_char(s: &mut String, c: char)
    ensures
        final(s)@ == old(s)@.push(c),
{
    s.push(c);
}

/// The characters of `s`, in order.
pub fn chars_of(s: &str) -> (v: Vec<char>)
    ensures
        v@ == s@,
{
    let mut v: Vec<char> = Vec::new();
    for c in it: s.chars()
        invariant
            v@ == it.seq().take(it.index()),
            it.seq() == s@,
    {
        v.push(c);
    }
    v
}

/// Appends the characters `v[from..to]` to `out`.
pub fn push_chars(out: &mut String, v: &Vec<char>, from: usize, to: usize)
    requires
        from <= to <= v@.len(),
    ensures
        final(out)@ == old(out)@ + v@.subrange(from as int, to as int),
{
    let mut i = from;
    while i < to
        invariant
            from <= i <= to <= v@.len(),
            out@ == old(out)@ + v@.subrange(from as int, i as int),
        decreases to - i,
    {
        push_char(out, v[i]);
        assert(v@.subrange(from as int, i + 1) == v@.subrange(from as int, i as int).push(v@[i as int]));
        i = i + 1;
    }
}

/// Two strings with the same characters.
pub fn same_text(a: &str, b: &str) -> (r: bool)
    ensures
        r == (a@ == b@),
{
    let x = chars_of(a);
    let y = chars_of(b);
    if x.len() != y.len() {
        return false;
    }
    let mut i: usize = 0;
    while i < x.len()
        invariant
            x@ == a@,
            y@ == b@,
            x@.len() == y@.len(),
            i <= x@.len(),
            forall|k: int| 0 <= k < i ==> x@[k] == y@[k],
        decreases x.len() - i,
    {
        if x[i] != y[i] {
            return false;
        }
        i = i + 1;
    }
    assert(x@ =~= y@);
    true
}

// ---------------------------------------------------------------------------
// Line endings

/// `s` with every Windows line ending `\r\n` replaced by `\n`, matches taken
/// left to right without overlap.
pub open spec fn crlf_to_lf(s: Seq<char>) -> Seq<char>
    decreases s.len(),
{
    if s.len() == 0 {
        s
    } else if s.len() >= 2 && s[0] == '\r' && s[1] == '\n' {
        seq!['\n'] + crlf_to_lf(s.subrange(2, s.len() as int))
    } else {
        seq![s[0]] + crlf_to_lf(s.subrange(1, s.len() as int))
    }
}

/// Text without carriage returns is left as it is.
pub proof fn crlf_to_lf_without_cr(s: Seq<char>)
    requires
        forall|i: int| 0 <= i < s.len() ==> s[i] != '\r',
    ensures
        crlf_to_lf(s) == s,
    decreases s.len(),
{
    if s.len() > 0 {
        let rest = s.subrange(1, s.len() as int);
        assert forall|i: int| 0 <= i < rest.len() implies rest[i] != '\r' by {
            assert(rest[i] == s[i + 1]);
        }
        crlf_to_lf_without_cr(rest);
        assert(seq![s[0]] + rest =~= s);
    }
}

/// Windows and Unix line endings give the same normal form: `a\r\nb` and
/// `a\nb` normalise alike unless `a` ends with a carriage return.
pub proof fn crlf_to_lf_line_break(a: Seq<char>, b: Seq<char>)
    requires
        a.len() == 0 || a.last() != '\r',
    ensures
        crlf_to_lf(a + seq!['\r', '\n'] + b) == crlf_to_lf(a + seq!['\n'] + b),
    decreases a.len(),
{
    let x = a + seq!['\r', '\n'] + b;
    let y = a + seq!['\n'] + b;
    if a.len() == 0 {
        assert(x.subrange(2, x.len() as int) =~= b);
        assert(y.subrange(1, y.len() as int) =~= b);
    } else if a.len() >= 2 && a[0] == '\r' && a[1] == '\n' {
        let r = a.subrange(2, a.len() as int);
        crlf_to_lf_line_break(r, b);
        assert(x.subrange(2, x.len() as int) =~= r + seq!['\r', '\n'] + b);
        assert(y.subrange(2, y.len() as int) =~= r + seq!['\n'] + b);
    } else {
        let r = a.subrange(1, a.len() as int);
        crlf_to_lf_line_break(r, b);
        assert(x.subrange(1, x.len() as int) =~= r + seq!['\r', '\n'] + b);
        assert(y.subrange(1, y.len() as int) =~= r + seq!['\n'] + b);
        assert(x[0] == a[0] && y[0] == a[0]);
        if a.len() >= 2 {
            assert(x[1] == a[1] && y[1] == a[1]);
        }
    }
}

/// Replaces each `\r\n` in `s` by `\n`.
pub fn normalize_newlines(s: &str) -> (r: String)
    ensures
        r@ == crlf_to_lf(s@),
{
    let v = chars_of(s);
    let n = v.len();
    let mut out = String::new();
    let mut i: usize = 0;
    assert(s@.subrange(0, n as int) =~= s@);
    while i < n
        invariant
            v@ == s@,
            n == v@.len(),
            i <= n,
            crlf_to_lf(s@) == out@ + crlf_to_lf(s@.subrange(i as int, n as int)),
        decreases n - i,
    {
        let ghost rest = s@.subrange(i as int, n as int);
        if i + 1 < n && v[i] == '\r' && v[i + 1] == '\n' {
            push_char(&mut out, '\n');
            assert(rest.subrange(2, rest.len() as int) == s@.subrange(i + 2, n as int));
            i = i + 2;
        } else {
            push_char(&mut out, v[i]);
            assert(rest.subrange(1, rest.len() as int) == s@.subrange(i + 1, n as int));
            i = i + 1;
        }
    }
    assert(s@.subrange(n as int, n as int) =~= Seq::<char>::empty());
    out
}

// ---------------------------------------------------------------------------
// Decimal and hexadecimal renderings

/// The ASCII digit for `d` (`d < 10`).
pub open spec fn digit_char(d: int) -> char {
    (48 + d) as char
}

/// The lower-case hexadecimal digit for `d` (`d < 16`).
pub open spec fn hex_digit(d: int) -> char {
    if d < 10 {
        (48 + d) as char
    } else {
        (87 + d) as char
    }
}

/// Decimal rendering of `n`, without sign or leading zeros.
pub open spec fn decimal(n: nat) -> Seq<char>
    decreases n,
{
    if n < 10 {
        seq![digit_char(n as int)]
    } else {
        decimal(n / 10).push(digit_char((n % 10) as int))
    }
}

/// Appends the decimal rendering of `n` to `out`.
pub fn push_decimal(out: &mut String, n: u32)
    ensures
        final(out)@ == old(out)@ + decimal(n as nat),
    decreases n,
{
    if n >= 10 {
        push_decimal(out, n / 10);
    }
    let d: u8 = (n % 10) as u8;
    push_char(out, (48u8 + d) as char);
    assert(old(out)@ + decimal(n as nat) =~= if n >= 10 {
        (old(out)@ + decimal((n / 10) as nat)).push(digit_char((n % 10) as int))
    } else {
        old(out)@.push(digit_char(n as int))
    });
}

/// Lower-case hexadecimal rendering of `b`, two digits per byte.
pub open spec fn hex_lower(b: Seq<u8>) -> Seq<char>
    decreases b.len(),
{
    if b.len() == 0 {
        Seq::empty()
    } else {
        hex_lower(b.drop_last()).push(hex_digit((b.last() / 16) as int)).push(
            hex_digit((b.last() % 16) as int),
        )
    }
}

/// Lower-case hexadecimal digit of a value below 16.
pub(crate) fn hex_char(d: u8) -> (c: char)
    requires
        d < 16,
    ensures
        c == hex_digit(d as int),
{
    if d < 10 {
        (48u8 + d) as char
    } else {
        (87u8 + d) as char
    }
}

/// Appends the lower-case hexadecimal rendering of `b` to `out`.
pub fn push_hex(out: &mut String, b: &[u8])
    ensures
        final(out)@ == old(out)@ + hex_lower(b@),
{
    let n = b.len();
    let mut i: usize = 0;
    while i < n
        invariant
            n == b@.len(),
            i <= n,
            out@ == old(out)@ + hex_lower(b@.take(i as int)),
        decreases n - i,
    {
        let x = b[i];
        push_char(out, hex_char(x / 16));
        push_char(out, hex_char(x % 16));
        assert(b@.take(i + 1).drop_last() == b@.take(i as int));
        i = i + 1;
    }
    assert(b@.take(n as int) == b@);
}

// ---------------------------------------------------------------------------
// Trimming

/// `s` without any trailing occurrences of `c`.
pub open spec fn trim_end_char(s: Seq<char>, c: char) -> Seq<char>
    decreases s.len(),
{
    if s.len() > 0 && s.last() == c {
        trim_end_char(s.drop_last(), c)
    } else {
        s
    }
}

proof fn lemma_trim_end_prefix(s: Seq<char>, c: char, j: int)
    requires
        0 <= j <= s.len(),
        forall|k: int| j <= k < s.len() ==> s[k] == c,
    ensures
        trim_end_char(s, c) == trim_end_char(s.take(j), c),
    decreases s.len() - j,
{
    if j < s.len() {
        assert(s.drop_last() =~= s.take(s.len() - 1));
        lemma_trim_end_prefix(s.drop_last(), c, j);
        assert(s.drop_last().take(j) =~= s.take(j));
    } else {
        assert(s.take(j) =~= s);
    }
}

/// Trimming twice is trimming once, and the result never ends with `c`.
pub proof fn trim_end_char_idempotent(s: Seq<char>, c: char)
    ensures
        trim_end_char(trim_end_char(s, c), c) == trim_end_char(s, c),
        trim_end_char(s, c).len() == 0 || trim_end_char(s, c).last() != c,
    decreases s.len(),
{
    if s.len() > 0 && s.last() == c {
        trim_end_char_idempotent(s.drop_last(), c);
    }
}

/// Removes every trailing `c` from `s`.
pub fn trim_end(s: &str, c: char) -> (r: String)
    ensures
        r@ == trim_end_char(s@, c),
{
    let v = chars_of(s);
    let mut j = v.len();
    while j > 0 && v[j - 1] == c
        invariant
            v@ == s@,
            j <= v@.len(),
            forall|k: int| j <= k < v@.len() ==> v@[k] == c,
        decreases j,
    {
        j = j - 1;
    }
    proof {
        lemma_trim_end_prefix(s@, c, j as int);
    }
    let mut out = String::new();
    push_chars(&mut out, &v, 0, j);
    assert(v@.subrange(0, j as int) =~= s@.take(j as int));
    out
}

// ---------------------------------------------------------------------------
// Joining

/// The views of a list of strings.
pub open spec fn views(parts: Seq<String>) -> Seq<Seq<char>> {
    parts.map_values(|p: String| p@)
}

/// `parts` separated by `sep`.
pub open spec fn join(parts: Seq<Seq<char>>, sep: Seq<char>) -> Seq<char>
    decreases parts.len(),
{
    if parts.len() == 0 {
        Seq::empty()
    } else if parts.len() == 1 {
        parts[0]
    } else {
        join(parts.drop_last(), sep) + sep + parts.last()
    }
}

/// Joins `parts` with `sep` between neighbours.
pub fn join_with(parts: &Vec<String>, sep: &str) -> (r: String)
    ensures
        r@ == join(views(parts@), sep@),
{
    let mut r = String::new();
    let n = parts.len();
    let mut i: usize = 0;
    while i < n
        invariant
            n == parts@.len(),
            i <= n,
            r@ == join(views(parts@).take(i as int), sep@),
        decreases n - i,
    {
        assert(views(parts@).take(i + 1).drop_last() =~= views(parts@).take(i as int));
        if i != 0 {
            r.append(sep);
        }
        r.append(parts[i].as_str());
        i = i + 1;
    }
    assert(views(parts@).take(n as int) =~= views(parts@));
    r
}

// ---------------------------------------------------------------------------
// Whitespace and the judge's verdict

/// Characters with the Unicode `White_Space` property.
pub open spec fn is_white_space(c: char) -> bool {
    let u = c as u32;
    ||| 9 <= u <= 13
    ||| u == 32
    ||| u == 0x85
    ||| u == 0xA0
    ||| u == 0x1680
    ||| 0x2000 <= u <= 0x200A
    ||| u == 0x2028
    ||| u == 0x2029
    ||| u == 0x202F
    ||| u == 0x205F
    ||| u == 0x3000
}

/// Whether `c` has the Unicode `White_Space` property.
pub fn white_space(c: char) -> (r: bool)
    ensures
        r == is_white_space(c),
{
    let u = c as u32;
    (9 <= u && u <= 13) || u == 32 || u == 0x85 || u == 0xA0 || u == 0x1680 || (0x2000 <= u
        && u <= 0x200A) || u == 0x2028 || u == 0x2029 || u == 0x202F || u == 0x205F || u
        == 0x3000
}

/// `s` without its leading white space.
pub open spec fn trim_start(s: Seq<char>) -> Seq<char>
    decreases s.len(),
{
    if s.len() > 0 && is_white_space(s[0]) {
        trim_start(s.drop_first())
    } else {
        s
    }
}

/// ASCII upper-casing of one character; other characters are unchanged.
pub open spec fn ascii_upper(c: char) -> char {
    if 'a' <= c && c <= 'z' {
        ((c as u8) - 32) as char
    } else {
        c
    }
}

/// The word a judge answers with to accept a draft.
pub open spec fn approve_word() -> Seq<char> {
    seq!['A', 'P', 'P', 'R', 'O', 'V', 'E']
}

/// A judge's reply approves when, after its leading white space and with
/// ASCII letters upper-cased, it starts with `APPROVE`.
pub open spec fn approves(reply: Seq<char>) -> bool {
    let t = trim_start(reply);
    &&& t.len() >= 7
    &&& forall|k: int| 0 <= k < 7 ==> ascii_upper(#[trigger] t[k]) == approve_word()[k]
}

proof fn lemma_trim_start_skip(s: Seq<char>, j: int)
    requires
        0 <= j <= s.len(),
        forall|k: int| 0 <= k < j ==> is_white_space(#[trigger] s[k]),
    ensures
        trim_start(s) == trim_start(s.skip(j)),
    decreases j,
{
    if j > 0 {
        lemma_trim_start_skip(s.drop_first(), j - 1);
        assert(s.drop_first().skip(j - 1) =~= s.skip(j));
    } else {
        assert(s.skip(0) =~= s);
    }
}

/// Leading white space never changes a verdict.
pub proof fn approval_ignores_leading_white_space(c: char, reply: Seq<char>)
    requires
        is_white_space(c),
    ensures
        approves(seq![c] + reply) == approves(reply),
{
    assert((seq![c] + reply).drop_first() =~= reply);
}

/// The verdict word is recognised in any ASCII letter case.
pub proof fn approval_ignores_case(reply: Seq<char>, shouted: Seq<char>)
    requires
        reply.len() == shouted.len(),
        forall|i: int| 0 <= i < reply.len() ==> ascii_upper(#[trigger] reply[i]) == ascii_upper(shouted[i]),
        reply.len() == 0 || !is_white_space(reply[0]),
        shouted.len() == 0 || !is_white_space(shouted[0]),
    ensures
        approves(reply) == approves(shouted),
{
    if reply.len() > 0 {
        assert(trim_start(reply) == reply);
        assert(trim_start(shouted) == shouted);
        if approves(reply) {
            assert forall|k: int| 0 <= k < 7 implies ascii_upper(#[trigger] shouted[k]) == approve_word()[k] by {
                assert(ascii_upper(reply[k]) == approve_word()[k]);
            }
        }
        if approves(shouted) {
            assert forall|k: int| 0 <= k < 7 implies ascii_upper(#[trigger] reply[k]) == approve_word()[k] by {
                assert(ascii_upper(shouted[k]) == approve_word()[k]);
            }
        }
    }
}

/// Whether the judge's reply approves the draft (see [`approves`]).
pub fn is_approval(reply: &str) -> (r: bool)
    ensures
        r == approves(reply@),
{
    let v = chars_of(reply);
    let n = v.len();
    let mut j: usize = 0;
    while j < n && white_space(v[j])
        invariant
            v@ == reply@,
            n == v@.len(),
            j <= n,
            forall|k: int| 0 <= k < j ==> is_white_space(#[trigger] v@[k]),
        decreases n - j,
    {
        j = j + 1;
    }
    proof {
        lemma_trim_start_skip(reply@, j as int);
        if j < n {
            assert(reply@.skip(j as int)[0] == reply@[j as int]);
        } else {
            assert(reply@.skip(j as int).len() == 0);
        }
    }
    let ghost t = reply@.skip(j as int);
    assert(trim_start(reply@) == t);
    if n - j < 7 {
        return false;
    }
    let word: [char; 7] = ['A', 'P', 'P', 'R', 'O', 'V', 'E'];
    assert(word@ =~= approve_word());
    let mut k: usize = 0;
    while k < 7
        invariant
            v@ == reply@,
            n == v@.len(),
            j + 7 <= n,
            t == reply@.skip(j as int),
            trim_start(reply@) == t,
            word@ == approve_word(),
            k <= 7,
            forall|m: int| 0 <= m < k ==> ascii_upper(#[trigger] t[m]) == approve_word()[m],
        decreases 7 - k,
    {
        let c = v[j + k];
        let up = if 'a' <= c && c <= 'z' {
            ((c as u8) - 32) as char
        } else {
            c
        };
        assert(t[k as int] == c);
        assert(up == ascii_upper(c));
        if up != word[k] {
            assert(ascii_upper(t[k as int]) != approve_word()[k as int]);
            assert(!approves(reply@));
            return false;
        }
        k = k + 1;
    }
    true
}

} // verus!
