//! The exact-cache identity of a request: a versioned SHA-256 fingerprint of
//! its canonical JSON form (prompt, system instructions, model, generation
//! settings, tenant scope and reuse policy).
use sha2::{Digest, Sha256};
use vstd::prelude::*;
use vstd::string::*;
use vstd::utf8::{encode_utf8, encode_utf8_decode_utf8};

use crate::text::{chars_of, crlf_to_lf, decimal, digit_char, hex_char, hex_digit, push_char, hex_lower, normalize_newlines, push_decimal, push_hex};
use crate::types::{CompletionRequest, SemanticReuse};

verus! {

/// How `serde_json` writes one character inside a string literal: quote and
/// backslash are escaped, the control characters with short escapes use them
/// (`\b \t \n \f \r`), other characters below U+0020 become `\u00xx` with
/// lower-case hex digits, and everything else is written as it is.
pub open spec fn json_escape(c: char) -> Seq<char> {
    if c == '"' {
        seq!['\\', '"']
    } else if c == '\\' {
        seq!['\\', '\\']
    } else if c == '\x08' {
        seq!['\\', 'b']
    } else if c == '\t' {
        seq!['\\', 't']
    } else if c == '\n' {
        seq!['\\', 'n']
    } else if c == '\x0c' {
        seq!['\\', 'f']
    } else if c == '\r' {
        seq!['\\', 'r']
    } else if (c as u32) < 0x20 {
        seq!['\\', 'u', '0', '0', hex_digit((c as u32 / 16) as int), hex_digit((c as u32 % 16) as int)]
    } else {
        seq![c]
    }
}

/// The escaped characters of a string, in order.
pub open spec fn json_escaped(s: Seq<char>) -> Seq<char>
    decreases s.len(),
{
    if s.len() == 0 {
        Seq::empty()
    } else {
        json_escaped(s.drop_last()) + json_escape(s.last())
    }
}

/// What `serde_json` writes for a string value: the escaped characters
/// between double quotes.
pub open spec fn json_string_literal(s: Seq<char>) -> Seq<char> {
    seq!['"'] + json_escaped(s) + seq!['"']
}

/// The SHA-256 digest of `data`.
pub uninterp spec fn sha256_of(data: Seq<u8>) -> Seq<u8>;

/// Appends the JSON escape of one character (see [`json_escape`]).
fn push_escape(out: &mut String, c: char)
    ensures
        final(out)@ == old(out)@ + json_escape(c),
{
    let ghost start = out@;
    if c == '"' {
        push_char(out, '\\');
        push_char(out, '"');
    } else if c == '\\' {
        push_char(out, '\\');
        push_char(out, '\\');
    } else if c == '\x08' {
        push_char(out, '\\');
        push_char(out, 'b');
    } else if c == '\t' {
        push_char(out, '\\');
        push_char(out, 't');
    } else if c == '\n' {
        push_char(out, '\\');
        push_char(out, 'n');
    } else if c == '\x0c' {
        push_char(out, '\\');
        push_char(out, 'f');
    } else if c == '\r' {
        push_char(out, '\\');
        push_char(out, 'r');
    } else if (c as u32) < 0x20 {
        let b = c as u8;
        push_char(out, '\\');
        push_char(out, 'u');
        push_char(out, '0');
        push_char(out, '0');
        push_char(out, hex_char(b / 16));
        push_char(out, hex_char(b % 16));
    } else {
        push_char(out, c);
    }
    assert(out@ =~= start + json_escape(c));
}

/// The JSON string literal of `s`, with the escapes `serde_json` writes for
/// a string value (see [`json_escape`]).
fn json_quote(s: &str) -> (r: String)
    ensures
        r@ == json_string_literal(s@),
{
    let v = chars_of(s);
    let n = v.len();
    let mut r = String::new();
    push_char(&mut r, '"');
    let mut i: usize = 0;
    while i < n
        invariant
            v@ == s@,
            n == v@.len(),
            i <= n,
            r@ == seq!['"'] + json_escaped(s@.take(i as int)),
        decreases n - i,
    {
        push_escape(&mut r, v[i]);
        assert(s@.take(i + 1).drop_last() =~= s@.take(i as int));
        assert(s@.take(i + 1).last() == v@[i as int]);
        i = i + 1;
    }
    assert(s@.take(n as int) =~= s@);
    push_char(&mut r, '"');
    r
}

/// `sha2::Sha256::digest`: the 32-byte SHA-256 digest of `data`.
#[verifier::external_body]
fn sha256(data: &[u8]) -> (r: Vec<u8>)
    ensures
        r@ == sha256_of(data@),
        r@.len() == 32,
{
    Sha256::digest(data).to_vec()
}

/// JSON `null` or the JSON literal of a string.
pub open spec fn json_opt_string(s: Option<Seq<char>>) -> Seq<char> {
    match s {
        Some(t) => json_string_literal(t),
        None => "null"@,
    }
}

/// JSON `null` or the decimal number.
pub open spec fn json_opt_number(n: Option<u32>) -> Seq<char> {
    match n {
        Some(v) => decimal(v as nat),
        None => "null"@,
    }
}

/// The name under which a reuse mode is serialised.
pub open spec fn reuse_name(r: SemanticReuse) -> Seq<char> {
    match r {
        SemanticReuse::Disabled => "Disabled"@,
        SemanticReuse::SafeReadOnly => "SafeReadOnly"@,
    }
}

/// The view of an optional string.
pub open spec fn opt_view(s: Option<String>) -> Option<Seq<char>> {
    match s {
        Some(t) => Some(t@),
        None => None,
    }
}

/// The canonical JSON of a request, in field order: schema tag, prompt and
/// system instructions with `\r\n` line endings turned into `\n`, model,
/// token limit, temperature bits, scope and reuse policy.
pub open spec fn canonical_json(r: CompletionRequest) -> Seq<char> {
    "{\"cache_schema\":\"request:v2\",\"prompt\":"@ + json_string_literal(crlf_to_lf(r.prompt@))
        + ",\"system\":"@ + json_opt_string(
        match r.system {
            Some(s) => Some(crlf_to_lf(s@)),
            None => None,
        },
    ) + ",\"model\":"@ + json_opt_string(opt_view(r.model)) + ",\"max_tokens\":"@
        + json_opt_number(r.max_tokens) + ",\"temperature_bits\":"@ + json_opt_number(
        r.temperature_bits,
    ) + ",\"cache_scope\":"@ + json_string_literal(r.cache_scope@)
        + ",\"policy\":{\"compatibility_key\":"@ + json_string_literal(
        r.cache_policy.compatibility_key@,
    ) + ",\"semantic_reuse\":\""@ + reuse_name(r.cache_policy.semantic_reuse) + "\"}}"@
}

/// The exact-cache key of a request: `v2:` and the lower-case hexadecimal
/// SHA-256 of the UTF-8 bytes of its canonical JSON.
pub open spec fn cache_key_text(r: CompletionRequest) -> Seq<char> {
    "v2:"@ + hex_lower(sha256_of(encode_utf8(canonical_json(r))))
}

/// Two requests share a cache identity when everything the canonical form
/// records agrees.
pub open spec fn same_contract(a: CompletionRequest, b: CompletionRequest) -> bool {
    &&& crlf_to_lf(a.prompt@) == crlf_to_lf(b.prompt@)
    &&& match (a.system, b.system) {
        (Some(x), Some(y)) => crlf_to_lf(x@) == crlf_to_lf(y@),
        (None, None) => true,
        _ => false,
    }
    &&& opt_view(a.model) == opt_view(b.model)
    &&& a.max_tokens == b.max_tokens
    &&& a.temperature_bits == b.temperature_bits
    &&& a.cache_scope@ == b.cache_scope@
    &&& a.cache_policy.compatibility_key@ == b.cache_policy.compatibility_key@
    &&& a.cache_policy.semantic_reuse == b.cache_policy.semantic_reuse
}

/// Requests with the same contract have the same cache key, whatever their
/// embeddings, and whatever line endings (`\r\n` or `\n`) their prompt and
/// system instructions use.
pub proof fn same_contract_same_key(a: CompletionRequest, b: CompletionRequest)
    requires
        same_contract(a, b),
    ensures
        canonical_json(a) == canonical_json(b),
        cache_key_text(a) == cache_key_text(b),
{
}

/// Escaping a non-empty string: its first character, then the rest.
proof fn escaped_front(s: Seq<char>)
    requires
        s.len() > 0,
    ensures
        json_escaped(s) == json_escape(s[0]) + json_escaped(s.drop_first()),
    decreases s.len(),
{
    if s.len() == 1 {
        assert(s.drop_last() =~= Seq::<char>::empty());
        assert(s.drop_first() =~= Seq::<char>::empty());
        assert(json_escaped(s) =~= json_escape(s[0]) + json_escaped(s.drop_first()));
    } else {
        let d = s.drop_last();
        escaped_front(d);
        assert(d.drop_first() =~= s.drop_first().drop_last());
        assert(s.drop_first().last() == s.last());
        assert(json_escaped(s) =~= json_escape(s[0]) + json_escaped(s.drop_first()));
    }
}

/// The shape of one escape: never a bare quote; a backslash escape is six
/// characters after `\u` and two otherwise; anything else is one character.
proof fn escape_shape(c: char)
    ensures
        json_escape(c).len() >= 1,
        json_escape(c)[0] != '"',
        json_escape(c)[0] == '\\' ==> json_escape(c).len() >= 2 && json_escape(c).len() == (
        if json_escape(c)[1] == 'u' {
            6int
        } else {
            2int
        }),
        json_escape(c)[0] != '\\' ==> json_escape(c).len() == 1,
{
}

/// Distinct characters have distinct escapes.
proof fn escape_injective(c: char, d: char)
    requires
        json_escape(c) == json_escape(d),
    ensures
        c == d,
{
    let e = json_escape(c);
    if e.len() == 6 {
        assert(e[4] == json_escape(d)[4]);
        assert(e[5] == json_escape(d)[5]);
        assert(c as u32 == 16 * (c as u32 / 16) + c as u32 % 16);
        assert(d as u32 == 16 * (d as u32 / 16) + d as u32 % 16);
    } else if e.len() == 2 {
        assert(e[1] == json_escape(d)[1]);
    } else {
        assert(e[0] == json_escape(d)[0]);
    }
}

/// One escape followed by more text is read back unambiguously.
proof fn escape_prefix(c: char, d: char, x: Seq<char>, y: Seq<char>)
    requires
        json_escape(c) + x == json_escape(d) + y,
    ensures
        c == d,
        x == y,
{
    escape_shape(c);
    escape_shape(d);
    let ec = json_escape(c);
    let ed = json_escape(d);
    let z = ec + x;
    assert(z[0] == ec[0]);
    assert((ed + y)[0] == ed[0]);
    if ec[0] == '\\' {
        assert(z[1] == ec[1]);
        assert((ed + y)[1] == ed[1]);
    }
    assert(ec.len() == ed.len());
    assert(ec =~= z.take(ec.len() as int));
    assert(ed =~= (ed + y).take(ed.len() as int));
    escape_injective(c, d);
    assert(x =~= z.skip(ec.len() as int));
    assert(y =~= (ed + y).skip(ed.len() as int));
}

/// Escaped text followed by a quote is read back unambiguously: the first
/// unescaped quote ends it.
proof fn escaped_then_quote(s: Seq<char>, t: Seq<char>, x: Seq<char>, y: Seq<char>)
    requires
        json_escaped(s) + x == json_escaped(t) + y,
        x.len() > 0,
        y.len() > 0,
        x[0] == '"',
        y[0] == '"',
    ensures
        s == t,
        x == y,
    decreases s.len() + t.len(),
{
    if s.len() == 0 {
        assert(json_escaped(s) =~= Seq::<char>::empty());
        assert(json_escaped(s) + x =~= x);
        if t.len() > 0 {
            escaped_front(t);
            escape_shape(t[0]);
            assert((json_escaped(t) + y)[0] == json_escape(t[0])[0]);
        } else {
            assert(json_escaped(t) + y =~= y);
            assert(s =~= t);
        }
    } else if t.len() == 0 {
        assert(json_escaped(t) =~= Seq::<char>::empty());
        assert(json_escaped(t) + y =~= y);
        escaped_front(s);
        escape_shape(s[0]);
        assert((json_escaped(s) + x)[0] == json_escape(s[0])[0]);
    } else {
        escaped_front(s);
        escaped_front(t);
        let rs = json_escaped(s.drop_first()) + x;
        let rt = json_escaped(t.drop_first()) + y;
        assert(json_escaped(s) + x =~= json_escape(s[0]) + rs);
        assert(json_escaped(t) + y =~= json_escape(t[0]) + rt);
        escape_prefix(s[0], t[0], rs, rt);
        escaped_then_quote(s.drop_first(), t.drop_first(), x, y);
        assert(s =~= seq![s[0]] + s.drop_first());
        assert(t =~= seq![t[0]] + t.drop_first());
    }
}

/// A JSON string literal followed by more text is read back unambiguously.
proof fn literal_prefix(s: Seq<char>, t: Seq<char>, x: Seq<char>, y: Seq<char>)
    requires
        json_string_literal(s) + x == json_string_literal(t) + y,
    ensures
        s == t,
        x == y,
{
    let qx = seq!['"'] + x;
    let qy = seq!['"'] + y;
    let a = json_escaped(s) + qx;
    let b = json_escaped(t) + qy;
    assert(json_string_literal(s) + x =~= seq!['"'] + a);
    assert(json_string_literal(t) + y =~= seq!['"'] + b);
    assert(a =~= (seq!['"'] + a).drop_first());
    assert(b =~= (seq!['"'] + b).drop_first());
    escaped_then_quote(s, t, qx, qy);
    assert(x =~= qx.drop_first());
    assert(y =~= qy.drop_first());
}

/// An ASCII decimal digit.
pub open spec fn is_digit(c: char) -> bool {
    '0' <= c && c <= '9'
}

/// A decimal rendering is a non-empty run of digits, one long exactly below
/// ten.
proof fn decimal_shape(n: nat)
    ensures
        decimal(n).len() >= 1,
        decimal(n).len() == 1 <==> n < 10,
        forall|i: int| 0 <= i < decimal(n).len() ==> is_digit(#[trigger] decimal(n)[i]),
    decreases n,
{
    if n >= 10 {
        decimal_shape(n / 10);
    }
}

proof fn digit_char_injective(x: int, y: int)
    requires
        0 <= x < 10,
        0 <= y < 10,
        digit_char(x) == digit_char(y),
    ensures
        x == y,
{
    assert(digit_char(x) as u32 == 48 + x);
    assert(digit_char(y) as u32 == 48 + y);
}

/// Distinct numbers have distinct decimal renderings.
proof fn decimal_injective(a: nat, b: nat)
    requires
        decimal(a) == decimal(b),
    ensures
        a == b,
    decreases a,
{
    decimal_shape(a);
    decimal_shape(b);
    if a >= 10 {
        let da = decimal(a);
        assert(da.last() == decimal(b).last());
        assert(da.drop_last() == decimal(b).drop_last());
        assert(decimal(a / 10) =~= da.drop_last());
        assert(decimal(b / 10) =~= decimal(b).drop_last());
        decimal_injective(a / 10, b / 10);
        digit_char_injective((a % 10) as int, (b % 10) as int);
    } else {
        assert(b < 10);
        assert(decimal(a)[0] == digit_char(a as int));
        assert(decimal(b)[0] == digit_char(b as int));
        assert(decimal(a)[0] == decimal(b)[0]);
        digit_char_injective(a as int, b as int);
    }
}

/// A decimal rendering followed by a non-digit is read back unambiguously.
proof fn decimal_prefix(a: nat, b: nat, x: Seq<char>, y: Seq<char>)
    requires
        decimal(a) + x == decimal(b) + y,
        x.len() > 0,
        y.len() > 0,
        !is_digit(x[0]),
        !is_digit(y[0]),
    ensures
        a == b,
        x == y,
{
    decimal_shape(a);
    decimal_shape(b);
    let da = decimal(a);
    let db = decimal(b);
    let z = da + x;
    if da.len() < db.len() {
        assert(z[da.len() as int] == x[0]);
        assert((db + y)[da.len() as int] == db[da.len() as int]);
    }
    if db.len() < da.len() {
        assert((db + y)[db.len() as int] == y[0]);
        assert(z[db.len() as int] == da[db.len() as int]);
    }
    assert(da =~= z.take(da.len() as int));
    assert(db =~= (db + y).take(db.len() as int));
    decimal_injective(a, b);
    assert(x =~= z.skip(da.len() as int));
    assert(y =~= (db + y).skip(db.len() as int));
}

/// A constant prefix can be taken off both sides.
proof fn strip_prefix(p: Seq<char>, x: Seq<char>, y: Seq<char>)
    requires
        p + x == p + y,
    ensures
        x == y,
{
    assert(x =~= (p + x).skip(p.len() as int));
    assert(y =~= (p + y).skip(p.len() as int));
}

/// An optional JSON string followed by more text is read back
/// unambiguously: `null` and a literal differ in their first character.
proof fn opt_string_prefix(u: Option<Seq<char>>, v: Option<Seq<char>>, x: Seq<char>, y: Seq<char>)
    requires
        json_opt_string(u) + x == json_opt_string(v) + y,
    ensures
        u == v,
        x == y,
{
    reveal_strlit("null");
    match (u, v) {
        (Some(s), Some(t)) => {
            literal_prefix(s, t, x, y);
        },
        (None, None) => {
            strip_prefix("null"@, x, y);
        },
        (Some(s), None) => {
            assert((json_opt_string(u) + x)[0] == '"');
            assert((json_opt_string(v) + y)[0] == 'n');
        },
        (None, Some(t)) => {
            assert((json_opt_string(u) + x)[0] == 'n');
            assert((json_opt_string(v) + y)[0] == '"');
        },
    }
}

/// An optional JSON number followed by a non-digit is read back
/// unambiguously.
proof fn opt_number_prefix(u: Option<u32>, v: Option<u32>, x: Seq<char>, y: Seq<char>)
    requires
        json_opt_number(u) + x == json_opt_number(v) + y,
        x.len() > 0,
        y.len() > 0,
        !is_digit(x[0]),
        !is_digit(y[0]),
    ensures
        u == v,
        x == y,
{
    reveal_strlit("null");
    match (u, v) {
        (Some(m), Some(n)) => {
            decimal_prefix(m as nat, n as nat, x, y);
        },
        (None, None) => {
            strip_prefix("null"@, x, y);
        },
        (Some(m), None) => {
            decimal_shape(m as nat);
            assert((json_opt_number(u) + x)[0] == decimal(m as nat)[0]);
            assert((json_opt_number(v) + y)[0] == 'n');
        },
        (None, Some(n)) => {
            decimal_shape(n as nat);
            assert((json_opt_number(v) + y)[0] == decimal(n as nat)[0]);
            assert((json_opt_number(u) + x)[0] == 'n');
        },
    }
}

/// The system instructions as the canonical form records them.
pub open spec fn norm_system(r: CompletionRequest) -> Option<Seq<char>> {
    match r.system {
        Some(s) => Some(crlf_to_lf(s@)),
        None => None,
    }
}

spec fn tail_reuse(r: CompletionRequest) -> Seq<char> {
    ",\"semantic_reuse\":\""@ + (reuse_name(r.cache_policy.semantic_reuse) + "\"}}"@)
}

spec fn tail_key(r: CompletionRequest) -> Seq<char> {
    ",\"policy\":{\"compatibility_key\":"@ + (json_string_literal(
        r.cache_policy.compatibility_key@,
    ) + tail_reuse(r))
}

spec fn tail_scope(r: CompletionRequest) -> Seq<char> {
    ",\"cache_scope\":"@ + (json_string_literal(r.cache_scope@) + tail_key(r))
}

spec fn tail_temperature(r: CompletionRequest) -> Seq<char> {
    ",\"temperature_bits\":"@ + (json_opt_number(r.temperature_bits) + tail_scope(r))
}

spec fn tail_tokens(r: CompletionRequest) -> Seq<char> {
    ",\"max_tokens\":"@ + (json_opt_number(r.max_tokens) + tail_temperature(r))
}

spec fn tail_model(r: CompletionRequest) -> Seq<char> {
    ",\"model\":"@ + (json_opt_string(opt_view(r.model)) + tail_tokens(r))
}

spec fn tail_system(r: CompletionRequest) -> Seq<char> {
    ",\"system\":"@ + (json_opt_string(norm_system(r)) + tail_model(r))
}

proof fn concat_assoc(x: Seq<char>, y: Seq<char>, z: Seq<char>)
    ensures
        (x + y) + z == x + (y + z),
{
    assert((x + y) + z =~= x + (y + z));
}

proof fn canonical_as_tails(r: CompletionRequest)
    ensures
        canonical_json(r) == "{\"cache_schema\":\"request:v2\",\"prompt\":"@ + (
        json_string_literal(crlf_to_lf(r.prompt@)) + tail_system(r)),
{
    let p0 = "{\"cache_schema\":\"request:v2\",\"prompt\":"@;
    let l = json_string_literal(crlf_to_lf(r.prompt@));
    let s1 = ",\"system\":"@;
    let os = json_opt_string(norm_system(r));
    let s2 = ",\"model\":"@;
    let om = json_opt_string(opt_view(r.model));
    let s3 = ",\"max_tokens\":"@;
    let n1 = json_opt_number(r.max_tokens);
    let s4 = ",\"temperature_bits\":"@;
    let n2 = json_opt_number(r.temperature_bits);
    let s5 = ",\"cache_scope\":"@;
    let lsc = json_string_literal(r.cache_scope@);
    let s6 = ",\"policy\":{\"compatibility_key\":"@;
    let lk = json_string_literal(r.cache_policy.compatibility_key@);
    let s7 = ",\"semantic_reuse\":\""@;
    let rn = reuse_name(r.cache_policy.semantic_reuse);
    let e = "\"}}"@;
    let a1 = p0 + l;
    let a2 = a1 + s1;
    let a3 = a2 + os;
    let a4 = a3 + s2;
    let a5 = a4 + om;
    let a6 = a5 + s3;
    let a7 = a6 + n1;
    let a8 = a7 + s4;
    let a9 = a8 + n2;
    let a10 = a9 + s5;
    let a11 = a10 + lsc;
    let a12 = a11 + s6;
    let a13 = a12 + lk;
    let a14 = a13 + s7;
    let a15 = a14 + rn;
    assert(canonical_json(r) == a15 + e);
    concat_assoc(a14, rn, e);
    concat_assoc(a13, s7, rn + e);
    assert(s7 + (rn + e) == tail_reuse(r));
    concat_assoc(a12, lk, tail_reuse(r));
    concat_assoc(a11, s6, lk + tail_reuse(r));
    assert(s6 + (lk + tail_reuse(r)) == tail_key(r));
    concat_assoc(a10, lsc, tail_key(r));
    concat_assoc(a9, s5, lsc + tail_key(r));
    assert(s5 + (lsc + tail_key(r)) == tail_scope(r));
    concat_assoc(a8, n2, tail_scope(r));
    concat_assoc(a7, s4, n2 + tail_scope(r));
    assert(s4 + (n2 + tail_scope(r)) == tail_temperature(r));
    concat_assoc(a6, n1, tail_temperature(r));
    concat_assoc(a5, s3, n1 + tail_temperature(r));
    assert(s3 + (n1 + tail_temperature(r)) == tail_tokens(r));
    concat_assoc(a4, om, tail_tokens(r));
    concat_assoc(a3, s2, om + tail_tokens(r));
    assert(s2 + (om + tail_tokens(r)) == tail_model(r));
    concat_assoc(a2, os, tail_model(r));
    concat_assoc(a1, s1, os + tail_model(r));
    assert(s1 + (os + tail_model(r)) == tail_system(r));
    concat_assoc(p0, l, tail_system(r));
}

/// Requests with different contracts have different canonical forms: every
/// field the canonical form records (line-normalised prompt and system
/// instructions, model, token limit, temperature bits, scope, compatibility
/// key and reuse mode) can be read back from it.
pub proof fn distinct_contracts_distinct_json(a: CompletionRequest, b: CompletionRequest)
    requires
        !same_contract(a, b),
    ensures
        canonical_json(a) != canonical_json(b),
{
    if canonical_json(a) == canonical_json(b) {
        reveal_strlit(",\"temperature_bits\":");
        reveal_strlit(",\"cache_scope\":");
        reveal_strlit("Disabled");
        reveal_strlit("SafeReadOnly");
        canonical_as_tails(a);
        canonical_as_tails(b);
        strip_prefix(
            "{\"cache_schema\":\"request:v2\",\"prompt\":"@,
            json_string_literal(crlf_to_lf(a.prompt@)) + tail_system(a),
            json_string_literal(crlf_to_lf(b.prompt@)) + tail_system(b),
        );
        literal_prefix(crlf_to_lf(a.prompt@), crlf_to_lf(b.prompt@), tail_system(a), tail_system(b));
        strip_prefix(
            ",\"system\":"@,
            json_opt_string(norm_system(a)) + tail_model(a),
            json_opt_string(norm_system(b)) + tail_model(b),
        );
        opt_string_prefix(norm_system(a), norm_system(b), tail_model(a), tail_model(b));
        strip_prefix(
            ",\"model\":"@,
            json_opt_string(opt_view(a.model)) + tail_tokens(a),
            json_opt_string(opt_view(b.model)) + tail_tokens(b),
        );
        opt_string_prefix(opt_view(a.model), opt_view(b.model), tail_tokens(a), tail_tokens(b));
        strip_prefix(
            ",\"max_tokens\":"@,
            json_opt_number(a.max_tokens) + tail_temperature(a),
            json_opt_number(b.max_tokens) + tail_temperature(b),
        );
        assert(tail_temperature(a)[0] == ',');
        assert(tail_temperature(b)[0] == ',');
        opt_number_prefix(a.max_tokens, b.max_tokens, tail_temperature(a), tail_temperature(b));
        strip_prefix(
            ",\"temperature_bits\":"@,
            json_opt_number(a.temperature_bits) + tail_scope(a),
            json_opt_number(b.temperature_bits) + tail_scope(b),
        );
        assert(tail_scope(a)[0] == ',');
        assert(tail_scope(b)[0] == ',');
        opt_number_prefix(a.temperature_bits, b.temperature_bits, tail_scope(a), tail_scope(b));
        strip_prefix(
            ",\"cache_scope\":"@,
            json_string_literal(a.cache_scope@) + tail_key(a),
            json_string_literal(b.cache_scope@) + tail_key(b),
        );
        literal_prefix(a.cache_scope@, b.cache_scope@, tail_key(a), tail_key(b));
        strip_prefix(
            ",\"policy\":{\"compatibility_key\":"@,
            json_string_literal(a.cache_policy.compatibility_key@) + tail_reuse(a),
            json_string_literal(b.cache_policy.compatibility_key@) + tail_reuse(b),
        );
        literal_prefix(
            a.cache_policy.compatibility_key@,
            b.cache_policy.compatibility_key@,
            tail_reuse(a),
            tail_reuse(b),
        );
        strip_prefix(
            ",\"semantic_reuse\":\""@,
            reuse_name(a.cache_policy.semantic_reuse) + "\"}}"@,
            reuse_name(b.cache_policy.semantic_reuse) + "\"}}"@,
        );
        let ra = reuse_name(a.cache_policy.semantic_reuse) + "\"}}"@;
        let rb = reuse_name(b.cache_policy.semantic_reuse) + "\"}}"@;
        assert(ra[0] == reuse_name(a.cache_policy.semantic_reuse)[0]);
        assert(rb[0] == reuse_name(b.cache_policy.semantic_reuse)[0]);
        assert(a.cache_policy.semantic_reuse == b.cache_policy.semantic_reuse);
        assert(same_contract(a, b));
    }
}

proof fn hex_digit_injective(x: int, y: int)
    requires
        0 <= x < 16,
        0 <= y < 16,
        hex_digit(x) == hex_digit(y),
    ensures
        x == y,
{
    assert(hex_digit(x) as u32 == if x < 10 { 48 + x } else { 87 + x });
    assert(hex_digit(y) as u32 == if y < 10 { 48 + y } else { 87 + y });
}

/// Distinct byte strings have distinct hexadecimal renderings.
proof fn hex_lower_injective(x: Seq<u8>, y: Seq<u8>)
    requires
        hex_lower(x) == hex_lower(y),
    ensures
        x == y,
    decreases x.len(),
{
    hex_lower_len(x);
    hex_lower_len(y);
    if x.len() > 0 {
        let hx = hex_lower(x);
        let n = hx.len();
        hex_lower_len(x.drop_last());
        hex_lower_len(y.drop_last());
        assert(hx[n - 2] == hex_lower(y)[n - 2]);
        assert(hx[n - 1] == hex_lower(y)[n - 1]);
        hex_digit_injective((x.last() / 16) as int, (y.last() / 16) as int);
        hex_digit_injective((x.last() % 16) as int, (y.last() % 16) as int);
        assert(x.last() == y.last());
        assert(hex_lower(x.drop_last()) =~= hx.take(n - 2));
        assert(hex_lower(y.drop_last()) =~= hex_lower(y).take(n - 2));
        hex_lower_injective(x.drop_last(), y.drop_last());
        assert(x =~= x.drop_last().push(x.last()));
        assert(y =~= y.drop_last().push(y.last()));
    } else {
        assert(x =~= y);
    }
}

/// Requests with different contracts get different cache keys, provided
/// SHA-256 does not collide on their two canonical forms.
pub proof fn distinct_contracts_distinct_keys(a: CompletionRequest, b: CompletionRequest)
    requires
        !same_contract(a, b),
        encode_utf8(canonical_json(a)) != encode_utf8(canonical_json(b)) ==> sha256_of(
            encode_utf8(canonical_json(a)),
        ) != sha256_of(encode_utf8(canonical_json(b))),
    ensures
        cache_key_text(a) != cache_key_text(b),
{
    distinct_contracts_distinct_json(a, b);
    encode_utf8_decode_utf8(canonical_json(a));
    encode_utf8_decode_utf8(canonical_json(b));
    let da = sha256_of(encode_utf8(canonical_json(a)));
    let db = sha256_of(encode_utf8(canonical_json(b)));
    if cache_key_text(a) == cache_key_text(b) {
        strip_prefix("v2:"@, hex_lower(da), hex_lower(db));
        hex_lower_injective(da, db);
    }
}

/// Distinct strings have distinct JSON literals: quoting loses no
/// character, at any position.
pub proof fn json_literal_injective(s: Seq<char>, t: Seq<char>)
    requires
        json_string_literal(s) == json_string_literal(t),
    ensures
        s == t,
{
    assert(json_string_literal(s) + Seq::<char>::empty() =~= json_string_literal(s));
    assert(json_string_literal(t) + Seq::<char>::empty() =~= json_string_literal(t));
    literal_prefix(s, t, Seq::<char>::empty(), Seq::<char>::empty());
}

/// Requests that differ only in their prompt, at any position, have
/// different canonical forms, provided the prompts still differ after
/// their `\r\n` line endings become `\n`.
pub proof fn distinct_prompts_distinct_json(a: CompletionRequest, b: CompletionRequest)
    requires
        crlf_to_lf(a.prompt@) != crlf_to_lf(b.prompt@),
    ensures
        canonical_json(a) != canonical_json(b),
{
    distinct_contracts_distinct_json(a, b);
}

/// The hexadecimal rendering has two digits per byte.
pub proof fn hex_lower_len(b: Seq<u8>)
    ensures
        hex_lower(b).len() == 2 * b.len(),
    decreases b.len(),
{
    if b.len() > 0 {
        hex_lower_len(b.drop_last());
    }
}

fn push_json_opt_string(out: &mut String, s: &Option<String>, normalize: bool)
    ensures
        final(out)@ == old(out)@ + json_opt_string(
            match s {
                Some(t) => Some(if normalize { crlf_to_lf(t@) } else { t@ }),
                None => None,
            },
        ),
{
    match s {
        Some(t) => {
            if normalize {
                let n = normalize_newlines(t.as_str());
                out.append(json_quote(n.as_str()).as_str());
            } else {
                out.append(json_quote(t.as_str()).as_str());
            }
        },
        None => {
            out.append("null");
        },
    }
}

fn push_json_opt_number(out: &mut String, n: Option<u32>)
    ensures
        final(out)@ == old(out)@ + json_opt_number(n),
{
    match n {
        Some(v) => {
            push_decimal(out, v);
        },
        None => {
            out.append("null");
        },
    }
}

/// The canonical JSON form of a request (see [`canonical_json`]).
pub fn canonical_request_json(request: &CompletionRequest) -> (j: String)
    ensures
        j@ == canonical_json(*request),
{
    let mut j = String::from_str("{\"cache_schema\":\"request:v2\",\"prompt\":");
    let prompt = normalize_newlines(request.prompt.as_str());
    j.append(json_quote(prompt.as_str()).as_str());
    j.append(",\"system\":");
    push_json_opt_string(&mut j, &request.system, true);
    j.append(",\"model\":");
    push_json_opt_string(&mut j, &request.model, false);
    j.append(",\"max_tokens\":");
    push_json_opt_number(&mut j, request.max_tokens);
    j.append(",\"temperature_bits\":");
    push_json_opt_number(&mut j, request.temperature_bits);
    j.append(",\"cache_scope\":");
    j.append(json_quote(request.cache_scope.as_str()).as_str());
    j.append(",\"policy\":{\"compatibility_key\":");
    j.append(json_quote(request.cache_policy.compatibility_key.as_str()).as_str());
    j.append(",\"semantic_reuse\":\"");
    match request.cache_policy.semantic_reuse {
        SemanticReuse::Disabled => j.append("Disabled"),
        SemanticReuse::SafeReadOnly => j.append("SafeReadOnly"),
    }
    j.append("\"}}");
    assert(match request.system {
        Some(t) => Some(crlf_to_lf(t@)),
        None => None::<Seq<char>>,
    } == match request.system {
        Some(s) => Some(crlf_to_lf(s@)),
        None => None,
    });
    assert(j@ =~= canonical_json(*request));
    j
}

/// The key for a digest: `v2:` and the digest in lower-case hexadecimal.
pub fn key_from_digest(digest: &[u8]) -> (k: String)
    ensures
        k@ == "v2:"@ + hex_lower(digest@),
        k@.len() == 3 + 2 * digest@.len(),
{
    let mut k = String::from_str("v2:");
    push_hex(&mut k, digest);
    proof {
        reveal_strlit("v2:");
        hex_lower_len(digest@);
    }
    k
}

/// The exact-cache key of `request`: `v2:` followed by 64 lower-case
/// hexadecimal digits of the SHA-256 of its canonical JSON.
pub fn cache_key(request: &CompletionRequest) -> (k: String)
    ensures
        k@ == cache_key_text(*request),
        k@.len() == 67,
        k@.take(3) == "v2:"@,
{
    let json = canonical_request_json(request);
    let digest = sha256(json.as_str().as_bytes());
    let k = key_from_digest(digest.as_slice());
    proof {
        reveal_strlit("v2:");
        assert(k@.take(3) =~= "v2:"@);
    }
    k
}

} // verus!
