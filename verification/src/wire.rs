//! JSON wire-format primitives.
//!
//! Spec functions in this module define, character by character, the wire
//! text that the library emits: decimal number tokens, escaped JSON strings,
//! and the bodies of JSON objects and arrays. Executable helpers build those
//! strings and are proved to match the spec functions exactly.

use vstd::prelude::*;

verus! {

/// The decimal digit character for `d` (0 through 9).
pub open spec fn digit_char(d: nat) -> char {
    if d == 0 {
        '0'
    } else if d == 1 {
        '1'
    } else if d == 2 {
        '2'
    } else if d == 3 {
        '3'
    } else if d == 4 {
        '4'
    } else if d == 5 {
        '5'
    } else if d == 6 {
        '6'
    } else if d == 7 {
        '7'
    } else if d == 8 {
        '8'
    } else {
        '9'
    }
}

/// The decimal digit string of `n`, without sign and without leading zeros
/// (except that zero itself is the single character `0`).
pub open spec fn u64_wire(n: nat) -> Seq<char>
    decreases n,
{
    if n < 10 {
        seq![digit_char(n)]
    } else {
        u64_wire(n / 10).push(digit_char(n % 10))
    }
}

/// Relies on String::push: appends one character at the end of the string.
#[verifier::external_body]
fn push_char(s: &mut String, c: char)
    ensures
        final(s)@ == old(s)@.push(c),
{
    s.push(c);
}

fn digit_of(d: u64) -> (c: char)
    requires
        d < 10,
    ensures
        c == digit_char(d as nat),
{
    match d {
        0 => '0',
        1 => '1',
        2 => '2',
        3 => '3',
        4 => '4',
        5 => '5',
        6 => '6',
        7 => '7',
        8 => '8',
        _ => '9',
    }
}

fn push_u64(out: &mut String, n: u64)
    ensures
        final(out)@ == old(out)@ + u64_wire(n as nat),
    decreases n,
{
    if n < 10 {
        push_char(out, digit_of(n));
        assert(out@ =~= old(out)@ + u64_wire(n as nat));
    } else {
        push_u64(out, n / 10);
        push_char(out, digit_of(n % 10));
        assert(out@ =~= old(out)@ + u64_wire(n as nat));
    }
}

/// The decimal token for an unsigned integer.
pub fn json_u64(n: u64) -> (r: String)
    ensures
        r@ == u64_wire(n as nat),
{
    let mut out = String::new();
    push_u64(&mut out, n);
    assert(out@ =~= u64_wire(n as nat));
    out
}

/// The decimal token for a signed integer: a `-` sign followed by the digit
/// string of the magnitude, or the digit string alone when non-negative.
pub open spec fn i64_wire(i: int) -> Seq<char> {
    if i < 0 {
        seq!['-'] + u64_wire((-i) as nat)
    } else {
        u64_wire(i as nat)
    }
}

pub fn json_i64(i: i64) -> (r: String)
    ensures
        r@ == i64_wire(i as int),
{
    let mut out = String::new();
    if i < 0 {
        push_char(&mut out, '-');
        let m: u64 = (-(i as i128)) as u64;
        push_u64(&mut out, m);
        assert(out@ =~= i64_wire(i as int));
    } else {
        push_u64(&mut out, i as u64);
        assert(out@ =~= i64_wire(i as int));
    }
    out
}

/// A decimal number with a fixed number of fractional digits: its value is
/// `mantissa / 10^scale`, negated when `negative` is set. It stands in for
/// fractional wire values (coordinates, opacities, gaps) and serializes as a
/// plain JSON number token such as `-2.05`, never as a string.
#[derive(Debug, Clone, Copy, PartialEq, Eq, Structural)]
pub struct DecNum {
    pub negative: bool,
    pub mantissa: u64,
    pub scale: u32,
}

impl DecNum {
    /// A decimal number worth `mantissa / 10^scale`, negated when `negative`
    /// is set.
    pub fn new(negative: bool, mantissa: u64, scale: u32) -> (r: DecNum)
        ensures
            r == (DecNum { negative, mantissa, scale }),
    {
        DecNum { negative, mantissa, scale }
    }

    /// A decimal number worth the integer `i`.
    pub fn from_i64(i: i64) -> (r: DecNum)
        ensures
            r.negative == (i < 0),
            r.mantissa == if i < 0 { -(i as int) } else { i as int },
            r.scale == 0,
    {
        if i < 0 {
            DecNum { negative: true, mantissa: (-(i as i128)) as u64, scale: 0 }
        } else {
            DecNum { negative: false, mantissa: i as u64, scale: 0 }
        }
    }
}

pub open spec fn pow10(k: nat) -> nat
    decreases k,
{
    if k == 0 {
        1
    } else {
        10 * pow10((k - 1) as nat)
    }
}

proof fn lemma_pow10_pos(k: nat)
    ensures
        pow10(k) >= 1,
    decreases k,
{
    if k > 0 {
        lemma_pow10_pos((k - 1) as nat);
    }
}

proof fn lemma_pow10_mono(j: nat, k: nat)
    requires
        j <= k,
    ensures
        pow10(j) <= pow10(k),
    decreases k,
{
    if j < k {
        lemma_pow10_mono(j, (k - 1) as nat);
        lemma_pow10_pos((k - 1) as nat);
    }
}

proof fn lemma_pow10_20_exceeds_u64()
    ensures
        pow10(20) > u64::MAX,
        pow10(19) == 10_000_000_000_000_000_000,
{
    reveal_with_fuel(pow10, 21);
}

/// The digit string of `x` has at most `k` digits when `x < 10^k`.
proof fn lemma_u64_wire_len(x: nat, k: nat)
    requires
        x < pow10(k),
        k >= 1,
    ensures
        u64_wire(x).len() <= k,
    decreases k,
{
    if x < 10 {
    } else {
        if k == 1 {
            assert(pow10(1) == 10) by {
                reveal_with_fuel(pow10, 3);
            }
        }
        assert(pow10(k) == 10 * pow10((k - 1) as nat));
        lemma_u64_wire_len(x / 10, (k - 1) as nat);
    }
}

fn pow10_u64(k: u32) -> (r: u64)
    requires
        k <= 19,
    ensures
        r as nat == pow10(k as nat),
{
    proof {
        lemma_pow10_20_exceeds_u64();
    }
    let mut p: u64 = 1;
    let mut i: u32 = 0;
    while i < k
        invariant
            i <= k <= 19,
            p as nat == pow10(i as nat),
            pow10(19) == 10_000_000_000_000_000_000,
        decreases k - i,
    {
        proof {
            lemma_pow10_mono((i + 1) as nat, 19);
        }
        p = p * 10;
        i = i + 1;
    }
    p
}

/// `s` left-padded with `0` characters to width `w` (unchanged when already
/// at least that wide).
pub open spec fn zero_pad(s: Seq<char>, w: nat) -> Seq<char> {
    if s.len() >= w {
        s
    } else {
        Seq::new((w - s.len()) as nat, |i: int| '0') + s
    }
}

/// The wire token of a decimal number: an optional `-` sign, the integer
/// part's digits, and — when `scale` is positive — a decimal point followed
/// by exactly `scale` fractional digits.
pub open spec fn dec_wire(d: DecNum) -> Seq<char> {
    let sign: Seq<char> = if d.negative {
        seq!['-']
    } else {
        Seq::empty()
    };
    if d.scale == 0 {
        sign + u64_wire(d.mantissa as nat)
    } else {
        let p = pow10(d.scale as nat);
        sign + u64_wire((d.mantissa as nat) / p) + seq!['.'] + zero_pad(
            u64_wire((d.mantissa as nat) % p),
            d.scale as nat,
        )
    }
}

/// The decimal token for a [`DecNum`].
pub fn json_dec(d: &DecNum) -> (r: String)
    ensures
        r@ == dec_wire(*d),
{
    let mut out = String::new();
    if d.negative {
        push_char(&mut out, '-');
    }
    if d.scale == 0 {
        push_u64(&mut out, d.mantissa);
        assert(out@ =~= dec_wire(*d));
        out
    } else {
        let (ip, fm): (u64, u64) = if d.scale <= 19 {
            let p = pow10_u64(d.scale);
            proof {
                lemma_pow10_pos(d.scale as nat);
            }
            (d.mantissa / p, d.mantissa % p)
        } else {
            proof {
                lemma_pow10_20_exceeds_u64();
                lemma_pow10_mono(20, d.scale as nat);
                vstd::arithmetic::div_mod::lemma_basic_div(
                    d.mantissa as int,
                    pow10(d.scale as nat) as int,
                );
                vstd::arithmetic::div_mod::lemma_small_mod(
                    d.mantissa as nat,
                    pow10(d.scale as nat),
                );
            }
            (0, d.mantissa)
        };
        push_u64(&mut out, ip);
        push_char(&mut out, '.');
        let ghost before_frac = out@;
        let fs = json_u64(fm);
        let len = fs.as_str().unicode_len();
        proof {
            lemma_pow10_pos(d.scale as nat);
            lemma_u64_wire_len(fm as nat, d.scale as nat);
        }
        let mut k = len;
        while k < d.scale as usize
            invariant
                len <= k,
                len <= d.scale as usize ==> k <= d.scale as usize,
                out@ == before_frac + Seq::new((k - len) as nat, |i: int| '0'),
            decreases d.scale as int - k,
        {
            push_char(&mut out, '0');
            assert(out@ =~= before_frac + Seq::new((k + 1 - len) as nat, |i: int| '0'));
            k = k + 1;
        }
        assert(k == d.scale as usize);
        out.append(fs.as_str());
        assert(out@ =~= before_frac + zero_pad(u64_wire(fm as nat), d.scale as nat));
        assert(before_frac =~= (if d.negative {
            seq!['-']
        } else {
            Seq::<char>::empty()
        }) + u64_wire((d.mantissa as nat) / pow10(d.scale as nat)) + seq!['.']);
        assert(out@ =~= dec_wire(*d));
        out
    }
}

/// The lower-case hexadecimal digit character for `d` (0 through 15).
pub open spec fn hex_char(d: nat) -> char {
    if d < 10 {
        digit_char(d)
    } else if d == 10 {
        'a'
    } else if d == 11 {
        'b'
    } else if d == 12 {
        'c'
    } else if d == 13 {
        'd'
    } else if d == 14 {
        'e'
    } else {
        'f'
    }
}

fn hex_of(d: u32) -> (c: char)
    requires
        d < 16,
    ensures
        c == hex_char(d as nat),
{
    if d < 10 {
        digit_of(d as u64)
    } else {
        match d {
            10 => 'a',
            11 => 'b',
            12 => 'c',
            13 => 'd',
            14 => 'e',
            _ => 'f',
        }
    }
}

/// The JSON escape of one character: quotes and backslashes get a backslash,
/// the named control characters get their short escapes, every other control
/// character below space gets a `\u00..` escape, and all remaining
/// characters stand for themselves.
pub open spec fn esc_char(c: char) -> Seq<char> {
    if c == '"' {
        seq!['\\', '"']
    } else if c == '\\' {
        seq!['\\', '\\']
    } else if c == '\u{08}' {
        seq!['\\', 'b']
    } else if c == '\t' {
        seq!['\\', 't']
    } else if c == '\n' {
        seq!['\\', 'n']
    } else if c == '\u{0C}' {
        seq!['\\', 'f']
    } else if c == '\r' {
        seq!['\\', 'r']
    } else if (c as u32) < 0x20 {
        seq!['\\', 'u', '0', '0', hex_char(((c as u32) / 16) as nat), hex_char(
            ((c as u32) % 16) as nat,
        )]
    } else {
        seq![c]
    }
}

/// The JSON escape of a whole character sequence.
pub open spec fn esc(s: Seq<char>) -> Seq<char>
    decreases s.len(),
{
    if s.len() == 0 {
        Seq::empty()
    } else {
        esc(s.drop_last()) + esc_char(s.last())
    }
}

fn push_esc_char(out: &mut String, c: char)
    ensures
        final(out)@ == old(out)@ + esc_char(c),
{
    if c == '"' {
        push_char(out, '\\');
        push_char(out, '"');
    } else if c == '\\' {
        push_char(out, '\\');
        push_char(out, '\\');
    } else if c == '\u{08}' {
        push_char(out, '\\');
        push_char(out, 'b');
    } else if c == '\t' {
        push_char(out, '\\');
        push_char(out, 't');
    } else if c == '\n' {
        push_char(out, '\\');
        push_char(out, 'n');
    } else if c == '\u{0C}' {
        push_char(out, '\\');
        push_char(out, 'f');
    } else if c == '\r' {
        push_char(out, '\\');
        push_char(out, 'r');
    } else if (c as u32) < 0x20 {
        let b = c as u32;
        push_char(out, '\\');
        push_char(out, 'u');
        push_char(out, '0');
        push_char(out, '0');
        push_char(out, hex_of(b / 16));
        push_char(out, hex_of(b % 16));
    } else {
        push_char(out, c);
    }
    assert(out@ =~= old(out)@ + esc_char(c));
}

fn push_esc(out: &mut String, s: &str)
    ensures
        final(out)@ == old(out)@ + esc(s@),
{
    let n = s.unicode_len();
    let mut i: usize = 0;
    while i < n
        invariant
            i <= n,
            n == s@.len(),
            out@ == old(out)@ + esc(s@.take(i as int)),
        decreases n - i,
    {
        let c = s.get_char(i);
        push_esc_char(out, c);
        proof {
            assert(s@.take(i + 1).drop_last() =~= s@.take(i as int));
            assert(s@.take(i + 1).last() == c);
        }
        i = i + 1;
    }
    proof {
        assert(s@.take(n as int) =~= s@);
    }
}

/// A quoted, escaped JSON string token.
pub open spec fn str_wire(s: Seq<char>) -> Seq<char> {
    seq!['"'] + esc(s) + seq!['"']
}

/// The quoted JSON string token for `s`.
pub fn json_string(s: &str) -> (r: String)
    ensures
        r@ == str_wire(s@),
{
    let mut out = String::new();
    push_char(&mut out, '"');
    push_esc(&mut out, s);
    push_char(&mut out, '"');
    assert(out@ =~= str_wire(s@));
    out
}

/// The JSON boolean token.
pub open spec fn bool_wire(b: bool) -> Seq<char> {
    if b {
        "true"@
    } else {
        "false"@
    }
}

pub fn json_bool(b: bool) -> (r: &'static str)
    ensures
        r@ == bool_wire(b),
{
    if b {
        "true"
    } else {
        "false"
    }
}

/// One `"key":value` member of a JSON object, for a pair of a raw key and an
/// already-rendered value fragment.
pub open spec fn field_wire(f: (Seq<char>, Seq<char>)) -> Seq<char> {
    str_wire(f.0) + seq![':'] + f.1
}

/// The comma-separated members of a JSON object, without the braces.
pub open spec fn obj_inner(fs: Seq<(Seq<char>, Seq<char>)>) -> Seq<char>
    decreases fs.len(),
{
    if fs.len() == 0 {
        Seq::empty()
    } else if fs.len() == 1 {
        field_wire(fs[0])
    } else {
        obj_inner(fs.drop_last()) + seq![','] + field_wire(fs.last())
    }
}

/// A whole JSON object: braces around [`obj_inner`].
pub open spec fn obj_wire(fs: Seq<(Seq<char>, Seq<char>)>) -> Seq<char> {
    seq!['{'] + obj_inner(fs) + seq!['}']
}

/// The comma-separated elements of a JSON array, without the brackets.
pub open spec fn arr_inner(vs: Seq<Seq<char>>) -> Seq<char>
    decreases vs.len(),
{
    if vs.len() == 0 {
        Seq::empty()
    } else if vs.len() == 1 {
        vs[0]
    } else {
        arr_inner(vs.drop_last()) + seq![','] + vs.last()
    }
}

/// A whole JSON array: brackets around [`arr_inner`].
pub open spec fn arr_wire(vs: Seq<Seq<char>>) -> Seq<char> {
    seq!['['] + arr_inner(vs) + seq![']']
}

/// Whether `c` is a decimal digit character.
pub open spec fn is_digit(c: char) -> bool {
    48 <= c as u32 <= 57
}

/// A digit string is never empty and always begins with a digit.
pub proof fn lemma_u64_wire_starts_with_digit(n: nat)
    ensures
        u64_wire(n).len() >= 1,
        is_digit(u64_wire(n)[0]),
    decreases n,
{
    if n >= 10 {
        lemma_u64_wire_starts_with_digit(n / 10);
    }
}

/// A signed number token is never empty and begins with a digit or a minus
/// sign — in particular never with a quote character.
pub proof fn lemma_i64_wire_starts_unquoted(i: int)
    ensures
        i64_wire(i).len() >= 1,
        is_digit(i64_wire(i)[0]) || i64_wire(i)[0] == '-',
        i64_wire(i)[0] != '"',
{
    if i < 0 {
        lemma_u64_wire_starts_with_digit((-i) as nat);
    } else {
        lemma_u64_wire_starts_with_digit(i as nat);
    }
}

/// A decimal number token is never empty and begins with a digit or a minus
/// sign — in particular never with a quote character.
pub proof fn lemma_dec_wire_starts_unquoted(d: DecNum)
    ensures
        dec_wire(d).len() >= 1,
        is_digit(dec_wire(d)[0]) || dec_wire(d)[0] == '-',
        dec_wire(d)[0] != '"',
{
    if !d.negative {
        if d.scale == 0 {
            lemma_u64_wire_starts_with_digit(d.mantissa as nat);
        } else {
            lemma_pow10_pos(d.scale as nat);
            lemma_u64_wire_starts_with_digit((d.mantissa as nat) / pow10(d.scale as nat));
        }
    }
}

/// Pushing a member whose key differs from `key` keeps `key` absent from
/// the member list.
pub proof fn lemma_key_not_in_push(
    fs: Seq<(Seq<char>, Seq<char>)>,
    p: (Seq<char>, Seq<char>),
    key: Seq<char>,
)
    requires
        forall|j: int| 0 <= j < fs.len() ==> (#[trigger] fs[j]).0 != key,
        p.0 != key,
    ensures
        forall|j: int| 0 <= j < fs.push(p).len() ==> (#[trigger] fs.push(p)[j]).0 != key,
{
}

/// Appending a member on the right extends the object body with a comma and
/// that member (no comma when the body was empty).
pub proof fn lemma_obj_inner_push(fs: Seq<(Seq<char>, Seq<char>)>, f: (Seq<char>, Seq<char>))
    ensures
        obj_inner(fs.push(f)) == if fs.len() == 0 {
            field_wire(f)
        } else {
            obj_inner(fs) + seq![','] + field_wire(f)
        },
{
    let g = fs.push(f);
    assert(g.drop_last() =~= fs);
    assert(g.last() == f);
    if fs.len() == 0 {
        assert(g[0] == f);
    }
}

/// Appending an element on the right extends the array body with a comma and
/// that element (no comma when the body was empty).
pub proof fn lemma_arr_inner_push(vs: Seq<Seq<char>>, v: Seq<char>)
    ensures
        arr_inner(vs.push(v)) == if vs.len() == 0 {
            v
        } else {
            arr_inner(vs) + seq![','] + v
        },
{
    let g = vs.push(v);
    assert(g.drop_last() =~= vs);
    assert(g.last() == v);
    if vs.len() == 0 {
        assert(g[0] == v);
    }
}

/// The number tokens of a sequence of decimal numbers.
pub open spec fn dec_frags(s: Seq<DecNum>) -> Seq<Seq<char>> {
    s.map_values(|d: DecNum| dec_wire(d))
}

/// The quoted string tokens of a sequence of strings.
pub open spec fn str_frags(s: Seq<String>) -> Seq<Seq<char>> {
    s.map_values(|x: String| str_wire(x@))
}

/// The JSON array of a vector of decimal numbers.
pub fn json_dec_array(v: &Vec<DecNum>) -> (r: String)
    ensures
        r@ == arr_wire(dec_frags(v@)),
{
    let mut w = ArrWriter::new();
    let mut i: usize = 0;
    while i < v.len()
        invariant
            w.wf(),
            i <= v.len(),
            w.items() =~= dec_frags(v@.take(i as int)),
        decreases v.len() - i,
    {
        let frag = json_dec(&v[i]);
        w.elem(frag.as_str());
        proof {
            assert(dec_frags(v@.take(i + 1)) =~= dec_frags(v@.take(i as int)).push(
                dec_wire(v@[i as int]),
            ));
        }
        i = i + 1;
    }
    proof {
        assert(v@.take(v.len() as int) =~= v@);
    }
    w.finish()
}

/// The number tokens of a sequence of signed integers.
pub open spec fn i64_frags(s: Seq<i64>) -> Seq<Seq<char>> {
    s.map_values(|i: i64| i64_wire(i as int))
}

/// The JSON array of a vector of signed integers.
pub fn json_i64_array(v: &Vec<i64>) -> (r: String)
    ensures
        r@ == arr_wire(i64_frags(v@)),
{
    let mut w = ArrWriter::new();
    let mut i: usize = 0;
    while i < v.len()
        invariant
            w.wf(),
            i <= v.len(),
            w.items() =~= i64_frags(v@.take(i as int)),
        decreases v.len() - i,
    {
        let frag = json_i64(v[i]);
        w.elem(frag.as_str());
        proof {
            assert(i64_frags(v@.take(i + 1)) =~= i64_frags(v@.take(i as int)).push(
                i64_wire(v@[i as int] as int),
            ));
        }
        i = i + 1;
    }
    proof {
        assert(v@.take(v.len() as int) =~= v@);
    }
    w.finish()
}

/// The JSON array of a vector of strings, each quoted and escaped.
pub fn json_str_array(v: &Vec<String>) -> (r: String)
    ensures
        r@ == arr_wire(str_frags(v@)),
{
    let mut w = ArrWriter::new();
    let mut i: usize = 0;
    while i < v.len()
        invariant
            w.wf(),
            i <= v.len(),
            w.items() =~= str_frags(v@.take(i as int)),
        decreases v.len() - i,
    {
        let frag = json_string(v[i].as_str());
        w.elem(frag.as_str());
        proof {
            assert(str_frags(v@.take(i + 1)) =~= str_frags(v@.take(i as int)).push(
                str_wire(v@[i as int]@),
            ));
        }
        i = i + 1;
    }
    proof {
        assert(v@.take(v.len() as int) =~= v@);
    }
    w.finish()
}

/// Builds one JSON object member by member; the members added so far are
/// tracked in ghost state and the buffer always holds exactly their
/// [`obj_inner`] rendering.
pub struct ObjWriter {
    buf: String,
    started: bool,
    history: Ghost<Seq<(Seq<char>, Seq<char>)>>,
}

impl ObjWriter {
    pub closed spec fn fields(&self) -> Seq<(Seq<char>, Seq<char>)> {
        self.history@
    }

    pub closed spec fn wf(&self) -> bool {
        &&& self.buf@ == obj_inner(self.history@)
        &&& (self.started <==> self.history@.len() > 0)
    }

    pub fn new() -> (w: ObjWriter)
        ensures
            w.wf(),
            w.fields() == Seq::<(Seq<char>, Seq<char>)>::empty(),
    {
        ObjWriter { buf: String::new(), started: false, history: Ghost(Seq::empty()) }
    }

    /// Adds the member `"key":value`, where `value` is an already-rendered
    /// fragment.
    pub fn field(&mut self, key: &str, value: &str)
        requires
            old(self).wf(),
        ensures
            final(self).wf(),
            final(self).fields() == old(self).fields().push((key@, value@)),
    {
        if self.started {
            push_char(&mut self.buf, ',');
        }
        push_char(&mut self.buf, '"');
        push_esc(&mut self.buf, key);
        push_char(&mut self.buf, '"');
        push_char(&mut self.buf, ':');
        self.buf.append(value);
        self.started = true;
        proof {
            lemma_obj_inner_push(self.history@, (key@, value@));
        }
        self.history = Ghost(self.history@.push((key@, value@)));
        assert(self.buf@ =~= obj_inner(self.history@));
    }

    /// Closes the object and returns its full rendering.
    pub fn finish(self) -> (r: String)
        requires
            self.wf(),
        ensures
            r@ == obj_wire(self.fields()),
    {
        let mut out = String::new();
        push_char(&mut out, '{');
        out.append(self.buf.as_str());
        push_char(&mut out, '}');
        assert(out@ =~= obj_wire(self.history@));
        out
    }
}

/// Builds one JSON array element by element, the counterpart of
/// [`ObjWriter`].
pub struct ArrWriter {
    buf: String,
    started: bool,
    history: Ghost<Seq<Seq<char>>>,
}

impl ArrWriter {
    pub closed spec fn items(&self) -> Seq<Seq<char>> {
        self.history@
    }

    pub closed spec fn wf(&self) -> bool {
        &&& self.buf@ == arr_inner(self.history@)
        &&& (self.started <==> self.history@.len() > 0)
    }

    pub fn new() -> (w: ArrWriter)
        ensures
            w.wf(),
            w.items() == Seq::<Seq<char>>::empty(),
    {
        ArrWriter { buf: String::new(), started: false, history: Ghost(Seq::empty()) }
    }

    /// Adds one already-rendered element fragment.
    pub fn elem(&mut self, value: &str)
        requires
            old(self).wf(),
        ensures
            final(self).wf(),
            final(self).items() == old(self).items().push(value@),
    {
        if self.started {
            push_char(&mut self.buf, ',');
        }
        self.buf.append(value);
        self.started = true;
        proof {
            lemma_arr_inner_push(self.history@, value@);
        }
        self.history = Ghost(self.history@.push(value@));
        assert(self.buf@ =~= arr_inner(self.history@));
    }

    /// Closes the array and returns its full rendering.
    pub fn finish(self) -> (r: String)
        requires
            self.wf(),
        ensures
            r@ == arr_wire(self.items()),
    {
        let mut out = String::new();
        push_char(&mut out, '[');
        out.append(self.buf.as_str());
        push_char(&mut out, ']');
        assert(out@ =~= arr_wire(self.history@));
        out
    }
}

} // verus!
