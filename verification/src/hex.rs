//! Fixed-width lowercase hexadecimal rendering and parsing of identifiers.
//!
//! Trace identifiers are rendered as exactly 32 hex digits and span
//! identifiers as exactly 16, zero-padded, so that downstream correlation
//! systems can match on fixed-width strings.

use vstd::prelude::*;
use vstd::arithmetic::div_mod::{lemma_fundamental_div_mod, lemma_multiply_divide_lt};
use vstd::string::{StrSliceExecFns, StringExecFns};

verus! {

/// The lowercase hexadecimal digit character for `d`, for `0 <= d < 16`.
pub open spec fn hex_char_of(d: int) -> char {
    if d == 0 {
        '0'
    } else if d == 1 {
        '1'
    } else if d == 2 {
        '2'
    } else if d == 3 {
        '3'
    } else if d == 4 {
        '4'
    } else if d == 5 {
        '5'
    } else if d == 6 {
        '6'
    } else if d == 7 {
        '7'
    } else if d == 8 {
        '8'
    } else if d == 9 {
        '9'
    } else if d == 10 {
        'a'
    } else if d == 11 {
        'b'
    } else if d == 12 {
        'c'
    } else if d == 13 {
        'd'
    } else if d == 14 {
        'e'
    } else {
        'f'
    }
}

/// The numeric value of a lowercase hexadecimal digit character,
/// or `-1` if `c` is not one.
pub open spec fn hex_val_of(c: char) -> int {
    if c == '0' {
        0
    } else if c == '1' {
        1
    } else if c == '2' {
        2
    } else if c == '3' {
        3
    } else if c == '4' {
        4
    } else if c == '5' {
        5
    } else if c == '6' {
        6
    } else if c == '7' {
        7
    } else if c == '8' {
        8
    } else if c == '9' {
        9
    } else if c == 'a' {
        10
    } else if c == 'b' {
        11
    } else if c == 'c' {
        12
    } else if c == 'd' {
        13
    } else if c == 'e' {
        14
    } else if c == 'f' {
        15
    } else {
        -1
    }
}

/// Whether `c` is a lowercase hexadecimal digit.
pub open spec fn is_hex_char(c: char) -> bool {
    hex_val_of(c) >= 0
}

/// Whether every character of `s` is a lowercase hexadecimal digit.
pub open spec fn all_hex(s: Seq<char>) -> bool {
    forall|i: int| 0 <= i < s.len() ==> is_hex_char(#[trigger] s[i])
}

/// The fixed-width lowercase hexadecimal rendering of `v`: the low
/// `width` hex digits of `v`, most significant first, zero-padded.
pub open spec fn hex_render(v: nat, width: nat) -> Seq<char>
    decreases width,
{
    if width == 0 {
        Seq::empty()
    } else {
        hex_render(v / 16, (width - 1) as nat).push(hex_char_of((v % 16) as int))
    }
}

/// The numeric value of a sequence of lowercase hexadecimal digit
/// characters, most significant first. Characters that are not hex
/// digits contribute zero.
pub open spec fn hex_value(s: Seq<char>) -> nat
    decreases s.len(),
{
    if s.len() == 0 {
        0
    } else {
        hex_value(s.drop_last()) * 16 + (if is_hex_char(s.last()) {
            hex_val_of(s.last()) as nat
        } else {
            0
        })
    }
}

/// `16^n`.
pub open spec fn pow16(n: nat) -> nat
    decreases n,
{
    if n == 0 {
        1nat
    } else {
        16 * pow16((n - 1) as nat)
    }
}

proof fn lemma_hex_char_val(d: int)
    requires
        0 <= d < 16,
    ensures
        hex_val_of(hex_char_of(d)) == d,
        is_hex_char(hex_char_of(d)),
{
}

/// The rendering has exactly `width` characters.
pub proof fn lemma_hex_render_len(v: nat, width: nat)
    ensures
        hex_render(v, width).len() == width,
    decreases width,
{
    if width > 0 {
        lemma_hex_render_len(v / 16, (width - 1) as nat);
    }
}

/// Every character of the rendering is a lowercase hexadecimal digit.
pub proof fn lemma_hex_render_all_hex(v: nat, width: nat)
    ensures
        all_hex(hex_render(v, width)),
    decreases width,
{
    if width > 0 {
        lemma_hex_render_all_hex(v / 16, (width - 1) as nat);
        lemma_hex_render_len(v / 16, (width - 1) as nat);
        let s = hex_render(v, width);
        let t = hex_render(v / 16, (width - 1) as nat);
        assert forall|i: int| 0 <= i < s.len() implies is_hex_char(#[trigger] s[i]) by {
            if i < width - 1 {
                assert(s[i] == t[i]);
            } else {
                lemma_hex_char_val((v % 16) as int);
            }
        }
    }
}

pub proof fn lemma_pow16_pos(n: nat)
    ensures
        pow16(n) >= 1,
    decreases n,
{
    if n > 0 {
        lemma_pow16_pos((n - 1) as nat);
    }
}

pub proof fn lemma_pow16_adds(a: nat, b: nat)
    ensures
        pow16(a + b) == pow16(a) * pow16(b),
    decreases a,
{
    if a > 0 {
        let a1 = (a - 1) as nat;
        lemma_pow16_adds(a1, b);
        assert(pow16(a + b) == 16 * pow16(a1 + b));
        assert(pow16(a) == 16 * pow16(a1));
        assert(pow16(a + b) == pow16(a) * pow16(b)) by (nonlinear_arith)
            requires
                pow16(a + b) == 16 * pow16(a1 + b),
                pow16(a1 + b) == pow16(a1) * pow16(b),
                pow16(a) == 16 * pow16(a1),
        ;
    } else {
        assert(pow16(a) == 1);
        assert(a + b == b);
        assert(pow16(a + b) == pow16(b));
    }
}

pub proof fn lemma_pow16_le(a: nat, b: nat)
    requires
        a <= b,
    ensures
        pow16(a) <= pow16(b),
{
    lemma_pow16_adds(a, (b - a) as nat);
    lemma_pow16_pos((b - a) as nat);
    lemma_pow16_pos(a);
    assert(pow16(a) * 1 <= pow16(a) * pow16((b - a) as nat)) by (nonlinear_arith)
        requires
            pow16(a) >= 1,
            pow16((b - a) as nat) >= 1,
    ;
}

/// `16^16` is one past the largest 64-bit value.
pub proof fn lemma_pow16_16()
    ensures
        pow16(16) == u64::MAX as nat + 1,
{
    assert(pow16(0) == 1);
    assert(pow16(1) == 16);
    assert(pow16(2) == 256);
    lemma_pow16_adds(2, 2);
    assert(pow16(4) == 0x10000);
    lemma_pow16_adds(4, 4);
    assert(pow16(8) == 0x100000000);
    lemma_pow16_adds(8, 8);
    assert(pow16(16) == 0x10000000000000000);
}

/// `16^32` is one past the largest 128-bit value.
pub proof fn lemma_pow16_32()
    ensures
        pow16(32) == u128::MAX as nat + 1,
{
    lemma_pow16_16();
    lemma_pow16_adds(16, 16);
    assert(pow16(32) == 0x10000000000000000nat * 0x10000000000000000nat);
}

/// The numeric value of a hex digit sequence is below `16^len`.
pub proof fn lemma_hex_value_bound(s: Seq<char>)
    ensures
        hex_value(s) < pow16(s.len()),
    decreases s.len(),
{
    if s.len() > 0 {
        lemma_hex_value_bound(s.drop_last());
    }
}

/// Parsing a rendering recovers the value: for `v < 16^width`,
/// the numeric value of `hex_render(v, width)` is `v` itself.
pub proof fn lemma_hex_value_render(v: nat, width: nat)
    requires
        v < pow16(width),
    ensures
        hex_value(hex_render(v, width)) == v,
    decreases width,
{
    if width > 0 {
        let w1 = (width - 1) as nat;
        let c = hex_char_of((v % 16) as int);
        let t = hex_render(v / 16, w1);
        let s = hex_render(v, width);
        lemma_hex_render_len(v / 16, w1);
        assert(s.drop_last() =~= t);
        assert(s.last() == c);
        lemma_hex_char_val((v % 16) as int);
        assert(pow16(width) == 16 * pow16(w1));
        lemma_multiply_divide_lt(v as int, 16, pow16(w1) as int);
        lemma_hex_value_render(v / 16, w1);
        lemma_fundamental_div_mod(v as int, 16);
    }
}

/// Round trip for trace identifiers: the 32-digit rendering of any
/// 128-bit value consists only of lowercase hex digits and parses back
/// to the original value exactly.
pub proof fn lemma_trace_id_round_trip(trace_id: u128)
    ensures
        hex_render(trace_id as nat, 32).len() == 32,
        all_hex(hex_render(trace_id as nat, 32)),
        hex_value(hex_render(trace_id as nat, 32)) == trace_id as nat,
{
    lemma_hex_render_len(trace_id as nat, 32);
    lemma_hex_render_all_hex(trace_id as nat, 32);
    lemma_pow16_32();
    lemma_hex_value_render(trace_id as nat, 32);
}

/// Round trip for span identifiers: the 16-digit rendering of any
/// 64-bit value consists only of lowercase hex digits and parses back
/// to the original value exactly.
pub proof fn lemma_span_id_round_trip(span_id: u64)
    ensures
        hex_render(span_id as nat, 16).len() == 16,
        all_hex(hex_render(span_id as nat, 16)),
        hex_value(hex_render(span_id as nat, 16)) == span_id as nat,
{
    lemma_hex_render_len(span_id as nat, 16);
    lemma_hex_render_all_hex(span_id as nat, 16);
    lemma_pow16_16();
    lemma_hex_value_render(span_id as nat, 16);
}

/// The characters of a sequence of hex digit values read back to front,
/// i.e. the rendering of digits collected least significant first.
pub open spec fn digits_rev(ns: Seq<u8>) -> Seq<char>
    decreases ns.len(),
{
    if ns.len() == 0 {
        Seq::empty()
    } else {
        seq![hex_char_of(ns.last() as int)] + digits_rev(ns.drop_last())
    }
}

proof fn lemma_digits_rev_index(ns: Seq<u8>)
    ensures
        digits_rev(ns).len() == ns.len(),
        forall|j: int|
            0 <= j < ns.len() ==> digits_rev(ns)[j] == hex_char_of(
                ns[ns.len() - 1 - j] as int,
            ),
    decreases ns.len(),
{
    if ns.len() > 0 {
        let dl = ns.drop_last();
        lemma_digits_rev_index(dl);
        assert forall|j: int|
            0 <= j < ns.len() implies digits_rev(ns)[j] == hex_char_of(
            ns[ns.len() - 1 - j] as int,
        ) by {
            if j == 0 {
                assert(digits_rev(ns)[0] == hex_char_of(ns.last() as int));
            } else {
                assert(digits_rev(ns)[j] == digits_rev(dl)[j - 1]);
                assert(dl[dl.len() - 1 - (j - 1)] == ns[ns.len() - 1 - j]);
            }
        }
    }
}

/// The single-character string for hex digit value `d`.
fn hex_digit_str(d: u8) -> (r: &'static str)
    requires
        d < 16,
    ensures
        r@.len() == 1,
        r@[0] == hex_char_of(d as int),
{
    proof {
        reveal_strlit("0");
        reveal_strlit("1");
        reveal_strlit("2");
        reveal_strlit("3");
        reveal_strlit("4");
        reveal_strlit("5");
        reveal_strlit("6");
        reveal_strlit("7");
        reveal_strlit("8");
        reveal_strlit("9");
        reveal_strlit("a");
        reveal_strlit("b");
        reveal_strlit("c");
        reveal_strlit("d");
        reveal_strlit("e");
        reveal_strlit("f");
    }
    match d {
        0 => "0",
        1 => "1",
        2 => "2",
        3 => "3",
        4 => "4",
        5 => "5",
        6 => "6",
        7 => "7",
        8 => "8",
        9 => "9",
        10 => "a",
        11 => "b",
        12 => "c",
        13 => "d",
        14 => "e",
        _ => "f",
    }
}

/// Renders the low `width` hex digits of `v`, most significant first.
fn render_hex(v: u128, width: usize) -> (s: String)
    ensures
        s@ == hex_render(v as nat, width as nat),
{
    let mut nibs: Vec<u8> = Vec::new();
    let mut x: u128 = v;
    let mut k: usize = 0;
    proof {
        assert(hex_render(v as nat, width as nat) =~= hex_render(x as nat, width as nat)
            + digits_rev(nibs@));
    }
    while k < width
        invariant
            k <= width,
            nibs@.len() == k as nat,
            forall|i: int| 0 <= i < nibs@.len() ==> #[trigger] nibs@[i] < 16,
            hex_render(v as nat, width as nat) == hex_render(
                x as nat,
                (width - k) as nat,
            ) + digits_rev(nibs@),
        decreases width - k,
    {
        let d: u8 = (x % 16) as u8;
        proof {
            let m = (width - k) as nat;
            let old_nibs = nibs@;
            assert(hex_render(x as nat, m) == hex_render((x as nat) / 16, (m - 1) as nat).push(
                hex_char_of(((x as nat) % 16) as int),
            ));
            let pushed = old_nibs.push(d);
            assert(pushed.drop_last() =~= old_nibs);
            assert(digits_rev(pushed) == seq![hex_char_of(d as int)] + digits_rev(old_nibs));
            assert(hex_render((x as nat) / 16, (m - 1) as nat).push(
                hex_char_of(((x as nat) % 16) as int),
            ) + digits_rev(old_nibs) =~= hex_render((x as nat) / 16, (m - 1) as nat) + (seq![
                hex_char_of(d as int),
            ] + digits_rev(old_nibs)));
        }
        nibs.push(d);
        x = x / 16;
        k = k + 1;
    }
    let mut s = String::new();
    let mut i: usize = 0;
    while i < width
        invariant
            i <= width,
            nibs@.len() == width as nat,
            forall|j: int| 0 <= j < nibs@.len() ==> #[trigger] nibs@[j] < 16,
            s@.len() == i as nat,
            forall|j: int|
                0 <= j < i ==> #[trigger] s@[j] == hex_char_of(nibs@[width - 1 - j] as int),
        decreases width - i,
    {
        let d = nibs[width - 1 - i];
        s.append(hex_digit_str(d));
        i = i + 1;
    }
    proof {
        lemma_digits_rev_index(nibs@);
        assert(s@ =~= digits_rev(nibs@));
        assert(hex_render(v as nat, width as nat) =~= digits_rev(nibs@));
    }
    s
}

/// The 32-digit lowercase hexadecimal rendering of a trace identifier,
/// zero-padded.
pub fn trace_id_hex(trace_id: u128) -> (s: String)
    ensures
        s@ == hex_render(trace_id as nat, 32),
        s@.len() == 32,
        all_hex(s@),
{
    proof {
        lemma_trace_id_round_trip(trace_id);
    }
    render_hex(trace_id, 32)
}

/// The 16-digit lowercase hexadecimal rendering of a span identifier,
/// zero-padded.
pub fn span_id_hex(span_id: u64) -> (s: String)
    ensures
        s@ == hex_render(span_id as nat, 16),
        s@.len() == 16,
        all_hex(s@),
{
    proof {
        lemma_span_id_round_trip(span_id);
    }
    render_hex(span_id as u128, 16)
}

/// The value of a lowercase hex digit character, or `None` if `c` is
/// not one.
fn hex_char_val(c: char) -> (r: Option<u8>)
    ensures
        r matches Some(d) ==> d < 16 && hex_val_of(c) == d as int,
        r is None ==> !is_hex_char(c),
{
    match c {
        '0' => Some(0),
        '1' => Some(1),
        '2' => Some(2),
        '3' => Some(3),
        '4' => Some(4),
        '5' => Some(5),
        '6' => Some(6),
        '7' => Some(7),
        '8' => Some(8),
        '9' => Some(9),
        'a' => Some(10),
        'b' => Some(11),
        'c' => Some(12),
        'd' => Some(13),
        'e' => Some(14),
        'f' => Some(15),
        _ => None,
    }
}

/// Parses a string of exactly `width` lowercase hex digits.
fn parse_hex(s: &str, width: usize) -> (r: Option<u128>)
    requires
        1 <= width <= 32,
    ensures
        r is Some <==> (s@.len() == width as nat && all_hex(s@)),
        r matches Some(v) ==> v as nat == hex_value(s@),
{
    let n = s.unicode_len();
    if n != width {
        return None;
    }
    let mut acc: u128 = 0;
    let mut i: usize = 0;
    proof {
        assert(s@.take(0) =~= Seq::<char>::empty());
    }
    while i < width
        invariant
            i <= width <= 32,
            s@.len() == width as nat,
            all_hex(s@.take(i as int)),
            acc as nat == hex_value(s@.take(i as int)),
            (acc as nat) < pow16(i as nat),
        decreases width - i,
    {
        let c = s.get_char(i);
        match hex_char_val(c) {
            None => {
                proof {
                    assert(!is_hex_char(s@[i as int]));
                }
                return None;
            },
            Some(d) => {
                proof {
                    let pre = s@.take(i as int);
                    let ext = s@.take(i as int + 1);
                    assert(ext.drop_last() =~= pre);
                    assert(ext.last() == s@[i as int]);
                    assert(hex_value(ext) == hex_value(pre) * 16 + d as nat);
                    lemma_pow16_le((i + 1) as nat, 32);
                    lemma_pow16_32();
                    assert(pow16(i as nat + 1) == 16 * pow16(i as nat));
                    assert((acc as nat * 16 + d as nat) < pow16(i as nat + 1));
                }
                acc = acc * 16 + d as u128;
            },
        }
        i = i + 1;
    }
    proof {
        assert(s@.take(width as int) =~= s@);
    }
    Some(acc)
}

/// Parses a 32-digit lowercase hexadecimal trace identifier. Returns
/// `Some` exactly when the input is 32 lowercase hex digits.
pub fn parse_trace_id_hex(s: &str) -> (r: Option<u128>)
    ensures
        r is Some <==> (s@.len() == 32 && all_hex(s@)),
        r matches Some(v) ==> v as nat == hex_value(s@),
{
    parse_hex(s, 32)
}

/// Parses a 16-digit lowercase hexadecimal span identifier. Returns
/// `Some` exactly when the input is 16 lowercase hex digits.
pub fn parse_span_id_hex(s: &str) -> (r: Option<u64>)
    ensures
        r is Some <==> (s@.len() == 16 && all_hex(s@)),
        r matches Some(v) ==> v as nat == hex_value(s@),
{
    match parse_hex(s, 16) {
        Some(v) => {
            proof {
                lemma_hex_value_bound(s@);
                lemma_pow16_16();
            }
            Some(v as u64)
        },
        None => None,
    }
}

} // verus!
