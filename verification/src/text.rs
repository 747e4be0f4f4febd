//! Building diagnostic text: decimal and hexadecimal numerals appended to strings.
use vstd::prelude::*;

verus! {

/// The character of a decimal digit.
pub open spec fn digit_char(d: nat) -> char {
    if d == 0 {
        '0'
    } else if d == 1 {
        '1'
    } else if d == 2 {
        '2'
    } else if d == 3 {
        '3'
    } else if d == 4 {
        '4'
    } else if d == 5 {
        '5'
    } else if d == 6 {
        '6'
    } else if d == 7 {
        '7'
    } else if d == 8 {
        '8'
    } else {
        '9'
    }
}

/// The decimal numeral of `v`, most significant digit first, without leading zeros.
pub open spec fn decimal(v: nat) -> Seq<char>
    decreases v,
{
    if v < 10 {
        seq![digit_char(v)]
    } else {
        decimal(v / 10).push(digit_char(v % 10))
    }
}

/// The decimal numeral of a signed value, with a leading `-` when it is negative.
pub open spec fn signed_decimal(v: int) -> Seq<char> {
    if v < 0 {
        seq!['-'] + decimal((-v) as nat)
    } else {
        decimal(v as nat)
    }
}

/// The character of an upper-case hexadecimal digit.
pub open spec fn hex_digit_char(d: nat) -> char {
    if d < 10 {
        digit_char(d)
    } else if d == 10 {
        'A'
    } else if d == 11 {
        'B'
    } else if d == 12 {
        'C'
    } else if d == 13 {
        'D'
    } else if d == 14 {
        'E'
    } else {
        'F'
    }
}

/// The `count` lowest hexadecimal digits of `v`, upper case, zero padded.
pub open spec fn hex_digits(v: nat, count: nat) -> Seq<char>
    decreases count,
{
    if count == 0 {
        Seq::empty()
    } else {
        hex_digits(v / 16, (count - 1) as nat).push(hex_digit_char(v % 16))
    }
}

/// `0x` followed by the eight upper-case hexadecimal digits of a 32-bit value.
pub open spec fn hex_u32(v: u32) -> Seq<char> {
    seq!['0', 'x'] + hex_digits(v as nat, 8)
}

fn digit_str(d: u64) -> (r: &'static str)
    requires
        d < 10,
    ensures
        r@ == seq![digit_char(d as nat)],
{
    if d == 0 {
        proof { reveal_strlit("0"); }
        "0"
    } else if d == 1 {
        proof { reveal_strlit("1"); }
        "1"
    } else if d == 2 {
        proof { reveal_strlit("2"); }
        "2"
    } else if d == 3 {
        proof { reveal_strlit("3"); }
        "3"
    } else if d == 4 {
        proof { reveal_strlit("4"); }
        "4"
    } else if d == 5 {
        proof { reveal_strlit("5"); }
        "5"
    } else if d == 6 {
        proof { reveal_strlit("6"); }
        "6"
    } else if d == 7 {
        proof { reveal_strlit("7"); }
        "7"
    } else if d == 8 {
        proof { reveal_strlit("8"); }
        "8"
    } else {
        proof { reveal_strlit("9"); }
        "9"
    }
}

fn hex_digit_str(d: u64) -> (r: &'static str)
    requires
        d < 16,
    ensures
        r@ == seq![hex_digit_char(d as nat)],
{
    if d < 10 {
        digit_str(d)
    } else if d == 10 {
        proof { reveal_strlit("A"); }
        "A"
    } else if d == 11 {
        proof { reveal_strlit("B"); }
        "B"
    } else if d == 12 {
        proof { reveal_strlit("C"); }
        "C"
    } else if d == 13 {
        proof { reveal_strlit("D"); }
        "D"
    } else if d == 14 {
        proof { reveal_strlit("E"); }
        "E"
    } else {
        proof { reveal_strlit("F"); }
        "F"
    }
}

/// Appends the decimal numeral of `v`.
pub fn push_u64(s: &mut String, v: u64)
    ensures
        final(s)@ == old(s)@ + decimal(v as nat),
    decreases v,
{
    if v >= 10 {
        push_u64(s, v / 10);
    }
    s.append(digit_str(v % 10));
    proof {
        if v < 10 {
            assert(old(s)@ + decimal(v as nat) =~= old(s)@ + seq![digit_char(v as nat)]);
        } else {
            assert(old(s)@ + decimal(v as nat) =~= old(s)@ + decimal((v / 10) as nat) + seq![
                digit_char((v % 10) as nat),
            ]);
        }
    }
}

/// Appends the decimal numeral of a signed value.
pub fn push_i64(s: &mut String, v: i64)
    ensures
        final(s)@ == old(s)@ + signed_decimal(v as int),
{
    if v < 0 {
        proof { reveal_strlit("-"); }
        s.append("-");
        let magnitude: u64 = if v == i64::MIN {
            9223372036854775808u64
        } else {
            (-v) as u64
        };
        push_u64(s, magnitude);
        proof {
            assert(old(s)@ + signed_decimal(v as int) =~= old(s)@ + seq!['-'] + decimal(
                magnitude as nat,
            ));
        }
    } else {
        push_u64(s, v as u64);
    }
}

/// Appends `0x` and the eight hexadecimal digits of `v`.
pub fn push_hex_u32(s: &mut String, v: u32)
    ensures
        final(s)@ == old(s)@ + hex_u32(v),
{
    proof { reveal_strlit("0x"); }
    s.append("0x");
    push_hex_digits(s, v, 8);
    proof {
        assert(final(s)@ =~= old(s)@ + hex_u32(v));
    }
}

/// The number of hexadecimal digits of `v` without leading zeros (at least one).
pub open spec fn hex_len(v: nat) -> nat
    decreases v,
{
    if v < 16 {
        1
    } else {
        1 + hex_len(v / 16)
    }
}

/// `{:0wX}`: upper-case hexadecimal, zero padded to at least `width` digits.
pub open spec fn hex_padded(v: nat, width: nat) -> Seq<char> {
    hex_digits(v, if hex_len(v) >= width { hex_len(v) } else { width })
}

proof fn lemma_hex_len_bound(v: u32)
    ensures
        1 <= hex_len(v as nat) <= 8,
{
    let x = v as nat;
    reveal_with_fuel(hex_len, 9);
    assert(x / 16 / 16 / 16 / 16 / 16 / 16 / 16 < 16);
}

fn hex_len_exec(v: u32) -> (r: u64)
    ensures
        r == hex_len(v as nat),
        1 <= r <= 8,
{
    proof { lemma_hex_len_bound(v); }
    let mut n: u64 = 1;
    let mut rest: u32 = v;
    while rest >= 16
        invariant
            n + hex_len(rest as nat) == hex_len(v as nat) + 1,
            hex_len(v as nat) <= 8,
            1 <= n,
        decreases rest,
    {
        rest = rest / 16;
        n = n + 1;
    }
    n
}

/// Appends `v` in upper-case hexadecimal, zero padded to at least `width` digits.
pub fn push_hex_padded(s: &mut String, v: u32, width: u64)
    requires
        width <= 8,
    ensures
        final(s)@ == old(s)@ + hex_padded(v as nat, width as nat),
{
    let len = hex_len_exec(v);
    let count = if len >= width { len } else { width };
    push_hex_digits(s, v, count);
}

/// Appends the `count` lowest hexadecimal digits of `v`, zero padded.
pub fn push_hex_digits(s: &mut String, v: u32, count: u64)
    requires
        count <= 8,
    ensures
        final(s)@ == old(s)@ + hex_digits(v as nat, count as nat),
{
    let ghost prefix = s@;
    let mut i: u64 = count;
    proof {
        let start = (v as nat) / pow16(count as nat);
        lemma_hex_digits_zero(start);
        assert(prefix + hex_digits(start, 0) =~= prefix);
    }
    while i > 0
        invariant
            i <= count <= 8,
            s@ == prefix + hex_digits((v as nat) / pow16((i) as nat), (count - i) as nat),
            prefix == old(s)@,
        decreases i,
    {
        let shift: u64 = (i - 1) * 4;
        let d: u64 = ((v as u64) >> shift) & 15;
        proof {
            lemma_hex_step(v, i, count);
        }
        s.append(hex_digit_str(d));
        i = i - 1;
        proof {
            assert(s@ =~= prefix + hex_digits((v as nat) / pow16(i as nat), (count - i) as nat));
        }
    }
    proof {
        assert(pow16(0) == 1);
        assert((v as nat) / 1 == v as nat);
    }
}

proof fn lemma_hex_digits_zero(x: nat)
    ensures
        hex_digits(x, 0) == Seq::<char>::empty(),
{
}

/// `16^n`.
pub open spec fn pow16(n: nat) -> nat
    decreases n,
{
    if n == 0 {
        1
    } else {
        16 * pow16((n - 1) as nat)
    }
}

/// Shifting right by `4 * k` bits divides by `16^k`.
proof fn lemma_shift_is_division(w: u64, k: u64)
    requires
        k < 8,
    ensures
        w >> (k * 4) == w / (pow16(k as nat) as u64),
        0 < pow16(k as nat) <= 268435456,
{
    reveal_with_fuel(pow16, 9);
    if k == 0 {
        assert(pow16(0) == 1);
        assert(w >> 0u64 == w / 1) by (bit_vector);
    } else if k == 1 {
        assert(pow16(1) == 16);
        assert(w >> 4u64 == w / 16) by (bit_vector);
    } else if k == 2 {
        assert(pow16(2) == 256);
        assert(w >> 8u64 == w / 256) by (bit_vector);
    } else if k == 3 {
        assert(pow16(3) == 4096);
        assert(w >> 12u64 == w / 4096) by (bit_vector);
    } else if k == 4 {
        assert(pow16(4) == 65536);
        assert(w >> 16u64 == w / 65536) by (bit_vector);
    } else if k == 5 {
        assert(pow16(5) == 1048576);
        assert(w >> 20u64 == w / 1048576) by (bit_vector);
    } else if k == 6 {
        assert(pow16(6) == 16777216);
        assert(w >> 24u64 == w / 16777216) by (bit_vector);
    } else {
        assert(pow16(7) == 268435456);
        assert(w >> 28u64 == w / 268435456) by (bit_vector);
    }
}

proof fn lemma_hex_step(v: u32, i: u64, count: u64)
    requires
        1 <= i <= count <= 8,
    ensures
        (((v as u64) >> ((i - 1) * 4) as u64) & 15) < 16,
        (((v as u64) >> ((i - 1) * 4) as u64) & 15) as nat == ((v as nat) / pow16((i - 1) as nat))
            % 16,
        hex_digits((v as nat) / pow16((i - 1) as nat), (count - (i - 1)) as nat) == hex_digits(
            (v as nat) / pow16(i as nat),
            (count - i) as nat,
        ).push(hex_digit_char(((v as nat) / pow16((i - 1) as nat)) % 16)),
{
    let k: u64 = (i - 1) as u64;
    let w: u64 = v as u64;
    lemma_shift_is_division(w, k);
    assert((pow16(k as nat) as u64) as int == pow16(k as nat) as int);
    assert(w / (pow16(k as nat) as u64) == (v as nat) / pow16(k as nat));
    let q: u64 = w >> (k * 4);
    assert(q & 15 == q % 16) by (bit_vector);
    assert(q & 15 < 16) by (bit_vector);
    let a = (v as nat) / pow16(k as nat);
    assert(pow16(i as nat) == 16 * pow16(k as nat));
    assert(a / 16 == (v as nat) / pow16(i as nat)) by {
        vstd::arithmetic::div_mod::lemma_div_denominator(v as int, pow16(k as nat) as int, 16);
    }
}


/// The hexadecimal digit of `d`, lower case.
pub open spec fn lower_hex_digit_char(d: nat) -> char {
    if d < 10 {
        digit_char(d)
    } else if d == 10 {
        'a'
    } else if d == 11 {
        'b'
    } else if d == 12 {
        'c'
    } else if d == 13 {
        'd'
    } else if d == 14 {
        'e'
    } else {
        'f'
    }
}

/// The `count` lowest hexadecimal digits of `v`, lower case, zero padded.
pub open spec fn lower_hex_digits(v: nat, count: nat) -> Seq<char>
    decreases count,
{
    if count == 0 {
        Seq::empty()
    } else {
        lower_hex_digits(v / 16, (count - 1) as nat) + seq![lower_hex_digit_char(v % 16)]
    }
}

fn lower_hex_digit_str(d: u64) -> (r: &'static str)
    requires
        d < 16,
    ensures
        r@ == seq![lower_hex_digit_char(d as nat)],
{
    if d < 10 {
        digit_str(d)
    } else if d == 10 {
        proof { reveal_strlit("a"); }
        "a"
    } else if d == 11 {
        proof { reveal_strlit("b"); }
        "b"
    } else if d == 12 {
        proof { reveal_strlit("c"); }
        "c"
    } else if d == 13 {
        proof { reveal_strlit("d"); }
        "d"
    } else if d == 14 {
        proof { reveal_strlit("e"); }
        "e"
    } else {
        proof { reveal_strlit("f"); }
        "f"
    }
}

/// Appends the `count` lowest hexadecimal digits of `v`, lower case, zero padded.
pub fn push_lower_hex_digits(s: &mut String, v: u64, count: u64)
    ensures
        final(s)@ == old(s)@ + lower_hex_digits(v as nat, count as nat),
    decreases count,
{
    if count > 0 {
        push_lower_hex_digits(s, v / 16, count - 1);
        s.append(lower_hex_digit_str(v % 16));
        proof {
            assert(old(s)@ + lower_hex_digits(v as nat, count as nat) =~= old(s)@ + lower_hex_digits(
                (v / 16) as nat,
                (count - 1) as nat,
            ) + seq![lower_hex_digit_char((v % 16) as nat)]);
        }
    } else {
        proof {
            assert(old(s)@ + lower_hex_digits(v as nat, 0) =~= old(s)@);
        }
    }
}


/// Whether two strings hold the same text.
pub fn str_eq(a: &str, b: &str) -> (r: bool)
    ensures
        r == (a@ == b@),
{
    let a_owned = a.to_owned();
    let b_owned = b.to_owned();
    a_owned.eq(&b_owned)
}


/// The characters of `s`, in order.
pub fn str_chars(s: &str) -> (r: Vec<char>)
    ensures
        r@ == s@,
{
    let n = s.unicode_len();
    let mut chars: Vec<char> = Vec::new();
    let mut i: usize = 0;
    while i < n
        invariant
            n == s@.len(),
            i <= n,
            chars@ == s@.subrange(0, i as int),
        decreases n - i,
    {
        chars.push(s.get_char(i));
        i = i + 1;
        assert(chars@ =~= s@.subrange(0, i as int));
    }
    assert(chars@ =~= s@);
    chars
}

/// `pattern` occurs in `text` starting at `i`.
pub open spec fn occurs_at(text: Seq<char>, pattern: Seq<char>, i: int) -> bool {
    0 <= i && i + pattern.len() <= text.len() && text.subrange(i, i + pattern.len()) == pattern
}

/// `pattern` occurs somewhere in `text`.
pub open spec fn contains_text(text: Seq<char>, pattern: Seq<char>) -> bool {
    exists|i: int| occurs_at(text, pattern, i)
}

fn matches_at(text: &Vec<char>, pattern: &Vec<char>, i: usize) -> (r: bool)
    requires
        i + pattern@.len() <= text@.len(),
    ensures
        r == occurs_at(text@, pattern@, i as int),
{
    let m = pattern.len();
    let n = text.len();
    let mut j: usize = 0;
    while j < m
        invariant
            m == pattern@.len(),
            n == text@.len(),
            i + m <= text@.len(),
            j <= m,
            forall|k: int| 0 <= k < j ==> text@[i + k] == pattern@[k],
        decreases m - j,
    {
        if text[i + j] != pattern[j] {
            assert(text@.subrange(i as int, i + m)[j as int] != pattern@[j as int]);
            return false;
        }
        j = j + 1;
    }
    assert(text@.subrange(i as int, i + m) =~= pattern@);
    true
}

/// Whether `pattern` occurs in `text`.
pub fn chars_contain(text: &Vec<char>, pattern: &str) -> (r: bool)
    ensures
        r == contains_text(text@, pattern@),
{
    let p = str_chars(pattern);
    let n = text.len();
    let m = p.len();
    if m > n {
        assert forall|i: int| !occurs_at(text@, pattern@, i) by {}
        return false;
    }
    if m == 0 {
        assert(text@.subrange(0, 0) =~= pattern@);
        assert(occurs_at(text@, pattern@, 0));
        return true;
    }
    let mut i: usize = 0;
    while i <= n - m
        invariant
            n == text@.len(),
            m == p@.len(),
            p@ == pattern@,
            1 <= m <= n,
            i <= n - m + 1,
            forall|k: int| 0 <= k < i ==> !occurs_at(text@, pattern@, k),
        decreases n - m + 1 - i,
    {
        if matches_at(text, &p, i) {
            assert(occurs_at(text@, pattern@, i as int));
            return true;
        }
        i = i + 1;
    }
    assert forall|k: int| !occurs_at(text@, pattern@, k) by {
        if 0 <= k < i {
        }
    }
    false
}

} // verus!
