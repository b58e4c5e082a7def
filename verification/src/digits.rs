use vstd::prelude::*;

verus! {

/// The digit characters, in order of value, as Rust's upper-case hex formatting writes them.
pub open spec fn digit_chars() -> Seq<char> {
    seq!['0', '1', '2', '3', '4', '5', '6', '7', '8', '9', 'A', 'B', 'C', 'D', 'E', 'F']
}

/// The character for one digit of value `d` (`d < 16`).
pub open spec fn digit_char(d: nat) -> char {
    digit_chars()[d as int]
}

/// The digits of `v` in base `base` (10 or 16), most significant first, with no
/// leading zero: what `format!("{}", v)` (base 10) or `format!("{:X}", v)` (base 16) writes.
pub open spec fn digits_of(v: nat, base: nat) -> Seq<char>
    recommends
        base == 10 || base == 16,
    decreases v,
{
    if base < 2 || v < base {
        seq![digit_char(v)]
    } else {
        proof {
            vstd::arithmetic::div_mod::lemma_div_decreases(v as int, base as int);
        }
        digits_of(v / base, base).push(digit_char(v % base))
    }
}

/// `n` zero characters.
pub open spec fn zeros(n: nat) -> Seq<char> {
    Seq::new(n, |_i: int| '0')
}

/// `format!("{:0w$X}", v)` with `w == width`: the upper-case hex digits of `v`, padded on
/// the left with zeros to at least `width` characters. `{:X}` is the case `width == 0`.
pub open spec fn hex_padded(v: nat, width: nat) -> Seq<char> {
    let d = digits_of(v, 16);
    if d.len() >= width {
        d
    } else {
        zeros((width - d.len()) as nat) + d
    }
}

/// `format!("{:X}", v)`.
pub open spec fn hex(v: nat) -> Seq<char> {
    hex_padded(v, 0)
}

/// `format!("{}", v)` for an unsigned integer `v`.
pub open spec fn decimal(v: nat) -> Seq<char> {
    digits_of(v, 10)
}

/// A digit never needs more than one character.
pub proof fn lemma_single_digit(v: nat, base: nat)
    requires
        2 <= base,
        v < base,
    ensures
        digits_of(v, base) == seq![digit_char(v)],
{
}

/// The one-character string holding the digit `d`.
fn digit_str(d: u64) -> (res: &'static str)
    requires
        d < 16,
    ensures
        res@ == seq![digit_char(d as nat)],
{
    match d {
        0 => { proof { reveal_strlit("0"); } "0" },
        1 => { proof { reveal_strlit("1"); } "1" },
        2 => { proof { reveal_strlit("2"); } "2" },
        3 => { proof { reveal_strlit("3"); } "3" },
        4 => { proof { reveal_strlit("4"); } "4" },
        5 => { proof { reveal_strlit("5"); } "5" },
        6 => { proof { reveal_strlit("6"); } "6" },
        7 => { proof { reveal_strlit("7"); } "7" },
        8 => { proof { reveal_strlit("8"); } "8" },
        9 => { proof { reveal_strlit("9"); } "9" },
        10 => { proof { reveal_strlit("A"); } "A" },
        11 => { proof { reveal_strlit("B"); } "B" },
        12 => { proof { reveal_strlit("C"); } "C" },
        13 => { proof { reveal_strlit("D"); } "D" },
        14 => { proof { reveal_strlit("E"); } "E" },
        _ => { proof { reveal_strlit("F"); } "F" },
    }
}

/// Appends the digits of `v` in base `base`, most significant first.
fn append_digits(s: &mut String, v: u64, base: u64)
    requires
        base == 10 || base == 16,
    ensures
        final(s)@ == old(s)@ + digits_of(v as nat, base as nat),
    decreases v,
{
    let ghost start = s@;
    if v >= base {
        append_digits(s, v / base, base);
    }
    s.append(digit_str(v % base));
    proof {
        if v >= base {
            assert(digits_of(v as nat, base as nat) == digits_of((v / base) as nat, base as nat).push(
                digit_char((v % base) as nat),
            ));
        } else {
            lemma_single_digit(v as nat, base as nat);
        }
        assert(s@ =~= start + digits_of(v as nat, base as nat));
    }
}

/// Appends `n` zero characters.
fn append_zeros(s: &mut String, n: usize)
    ensures
        final(s)@ == old(s)@ + zeros(n as nat),
{
    let ghost start = s@;
    let mut i: usize = 0;
    while i < n
        invariant
            i <= n,
            s@ == start + zeros(i as nat),
        decreases n - i,
    {
        proof { reveal_strlit("0"); }
        s.append("0");
        i = i + 1;
        assert(s@ =~= start + zeros(i as nat));
    }
}

/// Appends `format!("{:0w$X}", v)` with `w == width`.
pub fn append_hex(s: &mut String, v: u64, width: usize)
    ensures
        final(s)@ == old(s)@ + hex_padded(v as nat, width as nat),
{
    let mut d = String::new();
    append_digits(&mut d, v, 16);
    assert(d@ =~= digits_of(v as nat, 16));
    let n = d.as_str().unicode_len();
    let ghost start = s@;
    if n < width {
        append_zeros(s, width - n);
    }
    s.append(d.as_str());
    assert(s@ =~= start + hex_padded(v as nat, width as nat));
}

/// Appends `format!("{}", v)`.
pub fn append_decimal(s: &mut String, v: u64)
    ensures
        final(s)@ == old(s)@ + decimal(v as nat),
{
    append_digits(s, v, 10);
}

/// The value of a digit character: `0`-`9` are 0-9 and `A`-`F` are 10-15, by their
/// character codes; any other character has no value (-1).
pub open spec fn char_value(c: char) -> int {
    if '0' <= c && c <= '9' {
        c as int - '0' as int
    } else if 'A' <= c && c <= 'F' {
        c as int - 'A' as int + 10
    } else {
        -1
    }
}

/// The number that the characters `s` spell in base `base`, most significant first.
pub open spec fn value_of(s: Seq<char>, base: nat) -> int
    decreases s.len(),
{
    if s.len() == 0 {
        0
    } else {
        value_of(s.drop_last(), base) * base + char_value(s.last())
    }
}

/// Every character of `s` is a digit of base `base`.
pub open spec fn all_digits(s: Seq<char>, base: nat) -> bool {
    forall|k: int| 0 <= k < s.len() ==> 0 <= #[trigger] char_value(s[k]) < base
}

/// Digit `d` is written with the character `'0' + d` below ten and `'A' + (d - 10)` from
/// ten on, and its character reads back as `d`.
pub proof fn lemma_digit_char(d: nat)
    requires
        d < 16,
    ensures
        digit_char(d) as int == (if d < 10 {
            '0' as int + d
        } else {
            'A' as int + d - 10
        }),
        char_value(digit_char(d)) == d,
{
    let t = digit_chars();
    assert(t[0] == '0' && t[1] == '1' && t[2] == '2' && t[3] == '3' && t[4] == '4' && t[5]
        == '5' && t[6] == '6' && t[7] == '7' && t[8] == '8' && t[9] == '9' && t[10] == 'A'
        && t[11] == 'B' && t[12] == 'C' && t[13] == 'D' && t[14] == 'E' && t[15] == 'F');
}

/// The digits of `v` read back as `v`: they are digits of the base, none of them is a
/// leading zero, and in base `base` they spell `v`.
pub proof fn lemma_digits_read_back(v: nat, base: nat)
    requires
        base == 10 || base == 16,
    ensures
        value_of(digits_of(v, base), base) == v,
        all_digits(digits_of(v, base), base),
        digits_of(v, base).len() >= 1,
        digits_of(v, base)[0] == '0' ==> v == 0,
    decreases v,
{
    let d = digits_of(v, base);
    if v < base {
        lemma_digit_char(v);
        assert(d.drop_last() =~= Seq::<char>::empty());
        assert(value_of(d.drop_last(), base) == 0);
        assert(0 * base == 0);
    } else {
        let q = v / base;
        let r = v % base;
        vstd::arithmetic::div_mod::lemma_fundamental_div_mod(v as int, base as int);
        vstd::arithmetic::div_mod::lemma_div_decreases(v as int, base as int);
        lemma_digits_read_back(q, base);
        lemma_digit_char(r);
        let p = digits_of(q, base);
        assert(d == p.push(digit_char(r)));
        assert(d.drop_last() =~= p);
        assert(d.last() == digit_char(r));
        assert(d[0] == p[0]);
        assert(value_of(d, base) == value_of(p, base) * base + char_value(digit_char(r)));
        assert(q > 0) by {
            vstd::arithmetic::div_mod::lemma_div_is_ordered(base as int, v as int, base as int);
            vstd::arithmetic::div_mod::lemma_div_basics(base as int);
        }
        assert(v == q * base + r) by {
            vstd::arithmetic::mul::lemma_mul_is_commutative(q as int, base as int);
        }
    }
}

/// Leading zeros do not change the value of a digit string.
pub proof fn lemma_leading_zeros(n: nat, s: Seq<char>, base: nat)
    ensures
        value_of(zeros(n) + s, base) == value_of(s, base),
    decreases s.len(),
{
    if s.len() == 0 {
        lemma_zeros_value(n, base);
        assert(zeros(n) + s =~= zeros(n));
    } else {
        lemma_leading_zeros(n, s.drop_last(), base);
        assert((zeros(n) + s).drop_last() =~= zeros(n) + s.drop_last());
    }
}

/// A string of zeros spells 0.
pub proof fn lemma_zeros_value(n: nat, base: nat)
    ensures
        value_of(zeros(n), base) == 0,
    decreases n,
{
    if n > 0 {
        lemma_zeros_value((n - 1) as nat, base);
        assert(zeros(n).drop_last() =~= zeros((n - 1) as nat));
        reveal_strlit("0");
    }
}

/// `format!("{:0w$X}", v)` is as long as `w` or as `v` has hex digits, whichever is more,
/// is made of hex digits, and reads back as `v`.
pub proof fn lemma_hex_padded_read_back(v: nat, width: nat)
    ensures
        value_of(hex_padded(v, width), 16) == v,
        all_digits(hex_padded(v, width), 16),
        hex_padded(v, width).len() == if digits_of(v, 16).len() >= width {
            digits_of(v, 16).len()
        } else {
            width
        },
{
    lemma_digits_read_back(v, 16);
    let d = digits_of(v, 16);
    if d.len() < width {
        let z = zeros((width - d.len()) as nat);
        lemma_leading_zeros((width - d.len()) as nat, d, 16);
        assert forall|k: int| 0 <= k < (z + d).len() implies 0 <= #[trigger] char_value(
            (z + d)[k],
        ) < 16 by {
            if k >= z.len() {
                assert((z + d)[k] == d[k - z.len()]);
            }
        }
    }
}

/// `format!("{}", v)` is made of decimal digits, has no leading zero, and reads back as `v`.
pub proof fn lemma_decimal_read_back(v: nat)
    ensures
        value_of(decimal(v), 10) == v,
        all_digits(decimal(v), 10),
        decimal(v).len() >= 1,
        decimal(v)[0] == '0' ==> v == 0,
{
    lemma_digits_read_back(v, 10);
}

} // verus!
