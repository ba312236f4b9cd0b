//! Lower-case hexadecimal rendering of unsigned numbers, and its inverse.
use vstd::prelude::*;

verus! {

/// The lower-case hexadecimal digit for `d` (`d < 16`).
pub open spec fn hex_char(d: nat) -> char {
    if d == 0 { '0' }
    else if d == 1 { '1' }
    else if d == 2 { '2' }
    else if d == 3 { '3' }
    else if d == 4 { '4' }
    else if d == 5 { '5' }
    else if d == 6 { '6' }
    else if d == 7 { '7' }
    else if d == 8 { '8' }
    else if d == 9 { '9' }
    else if d == 10 { 'a' }
    else if d == 11 { 'b' }
    else if d == 12 { 'c' }
    else if d == 13 { 'd' }
    else if d == 14 { 'e' }
    else { 'f' }
}

/// The value of a hexadecimal digit (either case); 0 for any other character.
pub open spec fn digit_value(c: char) -> nat {
    if '0' <= c && c <= '9' {
        (c as nat - '0' as nat) as nat
    } else if 'a' <= c && c <= 'f' {
        (c as nat - 'a' as nat + 10) as nat
    } else if 'A' <= c && c <= 'F' {
        (c as nat - 'A' as nat + 10) as nat
    } else {
        0
    }
}

/// The last `w` hexadecimal digits of `n`, most significant first.
pub open spec fn hex_fixed(n: nat, w: nat) -> Seq<char>
    decreases w,
{
    if w == 0 {
        Seq::empty()
    } else {
        hex_fixed(n / 16, (w - 1) as nat).push(hex_char(n % 16))
    }
}

/// The number of hexadecimal digits needed to write `n` (at least one).
pub open spec fn digit_count(n: nat) -> nat
    decreases n,
{
    if n < 16 {
        1
    } else {
        1 + digit_count(n / 16)
    }
}

/// `n` in hexadecimal, zero-padded on the left to at least `w` digits.
pub open spec fn hex_padded(n: nat, w: nat) -> Seq<char> {
    if digit_count(n) <= w {
        hex_fixed(n, w)
    } else {
        hex_fixed(n, digit_count(n))
    }
}

/// The number that a string of hexadecimal digits denotes.
pub open spec fn hex_value(s: Seq<char>) -> nat
    decreases s.len(),
{
    if s.len() == 0 {
        0
    } else {
        hex_value(s.drop_last()) * 16 + digit_value(s.last())
    }
}

/// 16 to the power `w`.
pub open spec fn pow16(w: nat) -> nat
    decreases w,
{
    if w == 0 {
        1
    } else {
        16 * pow16((w - 1) as nat)
    }
}

/// Reading back the `w` digits written for `n` gives `n` modulo 16^w.
pub proof fn lemma_hex_fixed_value(n: nat, w: nat)
    ensures
        hex_fixed(n, w).len() == w,
        hex_value(hex_fixed(n, w)) == n % pow16(w),
    decreases w,
{
    if w > 0 {
        let w1 = (w - 1) as nat;
        lemma_hex_fixed_value(n / 16, w1);
        let s = hex_fixed(n, w);
        assert(s.drop_last() =~= hex_fixed(n / 16, w1));
        assert(digit_value(hex_char(n % 16)) == n % 16);
        assert(pow16(w) == 16 * pow16(w1));
        assert(pow16(w1) > 0) by {
            lemma_pow16_positive(w1);
        }
        assert((n / 16) % pow16(w1) * 16 + n % 16 == n % (16 * pow16(w1))) by (nonlinear_arith)
            requires
                pow16(w1) > 0,
        {
            vstd::arithmetic::div_mod::lemma_breakdown(n as int, 16, pow16(w1) as int);
        }
    }
}

/// Every power of 16 is positive.
pub proof fn lemma_pow16_positive(w: nat)
    ensures
        pow16(w) > 0,
    decreases w,
{
    if w > 0 {
        lemma_pow16_positive((w - 1) as nat);
    }
}

/// A number below 16^k needs at most k digits.
pub proof fn lemma_digit_count_bound(n: nat, k: nat)
    requires
        1 <= k,
        n < pow16(k),
    ensures
        digit_count(n) <= k,
    decreases k,
{
    if n >= 16 {
        let k1 = (k - 1) as nat;
        if k == 1 {
            assert(pow16(1) == 16 * pow16(0));
        }
        assert(n / 16 < pow16(k1)) by (nonlinear_arith)
            requires
                n < 16 * pow16(k1),
        {
        }
        lemma_digit_count_bound(n / 16, k1);
    }
}

/// The one-character string for the digit `d`.
fn digit_str(d: u64) -> (r: &'static str)
    requires
        d < 16,
    ensures
        r@ == seq![hex_char(d as nat)],
{
    proof {
        reveal_strlit("0");
        reveal_strlit("1");
        reveal_strlit("2");
        reveal_strlit("3");
        reveal_strlit("4");
        reveal_strlit("5");
        reveal_strlit("6");
        reveal_strlit("7");
        reveal_strlit("8");
        reveal_strlit("9");
        reveal_strlit("a");
        reveal_strlit("b");
        reveal_strlit("c");
        reveal_strlit("d");
        reveal_strlit("e");
        reveal_strlit("f");
    }
    let r = if d == 0 { "0" }
    else if d == 1 { "1" }
    else if d == 2 { "2" }
    else if d == 3 { "3" }
    else if d == 4 { "4" }
    else if d == 5 { "5" }
    else if d == 6 { "6" }
    else if d == 7 { "7" }
    else if d == 8 { "8" }
    else if d == 9 { "9" }
    else if d == 10 { "a" }
    else if d == 11 { "b" }
    else if d == 12 { "c" }
    else if d == 13 { "d" }
    else if d == 14 { "e" }
    else { "f" };
    assert(r@ =~= seq![hex_char(d as nat)]);
    r
}

/// Appends the last `w` hexadecimal digits of `n` to `s`.
pub fn push_hex_fixed(s: &mut String, n: u64, w: usize)
    ensures
        final(s)@ == old(s)@ + hex_fixed(n as nat, w as nat),
    decreases w,
{
    if w > 0 {
        push_hex_fixed(s, n / 16, w - 1);
        s.append(digit_str(n % 16));
        assert(final(s)@ =~= old(s)@ + hex_fixed(n as nat, w as nat));
    }
}

/// Appends `n` in hexadecimal, zero-padded on the left to at least `w` digits.
pub fn push_hex_padded(s: &mut String, n: u64, w: usize)
    ensures
        final(s)@ == old(s)@ + hex_padded(n as nat, w as nat),
{
    proof {
        reveal_with_fuel(pow16, 17);
        assert(pow16(16) == 0x1_0000_0000_0000_0000);
        lemma_digit_count_bound(n as nat, 16);
    }
    let mut count: usize = 1;
    let mut rest: u64 = n;
    while rest >= 16
        invariant
            1 <= count,
            digit_count(n as nat) <= 16,
            digit_count(n as nat) == count - 1 + digit_count(rest as nat),
        decreases rest,
    {
        rest = rest / 16;
        count = count + 1;
    }
    let width: usize = if count <= w { w } else { count };
    push_hex_fixed(s, n, width);
}

} // verus!
