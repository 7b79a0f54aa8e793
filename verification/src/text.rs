//! Building blocks for generated source text: appending strings, and
//! rendering numbers as hexadecimal or decimal digits.

use vstd::prelude::*;

verus! {

/// Appends a string slice to `out`.
pub fn push_str(out: &mut String, s: &str)
    ensures
        final(out)@ == old(out)@ + s@,
{
    out.append(s);
}

/// The character of a digit `d` (0..16) in upper-case hexadecimal.
pub open spec fn hex_digit(d: int) -> char {
    if d < 10 {
        ('0' as int + d) as char
    } else {
        ('A' as int + d - 10) as char
    }
}

/// The value of an upper-case hexadecimal digit, or `None` for any other character.
pub open spec fn hex_digit_value(c: char) -> Option<int> {
    if '0' <= c <= '9' {
        Some(c as int - '0' as int)
    } else if 'A' <= c <= 'F' {
        Some(c as int - 'A' as int + 10)
    } else {
        None
    }
}

/// A byte as exactly two upper-case hexadecimal digits, zero padded
/// (what `format!("{:0>2X}", b)` gives for a `u8`).
pub open spec fn hex_byte(b: u8) -> Seq<char> {
    seq![hex_digit(b as int / 16), hex_digit(b as int % 16)]
}

/// The character of a decimal digit `d` (0..10).
pub open spec fn decimal_digit(d: int) -> char {
    ('0' as int + d) as char
}

/// A natural number in decimal, without leading zeros
/// (what `format!("{}", n)` gives for an unsigned integer).
pub open spec fn decimal(n: nat) -> Seq<char>
    decreases n,
{
    if n < 10 {
        seq![decimal_digit(n as int)]
    } else {
        decimal(n / 10).push(decimal_digit((n % 10) as int))
    }
}

/// The number that a sequence of decimal digits denotes
/// (`None` if a character is not a decimal digit).
pub open spec fn decimal_value(s: Seq<char>) -> Option<nat>
    decreases s.len(),
{
    if s.len() == 0 {
        Some(0)
    } else {
        let c = s.last();
        if '0' <= c <= '9' {
            match decimal_value(s.drop_last()) {
                Some(v) => Some(v * 10 + (c as int - '0' as int) as nat),
                None => None,
            }
        } else {
            None
        }
    }
}

/// The one-character text of a digit `d` (0..16) in upper-case hexadecimal.
fn hex_digit_str(d: u8) -> (res: &'static str)
    requires
        d < 16,
    ensures
        res@ == seq![hex_digit(d as int)],
{
    if d == 0 {
        proof {
            reveal_strlit("0");
        }
        "0"
    } else if d == 1 {
        proof {
            reveal_strlit("1");
        }
        "1"
    } else if d == 2 {
        proof {
            reveal_strlit("2");
        }
        "2"
    } else if d == 3 {
        proof {
            reveal_strlit("3");
        }
        "3"
    } else if d == 4 {
        proof {
            reveal_strlit("4");
        }
        "4"
    } else if d == 5 {
        proof {
            reveal_strlit("5");
        }
        "5"
    } else if d == 6 {
        proof {
            reveal_strlit("6");
        }
        "6"
    } else if d == 7 {
        proof {
            reveal_strlit("7");
        }
        "7"
    } else if d == 8 {
        proof {
            reveal_strlit("8");
        }
        "8"
    } else if d == 9 {
        proof {
            reveal_strlit("9");
        }
        "9"
    } else if d == 10 {
        proof {
            reveal_strlit("A");
        }
        "A"
    } else if d == 11 {
        proof {
            reveal_strlit("B");
        }
        "B"
    } else if d == 12 {
        proof {
            reveal_strlit("C");
        }
        "C"
    } else if d == 13 {
        proof {
            reveal_strlit("D");
        }
        "D"
    } else if d == 14 {
        proof {
            reveal_strlit("E");
        }
        "E"
    } else {
        proof {
            reveal_strlit("F");
        }
        "F"
    }
}

/// Appends the byte `b` as two upper-case hexadecimal digits.
pub fn push_hex_byte(out: &mut String, b: u8)
    ensures
        final(out)@ == old(out)@ + hex_byte(b),
{
    push_str(out, hex_digit_str(b / 16));
    push_str(out, hex_digit_str(b % 16));
    assert(final(out)@ =~= old(out)@ + hex_byte(b));
}

/// Appends `n` in decimal.
pub fn push_decimal(out: &mut String, n: u32)
    ensures
        final(out)@ == old(out)@ + decimal(n as nat),
    decreases n,
{
    if n >= 10 {
        push_decimal(out, n / 10);
    }
    let d: u8 = (n % 10) as u8;
    push_str(out, hex_digit_str(d));
    assert(final(out)@ =~= old(out)@ + decimal(n as nat));
}

/// The texts that `f` gives for the items of `s`, one after another in order.
pub open spec fn joined<A>(s: Seq<A>, f: spec_fn(A) -> Seq<char>) -> Seq<char>
    decreases s.len(),
{
    if s.len() == 0 {
        Seq::empty()
    } else {
        joined(s.drop_last(), f) + f(s.last())
    }
}

/// Joining the first `i + 1` items is joining the first `i` and appending
/// the text of item `i`.
pub proof fn lemma_joined_step<A>(s: Seq<A>, f: spec_fn(A) -> Seq<char>, i: int)
    requires
        0 <= i < s.len(),
    ensures
        joined(s.take(i + 1), f) == joined(s.take(i), f) + f(s[i]),
{
    assert(s.take(i + 1).drop_last() =~= s.take(i));
    assert(s.take(i + 1).last() == s[i]);
}

/// A list of texts, one after another.
pub open spec fn concat(texts: Seq<Seq<char>>) -> Seq<char> {
    joined(texts, |t: Seq<char>| t)
}

/// Joining the texts of items is concatenating the list of those texts.
pub proof fn lemma_joined_concat<A>(s: Seq<A>, f: spec_fn(A) -> Seq<char>)
    ensures
        joined(s, f) == concat(s.map_values(f)),
    decreases s.len(),
{
    if s.len() > 0 {
        lemma_joined_concat(s.drop_last(), f);
        assert(s.map_values(f).drop_last() =~= s.drop_last().map_values(f));
    } else {
        assert(s.map_values(f) =~= Seq::<Seq<char>>::empty());
    }
}

/// Two lists that hold the same items, in any order, give the same items
/// under `f`, in the corresponding order.
pub proof fn lemma_map_values_reorder<A, B>(s1: Seq<A>, s2: Seq<A>, f: spec_fn(A) -> B)
    requires
        s1.to_multiset() == s2.to_multiset(),
    ensures
        s1.map_values(f).to_multiset() == s2.map_values(f).to_multiset(),
    decreases s1.len(),
{
    broadcast use vstd::seq_lib::group_to_multiset_ensures;
    broadcast use vstd::multiset::group_multiset_axioms;

    if s1.len() == 0 {
        vstd::seq_lib::to_multiset_len(s2);
        assert(s2.len() == 0);
        assert(s1.map_values(f) =~= Seq::<B>::empty());
        assert(s2.map_values(f) =~= Seq::<B>::empty());
    } else {
        let x = s1.last();
        let r1 = s1.drop_last();
        assert(r1.push(x) =~= s1);
        vstd::seq_lib::to_multiset_build(r1, x);
        vstd::seq_lib::to_multiset_contains(s2, x);
        assert(s2.contains(x));
        let i = choose|i: int| 0 <= i < s2.len() && s2[i] == x;
        let r2 = s2.remove(i);
        vstd::seq_lib::to_multiset_remove(s2, i);
        assert(r1.to_multiset() =~= r2.to_multiset());
        lemma_map_values_reorder(r1, r2, f);
        let m1 = s1.map_values(f);
        let m2 = s2.map_values(f);
        assert(r1.map_values(f).push(f(x)) =~= m1);
        vstd::seq_lib::to_multiset_build(r1.map_values(f), f(x));
        assert(m2.remove(i) =~= r2.map_values(f));
        vstd::seq_lib::to_multiset_remove(m2, i);
        vstd::seq_lib::to_multiset_contains(m2, f(x));
        assert(m2[i] == f(x));
        assert(m2.contains(f(x)));
        assert(m1.to_multiset() =~= m2.to_multiset());
    }
}

/// The byte that two upper-case hexadecimal digits denote.
pub open spec fn hex_byte_value(s: Seq<char>) -> Option<int> {
    if s.len() != 2 {
        None
    } else {
        match (hex_digit_value(s[0]), hex_digit_value(s[1])) {
            (Some(hi), Some(lo)) => Some(hi * 16 + lo),
            _ => None,
        }
    }
}

/// Law: the two hexadecimal digits written for a byte are upper-case
/// hexadecimal digits and read back as that byte, so distinct protocol ids
/// never render alike.
pub proof fn lemma_hex_byte_roundtrip(b: u8)
    ensures
        hex_byte(b).len() == 2,
        hex_digit_value(hex_byte(b)[0]) is Some,
        hex_digit_value(hex_byte(b)[1]) is Some,
        hex_byte_value(hex_byte(b)) == Some(b as int),
{
    let hi = b as int / 16;
    let lo = b as int % 16;
    assert(0 <= hi < 16 && 0 <= lo < 16);
    assert(hex_digit_value(hex_digit(hi)) == Some(hi));
    assert(hex_digit_value(hex_digit(lo)) == Some(lo));
}

/// Law: the hexadecimal rendering of bytes is one-to-one.
pub proof fn lemma_hex_byte_injective(a: u8, b: u8)
    requires
        hex_byte(a) == hex_byte(b),
    ensures
        a == b,
{
    lemma_hex_byte_roundtrip(a);
    lemma_hex_byte_roundtrip(b);
}

/// Law: the decimal rendering of a number is a non-empty run of decimal
/// digits without a leading zero (but for zero itself) that reads back as the
/// number.
pub proof fn lemma_decimal_roundtrip(n: nat)
    ensures
        decimal(n).len() >= 1,
        decimal_value(decimal(n)) == Some(n),
        decimal(n)[0] == '0' ==> n == 0,
    decreases n,
{
    if n < 10 {
        assert(decimal(n) =~= seq![decimal_digit(n as int)]);
        assert(decimal(n).drop_last() =~= Seq::<char>::empty());
        assert(decimal_value(Seq::<char>::empty()) == Some(0nat));
        assert(decimal_digit(n as int) as int - '0' as int == n);
    } else {
        lemma_decimal_roundtrip(n / 10);
        let d = (n % 10) as int;
        assert(decimal(n).drop_last() =~= decimal(n / 10));
        assert(decimal(n).last() == decimal_digit(d));
        assert(decimal(n)[0] == decimal(n / 10)[0]);
        assert(decimal_digit(d) as int - '0' as int == d);
        assert((n / 10) * 10 + d == n);
    }
}

/// Law: the decimal rendering of numbers is one-to-one.
pub proof fn lemma_decimal_injective(a: nat, b: nat)
    requires
        decimal(a) == decimal(b),
    ensures
        a == b,
{
    lemma_decimal_roundtrip(a);
    lemma_decimal_roundtrip(b);
}

} // verus!
