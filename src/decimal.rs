//! Decimal text of integers, as it stands in the claims of a session token.

use vstd::prelude::*;

verus! {

/// The ASCII byte of the digit `d`.
pub open spec fn digit_byte(d: nat) -> u8 {
    (48 + d) as u8
}

/// Whether `b` is an ASCII digit.
pub open spec fn is_digit(b: u8) -> bool {
    48 <= b && b <= 57
}

/// Canonical decimal text of a natural number: no sign, no leading zeros.
pub open spec fn dec_nat(n: nat) -> Seq<u8>
    decreases n,
{
    if n < 10 {
        seq![digit_byte(n)]
    } else {
        dec_nat(n / 10).push(digit_byte(n % 10))
    }
}

/// Canonical decimal text of an integer, with a leading `-` when negative.
pub open spec fn dec_int(n: int) -> Seq<u8> {
    if n < 0 {
        seq![45u8] + dec_nat((-n) as nat)
    } else {
        dec_nat(n as nat)
    }
}

/// The number that a sequence of digits denotes, read left to right.
pub open spec fn digits_value(s: Seq<u8>) -> nat
    decreases s.len(),
{
    if s.len() == 0 {
        0
    } else {
        digits_value(s.drop_last()) * 10 + (s.last() - 48) as nat
    }
}

/// The decimal text of `n` is a non-empty run of digits that denotes `n`.
pub(crate) proof fn lemma_dec_nat_shape(n: nat)
    ensures
        dec_nat(n).len() >= 1,
        forall|i: int| 0 <= i < dec_nat(n).len() ==> is_digit(#[trigger] dec_nat(n)[i]),
        digits_value(dec_nat(n)) == n,
    decreases n,
{
    if n >= 10 {
        lemma_dec_nat_shape(n / 10);
        let t = dec_nat(n / 10);
        let s = dec_nat(n);
        assert(s.drop_last() =~= t);
        assert(digit_byte(n % 10) == 48 + n % 10);
        assert(s.last() == digit_byte(n % 10));
        assert(digits_value(s) == digits_value(t) * 10 + (n % 10));
        assert(n == (n / 10) * 10 + n % 10);
    } else {
        let s = seq![digit_byte(n)];
        assert(s.drop_last() =~= Seq::<u8>::empty());
        assert(digits_value(Seq::<u8>::empty()) == 0);
        assert(digit_byte(n) == 48 + n);
        assert(s.last() == digit_byte(n));
        assert(digits_value(s) == n);
    }
}

/// Distinct integers have distinct decimal texts.
pub proof fn lemma_dec_int_injective(a: int, b: int)
    requires
        dec_int(a) == dec_int(b),
    ensures
        a == b,
{
    let ma: nat = if a < 0 { (-a) as nat } else { a as nat };
    let mb: nat = if b < 0 { (-b) as nat } else { b as nat };
    lemma_dec_nat_shape(ma);
    lemma_dec_nat_shape(mb);
    if a < 0 && b < 0 {
        assert(dec_nat(ma) =~= dec_int(a).subrange(1, dec_int(a).len() as int));
        assert(dec_nat(mb) =~= dec_int(b).subrange(1, dec_int(b).len() as int));
    } else if a < 0 {
        assert(dec_int(a)[0] == 45u8);
        assert(is_digit(dec_nat(mb)[0]));
    } else if b < 0 {
        assert(dec_int(b)[0] == 45u8);
        assert(is_digit(dec_nat(ma)[0]));
    }
}

/// Decimal text of a natural number.
pub fn render_u64(n: u64) -> (r: Vec<u8>)
    ensures
        r@ == dec_nat(n as nat),
{
    let mut cur: u64 = n;
    let mut acc: Vec<u8> = Vec::new();
    while cur >= 10
        invariant
            dec_nat(n as nat) == dec_nat(cur as nat) + acc@,
        decreases cur,
    {
        let d: u8 = (cur % 10) as u8;
        let ghost before = acc@;
        acc.insert(0, 48 + d);
        proof {
            let head = dec_nat((cur / 10) as nat);
            assert(dec_nat(cur as nat) == head.push(digit_byte((cur % 10) as nat)));
            assert(head.push(digit_byte((cur % 10) as nat)) + before =~= head + acc@);
        }
        cur = cur / 10;
    }
    let last: u8 = cur as u8;
    let ghost before = acc@;
    acc.insert(0, 48 + last);
    proof {
        assert(dec_nat(cur as nat) + before =~= acc@);
    }
    acc
}

/// Decimal text of an integer.
pub fn render_i64(n: i64) -> (r: Vec<u8>)
    ensures
        r@ == dec_int(n as int),
{
    if n < 0 {
        let mag: u64 = (0 - (n as i128)) as u64;
        let mut r = render_u64(mag);
        let ghost digits = r@;
        r.insert(0, 45u8);
        proof {
            assert(r@ =~= seq![45u8] + digits);
        }
        r
    } else {
        render_u64(n as u64)
    }
}

} // verus!
