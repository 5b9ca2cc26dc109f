//! Decoding of packed binary-coded-decimal counters.
use vstd::prelude::*;

verus! {

/// `100^n`.
pub open spec fn pow100(n: nat) -> nat
    decreases n,
{
    if n == 0 {
        1
    } else {
        100 * pow100((n - 1) as nat)
    }
}

/// The value of one byte holding two BCD digits, high nibble first.
/// Nibbles above 9 are taken at face value.
pub open spec fn pair_value(b: u8) -> int {
    (b / 16) as int * 10 + (b % 16) as int
}

/// The value of a sequence of BCD bytes, most significant byte first.
pub open spec fn bcd_value(s: Seq<u8>) -> int
    decreases s.len(),
{
    if s.len() == 0 {
        0
    } else {
        bcd_value(s.drop_last()) * 100 + pair_value(s.last())
    }
}

/// Both nibbles of `b` are decimal digits.
pub open spec fn valid_pair(b: u8) -> bool {
    b / 16 <= 9 && b % 16 <= 9
}

/// Every byte of `s` holds two decimal digits.
pub open spec fn valid_bcd(s: Seq<u8>) -> bool {
    forall|i: int| 0 <= i < s.len() ==> valid_pair(#[trigger] s[i])
}

proof fn lemma_pow100_mono(a: nat, b: nat)
    requires
        a <= b,
    ensures
        1 <= pow100(a) <= pow100(b),
    decreases b,
{
    if b > a {
        lemma_pow100_mono(a, (b - 1) as nat);
    } else if a > 0 {
        lemma_pow100_mono((a - 1) as nat, (a - 1) as nat);
    }
}

/// Whatever the nibbles, the value of `n` bytes stays below `2 * 100^n - 1`.
pub proof fn lemma_bcd_bound(s: Seq<u8>)
    ensures
        0 <= bcd_value(s),
        bcd_value(s) + 2 <= 2 * pow100(s.len()),
    decreases s.len(),
{
    if s.len() > 0 {
        lemma_bcd_bound(s.drop_last());
    }
}

/// A sequence of `n` well-formed BCD bytes decodes to a number of at most
/// `2n` decimal digits.
pub proof fn lemma_valid_bcd_range(s: Seq<u8>)
    requires
        valid_bcd(s),
    ensures
        0 <= bcd_value(s) < pow100(s.len()),
    decreases s.len(),
{
    if s.len() > 0 {
        let p = s.drop_last();
        assert(valid_pair(s[s.len() - 1]));
        assert forall|i: int| 0 <= i < p.len() implies valid_pair(#[trigger] p[i]) by {
            assert(p[i] == s[i]);
        }
        lemma_valid_bcd_range(p);
    }
}

/// For well-formed BCD the decoding is positional: the last two decimal
/// digits of the value are the digits of the last byte, and the value with
/// them removed is the decoding of the bytes before it.
pub proof fn lemma_valid_bcd_digits(s: Seq<u8>)
    requires
        valid_bcd(s),
        s.len() > 0,
    ensures
        bcd_value(s) % 100 == pair_value(s.last()),
        bcd_value(s) / 100 == bcd_value(s.drop_last()),
{
    assert(valid_pair(s[s.len() - 1]));
    let p = s.drop_last();
    assert forall|i: int| 0 <= i < p.len() implies valid_pair(#[trigger] p[i]) by {
        assert(p[i] == s[i]);
    }
    lemma_valid_bcd_range(p);
    let h = bcd_value(p);
    let d = pair_value(s.last());
    assert(0 <= d < 100);
    assert((h * 100 + d) % 100 == d && (h * 100 + d) / 100 == h) by (nonlinear_arith)
        requires
            0 <= d < 100,
            0 <= h,
    ;
}

/// Decodes packed BCD bytes, most significant first: each byte multiplies
/// the running value by 100 and adds its two digits.
pub fn decode_bcd(bytes: &[u8]) -> (r: u64)
    requires
        bytes@.len() <= 9,
    ensures
        r == bcd_value(bytes@),
{
    let mut acc: u64 = 0;
    let mut i: usize = 0;
    proof {
        lemma_pow100_mono(bytes@.len() as nat, 9);
        reveal_with_fuel(pow100, 10);
    }
    while i < bytes.len()
        invariant
            i <= bytes@.len() <= 9,
            pow100(bytes@.len() as nat) <= pow100(9),
            pow100(9) == 1_000_000_000_000_000_000,
            acc == bcd_value(bytes@.take(i as int)),
        decreases bytes@.len() - i,
    {
        let b = bytes[i];
        proof {
            let t = bytes@.take(i as int + 1);
            assert(t.drop_last() =~= bytes@.take(i as int));
            lemma_bcd_bound(t);
            lemma_pow100_mono(t.len(), bytes@.len() as nat);
        }
        acc = acc * 100 + ((b / 16) as u64 * 10 + (b % 16) as u64);
        i = i + 1;
    }
    assert(bytes@.take(i as int) =~= bytes@);
    acc
}

} // verus!
