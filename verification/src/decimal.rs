//! Unsigned decimal numbers as ASCII digit bytes: reading and writing.

use vstd::prelude::*;

verus! {

/// The byte is one of the ASCII digits `0` to `9`.
pub open spec fn is_digit(b: u8) -> bool {
    48 <= b <= 57
}

/// Every byte of `s` is an ASCII digit.
pub open spec fn all_digits(s: Seq<u8>) -> bool {
    forall|i: int| 0 <= i < s.len() ==> is_digit(#[trigger] s[i])
}

/// The number that the digits of `s` write in base ten, most significant
/// digit first. The empty sequence writes zero.
pub open spec fn digits_value(s: Seq<u8>) -> nat
    decreases s.len(),
{
    if s.len() == 0 {
        0
    } else {
        (digits_value(s.drop_last()) * 10 + (s.last() - 48)) as nat
    }
}

/// What `s` reads as: a number when `s` is a non-empty run of digits whose
/// value fits in 64 bits, nothing otherwise. Leading zeros are accepted;
/// signs, blanks and separators are not.
pub open spec fn parsed(s: Seq<u8>) -> Option<u64> {
    if s.len() > 0 && all_digits(s) && digits_value(s) <= u64::MAX {
        Some(digits_value(s) as u64)
    } else {
        None
    }
}

/// The shortest digit string that writes `n`: no leading zero, and `0` for
/// zero.
pub open spec fn written(n: nat) -> Seq<u8>
    decreases n,
{
    if n < 10 {
        seq![(48 + n) as u8]
    } else {
        written(n / 10).push((48 + n % 10) as u8)
    }
}

/// A run of digits is worth at least as much as any of its prefixes.
pub proof fn lemma_prefix_value(s: Seq<u8>, k: int)
    requires
        all_digits(s),
        0 <= k <= s.len(),
    ensures
        digits_value(s.take(k)) <= digits_value(s),
    decreases s.len() - k,
{
    if k == s.len() {
        assert(s.take(k) =~= s);
    } else {
        lemma_prefix_value(s, k + 1);
        assert(s.take(k + 1).drop_last() =~= s.take(k));
        assert(is_digit(s[k]));
        assert(s.take(k + 1).last() == s[k]);
    }
}

/// Reading what was written gives the number back.
pub proof fn lemma_written_reads_back(n: nat)
    ensures
        written(n).len() > 0,
        all_digits(written(n)),
        digits_value(written(n)) == n,
    decreases n,
{
    if n < 10 {
        let s = written(n);
        assert(s.drop_last() =~= Seq::<u8>::empty());
        assert(digits_value(s.drop_last()) == 0);
    } else {
        lemma_written_reads_back(n / 10);
        let head = written(n / 10);
        let s = written(n);
        assert(s.drop_last() =~= head);
        assert(s.last() == (48 + n % 10) as u8);
        assert forall|i: int| 0 <= i < s.len() implies is_digit(#[trigger] s[i]) by {
            if i < head.len() {
                assert(s[i] == head[i]);
            }
        }
    }
}

/// Every number of 64 bits reads back from its written form.
pub proof fn lemma_round_trip(n: u64)
    ensures
        parsed(written(n as nat)) == Some(n),
{
    lemma_written_reads_back(n as nat);
}

/// Reads an unsigned decimal number.
pub fn parse_u64(s: &[u8]) -> (r: Option<u64>)
    ensures
        r == parsed(s@),
{
    let n: usize = s.len();
    if n == 0 {
        return None;
    }
    let mut acc: u64 = 0;
    let mut i: usize = 0;
    while i < n
        invariant
            n == s@.len(),
            0 <= i <= n,
            all_digits(s@.take(i as int)),
            acc == digits_value(s@.take(i as int)),
        decreases n - i,
    {
        let b: u8 = s[i];
        proof {
            assert(s@.take(i + 1).drop_last() =~= s@.take(i as int));
            assert(s@.take(i + 1).last() == b);
        }
        if b < 48 || b > 57 {
            assert(!is_digit(s@[i as int]));
            return None;
        }
        let d: u64 = (b - 48) as u64;
        if acc > (u64::MAX - d) / 10 {
            proof {
                if all_digits(s@) {
                    lemma_prefix_value(s@, i + 1);
                }
            }
            return None;
        }
        acc = acc * 10 + d;
        i = i + 1;
    }
    proof {
        assert(s@.take(n as int) =~= s@);
    }
    Some(acc)
}

/// Writes `n` in decimal, without leading zeros.
pub fn format_u64(n: u64) -> (digits: Vec<u8>)
    ensures
        digits@ == written(n as nat),
    decreases n,
{
    if n < 10 {
        let mut one: Vec<u8> = Vec::new();
        one.push(48 + n as u8);
        assert(one@ =~= written(n as nat));
        one
    } else {
        let mut digits: Vec<u8> = format_u64(n / 10);
        digits.push(48 + (n % 10) as u8);
        digits
    }
}

} // verus!
