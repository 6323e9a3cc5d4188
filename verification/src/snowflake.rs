//! Tenant and entity identifiers.
//!
//! An identifier is a 64-bit unsigned integer. On the wire it travels as a
//! decimal string (JSON numbers cannot carry a full 64-bit value without
//! precision loss), so this module also gives the decimal encoding and its
//! parser, and proves that the two round-trip exactly.

use vstd::prelude::*;
use vstd::string::StringSliceAdditionalSpecFns;

verus! {

/// A 64-bit identifier for a tenant, user, guild, role or channel.
/// Equality and ordering are by numeric value.
#[derive(Debug, Copy, Clone, Eq, PartialEq, Structural, Hash, PartialOrd, Ord)]
pub struct Snowflake(pub u64);

/// An ASCII decimal digit.
pub open spec fn is_dec_digit(b: u8) -> bool {
    48 <= b <= 57
}

/// The canonical decimal encoding of `n`, most significant digit first,
/// with no leading zeroes (and `0` encoded as the single digit `0`).
pub open spec fn dec_of(n: nat) -> Seq<u8>
    decreases n,
{
    if n < 10 {
        seq![(48 + n) as u8]
    } else {
        dec_of(n / 10).push((48 + n % 10) as u8)
    }
}

/// The numeric value of a digit sequence, most significant digit first.
pub open spec fn dec_value(s: Seq<u8>) -> nat
    decreases s.len(),
{
    if s.len() == 0 {
        0
    } else {
        dec_value(s.drop_last()) * 10 + ((s.last() - 48) as nat)
    }
}

/// A non-empty sequence of ASCII decimal digits.
pub open spec fn is_dec_seq(s: Seq<u8>) -> bool {
    s.len() > 0 && forall|i: int| 0 <= i < s.len() ==> is_dec_digit(#[trigger] s[i])
}

/// Appends the decimal encoding of `n` to `out`.
pub(crate) fn push_dec(n: u64, out: &mut Vec<u8>)
    ensures
        final(out)@ == old(out)@ + dec_of(n as nat),
    decreases n,
{
    if n < 10 {
        out.push((48 + n) as u8);
        assert(final(out)@ =~= old(out)@ + dec_of(n as nat));
    } else {
        push_dec(n / 10, out);
        out.push(48 + (n % 10) as u8);
        assert(final(out)@ =~= old(out)@ + dec_of(n as nat));
    }
}

/// A value of a longer digit prefix never shrinks: the value of the whole
/// sequence is at least the value of any prefix.
proof fn lemma_dec_value_take_le(s: Seq<u8>, j: int)
    requires
        0 <= j <= s.len(),
        forall|i: int| 0 <= i < s.len() ==> is_dec_digit(#[trigger] s[i]),
    ensures
        dec_value(s.take(j)) <= dec_value(s),
    decreases s.len() - j,
{
    if j < s.len() {
        assert(s.take(j + 1).drop_last() =~= s.take(j));
        assert(s.take(j + 1).last() == s[j]);
        lemma_dec_value_take_le(s, j + 1);
    } else {
        assert(s.take(j) =~= s);
    }
}

impl Snowflake {
    /// The decimal encoding of this identifier, as ASCII bytes.
    pub fn to_dec_bytes(&self) -> (r: Vec<u8>)
        ensures
            r@ == dec_of(self.0 as nat),
    {
        let mut out: Vec<u8> = Vec::new();
        push_dec(self.0, &mut out);
        proof {
            assert(out@ =~= dec_of(self.0 as nat));
        }
        out
    }

    /// Parses a decimal byte string. Returns the identifier exactly when the
    /// input is a non-empty, all-digit sequence whose value fits in 64 bits;
    /// leading zeroes are accepted.
    pub fn from_dec_bytes(s: &[u8]) -> (r: Option<Snowflake>)
        ensures
            r is Some <==> is_dec_seq(s@) && dec_value(s@) <= u64::MAX,
            r matches Some(id) ==> id.0 as nat == dec_value(s@),
    {
        if s.len() == 0 {
            return None;
        }
        let mut acc: u64 = 0;
        let mut i: usize = 0;
        while i < s.len()
            invariant
                0 <= i <= s@.len(),
                s@.len() > 0,
                forall|j: int| 0 <= j < i ==> is_dec_digit(#[trigger] s@[j]),
                acc as nat == dec_value(s@.take(i as int)),
            decreases s@.len() - i,
        {
            let b = s[i];
            if !(48 <= b && b <= 57) {
                return None;
            }
            let d = (b - 48) as u64;
            proof {
                assert(s@.take(i + 1).drop_last() =~= s@.take(i as int));
                assert(s@.take(i + 1).last() == s@[i as int]);
            }
            let step = match acc.checked_mul(10) {
                Some(m) => m.checked_add(d),
                None => None,
            };
            match step {
                Some(next) => {
                    acc = next;
                }
                None => {
                    proof {
                        if is_dec_seq(s@) {
                            lemma_dec_value_take_le(s@, i + 1);
                        }
                    }
                    return None;
                }
            }
            i = i + 1;
        }
        proof {
            assert(s@.take(s@.len() as int) =~= s@);
        }
        Some(Snowflake(acc))
    }

    /// Parses the decimal string form, as it appears in JSON payloads.
    pub fn from_dec_str(s: &str) -> (r: Option<Snowflake>)
        ensures
            r is Some <==> is_dec_seq(s.spec_bytes()) && dec_value(s.spec_bytes()) <= u64::MAX,
            r matches Some(id) ==> id.0 as nat == dec_value(s.spec_bytes()),
    {
        Snowflake::from_dec_bytes(s.as_bytes())
    }
}

/// The decimal encoding of any 64-bit value parses back to that value:
/// the encoding is a well-formed digit string and its numeric value is
/// the encoded number, so string and integer forms round-trip exactly.
pub proof fn lemma_dec_round_trip(n: u64)
    ensures
        is_dec_seq(dec_of(n as nat)),
        dec_value(dec_of(n as nat)) == n as nat,
        n >= 10 ==> dec_of(n as nat)[0] != 48,
{
    lemma_dec_of_value(n as nat);
}

/// Different identifiers have different decimal encodings.
pub proof fn lemma_dec_encoding_injective(a: u64, b: u64)
    ensures
        dec_of(a as nat) == dec_of(b as nat) ==> a == b,
{
    lemma_dec_of_value(a as nat);
    lemma_dec_of_value(b as nat);
}

proof fn lemma_dec_of_value(n: nat)
    ensures
        is_dec_seq(dec_of(n)),
        dec_value(dec_of(n)) == n,
        n >= 10 ==> dec_of(n)[0] != 48,
    decreases n,
{
    if n < 10 {
        assert(dec_of(n).drop_last() =~= Seq::<u8>::empty());
        assert(dec_value(dec_of(n).drop_last()) == 0);
        assert(dec_value(dec_of(n)) == n);
    } else {
        lemma_dec_of_value(n / 10);
        assert(dec_of(n).drop_last() =~= dec_of(n / 10));
        assert(dec_of(n).last() == (48 + n % 10) as u8);
        assert(dec_of(n)[0] == dec_of(n / 10)[0]);
        assert(dec_of(n / 10)[0] != 48);
        assert(dec_value(dec_of(n)) == (n / 10) * 10 + n % 10);
        assert((n / 10) * 10 + n % 10 == n) by (nonlinear_arith);
    }
}

} // verus!
