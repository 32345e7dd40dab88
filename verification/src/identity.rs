//! Card identity: a 16-byte response payload interpreted as a big-endian
//! 128-bit unique identifier.

use vstd::prelude::*;
use crate::apdu::ApduError;
use crate::apdu::response_ok;
use crate::apdu::response_payload;

verus! {

/// A failure of the identity query.
#[derive(Clone, Copy, Debug, PartialEq, Eq, Structural)]
pub enum IdentityError {
    /// The underlying APDU exchange failed.
    Apdu(ApduError),
    /// The command succeeded but its payload was not exactly 16 bytes.
    PayloadLength { len: usize },
}

/// `256^n`: the weight of a byte `n` positions above the least significant.
pub open spec fn pow256(n: nat) -> int
    decreases n,
{
    if n == 0 {
        1
    } else {
        256 * pow256((n - 1) as nat)
    }
}

/// The big-endian integer value of a byte sequence: the last byte is the
/// least significant.
pub open spec fn uuid_spec(s: Seq<u8>) -> int
    decreases s.len(),
{
    if s.len() == 0 {
        0
    } else {
        uuid_spec(s.drop_last()) * 256 + s.last()
    }
}

pub proof fn lemma_pow256_pos(n: nat)
    ensures
        pow256(n) >= 1,
    decreases n,
{
    if n > 0 {
        lemma_pow256_pos((n - 1) as nat);
    }
}

pub proof fn lemma_pow256_mono(a: nat, b: nat)
    requires
        a <= b,
    ensures
        pow256(a) <= pow256(b),
    decreases b,
{
    if a < b {
        lemma_pow256_mono(a, (b - 1) as nat);
        lemma_pow256_pos((b - 1) as nat);
    }
}

/// A sequence of `n` bytes denotes a value below `256^n`.
pub proof fn lemma_uuid_spec_bound(s: Seq<u8>)
    ensures
        0 <= uuid_spec(s) < pow256(s.len()),
    decreases s.len(),
{
    if s.len() > 0 {
        lemma_uuid_spec_bound(s.drop_last());
    }
}

/// Prepending a byte adds its value at the weight of the whole tail.
pub proof fn lemma_uuid_spec_prepend(b: u8, s: Seq<u8>)
    ensures
        uuid_spec(seq![b] + s) == b * pow256(s.len()) + uuid_spec(s),
    decreases s.len(),
{
    let t = seq![b] + s;
    if s.len() == 0 {
        assert(t =~= seq![b]);
        assert(t.drop_last() =~= Seq::<u8>::empty());
        assert(uuid_spec(Seq::<u8>::empty()) == 0);
        assert(t.last() == b);
        assert(uuid_spec(t) == b);
        assert(pow256(0) == 1);
    } else {
        let sl = s.drop_last();
        assert(t.drop_last() =~= seq![b] + sl);
        assert(t.last() == s.last());
        lemma_uuid_spec_prepend(b, sl);
        assert(uuid_spec(t) == (b * pow256(sl.len()) + uuid_spec(sl)) * 256 + s.last());
        assert(pow256(s.len()) == 256 * pow256(sl.len()));
        assert((b * pow256(sl.len()) + uuid_spec(sl)) * 256 == b * pow256(s.len()) + uuid_spec(sl)
            * 256) by (nonlinear_arith)
            requires
                pow256(s.len()) == 256 * pow256(sl.len()),
        ;
        assert(uuid_spec(s) == uuid_spec(sl) * 256 + s.last());
    }
}

/// Law: byte sequences of equal length with the same big-endian value are
/// the same sequence, so a payload re-encoded from its parsed value is the
/// original payload.
pub proof fn lemma_uuid_spec_injective(s1: Seq<u8>, s2: Seq<u8>)
    requires
        s1.len() == s2.len(),
        uuid_spec(s1) == uuid_spec(s2),
    ensures
        s1 == s2,
    decreases s1.len(),
{
    if s1.len() > 0 {
        let q1 = uuid_spec(s1.drop_last());
        let q2 = uuid_spec(s2.drop_last());
        assert(q1 * 256 + s1.last() == q2 * 256 + s2.last());
        assert(s1.last() == s2.last() && q1 == q2) by {
            assert((q1 - q2) * 256 == s2.last() - s1.last()) by (nonlinear_arith)
                requires
                    q1 * 256 + s1.last() == q2 * 256 + s2.last(),
            ;
            assert(-256 < (q1 - q2) * 256 < 256);
            assert(q1 - q2 == 0) by (nonlinear_arith)
                requires
                    -256 < (q1 - q2) * 256 < 256,
            ;
        }
        lemma_uuid_spec_injective(s1.drop_last(), s2.drop_last());
        assert forall|i: int| 0 <= i < s1.len() implies s1[i] == s2[i] by {
            if i < s1.len() - 1 {
                assert(s1[i] == s1.drop_last()[i]);
                assert(s2[i] == s2.drop_last()[i]);
            }
        }
        assert(s1 =~= s2);
    } else {
        assert(s1 =~= s2);
    }
}

/// Parses an identity payload: exactly 16 bytes, interpreted big-endian.
/// Any other length is a parse error carrying that length.
pub fn parse_uuid(payload: &Vec<u8>) -> (r: Result<u128, IdentityError>)
    ensures
        payload@.len() == 16 ==> (r matches Ok(u) && u == uuid_spec(payload@)),
        payload@.len() != 16 ==> r == Result::<u128, IdentityError>::Err(
            IdentityError::PayloadLength { len: payload@.len() as usize },
        ),
{
    if payload.len() != 16 {
        return Err(IdentityError::PayloadLength { len: payload.len() });
    }
    let mut acc: u128 = 0;
    let mut i: usize = 0;
    while i < 16
        invariant
            i <= 16,
            payload@.len() == 16,
            acc == uuid_spec(payload@.subrange(0, i as int)),
        decreases 16 - i,
    {
        proof {
            lemma_uuid_spec_bound(payload@.subrange(0, i as int));
            lemma_pow256_mono(i as nat, 15);
            assert(pow256(16) == 0x100000000000000000000000000000000) by {
                reveal_with_fuel(pow256, 17);
            }
            assert(payload@.subrange(0, i + 1).drop_last() =~= payload@.subrange(0, i as int));
        }
        acc = acc * 256 + (payload[i] as u128);
        i = i + 1;
    }
    proof {
        assert(payload@.subrange(0, 16) =~= payload@);
    }
    Ok(acc)
}

/// Encodes a 128-bit identity back into its 16 big-endian bytes.
pub fn encode_uuid(value: u128) -> (r: Vec<u8>)
    ensures
        r@.len() == 16,
        uuid_spec(r@) == value,
{
    let mut out: Vec<u8> = Vec::new();
    let mut v: u128 = value;
    let mut i: usize = 0;
    proof {
        assert(pow256(16) == 0x100000000000000000000000000000000) by {
            reveal_with_fuel(pow256, 17);
        }
    }
    while i < 16
        invariant
            i <= 16,
            out@.len() == i,
            v < pow256((16 - i) as nat),
            value == v * pow256(i as nat) + uuid_spec(out@),
        decreases 16 - i,
    {
        let b: u8 = (v % 256) as u8;
        let ghost prev = v;
        let ghost prev_out = out@;
        v = v / 256;
        out.insert(0, b);
        i = i + 1;
        proof {
            assert(out@ =~= seq![b] + prev_out);
            lemma_uuid_spec_prepend(b, prev_out);
            assert(prev == v * 256 + b);
            assert(prev * pow256((i - 1) as nat) == v * pow256(i as nat) + b * pow256(
                (i - 1) as nat,
            )) by (nonlinear_arith)
                requires
                    prev == v * 256 + b,
                    pow256(i as nat) == 256 * pow256((i - 1) as nat),
            ;
            assert(v < pow256((16 - i) as nat)) by (nonlinear_arith)
                requires
                    prev < 256 * pow256((16 - i) as nat),
                    v == prev / 256,
            ;
        }
    }
    out
}

/// Parses the raw response of the identity query: status word first, then
/// the fixed-size payload.
pub open spec fn identity_of_response(raw: Seq<u8>) -> Result<u128, IdentityError> {
    if raw.len() < 2 {
        Err(IdentityError::Apdu(ApduError::ResponseTooShort))
    } else if !response_ok(raw) {
        Err(
            IdentityError::Apdu(
                ApduError::Command { sw1: raw[raw.len() - 2], sw2: raw[raw.len() - 1] },
            ),
        )
    } else if raw.len() != 18 {
        Err(IdentityError::PayloadLength { len: (raw.len() - 2) as usize })
    } else {
        Ok(uuid_spec(response_payload(raw)) as u128)
    }
}

/// Interprets a raw identity-query response: the status word must be
/// `90 00` and the payload must be exactly 16 bytes.
pub fn parse_identity_response(raw: &Vec<u8>) -> (r: Result<u128, IdentityError>)
    ensures
        r == identity_of_response(raw@),
{
    let payload = match crate::apdu::parse_response(raw) {
        Ok(p) => p,
        Err(e) => {
            return Err(IdentityError::Apdu(e));
        },
    };
    match parse_uuid(&payload) {
        Ok(u) => Ok(u),
        Err(e) => Err(e),
    }
}

} // verus!
