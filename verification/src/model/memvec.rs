use crate::model::identifier;
use crate::model::identifier::OversizedInput;
use crate::model::identifier::IDENTIFIER_SIZE_BYTES;
use vstd::prelude::*;
use vstd::std_specs::cmp::PartialEqSpecImpl;

verus! {

/// The number of bits in a membership vector.
pub const MEMBERSHIP_VECTOR_BITS: usize = IDENTIFIER_SIZE_BYTES * 8;

/// Bit `i` of a byte string, counted from the most significant bit of its first byte.
pub open spec fn bit(bytes: Seq<u8>, i: int) -> bool {
    (bytes[i / 8] >> ((7 - i % 8) as u8)) & 1 == 1
}

/// Whether the first `n` bits of two byte strings agree.
pub open spec fn shares_prefix(a: Seq<u8>, b: Seq<u8>, n: int) -> bool {
    forall|i: int| 0 <= i < n ==> #[trigger] bit(a, i) == bit(b, i)
}

/// The membership vector of a node. Two nodes can be neighbors at a level only when
/// their vectors agree on that many leading bits.
#[derive(Copy, Clone, Eq, Hash, Debug)]
pub struct MembershipVector {
    bytes: [u8; IDENTIFIER_SIZE_BYTES],
}

impl View for MembershipVector {
    type V = Seq<u8>;

    closed spec fn view(&self) -> Seq<u8> {
        self.bytes@
    }
}

impl MembershipVector {
    /// Whether the vectors agree on their first `level` bits. No two vectors do so beyond
    /// their length.
    pub open spec fn matches_prefix(self, other: MembershipVector, level: int) -> bool {
        level <= MEMBERSHIP_VECTOR_BITS && shares_prefix(self@, other@, level)
    }
}

impl PartialEq for MembershipVector {
    fn eq(&self, other: &MembershipVector) -> (r: bool) {
        let mut i: usize = 0;
        while i < IDENTIFIER_SIZE_BYTES
            invariant
                i <= IDENTIFIER_SIZE_BYTES,
                forall|j: int| 0 <= j < i ==> self.bytes@[j] == other.bytes@[j],
            decreases IDENTIFIER_SIZE_BYTES - i,
        {
            if self.bytes[i] != other.bytes[i] {
                return false;
            }
            i = i + 1;
        }
        assert(self.bytes =~= other.bytes);
        true
    }
}

impl PartialEqSpecImpl for MembershipVector {
    open spec fn obeys_eq_spec() -> bool {
        true
    }

    open spec fn eq_spec(&self, other: &MembershipVector) -> bool {
        *self == *other
    }
}

impl MembershipVector {
    /// Reads a membership vector from at most `IDENTIFIER_SIZE_BYTES` bytes. A shorter
    /// input is padded with zeros in front.
    pub fn from_bytes(input: &[u8]) -> (r: Result<MembershipVector, OversizedInput>)
        ensures
            match r {
                Ok(v) => input@.len() <= IDENTIFIER_SIZE_BYTES && v@ == identifier::zero_padded(input@),
                Err(e) => input@.len() > IDENTIFIER_SIZE_BYTES && e.len == input@.len(),
            },
    {
        match identifier::padded(input) {
            Ok(bytes) => Ok(MembershipVector { bytes }),
            Err(e) => Err(e),
        }
    }

    /// Returns the bytes of the vector.
    pub fn to_bytes(&self) -> (r: [u8; IDENTIFIER_SIZE_BYTES])
        ensures
            r@ == self@,
    {
        self.bytes
    }

    /// Reads bit `i`.
    fn bit_at(&self, i: usize) -> (r: bool)
        requires
            i < MEMBERSHIP_VECTOR_BITS,
        ensures
            r == bit(self@, i as int),
    {
        (self.bytes[i / 8] >> ((7 - i % 8) as u8)) & 1 == 1
    }

    /// Returns the number of leading bits on which the two vectors agree.
    pub fn common_prefix_bit(&self, other: MembershipVector) -> (r: usize)
        ensures
            r <= MEMBERSHIP_VECTOR_BITS,
            shares_prefix(self@, other@, r as int),
            r < MEMBERSHIP_VECTOR_BITS ==> bit(self@, r as int) != bit(other@, r as int),
    {
        let mut i: usize = 0;
        while i < MEMBERSHIP_VECTOR_BITS
            invariant
                i <= MEMBERSHIP_VECTOR_BITS,
                shares_prefix(self@, other@, i as int),
            decreases MEMBERSHIP_VECTOR_BITS - i,
        {
            if self.bit_at(i) != other.bit_at(i) {
                return i;
            }
            i = i + 1;
        }
        i
    }
}

/// Bytes that agree on every bit are equal.
proof fn lemma_bits_determine_the_byte(a: u8, b: u8)
    requires
        forall|k: u8| 0 <= k < 8 ==> #[trigger] (a >> k) & 1 == (b >> k) & 1,
    ensures
        a == b,
{
    assert((a >> 0u8) & 1 == (b >> 0u8) & 1);
    assert((a >> 1u8) & 1 == (b >> 1u8) & 1);
    assert((a >> 2u8) & 1 == (b >> 2u8) & 1);
    assert((a >> 3u8) & 1 == (b >> 3u8) & 1);
    assert((a >> 4u8) & 1 == (b >> 4u8) & 1);
    assert((a >> 5u8) & 1 == (b >> 5u8) & 1);
    assert((a >> 6u8) & 1 == (b >> 6u8) & 1);
    assert((a >> 7u8) & 1 == (b >> 7u8) & 1);
    assert(a == b) by (bit_vector)
        requires
            (a >> 0u8) & 1 == (b >> 0u8) & 1,
            (a >> 1u8) & 1 == (b >> 1u8) & 1,
            (a >> 2u8) & 1 == (b >> 2u8) & 1,
            (a >> 3u8) & 1 == (b >> 3u8) & 1,
            (a >> 4u8) & 1 == (b >> 4u8) & 1,
            (a >> 5u8) & 1 == (b >> 5u8) & 1,
            (a >> 6u8) & 1 == (b >> 6u8) & 1,
            (a >> 7u8) & 1 == (b >> 7u8) & 1,
    ;
}

/// Matching a prefix is symmetric, holds at level 0 for all vectors, holds at every lower
/// level once it holds at one, and holds at the full length exactly between equal vectors.
pub proof fn law_prefix_matching(a: MembershipVector, b: MembershipVector, level: int, lower: int)
    ensures
        a.matches_prefix(b, level) == b.matches_prefix(a, level),
        a.matches_prefix(b, 0),
        lower <= level && a.matches_prefix(b, level) ==> a.matches_prefix(b, lower),
        a.matches_prefix(b, MEMBERSHIP_VECTOR_BITS as int) <==> a == b,
{
    assert(shares_prefix(a@, b@, level) == shares_prefix(b@, a@, level)) by {
        if shares_prefix(b@, a@, level) {
            assert forall|i: int| 0 <= i < level implies #[trigger] bit(a@, i) == bit(b@, i) by {
                assert(bit(b@, i) == bit(a@, i));
            }
        }
        if shares_prefix(a@, b@, level) {
            assert forall|i: int| 0 <= i < level implies #[trigger] bit(b@, i) == bit(a@, i) by {
                assert(bit(a@, i) == bit(b@, i));
            }
        }
    }
    if shares_prefix(a@, b@, MEMBERSHIP_VECTOR_BITS as int) {
        assert forall|j: int| 0 <= j < IDENTIFIER_SIZE_BYTES implies a.bytes@[j] == b.bytes@[j] by {
            let x = a.bytes@[j];
            let y = b.bytes@[j];
            assert forall|k: u8| 0 <= k < 8 implies #[trigger] (x >> k) & 1 == (y >> k) & 1 by {
                let i = j * 8 + (7 - k);
                assert(i / 8 == j);
                assert(i % 8 == 7 - k);
                assert(bit(a@, i) == bit(b@, i));
                assert((x >> k) & 1 == 0 || (x >> k) & 1 == 1) by (bit_vector);
                assert((y >> k) & 1 == 0 || (y >> k) & 1 == 1) by (bit_vector);
            }
            lemma_bits_determine_the_byte(x, y);
        }
        assert(a.bytes =~= b.bytes);
    }
}

/// Bytes agree on their first `n` bits exactly when they agree once the others are shifted
/// out.
proof fn lemma_leading_bits(a: u8, b: u8, n: u8)
    requires
        n < 8,
    ensures
        a >> ((8 - n) as u8) == b >> ((8 - n) as u8) <==> n == 0 || forall|i: u8|
            i < n ==> #[trigger] ((a >> ((7 - i) as u8)) & 1) == (b >> ((7 - i) as u8)) & 1,
{
    assert(n == 0 ==> a >> 8u8 == 0 && b >> 8u8 == 0) by (bit_vector);
    let shift = (8 - n) as u8;
    let all = (n < 1 || (a >> 7u8) & 1 == (b >> 7u8) & 1) && (n < 2 || (a >> 6u8) & 1 == (b >> 6u8)
        & 1) && (n < 3 || (a >> 5u8) & 1 == (b >> 5u8) & 1) && (n < 4 || (a >> 4u8) & 1 == (b
        >> 4u8) & 1) && (n < 5 || (a >> 3u8) & 1 == (b >> 3u8) & 1) && (n < 6 || (a >> 2u8) & 1
        == (b >> 2u8) & 1) && (n < 7 || (a >> 1u8) & 1 == (b >> 1u8) & 1);
    assert(a >> shift == b >> shift <==> (n < 1 || (a >> 7u8) & 1 == (b >> 7u8) & 1) && (n < 2 || (a
        >> 6u8) & 1 == (b >> 6u8) & 1) && (n < 3 || (a >> 5u8) & 1 == (b >> 5u8) & 1) && (n < 4
        || (a >> 4u8) & 1 == (b >> 4u8) & 1) && (n < 5 || (a >> 3u8) & 1 == (b >> 3u8) & 1) && (n
        < 6 || (a >> 2u8) & 1 == (b >> 2u8) & 1) && (n < 7 || (a >> 1u8) & 1 == (b >> 1u8) & 1))
        by (bit_vector)
        requires
            shift == 8 - n,
            n < 8,
    ;
    if n > 0 && forall|i: u8|
        i < n ==> #[trigger] ((a >> ((7 - i) as u8)) & 1) == (b >> ((7 - i) as u8)) & 1 {
        assert(n < 1 || (a >> ((7 - 0u8) as u8)) & 1 == (b >> ((7 - 0u8) as u8)) & 1);
        assert(n < 2 || (a >> ((7 - 1u8) as u8)) & 1 == (b >> ((7 - 1u8) as u8)) & 1);
        assert(n < 3 || (a >> ((7 - 2u8) as u8)) & 1 == (b >> ((7 - 2u8) as u8)) & 1);
        assert(n < 4 || (a >> ((7 - 3u8) as u8)) & 1 == (b >> ((7 - 3u8) as u8)) & 1);
        assert(n < 5 || (a >> ((7 - 4u8) as u8)) & 1 == (b >> ((7 - 4u8) as u8)) & 1);
        assert(n < 6 || (a >> ((7 - 5u8) as u8)) & 1 == (b >> ((7 - 5u8) as u8)) & 1);
        assert(n < 7 || (a >> ((7 - 6u8) as u8)) & 1 == (b >> ((7 - 6u8) as u8)) & 1);
        assert(all);
    }
}

/// Whether the first `level` bits of two byte strings agree, bytes and bits counted from the
/// front: the whole bytes among them are equal, and of the byte after those the leading bits
/// are.
pub open spec fn agree_in_front(a: Seq<u8>, b: Seq<u8>, level: int) -> bool {
    &&& forall|j: int| 0 <= j < level / 8 ==> #[trigger] a[j] == b[j]
    &&& level % 8 > 0 ==> a[level / 8] >> ((8 - level % 8) as u8) == b[level / 8] >> ((8 - level
        % 8) as u8)
}

/// Sharing a prefix is to agree in front.
proof fn lemma_shared_prefix_is_agreement_in_front(a: Seq<u8>, b: Seq<u8>, level: int)
    requires
        0 <= level <= MEMBERSHIP_VECTOR_BITS,
        a.len() == b.len() == IDENTIFIER_SIZE_BYTES,
    ensures
        shares_prefix(a, b, level) <==> agree_in_front(a, b, level),
{
    let k = level / 8;
    let n = (level % 8) as u8;
    if shares_prefix(a, b, level) {
        assert forall|j: int| 0 <= j < k implies #[trigger] a[j] == b[j] by {
            let x = a[j];
            let y = b[j];
            assert forall|m: u8| 0 <= m < 8 implies #[trigger] (x >> m) & 1 == (y >> m) & 1 by {
                let i = j * 8 + (7 - m);
                assert(i / 8 == j);
                assert(i % 8 == 7 - m);
                assert(bit(a, i) == bit(b, i));
                assert((x >> m) & 1 == 0 || (x >> m) & 1 == 1) by (bit_vector);
                assert((y >> m) & 1 == 0 || (y >> m) & 1 == 1) by (bit_vector);
            }
            lemma_bits_determine_the_byte(x, y);
        }
        if n > 0 {
            let x = a[k];
            let y = b[k];
            assert forall|i: u8| i < n implies #[trigger] ((x >> ((7 - i) as u8)) & 1) == (y >> ((7
                - i) as u8)) & 1 by {
                let m = (7 - i) as u8;
                let at = k * 8 + i;
                assert(at / 8 == k);
                assert(at % 8 == i);
                assert(bit(a, at) == bit(b, at));
                assert((x >> m) & 1 == 0 || (x >> m) & 1 == 1) by (bit_vector);
                assert((y >> m) & 1 == 0 || (y >> m) & 1 == 1) by (bit_vector);
            }
            lemma_leading_bits(x, y, n);
        }
    }
    if agree_in_front(a, b, level) {
        if n > 0 {
            lemma_leading_bits(a[k], b[k], n);
        }
        assert forall|i: int| 0 <= i < level implies #[trigger] bit(a, i) == bit(b, i) by {
            if i / 8 < k {
                assert(a[i / 8] == b[i / 8]);
            } else {
                let m = (i % 8) as u8;
                assert(i / 8 == k);
                assert(m < n);
                assert(((a[k] >> ((7 - m) as u8)) & 1) == (b[k] >> ((7 - m) as u8)) & 1);
            }
        }
    }
}

/// Two vectors match at a level exactly when they agree on that many bits in front.
pub proof fn law_prefix_matching_is_agreement_in_front(
    a: MembershipVector,
    b: MembershipVector,
    level: int,
)
    requires
        0 <= level <= MEMBERSHIP_VECTOR_BITS,
    ensures
        a.matches_prefix(b, level) <==> agree_in_front(a@, b@, level),
{
    lemma_shared_prefix_is_agreement_in_front(a@, b@, level);
}

/// The common prefix of two membership vectors is as long as they agree in front, and no
/// longer.
pub proof fn law_common_prefix_is_read_from_the_front(
    a: MembershipVector,
    b: MembershipVector,
    r: usize,
    level: int,
)
    requires
        call_ensures(MembershipVector::common_prefix_bit, (&a, b), r),
        0 <= level <= MEMBERSHIP_VECTOR_BITS,
    ensures
        r <= MEMBERSHIP_VECTOR_BITS,
        level <= r <==> agree_in_front(a@, b@, level),
{
    lemma_shared_prefix_is_agreement_in_front(a@, b@, level);
    if level > r {
        assert(bit(a@, r as int) != bit(b@, r as int));
    }
}

/// A byte string that fits is read with its last byte at the end and zeros in front, and one
/// that does not fit is refused with its length. The bytes of a vector are as they were read.
pub proof fn law_membership_vectors_are_read_from_the_end(
    input: &[u8],
    r: Result<MembershipVector, OversizedInput>,
    bytes: [u8; IDENTIFIER_SIZE_BYTES],
)
    requires
        call_ensures(MembershipVector::from_bytes, (input,), r),
        r matches Ok(vector) ==> call_ensures(MembershipVector::to_bytes, (&vector,), bytes),
    ensures
        match r {
            Ok(vector) => {
                &&& input@.len() <= IDENTIFIER_SIZE_BYTES
                &&& bytes@ == vector@
                &&& forall|i: int|
                    0 <= i < IDENTIFIER_SIZE_BYTES ==> #[trigger] vector@[i] == if i
                        < IDENTIFIER_SIZE_BYTES - input@.len() {
                        0
                    } else {
                        input@[i - (IDENTIFIER_SIZE_BYTES - input@.len())]
                    }
            },
            Err(e) => input@.len() > IDENTIFIER_SIZE_BYTES && e.len == input@.len(),
        },
{
}

} // verus!
