use vstd::prelude::*;
use vstd::std_specs::cmp::PartialEqSpecImpl;
use vstd::std_specs::cmp::PartialOrdSpecImpl;
use std::cmp::Ordering;

verus! {

/// The number of bytes in an identifier.
pub const IDENTIFIER_SIZE_BYTES: usize = 32;

/// The number that a byte string writes in base 256, most significant byte first.
pub open spec fn big_endian(bytes: Seq<u8>) -> nat
    decreases bytes.len(),
{
    if bytes.len() == 0 {
        0
    } else {
        big_endian(bytes.drop_last()) * 256 + bytes.last() as nat
    }
}

/// The identifier of a node: a fixed-size key, ordered as a big-endian number.
#[derive(Copy, Clone, Eq, Ord, Hash, Debug)]
pub struct Identifier {
    bytes: [u8; IDENTIFIER_SIZE_BYTES],
}

/// Why a byte string is not an identifier or a membership vector.
#[derive(Copy, Clone, PartialEq, Eq, Debug, Structural)]
pub struct OversizedInput {
    /// The length of the rejected byte string.
    pub len: usize,
}

impl View for Identifier {
    type V = Seq<u8>;

    closed spec fn view(&self) -> Seq<u8> {
        self.bytes@
    }
}

impl Identifier {
    /// The identifier as a number. Neighbors on the right have larger keys.
    pub open spec fn key(self) -> nat {
        big_endian(self@)
    }
}

impl PartialEq for Identifier {
    fn eq(&self, other: &Identifier) -> (r: bool) {
        let mut i: usize = 0;
        while i < IDENTIFIER_SIZE_BYTES
            invariant
                i <= IDENTIFIER_SIZE_BYTES,
                self.bytes@.take(i as int) == other.bytes@.take(i as int),
            decreases IDENTIFIER_SIZE_BYTES - i,
        {
            if self.bytes[i] != other.bytes[i] {
                return false;
            }
            i = i + 1;
        }
        assert(self.bytes@.take(i as int) =~= self.bytes@);
        assert(other.bytes@.take(i as int) =~= other.bytes@);
        assert(self.bytes =~= other.bytes);
        true
    }
}

impl PartialEqSpecImpl for Identifier {
    open spec fn obeys_eq_spec() -> bool {
        true
    }

    open spec fn eq_spec(&self, other: &Identifier) -> bool {
        *self == *other
    }
}

impl PartialOrd for Identifier {
    fn partial_cmp(&self, other: &Identifier) -> (r: Option<Ordering>) {
        if self.precedes(other) {
            Some(Ordering::Less)
        } else if other.precedes(self) {
            Some(Ordering::Greater)
        } else {
            Some(Ordering::Equal)
        }
    }
}

impl PartialOrdSpecImpl for Identifier {
    open spec fn obeys_partial_cmp_spec() -> bool {
        true
    }

    open spec fn partial_cmp_spec(&self, other: &Identifier) -> Option<Ordering> {
        if self.key() < other.key() {
            Some(Ordering::Less)
        } else if self.key() == other.key() {
            Some(Ordering::Equal)
        } else {
            Some(Ordering::Greater)
        }
    }
}

impl Identifier {
    /// Reads an identifier from at most `IDENTIFIER_SIZE_BYTES` bytes, most significant
    /// byte first. A shorter input is padded with zeros in front, which leaves the number
    /// it writes unchanged.
    pub fn from_bytes(input: &[u8]) -> (r: Result<Identifier, OversizedInput>)
        ensures
            match r {
                Ok(id) => {
                    &&& input@.len() <= IDENTIFIER_SIZE_BYTES
                    &&& id@ == zero_padded(input@)
                    &&& id.key() == big_endian(input@)
                },
                Err(e) => {
                    &&& input@.len() > IDENTIFIER_SIZE_BYTES
                    &&& e.len == input@.len()
                },
            },
    {
        match padded(input) {
            Ok(bytes) => {
                proof {
                    lemma_padding_keeps_the_number(
                        (IDENTIFIER_SIZE_BYTES - input@.len()) as nat,
                        input@,
                    );
                }
                Ok(Identifier { bytes })
            },
            Err(e) => Err(e),
        }
    }

    /// Whether this identifier is smaller than `other`.
    fn precedes(&self, other: &Identifier) -> (r: bool)
        ensures
            r == (self.key() < other.key()),
    {
        let mut i: usize = 0;
        while i < IDENTIFIER_SIZE_BYTES
            invariant
                i <= IDENTIFIER_SIZE_BYTES,
                self.bytes@.take(i as int) == other.bytes@.take(i as int),
            decreases IDENTIFIER_SIZE_BYTES - i,
        {
            if self.bytes[i] < other.bytes[i] {
                proof {
                    lemma_first_difference_decides(self@, other@, i as int);
                }
                return true;
            }
            if self.bytes[i] > other.bytes[i] {
                proof {
                    lemma_first_difference_decides(other@, self@, i as int);
                }
                return false;
            }
            i = i + 1;
        }
        assert(self@.take(i as int) =~= self@);
        assert(other@.take(i as int) =~= other@);
        false
    }

    /// Returns the bytes of the identifier, most significant byte first.
    pub fn to_bytes(&self) -> (r: [u8; IDENTIFIER_SIZE_BYTES])
        ensures
            r@ == self@,
    {
        self.bytes
    }
}

/// `input` brought to `IDENTIFIER_SIZE_BYTES` bytes by zeros in front of it.
pub open spec fn zero_padded(input: Seq<u8>) -> Seq<u8> {
    Seq::new((IDENTIFIER_SIZE_BYTES - input.len()) as nat, |i: int| 0u8) + input
}

/// Copies `input` to the end of a zeroed array, or rejects it when it does not fit.
pub(crate) fn padded(input: &[u8]) -> (r: Result<[u8; IDENTIFIER_SIZE_BYTES], OversizedInput>)
    ensures
        match r {
            Ok(bytes) => input@.len() <= IDENTIFIER_SIZE_BYTES && bytes@ == zero_padded(input@),
            Err(e) => input@.len() > IDENTIFIER_SIZE_BYTES && e.len == input@.len(),
        },
{
    let len: usize = input.len();
    if len > IDENTIFIER_SIZE_BYTES {
        return Err(OversizedInput { len });
    }
    let offset: usize = IDENTIFIER_SIZE_BYTES - len;
    let mut bytes: [u8; IDENTIFIER_SIZE_BYTES] = [0; IDENTIFIER_SIZE_BYTES];
    let mut i: usize = 0;
    while i < len
        invariant
            i <= len,
            len == input@.len(),
            offset + len == IDENTIFIER_SIZE_BYTES,
            forall|j: int| 0 <= j < offset ==> bytes@[j] == 0,
            forall|j: int| offset <= j < offset + i ==> bytes@[j] == input@[j - offset],
        decreases len - i,
    {
        bytes[offset + i] = input[i];
        i = i + 1;
    }
    assert(bytes@ =~= zero_padded(input@));
    Ok(bytes)
}

/// Between byte strings of one length, the first differing byte decides the order of the
/// numbers they write.
proof fn lemma_first_difference_decides(a: Seq<u8>, b: Seq<u8>, i: int)
    requires
        a.len() == b.len(),
        0 <= i < a.len(),
        a.take(i) == b.take(i),
        a[i] < b[i],
    ensures
        big_endian(a) < big_endian(b),
    decreases a.len(),
{
    if i == a.len() - 1 {
        assert(a.drop_last() =~= a.take(i));
        assert(b.drop_last() =~= b.take(i));
    } else {
        assert(a.drop_last().take(i) =~= a.take(i));
        assert(b.drop_last().take(i) =~= b.take(i));
        lemma_first_difference_decides(a.drop_last(), b.drop_last(), i);
    }
}

/// Zeros in front of a byte string do not change the number it writes.
proof fn lemma_padding_keeps_the_number(zeros: nat, s: Seq<u8>)
    ensures
        big_endian(Seq::new(zeros, |i: int| 0u8) + s) == big_endian(s),
    decreases zeros + s.len(),
{
    let all = Seq::new(zeros, |i: int| 0u8) + s;
    if s.len() > 0 {
        assert(all.drop_last() =~= Seq::new(zeros, |i: int| 0u8) + s.drop_last());
        lemma_padding_keeps_the_number(zeros, s.drop_last());
    } else if zeros > 0 {
        let fewer = (zeros - 1) as nat;
        assert(all.drop_last() =~= Seq::new(fewer, |i: int| 0u8) + s);
        lemma_padding_keeps_the_number(fewer, s);
    }
}

/// Byte strings of one length that write the same number are equal.
proof fn lemma_big_endian_injective(a: Seq<u8>, b: Seq<u8>)
    requires
        a.len() == b.len(),
        big_endian(a) == big_endian(b),
    ensures
        a == b,
    decreases a.len(),
{
    if a.len() > 0 {
        lemma_big_endian_injective(a.drop_last(), b.drop_last());
        assert(a =~= a.drop_last().push(a.last()));
        assert(b =~= b.drop_last().push(b.last()));
    }
}

/// Identifiers are totally ordered by their keys: two identifiers with one key are the
/// same identifier.
pub proof fn law_key_determines_the_identifier(a: Identifier, b: Identifier)
    ensures
        a.key() == b.key() <==> a == b,
{
    if a.key() == b.key() {
        lemma_big_endian_injective(a@, b@);
        assert(a.bytes =~= b.bytes);
    }
}

/// Identifiers are ordered by the first byte in which they differ, counted from the front.
pub proof fn law_first_differing_byte_orders_identifiers(a: Identifier, b: Identifier, i: int)
    requires
        0 <= i < IDENTIFIER_SIZE_BYTES,
        forall|j: int| 0 <= j < i ==> a@[j] == b@[j],
        a@[i] < b@[i],
    ensures
        a.key() < b.key(),
{
    assert(a@.take(i) =~= b@.take(i));
    lemma_first_difference_decides(a@, b@, i);
}

/// A byte string that fits is read with its last byte at the end and zeros in front, and one
/// that does not fit is refused with its length.
pub proof fn law_identifiers_are_read_from_the_end(
    input: &[u8],
    r: Result<Identifier, OversizedInput>,
)
    requires
        call_ensures(Identifier::from_bytes, (input,), r),
    ensures
        match r {
            Ok(id) => {
                &&& input@.len() <= IDENTIFIER_SIZE_BYTES
                &&& id@.len() == IDENTIFIER_SIZE_BYTES
                &&& forall|i: int|
                    0 <= i < IDENTIFIER_SIZE_BYTES ==> #[trigger] id@[i] == if i
                        < IDENTIFIER_SIZE_BYTES - input@.len() {
                        0
                    } else {
                        input@[i - (IDENTIFIER_SIZE_BYTES - input@.len())]
                    }
            },
            Err(e) => input@.len() > IDENTIFIER_SIZE_BYTES && e.len == input@.len(),
        },
{
}

/// Reading the bytes of an identifier gives it back.
pub proof fn law_identifier_bytes_read_back(
    id: Identifier,
    bytes: [u8; IDENTIFIER_SIZE_BYTES],
    input: &[u8],
    r: Result<Identifier, OversizedInput>,
)
    requires
        call_ensures(Identifier::to_bytes, (&id,), bytes),
        input@ == bytes@,
        call_ensures(Identifier::from_bytes, (input,), r),
    ensures
        r == Ok::<Identifier, OversizedInput>(id),
{
    if let Ok(read) = r {
        assert(read.bytes@ =~= id.bytes@);
        assert(read.bytes =~= id.bytes);
    }
}

} // verus!
