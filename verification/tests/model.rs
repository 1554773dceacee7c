use skip_graph::model::IDENTIFIER_SIZE_BYTES;
use skip_graph::text::decimal_string;
use skip_graph::Address;
use skip_graph::Identifier;
use skip_graph::Identity;
use skip_graph::MembershipVector;
use skip_graph::Nonce;

#[test]
fn short_identifiers_are_padded_in_front() {
    let id = Identifier::from_bytes(&[1u8, 2u8]).unwrap();
    let mut expected = [0u8; IDENTIFIER_SIZE_BYTES];
    expected[30] = 1;
    expected[31] = 2;
    assert_eq!(id.to_bytes(), expected);
    assert_eq!(Identifier::from_bytes(&[]).unwrap().to_bytes(), [0u8; 32]);
    assert_eq!(Identifier::from_bytes(&[9u8; 32]).unwrap().to_bytes(), [9u8; 32]);
}

#[test]
fn oversized_input_is_rejected_with_its_length() {
    assert_eq!(Identifier::from_bytes(&[0u8; 33]).unwrap_err().len, 33);
    assert_eq!(MembershipVector::from_bytes(&[0u8; 40]).unwrap_err().len, 40);
}

#[test]
fn identifiers_are_ordered_as_big_endian_numbers() {
    let one = Identifier::from_bytes(&[1u8]).unwrap();
    let max_byte = Identifier::from_bytes(&[255u8]).unwrap();
    let next = Identifier::from_bytes(&[1u8, 0u8]).unwrap();
    assert!(one < max_byte);
    assert!(max_byte < next);
    assert!(next > one);
    assert!(one <= one && one >= one);
    assert_eq!(one, Identifier::from_bytes(&[0u8, 1u8]).unwrap());
    assert_ne!(one, next);
    let mut sorted = vec![next, one, max_byte];
    sorted.sort();
    assert_eq!(sorted, vec![one, max_byte, next]);
}

#[test]
fn common_prefix_counts_leading_bits() {
    let zero = MembershipVector::from_bytes(&[0u8; 32]).unwrap();
    let mut bytes = [0u8; 32];
    bytes[1] = 0b0001_0000;
    let late = MembershipVector::from_bytes(&bytes).unwrap();
    assert_eq!(zero.common_prefix_bit(late), 11);
    assert_eq!(late.common_prefix_bit(zero), 11);
    assert_eq!(zero.common_prefix_bit(zero), 256);
    let mut top = [0u8; 32];
    top[0] = 0b1000_0000;
    assert_eq!(zero.common_prefix_bit(MembershipVector::from_bytes(&top).unwrap()), 0);
    let mut last = [0u8; 32];
    last[31] = 1;
    assert_eq!(zero.common_prefix_bit(MembershipVector::from_bytes(&last).unwrap()), 255);
    assert_eq!(late.to_bytes(), bytes);
}

#[test]
fn identities_are_equal_when_every_part_is() {
    let id = Identifier::from_bytes(&[1u8]).unwrap();
    let mem_vec = MembershipVector::from_bytes(&[2u8]).unwrap();
    let address = Address { host: 0x7f00_0001, port: 8080 };
    let identity = Identity::new(id, mem_vec, address);
    assert_eq!(identity.id(), id);
    assert_eq!(identity.mem_vec(), mem_vec);
    assert_eq!(identity.address(), address);
    assert_eq!(identity, Identity::new(id, mem_vec, address));
    assert_ne!(identity, Identity::new(id, mem_vec, Address { host: 0x7f00_0001, port: 8081 }));
    assert_ne!(
        identity,
        Identity::new(id, MembershipVector::from_bytes(&[3u8]).unwrap(), address)
    );
    assert_ne!(identity, Identity::new(Identifier::from_bytes(&[9u8]).unwrap(), mem_vec, address));
}

#[test]
fn random_nonces_differ() {
    let drawn: Vec<Nonce> = (0..16).map(|_| Nonce::random()).collect();
    assert!(drawn.iter().any(|n| *n != drawn[0]));
    assert!(drawn.iter().any(|n| n.value > u64::MAX as u128));
}

#[test]
fn numbers_are_written_in_decimal() {
    assert_eq!(decimal_string(0), "0");
    assert_eq!(decimal_string(7), "7");
    assert_eq!(decimal_string(10), "10");
    assert_eq!(decimal_string(256), "256");
    assert_eq!(decimal_string(9081726354), "9081726354");
    assert_eq!(decimal_string(usize::MAX), format!("{}", usize::MAX));
}
