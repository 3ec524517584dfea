use xmbl::node_identity::NodeIdentity;

fn secret(last: u8) -> Vec<u8> {
    let mut key = vec![0u8; 32];
    key[31] = last;
    key
}

#[test]
fn test_node_identity_creation() {
    let identity = NodeIdentity::new();
    assert!(!identity.node_id.is_empty());
    assert_eq!(identity.token_balance, 0);
}

#[test]
fn test_token_balance_update() {
    let mut identity = NodeIdentity::new();
    identity.update_token_balance(1000);
    assert_eq!(identity.get_token_balance(), 1000);
}

#[test]
fn identity_of_the_secret_key_one_is_the_known_address() {
    let identity = NodeIdentity::from_secret_key(secret(1)).unwrap();
    assert_eq!(identity.node_id, "0x7e5f4552091a69125d5dfcb7b8c2659029395bdf");
    assert_eq!(identity.get_node_id(), "0x7e5f4552091a69125d5dfcb7b8c2659029395bdf");
    let public_key = identity.get_public_key();
    assert_eq!(public_key.len(), 65);
    assert_eq!(public_key[0], 4);
    assert_eq!(
        &public_key[1..9],
        &[0x79, 0xbe, 0x66, 0x7e, 0xf9, 0xdc, 0xbb, 0xac]
    );
    assert_eq!(identity.secret_key, secret(1));
    assert_eq!(identity.token_balance, 0);
}

#[test]
fn identity_of_the_secret_key_two_is_the_known_address() {
    let identity = NodeIdentity::from_secret_key(secret(2)).unwrap();
    assert_eq!(identity.node_id, "0x2b5ad5c4795c026514f8317c7a215e218dccd6cf");
}

#[test]
fn bytes_that_are_no_secret_key_give_no_identity() {
    assert!(NodeIdentity::from_secret_key(vec![0u8; 32]).is_none());
    assert!(NodeIdentity::from_secret_key(vec![0xff; 32]).is_none());
    assert!(NodeIdentity::from_secret_key(vec![1u8; 31]).is_none());
    assert!(NodeIdentity::from_secret_key(vec![]).is_none());
}

#[test]
fn fresh_identities_differ_and_are_derived_from_their_keys() {
    let first = NodeIdentity::new();
    let second = NodeIdentity::default();
    assert_ne!(first.node_id, second.node_id);
    assert_ne!(first.secret_key, second.secret_key);
    assert_eq!(first.secret_key.len(), 32);
    assert_eq!(first.public_key.len(), 65);
    assert_eq!(first.node_id.len(), 42);
    assert!(first.node_id.starts_with("0x"));
    let again = NodeIdentity::from_secret_key(first.secret_key.clone()).unwrap();
    assert_eq!(again.node_id, first.node_id);
    assert_eq!(again.public_key, first.public_key);
    assert_eq!(NodeIdentity::node_id_for(&first.public_key), first.node_id);
}

#[test]
fn node_id_skips_the_leading_byte_of_the_key() {
    let one = NodeIdentity::node_id_for(&[4, 1, 2, 3]);
    let other = NodeIdentity::node_id_for(&[9, 1, 2, 3]);
    assert_eq!(one, other);
    assert_eq!(one, "0x2093220dab15d65381b1157a3633a83bfd5c9239");
    assert_ne!(one, NodeIdentity::node_id_for(&[4, 1, 2, 4]));
}
