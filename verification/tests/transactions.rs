use ring::rand::SystemRandom;
use ring::signature::Ed25519KeyPair;
use ring::signature::KeyPair;
use txcore::sender_address;
use txcore::Reward;
use txcore::Transaction;
use txcore::Transfer;
use txcore::TxError;
use txcore::WireTransfer;
use txcore::MINER_REWARD;

fn fresh_key() -> Vec<u8> {
    let rng = SystemRandom::new();
    Ed25519KeyPair::generate_pkcs8(&rng).unwrap().as_ref().to_vec()
}

fn signed_transfer(key: &[u8], recipient: &str, amount: u64) -> Transfer {
    let sender = sender_address(key).unwrap();
    match Transaction::transfer(&sender, recipient, amount, key).unwrap() {
        Transaction::Transfer(t) => t,
        Transaction::Reward(_) => panic!("transfer constructor built a reward"),
    }
}

fn rewire(t: &Transfer) -> WireTransfer {
    WireTransfer {
        id: t.id.clone(),
        amount: t.amount,
        sender: t.sender.clone(),
        recipient: t.recipient.clone(),
        signature: t.signature.clone(),
    }
}

/// Flips one bit of a lowercase-hex character so it stays lowercase hex.
fn flip_hex_char(c: char) -> char {
    let b = c as u8;
    let flipped = b ^ 0x01;
    let ok = |x: u8| (b'0'..=b'9').contains(&x) || (b'a'..=b'f').contains(&x);
    if ok(flipped) { flipped as char } else { (b ^ 0x02) as char }
}

fn flip_bit_in_hex_field(s: &str) -> String {
    let mut bytes = hex::decode(s).unwrap();
    bytes[0] ^= 0x01;
    hex::encode(bytes)
}

#[test]
fn sign_then_validate() {
    let key = fresh_key();
    let t = signed_transfer(&key, "bob", 10);
    assert_eq!(t.sender.len(), 64);
    assert_eq!(t.signature.len(), 128);
    assert_eq!(t.id.len(), 36);
    assert!(Transaction::Transfer(t).is_valid());
}

#[test]
fn sender_address_matches_ring_public_key() {
    let key = fresh_key();
    let pair = Ed25519KeyPair::from_pkcs8(&key).unwrap();
    let expected = hex::encode(pair.public_key().as_ref());
    assert_eq!(sender_address(&key).unwrap(), expected);
}

#[test]
fn transfer_rejects_malformed_key() {
    let r = Transaction::transfer("aa", "bob", 1, &[1, 2, 3]);
    assert_eq!(r.unwrap_err(), TxError::InvalidKey);
}

#[test]
fn same_signature_other_amount_is_invalid() {
    let key = fresh_key();
    let t = signed_transfer(&key, "bob", 10);
    let mut w = rewire(&t);
    w.amount = 11;
    let tampered = Transfer::from_wire(w).unwrap();
    assert!(!Transaction::Transfer(tampered).is_valid());
}

#[test]
fn flipping_one_bit_of_amount_invalidates() {
    let key = fresh_key();
    let t = signed_transfer(&key, "bob", 10);
    let mut w = rewire(&t);
    w.amount ^= 1;
    let tampered = Transfer::from_wire(w).unwrap();
    assert!(!Transaction::Transfer(tampered).is_valid());
}

#[test]
fn flipping_one_bit_of_sender_invalidates() {
    let key = fresh_key();
    let t = signed_transfer(&key, "bob", 10);
    let mut w = rewire(&t);
    w.sender = flip_bit_in_hex_field(&t.sender);
    let tampered = Transfer::from_wire(w).unwrap();
    assert!(!Transaction::Transfer(tampered).is_valid());
}

#[test]
fn flipping_one_bit_of_recipient_invalidates() {
    let key = fresh_key();
    let t = signed_transfer(&key, "bob", 10);
    let mut w = rewire(&t);
    w.recipient = String::from("cob");
    assert_eq!('b' as u8 ^ 'c' as u8, 1);
    let tampered = Transfer::from_wire(w).unwrap();
    assert!(!Transaction::Transfer(tampered).is_valid());
}

#[test]
fn flipping_one_bit_of_id_invalidates() {
    let key = fresh_key();
    let t = signed_transfer(&key, "bob", 10);
    let mut w = rewire(&t);
    let first = t.id.chars().next().unwrap();
    let mut id = String::new();
    id.push(flip_hex_char(first));
    id.push_str(&t.id[1..]);
    assert_ne!(id, t.id);
    w.id = id;
    let tampered = Transfer::from_wire(w).unwrap();
    assert!(!Transaction::Transfer(tampered).is_valid());
}

#[test]
fn flipping_one_bit_of_signature_invalidates() {
    let key = fresh_key();
    let t = signed_transfer(&key, "bob", 10);
    let mut w = rewire(&t);
    w.signature = flip_bit_in_hex_field(&t.signature);
    let tampered = Transfer::from_wire(w).unwrap();
    assert!(!Transaction::Transfer(tampered).is_valid());
}

#[test]
fn reward_constructor_is_valid() {
    let r = Transaction::reward(String::from("miner"));
    assert!(r.is_valid());
    match &r {
        Transaction::Reward(rw) => {
            assert_eq!(rw.amount, MINER_REWARD);
            assert_eq!(rw.recipient, "miner");
            assert_eq!(rw.id.len(), 36);
        }
        Transaction::Transfer(_) => panic!("reward constructor built a transfer"),
    }
}

#[test]
fn reward_amount_decides_validity() {
    let good = Reward {
        id: String::from("67e55044-10b1-426f-9247-bb680e5fe0c8"),
        recipient: String::from("miner"),
        amount: MINER_REWARD,
    };
    assert!(Transaction::Reward(good).is_valid());
    let bad = Reward {
        id: String::from("67e55044-10b1-426f-9247-bb680e5fe0c8"),
        recipient: String::from("miner"),
        amount: MINER_REWARD + 1,
    };
    assert!(!Transaction::Reward(bad).is_valid());
    let zero = Reward {
        id: String::from("67e55044-10b1-426f-9247-bb680e5fe0c8"),
        recipient: String::from("miner"),
        amount: 0,
    };
    assert!(!Transaction::Reward(zero).is_valid());
}

#[test]
fn non_hex_sender_or_signature_is_invalid_not_a_crash() {
    let key = fresh_key();
    let t = signed_transfer(&key, "bob", 10);
    let mut w = rewire(&t);
    w.sender = String::from("zz not hex");
    let bad_sender = Transfer::from_wire(w).unwrap();
    assert!(!Transaction::Transfer(bad_sender).is_valid());

    let mut w2 = rewire(&t);
    w2.signature = String::from("abc");
    let odd_signature = Transfer::from_wire(w2).unwrap();
    assert!(!Transaction::Transfer(odd_signature).is_valid());
}

#[test]
fn distinct_transfers_get_distinct_ids() {
    let key = fresh_key();
    let a = signed_transfer(&key, "bob", 1);
    let b = signed_transfer(&key, "bob", 1);
    assert_ne!(a.id, b.id);
}
