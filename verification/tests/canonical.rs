use txcore::canon::canonical_message;
use txcore::Transaction;
use txcore::Transfer;
use txcore::TxError;
use txcore::WireTransfer;

const ID_A: &str = "67e55044-10b1-426f-9247-bb680e5fe0c8";
const ID_B: &str = "00000000-0000-4000-8000-000000000000";

fn wire(id: &str, amount: u64, sender: &str, recipient: &str, signature: &str) -> WireTransfer {
    WireTransfer {
        id: id.to_string(),
        amount,
        sender: sender.to_string(),
        recipient: recipient.to_string(),
        signature: signature.to_string(),
    }
}

#[test]
fn canonical_message_exact_text() {
    let m = canonical_message(ID_A, "alice", "bob", 10);
    assert_eq!(
        m,
        format!("{{\"id\":\"{}\",\"sender\":\"alice\",\"recipient\":\"bob\",\"amount\":10}}", ID_A)
    );
}

#[test]
fn canonical_message_escapes_quotes_and_backslashes() {
    let m = canonical_message(ID_A, "a\"b", "c\\d", 0);
    assert_eq!(
        m,
        format!("{{\"id\":\"{}\",\"sender\":\"a\\\"b\",\"recipient\":\"c\\\\d\",\"amount\":0}}", ID_A)
    );
}

#[test]
fn canonical_message_amount_digits() {
    let m = canonical_message(ID_B, "", "", u64::MAX);
    assert!(m.ends_with("\"amount\":18446744073709551615}"));
    let m0 = canonical_message(ID_B, "", "", 0);
    assert!(m0.ends_with("\"amount\":0}"));
}

#[test]
fn digest_deterministic_across_signatures() {
    let a = Transfer::from_wire(wire(ID_A, 42, "aa", "bb", "00ff")).unwrap();
    let b = Transfer::from_wire(wire(ID_A, 42, "aa", "bb", "deadbeef")).unwrap();
    assert_eq!(Transaction::transfer_hash(&a), Transaction::transfer_hash(&b));
    assert_eq!(Transaction::transfer_hash(&a).len(), 64);
}

#[test]
fn digest_changes_with_fields() {
    let a = Transfer::from_wire(wire(ID_A, 42, "aa", "bb", "00")).unwrap();
    let b = Transfer::from_wire(wire(ID_A, 43, "aa", "bb", "00")).unwrap();
    assert_ne!(Transaction::transfer_hash(&a), Transaction::transfer_hash(&b));
}

#[test]
fn digest_matches_sha512_of_canonical_text() {
    let t = Transfer::from_wire(wire(ID_B, 7, "aa", "bb", "")).unwrap();
    let digest = Transaction::transfer_hash(&t);
    assert_eq!(
        hex::encode(&digest),
        "1ccf37a0b38824fc9460cfd0dbfe4887026e97fca90114908ec7590acf5ae2816a13fa7baece6abdd6aebabea9b6e29ff7e76c551bc73e2856747e644d2f3ca3"
    );
}

#[test]
fn from_wire_rejects_bad_identifier() {
    let r = Transfer::from_wire(wire("not-an-id", 1, "aa", "bb", "cc"));
    assert_eq!(r.unwrap_err(), TxError::InvalidIdentifier);
}

#[test]
fn from_wire_normalizes_identifier_text() {
    let upper = "67E55044-10B1-426F-9247-BB680E5FE0C8";
    let t = Transfer::from_wire(wire(upper, 1, "aa", "bb", "cc")).unwrap();
    assert_eq!(t.id, ID_A);
    let simple = "67e5504410b1426f9247bb680e5fe0c8";
    let t2 = Transfer::from_wire(wire(simple, 1, "aa", "bb", "cc")).unwrap();
    assert_eq!(t2.id, ID_A);
}
