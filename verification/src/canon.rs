//! The canonical byte representation of a transfer's signed fields.
//!
//! Signing and validation both hash the same deterministic text, derived
//! from `{id, sender, recipient, amount}` with the signature excluded.
//! The encoding is a dedicated, versioned routine — a JSON object with a
//! fixed field order, quoted fields escaped — written and proved here
//! rather than delegated to a general-purpose serializer, so that the
//! digest is stable across platforms and versions.

use vstd::prelude::*;
use crate::crypto::sha512_of;
use crate::crypto::sha512_text;

verus! {

/// How one character is written inside a quoted field: quotes and
/// backslashes get a backslash prefix, everything else passes through.
pub open spec fn escape_char(c: char) -> Seq<char> {
    if c == '"' {
        "\\\""@
    } else if c == '\\' {
        "\\\\"@
    } else {
        seq![c]
    }
}

/// A whole field's text, escaped character by character.
pub open spec fn escape_text(s: Seq<char>) -> Seq<char>
    decreases s.len(),
{
    if s.len() == 0 {
        Seq::empty()
    } else {
        escape_text(s.drop_last()) + escape_char(s.last())
    }
}

/// The character of a decimal digit.
pub open spec fn dec_digit_text(d: nat) -> Seq<char> {
    if d == 0 { "0"@ } else if d == 1 { "1"@ } else if d == 2 { "2"@ }
    else if d == 3 { "3"@ } else if d == 4 { "4"@ } else if d == 5 { "5"@ }
    else if d == 6 { "6"@ } else if d == 7 { "7"@ } else if d == 8 { "8"@ }
    else { "9"@ }
}

/// Decimal text of a number, most significant digit first, no leading
/// zeros (zero itself is "0").
pub open spec fn dec_text(n: nat) -> Seq<char>
    decreases n,
{
    if n < 10 {
        dec_digit_text(n)
    } else {
        dec_text(n / 10) + dec_digit_text(n % 10)
    }
}

/// The canonical text of a transfer's signed fields: a JSON object whose
/// members stand in the fixed order id, sender, recipient, amount.
pub open spec fn canonical_text(
    id: Seq<char>,
    sender: Seq<char>,
    recipient: Seq<char>,
    amount: u64,
) -> Seq<char> {
    "{\"id\":\""@ + escape_text(id)
        + "\",\"sender\":\""@ + escape_text(sender)
        + "\",\"recipient\":\""@ + escape_text(recipient)
        + "\",\"amount\":"@ + dec_text(amount as nat)
        + "}"@
}

/// The canonical digest: SHA-512 over the canonical text. The signature
/// is not among the arguments, so the digest cannot depend on it.
pub open spec fn transfer_digest(
    id: Seq<char>,
    sender: Seq<char>,
    recipient: Seq<char>,
    amount: u64,
) -> Seq<u8> {
    sha512_of(canonical_text(id, sender, recipient, amount))
}

/// The ten digit characters: each one character long, with consecutive
/// character codes starting at the code of '0'.
proof fn lemma_dec_digit_text_shape(d: nat)
    requires
        d < 10,
    ensures
        dec_digit_text(d).len() == 1,
        dec_digit_text(d)[0] as nat == '0' as nat + d,
{
    reveal_strlit("0");
    reveal_strlit("1");
    reveal_strlit("2");
    reveal_strlit("3");
    reveal_strlit("4");
    reveal_strlit("5");
    reveal_strlit("6");
    reveal_strlit("7");
    reveal_strlit("8");
    reveal_strlit("9");
}

/// Decimal text is one character long exactly for numbers below ten.
proof fn lemma_dec_text_len(n: nat)
    ensures
        dec_text(n).len() >= 1,
        n >= 10 ==> dec_text(n).len() >= 2,
    decreases n,
{
    if n < 10 {
        lemma_dec_digit_text_shape(n);
    } else {
        lemma_dec_text_len(n / 10);
        lemma_dec_digit_text_shape(n % 10);
    }
}

/// No two numbers share their decimal text.
proof fn lemma_dec_text_injective(m: nat, n: nat)
    requires
        m != n,
    ensures
        dec_text(m) != dec_text(n),
    decreases m + n,
{
    if m < 10 && n < 10 {
        lemma_dec_digit_text_shape(m);
        lemma_dec_digit_text_shape(n);
        assert(dec_text(m)[0] != dec_text(n)[0]);
    } else if m < 10 {
        lemma_dec_digit_text_shape(m);
        lemma_dec_text_len(n);
    } else if n < 10 {
        lemma_dec_digit_text_shape(n);
        lemma_dec_text_len(m);
    } else {
        lemma_dec_digit_text_shape(m % 10);
        lemma_dec_digit_text_shape(n % 10);
        if dec_text(m) == dec_text(n) {
            assert(dec_text(m).last() == dec_text(n).last());
            assert(dec_text(m).last() == dec_digit_text(m % 10)[0]);
            assert(dec_text(n).last() == dec_digit_text(n % 10)[0]);
            assert(m % 10 == n % 10);
            if m / 10 == n / 10 {
                assert(m == 10 * (m / 10) + m % 10) by (nonlinear_arith);
                assert(n == 10 * (n / 10) + n % 10) by (nonlinear_arith);
                assert(false);
            } else {
                lemma_dec_text_injective(m / 10, n / 10);
                assert(dec_text(m).drop_last() =~= dec_text(m / 10));
                assert(dec_text(n).drop_last() =~= dec_text(n / 10));
                assert(false);
            }
        }
    }
}

/// The escape of one character: one character for a plain one, a
/// backslash pair for a quote or backslash, and the last character of
/// the pair tells the two apart.
proof fn lemma_escape_char_shape(c: char)
    ensures
        c != '"' && c != '\\' ==> escape_char(c) == seq![c],
        c == '"' || c == '\\' ==> escape_char(c).len() == 2 && escape_char(c)[0] == '\\'
            && escape_char(c)[1] == c,
{
    reveal_strlit("\\\"");
    reveal_strlit("\\\\");
    if c == '"' {
        assert(escape_char(c) =~= seq!['\\', '"']);
    } else if c == '\\' {
        assert(escape_char(c) =~= seq!['\\', '\\']);
    }
}

/// Escaped text is at least as long as its source.
proof fn lemma_escape_text_len(s: Seq<char>)
    ensures
        escape_text(s).len() >= s.len(),
    decreases s.len(),
{
    if s.len() > 0 {
        lemma_escape_text_len(s.drop_last());
        lemma_escape_char_shape(s.last());
    }
}

/// No two texts share their escaped form.
proof fn lemma_escape_text_injective(s1: Seq<char>, s2: Seq<char>)
    requires
        s1 != s2,
    ensures
        escape_text(s1) != escape_text(s2),
    decreases s1.len() + s2.len(),
{
    if s1.len() == 0 {
        if s2.len() == 0 {
            assert(s1 =~= s2);
        }
        lemma_escape_text_len(s2);
        assert(escape_text(s2).len() > 0);
    } else if s2.len() == 0 {
        lemma_escape_text_len(s1);
        assert(escape_text(s1).len() > 0);
    } else {
        let c1 = s1.last();
        let c2 = s2.last();
        let e1 = escape_text(s1);
        let e2 = escape_text(s2);
        lemma_escape_char_shape(c1);
        lemma_escape_char_shape(c2);
        lemma_escape_text_len(s1);
        lemma_escape_text_len(s2);
        if e1 == e2 {
            assert(e1.last() == e2.last());
            let p1 = c1 == '"' || c1 == '\\';
            let p2 = c2 == '"' || c2 == '\\';
            if p1 != p2 {
                // one ends in an escaped quote or backslash, the other in a
                // character that is neither
                assert(false);
            } else {
                assert(c1 == c2);
                let pre1 = escape_text(s1.drop_last());
                let pre2 = escape_text(s2.drop_last());
                let w: int = if p1 { 2 } else { 1 };
                assert(e1 == pre1 + escape_char(c1));
                assert(e2 == pre2 + escape_char(c2));
                assert(pre1 =~= e1.take(e1.len() - w));
                assert(pre2 =~= e2.take(e2.len() - w));
                if s1.drop_last() == s2.drop_last() {
                    assert(s1 =~= s1.drop_last() + seq![c1]);
                    assert(s2 =~= s2.drop_last() + seq![c2]);
                    assert(false);
                } else {
                    lemma_escape_text_injective(s1.drop_last(), s2.drop_last());
                    assert(false);
                }
            }
        }
    }
}

/// Cutting the same frame off both sides: equal texts with the same
/// prefix and suffix carry the same middle.
proof fn lemma_frame_injective(p: Seq<char>, m1: Seq<char>, m2: Seq<char>, s: Seq<char>)
    requires
        p + m1 + s == p + m2 + s,
    ensures
        m1 == m2,
{
    assert((p + m1 + s).len() == p.len() + m1.len() + s.len());
    assert((p + m2 + s).len() == p.len() + m2.len() + s.len());
    assert(m1.len() == m2.len());
    assert(m1 =~= m2) by {
        assert forall|k: int| 0 <= k < m1.len() implies m1[k] == m2[k] by {
            assert((p + m1 + s)[p.len() + k] == m1[k]);
            assert((p + m2 + s)[p.len() + k] == m2[k]);
        }
    }
}

/// Changing the amount of a transfer always changes the canonical text
/// that is hashed and signed: no two amounts are ever presented to the
/// signature scheme as the same message.
pub proof fn lemma_canonical_text_amount_injective(
    id: Seq<char>,
    sender: Seq<char>,
    recipient: Seq<char>,
    a: u64,
    b: u64,
)
    requires
        a != b,
    ensures
        canonical_text(id, sender, recipient, a) != canonical_text(id, sender, recipient, b),
{
    let prefix = "{\"id\":\""@ + escape_text(id) + "\",\"sender\":\""@ + escape_text(sender)
        + "\",\"recipient\":\""@ + escape_text(recipient) + "\",\"amount\":"@;
    lemma_dec_text_injective(a as nat, b as nat);
    assert(canonical_text(id, sender, recipient, a)
        =~= prefix + dec_text(a as nat) + "}"@);
    assert(canonical_text(id, sender, recipient, b)
        =~= prefix + dec_text(b as nat) + "}"@);
    if canonical_text(id, sender, recipient, a) == canonical_text(id, sender, recipient, b) {
        lemma_frame_injective(prefix, dec_text(a as nat), dec_text(b as nat), "}"@);
        assert(false);
    }
}

/// Changing the id of a transfer always changes the canonical text.
pub proof fn lemma_canonical_text_id_injective(
    id1: Seq<char>,
    id2: Seq<char>,
    sender: Seq<char>,
    recipient: Seq<char>,
    amount: u64,
)
    requires
        id1 != id2,
    ensures
        canonical_text(id1, sender, recipient, amount)
            != canonical_text(id2, sender, recipient, amount),
{
    let prefix = "{\"id\":\""@;
    let suffix = "\",\"sender\":\""@ + escape_text(sender) + "\",\"recipient\":\""@
        + escape_text(recipient) + "\",\"amount\":"@ + dec_text(amount as nat) + "}"@;
    lemma_escape_text_injective(id1, id2);
    assert(canonical_text(id1, sender, recipient, amount)
        =~= prefix + escape_text(id1) + suffix);
    assert(canonical_text(id2, sender, recipient, amount)
        =~= prefix + escape_text(id2) + suffix);
    if canonical_text(id1, sender, recipient, amount)
        == canonical_text(id2, sender, recipient, amount) {
        lemma_frame_injective(prefix, escape_text(id1), escape_text(id2), suffix);
        assert(false);
    }
}

/// Changing the sender of a transfer always changes the canonical text.
pub proof fn lemma_canonical_text_sender_injective(
    id: Seq<char>,
    s1: Seq<char>,
    s2: Seq<char>,
    recipient: Seq<char>,
    amount: u64,
)
    requires
        s1 != s2,
    ensures
        canonical_text(id, s1, recipient, amount) != canonical_text(id, s2, recipient, amount),
{
    let prefix = "{\"id\":\""@ + escape_text(id) + "\",\"sender\":\""@;
    let suffix = "\",\"recipient\":\""@ + escape_text(recipient) + "\",\"amount\":"@
        + dec_text(amount as nat) + "}"@;
    lemma_escape_text_injective(s1, s2);
    assert(canonical_text(id, s1, recipient, amount) =~= prefix + escape_text(s1) + suffix);
    assert(canonical_text(id, s2, recipient, amount) =~= prefix + escape_text(s2) + suffix);
    if canonical_text(id, s1, recipient, amount) == canonical_text(id, s2, recipient, amount) {
        lemma_frame_injective(prefix, escape_text(s1), escape_text(s2), suffix);
        assert(false);
    }
}

/// Changing the recipient of a transfer always changes the canonical text.
pub proof fn lemma_canonical_text_recipient_injective(
    id: Seq<char>,
    sender: Seq<char>,
    r1: Seq<char>,
    r2: Seq<char>,
    amount: u64,
)
    requires
        r1 != r2,
    ensures
        canonical_text(id, sender, r1, amount) != canonical_text(id, sender, r2, amount),
{
    let prefix = "{\"id\":\""@ + escape_text(id) + "\",\"sender\":\""@ + escape_text(sender)
        + "\",\"recipient\":\""@;
    let suffix = "\",\"amount\":"@ + dec_text(amount as nat) + "}"@;
    lemma_escape_text_injective(r1, r2);
    assert(canonical_text(id, sender, r1, amount) =~= prefix + escape_text(r1) + suffix);
    assert(canonical_text(id, sender, r2, amount) =~= prefix + escape_text(r2) + suffix);
    if canonical_text(id, sender, r1, amount) == canonical_text(id, sender, r2, amount) {
        lemma_frame_injective(prefix, escape_text(r1), escape_text(r2), suffix);
        assert(false);
    }
}

/// Appending one more character's escape to an escaped prefix.
proof fn lemma_escape_text_step(s: Seq<char>, i: int)
    requires
        0 <= i < s.len(),
    ensures
        escape_text(s.take(i + 1)) == escape_text(s.take(i)) + escape_char(s[i]),
{
    assert(s.take(i + 1).drop_last() =~= s.take(i));
    assert(s.take(i + 1).last() == s[i]);
}

/// Writes the escaped form of a field onto the end of the message.
fn append_escaped(out: &mut String, s: &str)
    ensures
        final(out)@ == old(out)@ + escape_text(s@),
{
    let len = s.unicode_len();
    let mut i: usize = 0;
    while i < len
        invariant
            len == s@.len(),
            i <= len,
            out@ == old(out)@ + escape_text(s@.take(i as int)),
        decreases len - i,
    {
        let c = s.get_char(i);
        if c == '"' {
            out.append("\\\"");
        } else if c == '\\' {
            out.append("\\\\");
        } else {
            let piece = s.substring_char(i, i + 1);
            proof {
                assert(s@.subrange(i as int, i as int + 1) =~= seq![s@[i as int]]);
            }
            out.append(piece);
        }
        proof {
            lemma_escape_text_step(s@, i as int);
        }
        i = i + 1;
    }
    proof {
        assert(s@.take(len as int) =~= s@);
    }
}

/// The text of one decimal digit.
fn digit_str(d: u64) -> (r: &'static str)
    requires
        d < 10,
    ensures
        r@ == dec_digit_text(d as nat),
{
    match d {
        0 => "0",
        1 => "1",
        2 => "2",
        3 => "3",
        4 => "4",
        5 => "5",
        6 => "6",
        7 => "7",
        8 => "8",
        _ => "9",
    }
}

/// Writes the decimal text of an amount onto the end of the message.
fn append_dec(out: &mut String, n: u64)
    ensures
        final(out)@ == old(out)@ + dec_text(n as nat),
    decreases n,
{
    if n < 10 {
        out.append(digit_str(n));
    } else {
        assert(n / 10 < n);
        append_dec(out, n / 10);
        out.append(digit_str(n % 10));
        proof {
            assert((n / 10) as nat == n as nat / 10);
            assert((n % 10) as nat == n as nat % 10);
        }
    }
}

/// Builds the canonical text of the given signed fields.
pub fn canonical_message(id: &str, sender: &str, recipient: &str, amount: u64) -> (r: String)
    ensures
        r@ == canonical_text(id@, sender@, recipient@, amount),
{
    let mut out = String::new();
    out.append("{\"id\":\"");
    append_escaped(&mut out, id);
    out.append("\",\"sender\":\"");
    append_escaped(&mut out, sender);
    out.append("\",\"recipient\":\"");
    append_escaped(&mut out, recipient);
    out.append("\",\"amount\":");
    append_dec(&mut out, amount);
    out.append("}");
    proof {
        assert(out@ =~= canonical_text(id@, sender@, recipient@, amount));
    }
    out
}

/// Computes the canonical digest of the given signed fields.
pub fn digest_bytes(id: &str, sender: &str, recipient: &str, amount: u64) -> (r: Vec<u8>)
    ensures
        r@ == transfer_digest(id@, sender@, recipient@, amount),
        r@.len() == 64,
{
    let message = canonical_message(id, sender, recipient, amount);
    sha512_text(message.as_str())
}

} // verus!
