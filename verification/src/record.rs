//! The challenge record, its canonical text, and signature verification.

use vstd::prelude::*;
use vstd::string::StringExecFns;
use vstd::utf8::encode_utf8;
use crate::ext::{
    decode_pubkey, decode_signature, ed25519_check, ed25519_verifies, now_rfc3339,
    pubkey_bytes_of, sig_bytes_of,
};
use crate::nonce::{generate_nonce, is_nonce};

verus! {

/// A sign-in challenge issued to a wallet. The record is immutable once
/// built; its canonical text is a pure function of its fields.
#[derive(Debug, Clone)]
pub struct GateResponseObject {
    pub domain: String,
    pub address: String,
    pub statement: String,
    pub version: String,
    pub nonce: String,
    pub chain_id: String,
    pub issued_at: String,
    pub resources: Vec<String>,
}

/// The `- <resource>` lines of the canonical text, one per resource in
/// order, each preceded by the line break that separates it from the line
/// before it.
pub open spec fn resource_lines(rs: Seq<String>) -> Seq<char>
    decreases rs.len(),
{
    if rs.len() == 0 {
        Seq::empty()
    } else {
        resource_lines(rs.drop_last()) + "\n- "@ + rs.last()@
    }
}

/// Everything of the canonical text up to and including the `Issued At`
/// line: the greeting, the address, the statement, and the field block.
pub open spec fn preamble_text(rec: GateResponseObject) -> Seq<char> {
    rec.domain@ + " wants you to sign in with your Solana account:\n"@ + rec.address@ + "\n\n"@
        + rec.statement@ + "\n\nVersion: "@ + rec.version@ + "\nChain ID: "@ + rec.chain_id@
        + "\nNonce: "@ + rec.nonce@ + "\nIssued At: "@ + rec.issued_at@
}

/// The canonical text of a record: the preamble, then — only when there is
/// at least one resource — a `Resources:` line and one `- <resource>` line
/// per entry. This exact shape is the wire contract: it is what the wallet
/// signs and what the verifier recomputes.
pub open spec fn canonical_text(rec: GateResponseObject) -> Seq<char> {
    preamble_text(rec) + (if rec.resources@.len() == 0 {
        Seq::<char>::empty()
    } else {
        "\nResources:"@ + resource_lines(rec.resources@)
    })
}

/// Whether a signature string is accepted for a record: the string must
/// decode to 64 signature bytes, the record's address must decode to a
/// 32-byte public key, and the Ed25519 check over the UTF-8 bytes of the
/// canonical text must pass. Every failure is a plain rejection.
pub open spec fn verify_spec(rec: GateResponseObject, sig: Seq<char>) -> bool {
    match sig_bytes_of(sig) {
        Some(sb) => match pubkey_bytes_of(rec.address@) {
            Some(pb) => ed25519_verifies(sb, encode_utf8(canonical_text(rec)), pb),
            None => false,
        },
        None => false,
    }
}

impl GateResponseObject {
    /// Serializes the record to its canonical text. The text depends on the
    /// fields alone, so repeated calls return byte-identical strings.
    pub fn to_string(&self) -> (r: String)
        ensures
            r@ == canonical_text(*self),
    {
        let mut message = String::new();
        message.append(self.domain.as_str());
        message.append(" wants you to sign in with your Solana account:\n");
        message.append(self.address.as_str());
        message.append("\n\n");
        message.append(self.statement.as_str());
        message.append("\n\nVersion: ");
        message.append(self.version.as_str());
        message.append("\nChain ID: ");
        message.append(self.chain_id.as_str());
        message.append("\nNonce: ");
        message.append(self.nonce.as_str());
        message.append("\nIssued At: ");
        message.append(self.issued_at.as_str());
        if self.resources.len() > 0 {
            message.append("\nResources:");
            let n = self.resources.len();
            let mut i: usize = 0;
            while i < n
                invariant
                    n == self.resources@.len(),
                    i <= n,
                    message@ == preamble_text(*self) + "\nResources:"@ + resource_lines(
                        self.resources@.take(i as int),
                    ),
                decreases n - i,
            {
                message.append("\n- ");
                message.append(self.resources[i].as_str());
                proof {
                    assert(self.resources@.take(i + 1).drop_last() =~= self.resources@.take(
                        i as int,
                    ));
                }
                i += 1;
            }
            proof {
                assert(self.resources@.take(n as int) =~= self.resources@);
            }
        }
        message
    }

    /// Verifies a claimed signature for this record: decodes the signature
    /// string, recomputes the canonical text, decodes the address into a
    /// public key, and runs the Ed25519 check. Never panics; every failure
    /// collapses to `false`, and in particular a non-decodable signature or
    /// address rejects the request.
    pub fn verify(&self, signature: &str) -> (r: bool)
        ensures
            r == verify_spec(*self, signature@),
            sig_bytes_of(signature@) is None ==> !r,
            pubkey_bytes_of(self.address@) is None ==> !r,
    {
        let sig = match decode_signature(signature) {
            Some(sig) => sig,
            None => {
                return false;
            },
        };
        let message = self.to_string();
        let pk = match decode_pubkey(self.address.as_str()) {
            Some(pk) => pk,
            None => {
                return false;
            },
        };
        ed25519_check(sig.as_slice(), message.as_str().as_bytes(), pk.as_slice())
    }
}

/// Builds a fresh challenge for the given domain and address: the protocol
/// constants, a fresh 8-character lowercase hex nonce, the current UTC time
/// as the issuance timestamp, and the domain as the single resource.
pub fn create_gate_message(domain: &str, address: &str) -> (r: GateResponseObject)
    ensures
        r.domain@ == domain@,
        r.address@ == address@,
        r.statement@ == statement_text(),
        r.version@ == "1"@,
        r.chain_id@ == "mainnet"@,
        is_nonce(r.nonce@),
        r.resources@.len() == 1,
        r.resources@[0]@ == domain@,
{
    let version = "1".to_owned();
    let chain_id = "mainnet".to_owned();
    let nonce = generate_nonce();
    let created = now_rfc3339();
    let mut resources: Vec<String> = Vec::new();
    resources.push(domain.to_owned());
    let statement =
        "Clicking Sign or Approve only means you have proved this wallet is owned by you. This request will not trigger any blockchain transaction or cost any gas fee.".to_owned();

    GateResponseObject {
        domain: domain.to_owned(),
        address: address.to_owned(),
        statement,
        version,
        chain_id,
        nonce,
        issued_at: created,
        resources,
    }
}

/// The fixed disclosure statement every challenge carries.
pub open spec fn statement_text() -> Seq<char> {
    "Clicking Sign or Approve only means you have proved this wallet is owned by you. This request will not trigger any blockchain transaction or cost any gas fee."@
}

/// Determinism of canonicalization: the canonical text depends on the
/// contents of the fields alone, so two records whose fields read the same
/// serialize to the same text.
pub proof fn lemma_canonical_text_deterministic(a: GateResponseObject, b: GateResponseObject)
    requires
        a.domain@ == b.domain@,
        a.address@ == b.address@,
        a.statement@ == b.statement@,
        a.version@ == b.version@,
        a.nonce@ == b.nonce@,
        a.chain_id@ == b.chain_id@,
        a.issued_at@ == b.issued_at@,
        a.resources@.len() == b.resources@.len(),
        forall|i: int| #![auto]
            0 <= i < a.resources@.len() ==> a.resources@[i]@ == b.resources@[i]@,
    ensures
        canonical_text(a) == canonical_text(b),
{
    lemma_resource_lines_congruent(a.resources@, b.resources@);
}

/// A word framed by a fixed prefix and a fixed suffix is recoverable from
/// the whole: different words give different texts.
proof fn lemma_framed_word_determines_text(p: Seq<char>, x: Seq<char>, y: Seq<char>, s: Seq<char>)
    requires
        x != y,
    ensures
        p + x + s != p + y + s,
{
    if p + x + s == p + y + s {
        assert((p + x + s).len() == p.len() + x.len() + s.len());
        assert((p + y + s).len() == p.len() + y.len() + s.len());
        assert(x.len() == y.len());
        assert forall|i: int| 0 <= i < x.len() implies x[i] == y[i] by {
            assert((p + x + s)[p.len() + i] == x[i]);
            assert((p + y + s)[p.len() + i] == y[i]);
        }
        assert(x =~= y);
    }
}

/// The part of the canonical text that precedes the nonce.
spec fn text_before_nonce(rec: GateResponseObject) -> Seq<char> {
    rec.domain@ + " wants you to sign in with your Solana account:\n"@ + rec.address@ + "\n\n"@
        + rec.statement@ + "\n\nVersion: "@ + rec.version@ + "\nChain ID: "@ + rec.chain_id@
        + "\nNonce: "@
}

/// The part of the canonical text that follows the nonce.
spec fn text_after_nonce(rec: GateResponseObject) -> Seq<char> {
    "\nIssued At: "@ + rec.issued_at@ + (if rec.resources@.len() == 0 {
        Seq::<char>::empty()
    } else {
        "\nResources:"@ + resource_lines(rec.resources@)
    })
}

/// Tampering with the nonce shows in the canonical text: two records equal
/// in every field but the nonce serialize to different texts, so the signed
/// bytes change.
pub proof fn lemma_changed_nonce_changes_canonical_text(
    a: GateResponseObject,
    b: GateResponseObject,
)
    requires
        b.domain == a.domain,
        b.address == a.address,
        b.statement == a.statement,
        b.version == a.version,
        b.chain_id == a.chain_id,
        b.issued_at == a.issued_at,
        b.resources == a.resources,
        a.nonce@ != b.nonce@,
    ensures
        canonical_text(a) != canonical_text(b),
{
    assert(canonical_text(a) =~= text_before_nonce(a) + a.nonce@ + text_after_nonce(a));
    assert(canonical_text(b) =~= text_before_nonce(a) + b.nonce@ + text_after_nonce(a));
    lemma_framed_word_determines_text(
        text_before_nonce(a),
        a.nonce@,
        b.nonce@,
        text_after_nonce(a),
    );
}

/// Tampering with the domain shows in the canonical text: two records equal
/// in every field but the domain serialize to different texts.
pub proof fn lemma_changed_domain_changes_canonical_text(
    a: GateResponseObject,
    b: GateResponseObject,
)
    requires
        b.address == a.address,
        b.statement == a.statement,
        b.version == a.version,
        b.nonce == a.nonce,
        b.chain_id == a.chain_id,
        b.issued_at == a.issued_at,
        b.resources == a.resources,
        a.domain@ != b.domain@,
    ensures
        canonical_text(a) != canonical_text(b),
{
    let s = " wants you to sign in with your Solana account:\n"@ + a.address@ + "\n\n"@
        + a.statement@ + "\n\nVersion: "@ + a.version@ + "\nChain ID: "@ + a.chain_id@
        + "\nNonce: "@ + a.nonce@ + text_after_nonce(a);
    assert(canonical_text(a) =~= Seq::<char>::empty() + a.domain@ + s);
    assert(canonical_text(b) =~= Seq::<char>::empty() + b.domain@ + s);
    lemma_framed_word_determines_text(Seq::empty(), a.domain@, b.domain@, s);
}

/// Tampering by appending a resource shows in the canonical text: the text
/// with the added `- <resource>` line is strictly longer, so it differs.
pub proof fn lemma_added_resource_changes_canonical_text(
    a: GateResponseObject,
    b: GateResponseObject,
    extra: String,
)
    requires
        b.domain == a.domain,
        b.address == a.address,
        b.statement == a.statement,
        b.version == a.version,
        b.nonce == a.nonce,
        b.chain_id == a.chain_id,
        b.issued_at == a.issued_at,
        b.resources@ == a.resources@.push(extra),
    ensures
        canonical_text(b).len() > canonical_text(a).len(),
        canonical_text(b) != canonical_text(a),
{
    reveal_strlit("\nResources:");
    reveal_strlit("\n- ");
    assert(b.resources@.drop_last() =~= a.resources@);
    assert(b.resources@.last() == extra);
}

/// The resource lines depend on the contents of the resources alone.
proof fn lemma_resource_lines_congruent(x: Seq<String>, y: Seq<String>)
    requires
        x.len() == y.len(),
        forall|i: int| #![auto] 0 <= i < x.len() ==> x[i]@ == y[i]@,
    ensures
        resource_lines(x) == resource_lines(y),
    decreases x.len(),
{
    if x.len() > 0 {
        lemma_resource_lines_congruent(x.drop_last(), y.drop_last());
        assert(x.last()@ == y.last()@);
    }
}

} // verus!
