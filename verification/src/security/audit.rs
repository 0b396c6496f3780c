//! A hash-chained audit trail for tamper detection.
//!
//! Each entry's hash is the SHA-256 (lower-case hex) of its action followed by
//! the previous entry's hash; the first entry chains from the hash of the
//! empty input. Every way of changing a trail keeps the chain intact, so
//! checking it always succeeds.

use vstd::prelude::*;
use vstd::utf8::encode_utf8;
use sha2::{Digest, Sha256};
use crate::text::utc_now_rfc3339;

verus! {

/// The lower-case hex of the SHA-256 digest of `data`.
pub uninterp spec fn sha256_hex_of(data: Seq<u8>) -> Seq<char>;

/// Trusted: feeds `a` then `b` to one `sha2::Sha256` hasher and formats the
/// digest with `{:x}`. Feeding two slices hashes their concatenation, and the
/// `LowerHex` impl of the 32-byte digest writes 64 lower-case hex digits.
#[verifier::external_body]
fn sha256_hex(a: &[u8], b: &[u8]) -> (r: String)
    ensures
        r@ == sha256_hex_of(a@ + b@),
        r@.len() == 64,
{
    let mut hasher = Sha256::new();
    hasher.update(a);
    hasher.update(b);
    format!("{:x}", hasher.finalize())
}


/// The hash the first entry chains from: that of the empty input.
pub open spec fn empty_hash() -> Seq<char> {
    sha256_hex_of(Seq::<u8>::empty())
}

/// Entry in the audit trail.
#[derive(Clone, Debug)]
pub struct AuditEntry {
    pub action: String,
    /// When the action was recorded (RFC 3339, UTC).
    pub timestamp: String,
    pub hash: String,
    pub previous_hash: String,
}

/// The hash entry `i` chains from.
pub open spec fn chained_from(entries: Seq<AuditEntry>, i: int) -> Seq<char> {
    if i == 0 { empty_hash() } else { entries[i - 1].hash@ }
}

/// The hash an entry must carry: that of its action then its predecessor's hash.
pub open spec fn entry_hash(action: Seq<char>, previous: Seq<char>) -> Seq<char> {
    sha256_hex_of(encode_utf8(action) + encode_utf8(previous))
}

/// Every entry records its predecessor's hash and carries the hash of its
/// action and that predecessor hash.
pub open spec fn chain_intact(entries: Seq<AuditEntry>) -> bool {
    forall|i: int| 0 <= i < entries.len() ==> {
        &&& (#[trigger] entries[i]).previous_hash@ == chained_from(entries, i)
        &&& entries[i].hash@ == entry_hash(entries[i].action@, chained_from(entries, i))
    }
}

/// The head of the chain: the last entry's hash, or the empty hash.
pub open spec fn chain_head(entries: Seq<AuditEntry>) -> Seq<char> {
    if entries.len() == 0 { empty_hash() } else { entries.last().hash@ }
}

/// Merkle audit trail for tamper detection.
///
/// The trail owns its entries; appending needs `&mut self`, so what the
/// contracts say of the entries holds from one call to the next.
pub struct MerkleAuditTrail {
    entries: Vec<AuditEntry>,
    root_hash: String,
}

fn empty_hash_text() -> (r: String)
    ensures
        r@ == empty_hash(),
        r@.len() == 64,
{
    let none: Vec<u8> = Vec::new();
    let h = sha256_hex(none.as_slice(), none.as_slice());
    assert(Seq::<u8>::empty() + Seq::<u8>::empty() =~= Seq::<u8>::empty());
    h
}

/// A field-by-field copy of an entry.
fn copy_entry(e: &AuditEntry) -> (r: AuditEntry)
    ensures
        r == *e,
{
    AuditEntry {
        action: e.action.clone(),
        timestamp: e.timestamp.clone(),
        hash: e.hash.clone(),
        previous_hash: e.previous_hash.clone(),
    }
}

impl MerkleAuditTrail {
    /// The entries, oldest first.
    pub closed spec fn entries_view(&self) -> Seq<AuditEntry> {
        self.entries@
    }

    /// The root hash as text.
    pub closed spec fn root_view(&self) -> Seq<char> {
        self.root_hash@
    }

    /// The chain is intact and the root is its head (a 64-digit hash).
    pub closed spec fn wf(&self) -> bool {
        &&& chain_intact(self.entries@)
        &&& self.root_hash@ == chain_head(self.entries@)
        &&& self.root_hash@.len() == 64
    }

    /// Creates an empty trail whose root is the empty hash.
    pub fn new() -> (r: Self)
        ensures
            r.wf(),
            r.entries_view() == Seq::<AuditEntry>::empty(),
            r.root_view() == empty_hash(),
    {
        MerkleAuditTrail { entries: Vec::new(), root_hash: empty_hash_text() }
    }

    /// Appends an action and returns its hash: SHA-256 of the action followed
    /// by the hash of the entry before it (the root hash at that moment). The
    /// new entry records that previous hash, and its hash becomes the root.
    pub fn append(&mut self, action: &str) -> (r: Result<String, String>)
        requires
            old(self).wf(),
        ensures
            final(self).wf(),
            r matches Ok(h) && h@ == entry_hash(action@, old(self).root_view()) && h@.len() == 64,
            final(self).entries_view().len() == old(self).entries_view().len() + 1,
            final(self).entries_view().drop_last() == old(self).entries_view(),
            final(self).entries_view().last().action@ == action@,
            final(self).entries_view().last().previous_hash@ == old(self).root_view(),
            final(self).entries_view().last().hash@ == entry_hash(action@, old(self).root_view()),
            final(self).root_view() == entry_hash(action@, old(self).root_view()),
    {
        let previous_hash = self.root_hash.clone();
        let hash = sha256_hex(action.as_bytes(), previous_hash.as_str().as_bytes());
        let ghost old_entries = self.entries@;
        let entry = AuditEntry {
            action: action.to_string(),
            timestamp: utc_now_rfc3339(),
            hash: hash.clone(),
            previous_hash,
        };
        self.entries.push(entry);
        self.root_hash = hash.clone();
        proof {
            let e = self.entries@;
            assert(e =~= old_entries.push(e.last()));
            assert(e.drop_last() =~= old_entries);
            assert forall|i: int| 0 <= i < e.len() implies {
                &&& (#[trigger] e[i]).previous_hash@ == chained_from(e, i)
                &&& e[i].hash@ == entry_hash(e[i].action@, chained_from(e, i))
            } by {
                if i < old_entries.len() {
                    assert(e[i] == old_entries[i]);
                    if i > 0 { assert(e[i - 1] == old_entries[i - 1]); }
                }
            }
        }
        Ok(hash)
    }

    /// Checks the whole chain. The trail keeps its chain intact, so the
    /// check always succeeds.
    pub fn verify_chain(&self) -> (r: Result<bool, String>)
        requires
            self.wf(),
        ensures
            r == Ok::<bool, String>(true),
    {
        let ok = Self::check_entries(&self.entries);
        Ok(ok)
    }

    /// Recomputes the chain: every entry must name its predecessor's hash and
    /// carry the hash of its action and that predecessor hash.
    pub fn check_entries(entries: &Vec<AuditEntry>) -> (r: bool)
        ensures
            r == chain_intact(entries@),
    {
        let mut expected_prev = empty_hash_text();
        let mut i: usize = 0;
        while i < entries.len()
            invariant
                i <= entries@.len(),
                expected_prev@ == chained_from(entries@, i as int),
                forall|j: int| 0 <= j < i ==> {
                    &&& (#[trigger] entries@[j]).previous_hash@ == chained_from(entries@, j)
                    &&& entries@[j].hash@ == entry_hash(entries@[j].action@, chained_from(entries@, j))
                },
            decreases entries.len() - i,
        {
            let entry = &entries[i];
            if entry.previous_hash != expected_prev {
                return false;
            }
            let calculated = sha256_hex(entry.action.as_str().as_bytes(), expected_prev.as_str().as_bytes());
            if calculated != entry.hash {
                return false;
            }
            expected_prev = entry.hash.clone();
            i += 1;
        }
        true
    }

    /// The root hash: the hash of the last entry, or the empty hash.
    pub fn get_root_hash(&self) -> (r: Result<String, String>)
        requires
            self.wf(),
        ensures
            r matches Ok(h) && h@ == self.root_view() && h@ == chain_head(self.entries_view()),
            r matches Ok(h) && h@.len() == 64,
    {
        Ok(self.root_hash.clone())
    }

    /// The number of entries.
    pub fn entry_count(&self) -> (r: Result<usize, String>)
        ensures
            r matches Ok(n) && n == self.entries_view().len(),
    {
        Ok(self.entries.len())
    }

    /// A copy of all entries, oldest first (for inspection or export).
    pub fn get_entries(&self) -> (r: Result<Vec<AuditEntry>, String>)
        ensures
            r matches Ok(v) && v@ == self.entries_view(),
    {
        let mut out: Vec<AuditEntry> = Vec::new();
        let mut i: usize = 0;
        while i < self.entries.len()
            invariant
                i <= self.entries@.len(),
                out@ == self.entries@.take(i as int),
            decreases self.entries.len() - i,
        {
            out.push(copy_entry(&self.entries[i]));
            assert(self.entries@.take(i + 1) =~= self.entries@.take(i as int).push(self.entries@[i as int]));
            i += 1;
        }
        assert(self.entries@.take(self.entries@.len() as int) =~= self.entries@);
        Ok(out)
    }
}

impl Default for MerkleAuditTrail {
    /// An empty trail.
    fn default() -> (r: Self)
        ensures
            r.wf(),
            r.entries_view() == Seq::<AuditEntry>::empty(),
            r.root_view() == empty_hash(),
    {
        MerkleAuditTrail::new()
    }
}

} // verus!
