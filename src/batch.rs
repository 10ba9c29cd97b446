use crate::errors::MultiSigErrors;
use vstd::prelude::*;

verus! {

/// One signer's entry in a signature-verification record: the identity that
/// the verification facility recovered and the message it checked.
#[derive(Debug, Clone)]
pub struct SignatureRecord {
    pub recovered_identity: Vec<u8>,
    pub signed_message: Vec<u8>,
}

impl View for SignatureRecord {
    type V = (Seq<u8>, Seq<u8>);

    open spec fn view(&self) -> (Seq<u8>, Seq<u8>) {
        (self.recovered_identity@, self.signed_message@)
    }
}

pub open spec fn records_view(records: Seq<SignatureRecord>) -> Seq<(Seq<u8>, Seq<u8>)> {
    records.map_values(|r: SignatureRecord| r@)
}

/// Some record's identity differs from the claimed signer at its position.
pub open spec fn some_signer_mismatch(
    records: Seq<(Seq<u8>, Seq<u8>)>,
    signers: Seq<Seq<u8>>,
) -> bool {
    exists|i: int| 0 <= i < records.len() && #[trigger] records[i].0 != signers[i]
}

/// Some record's message differs from the expected digest.
pub open spec fn some_message_mismatch(records: Seq<(Seq<u8>, Seq<u8>)>, digest: Seq<u8>) -> bool {
    exists|i: int| 0 <= i < records.len() && #[trigger] records[i].1 != digest
}

/// Checks a parsed batch against the claimed signers and the expected digest:
/// first every identity, then every message.
pub open spec fn batch_outcome(
    records: Seq<(Seq<u8>, Seq<u8>)>,
    signers: Seq<Seq<u8>>,
    digest: Seq<u8>,
) -> Result<(), MultiSigErrors> {
    if some_signer_mismatch(records, signers) {
        Err(MultiSigErrors::InvalidMessageSigner)
    } else if some_message_mismatch(records, digest) {
        Err(MultiSigErrors::InvalidMessage)
    } else {
        Ok(())
    }
}

/// Byte-wise equality of two byte strings.
pub fn bytes_eq(a: &[u8], b: &[u8]) -> (r: bool)
    ensures
        r == (a@ == b@),
{
    if a.len() != b.len() {
        return false;
    }
    let mut i: usize = 0;
    while i < a.len()
        invariant
            i <= a@.len(),
            a@.len() == b@.len(),
            forall|j: int| 0 <= j < i ==> a@[j] == b@[j],
        decreases a@.len() - i,
    {
        if a[i] != b[i] {
            return false;
        }
        i = i + 1;
    }
    proof {
        assert(a@ =~= b@);
    }
    true
}

/// Copies `len` bytes of `data` starting at `start`.
pub fn copy_range(data: &[u8], start: usize, len: usize) -> (r: Vec<u8>)
    requires
        start + len <= data@.len(),
    ensures
        r@ == data@.subrange(start as int, start + len),
{
    let mut out: Vec<u8> = Vec::new();
    let total = data.len();
    let mut i: usize = 0;
    while i < len
        invariant
            i <= len,
            start + len <= total,
            total == data@.len(),
            out@ == data@.subrange(start as int, start + i),
        decreases len - i,
    {
        out.push(data[start + i]);
        i = i + 1;
        proof {
            assert(out@ =~= data@.subrange(start as int, start + i));
        }
    }
    out
}

/// Checks that the identity of each record equals the claimed signer at the
/// same position and, once that holds for all, that each record's message is
/// the expected digest.
pub fn check_records(records: &Vec<SignatureRecord>, signers: &Vec<Vec<u8>>, digest: &[u8]) -> (r:
    Result<(), MultiSigErrors>)
    requires
        records@.len() == signers@.len(),
    ensures
        r == batch_outcome(
            records_view(records@),
            signers@.map_values(|s: Vec<u8>| s@),
            digest@,
        ),
{
    let ghost recs = records_view(records@);
    let ghost sigs = signers@.map_values(|s: Vec<u8>| s@);
    let mut i: usize = 0;
    while i < records.len()
        invariant
            i <= records@.len(),
            records@.len() == signers@.len(),
            recs == records_view(records@),
            sigs == signers@.map_values(|s: Vec<u8>| s@),
            forall|j: int| 0 <= j < i ==> #[trigger] recs[j].0 == sigs[j],
        decreases records@.len() - i,
    {
        if !bytes_eq(records[i].recovered_identity.as_slice(), signers[i].as_slice()) {
            proof {
                assert(recs[i as int].0 != sigs[i as int]);
            }
            return Err(MultiSigErrors::InvalidMessageSigner);
        }
        i = i + 1;
    }
    assert(!some_signer_mismatch(recs, sigs));
    let mut k: usize = 0;
    while k < records.len()
        invariant
            k <= records@.len(),
            recs == records_view(records@),
            sigs == signers@.map_values(|s: Vec<u8>| s@),
            !some_signer_mismatch(recs, sigs),
            forall|j: int| 0 <= j < k ==> #[trigger] recs[j].1 == digest@,
        decreases records@.len() - k,
    {
        if !bytes_eq(records[k].signed_message.as_slice(), digest) {
            proof {
                assert(recs[k as int].1 != digest@);
            }
            return Err(MultiSigErrors::InvalidMessage);
        }
        k = k + 1;
    }
    assert(!some_message_mismatch(recs, digest@));
    Ok(())
}

} // verus!
