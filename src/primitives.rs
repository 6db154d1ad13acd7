//! The values that a candidate is built from, and their byte encodings.
use vstd::prelude::*;
use crate::codec::{
    bytes_enc, compact, push_all, push_bytes, push_compact, push_u32, u32_enc,
};

verus! {

/// A 32-byte hash, such as that of a relay-chain block.
pub type H256 = [u8; 32];

/// The identity of a parachain.
pub type ParaId = u32;

/// Validation parameters that every validator checks a candidate against.
#[derive(Clone, Debug, PartialEq, Eq)]
pub struct PersistedValidationData {
    pub parent_head: Vec<u8>,
    pub block_number: u32,
    pub dmq_mqc_head: H256,
    pub max_pov_size: u32,
}

/// Limits that hold at the relay parent but are not persisted.
#[derive(Clone, Debug, PartialEq, Eq)]
pub struct TransientValidationData {
    pub max_code_size: u32,
    pub max_head_data_size: u32,
    pub code_upgrade_allowed: Option<u32>,
    pub dmq_length: u32,
}

/// Everything a collator needs to build on a relay parent.
#[derive(Clone, Debug, PartialEq, Eq)]
pub struct ValidationData {
    pub persisted: PersistedValidationData,
    pub transient: TransientValidationData,
}

/// The proof of validity: what a validator re-executes to check a candidate.
#[derive(Clone, Debug, PartialEq, Eq)]
pub struct PoV {
    pub block_data: Vec<u8>,
}

/// A message to another parachain.
#[derive(Clone, Debug, PartialEq, Eq)]
pub struct OutboundHrmpMessage {
    pub recipient: ParaId,
    pub data: Vec<u8>,
}

/// What a collator produces for one relay parent.
#[derive(Clone, Debug, PartialEq, Eq)]
pub struct Collation {
    pub upward_messages: Vec<Vec<u8>>,
    pub horizontal_messages: Vec<OutboundHrmpMessage>,
    pub new_validation_code: Option<Vec<u8>>,
    pub head_data: Vec<u8>,
    pub proof_of_validity: PoV,
    pub processed_downward_messages: u32,
    pub hrmp_watermark: u32,
}

/// The outputs of a candidate that its receipt commits to.
#[derive(Clone, Debug, PartialEq, Eq)]
pub struct CandidateCommitments {
    pub upward_messages: Vec<Vec<u8>>,
    pub horizontal_messages: Vec<OutboundHrmpMessage>,
    pub new_validation_code: Option<Vec<u8>>,
    pub head_data: Vec<u8>,
    pub processed_downward_messages: u32,
    pub hrmp_watermark: u32,
}

/// The data that is erasure-coded so that the network keeps it available.
#[derive(Clone, Debug, PartialEq, Eq)]
pub struct AvailableData {
    pub pov: PoV,
    pub validation_data: PersistedValidationData,
}

pub open spec fn hash_enc(h: H256) -> Seq<u8> {
    h@
}

pub open spec fn pvd_enc(p: PersistedValidationData) -> Seq<u8> {
    bytes_enc(p.parent_head@) + u32_enc(p.block_number) + hash_enc(p.dmq_mqc_head) + u32_enc(
        p.max_pov_size,
    )
}

pub open spec fn pov_enc(p: PoV) -> Seq<u8> {
    bytes_enc(p.block_data@)
}

pub open spec fn available_data_enc(a: AvailableData) -> Seq<u8> {
    pov_enc(a.pov) + pvd_enc(a.validation_data)
}

/// The byte strings of `s`, each with its length prefix, one after another.
pub open spec fn blobs_concat(s: Seq<Vec<u8>>) -> Seq<u8>
    decreases s.len(),
{
    if s.len() == 0 {
        Seq::empty()
    } else {
        blobs_concat(s.drop_last()) + bytes_enc(s.last()@)
    }
}

pub open spec fn hrmp_enc(m: OutboundHrmpMessage) -> Seq<u8> {
    u32_enc(m.recipient) + bytes_enc(m.data@)
}

pub open spec fn hrmp_concat(s: Seq<OutboundHrmpMessage>) -> Seq<u8>
    decreases s.len(),
{
    if s.len() == 0 {
        Seq::empty()
    } else {
        hrmp_concat(s.drop_last()) + hrmp_enc(s.last())
    }
}

pub open spec fn code_enc(c: Option<Vec<u8>>) -> Seq<u8> {
    match c {
        None => seq![0u8],
        Some(v) => seq![1u8] + bytes_enc(v@),
    }
}

pub open spec fn commitments_enc(c: CandidateCommitments) -> Seq<u8> {
    compact(c.upward_messages@.len()) + blobs_concat(c.upward_messages@) + compact(
        c.horizontal_messages@.len(),
    ) + hrmp_concat(c.horizontal_messages@) + code_enc(c.new_validation_code) + bytes_enc(
        c.head_data@,
    ) + u32_enc(c.processed_downward_messages) + u32_enc(c.hrmp_watermark)
}

/// Appends the 32 bytes of a hash.
pub fn push_hash(out: &mut Vec<u8>, h: &H256)
    ensures
        final(out)@ == old(out)@ + hash_enc(*h),
{
    let ghost before = out@;
    let mut i: usize = 0;
    while i < 32
        invariant
            i <= 32,
            out@ == before + h@.subrange(0, i as int),
        decreases 32 - i,
    {
        out.push(h[i]);
        i = i + 1;
        assert(out@ =~= before + h@.subrange(0, i as int));
    }
    assert(h@.subrange(0, 32) =~= h@);
}

/// A copy of a byte string.
pub fn copy_bytes(b: &Vec<u8>) -> (r: Vec<u8>)
    ensures
        r@ == b@,
{
    let mut r: Vec<u8> = Vec::new();
    push_all(&mut r, b);
    assert(r@ =~= b@);
    r
}

impl PersistedValidationData {
    /// The encoding of these parameters.
    pub fn encode(&self) -> (r: Vec<u8>)
        ensures
            r@ == pvd_enc(*self),
    {
        let mut out: Vec<u8> = Vec::new();
        push_bytes(&mut out, &self.parent_head);
        push_u32(&mut out, self.block_number);
        push_hash(&mut out, &self.dmq_mqc_head);
        push_u32(&mut out, self.max_pov_size);
        assert(out@ =~= pvd_enc(*self));
        out
    }
}

impl PoV {
    /// The encoding of this proof of validity.
    pub fn encode(&self) -> (r: Vec<u8>)
        ensures
            r@ == pov_enc(*self),
    {
        let mut out: Vec<u8> = Vec::new();
        push_bytes(&mut out, &self.block_data);
        assert(out@ =~= pov_enc(*self));
        out
    }
}

impl AvailableData {
    /// The encoding of the data that is erasure-coded.
    pub fn encode(&self) -> (r: Vec<u8>)
        ensures
            r@ == available_data_enc(*self),
    {
        let mut out = self.pov.encode();
        let v = self.validation_data.encode();
        push_all(&mut out, &v);
        out
    }
}

fn push_blobs(out: &mut Vec<u8>, s: &Vec<Vec<u8>>)
    ensures
        final(out)@ == old(out)@ + compact(s@.len()) + blobs_concat(s@),
{
    push_compact(out, s.len() as u64);
    let ghost before = out@;
    let mut i: usize = 0;
    while i < s.len()
        invariant
            i <= s@.len(),
            out@ == before + blobs_concat(s@.subrange(0, i as int)),
        decreases s@.len() - i,
    {
        push_bytes(out, &s[i]);
        proof {
            let t = s@.subrange(0, i + 1);
            assert(t.drop_last() =~= s@.subrange(0, i as int));
        }
        i = i + 1;
        assert(out@ =~= before + blobs_concat(s@.subrange(0, i as int)));
    }
    assert(s@.subrange(0, s@.len() as int) =~= s@);
}

fn push_hrmp(out: &mut Vec<u8>, s: &Vec<OutboundHrmpMessage>)
    ensures
        final(out)@ == old(out)@ + compact(s@.len()) + hrmp_concat(s@),
{
    push_compact(out, s.len() as u64);
    let ghost before = out@;
    let mut i: usize = 0;
    while i < s.len()
        invariant
            i <= s@.len(),
            out@ == before + hrmp_concat(s@.subrange(0, i as int)),
        decreases s@.len() - i,
    {
        push_u32(out, s[i].recipient);
        push_bytes(out, &s[i].data);
        proof {
            let t = s@.subrange(0, i + 1);
            assert(t.drop_last() =~= s@.subrange(0, i as int));
        }
        i = i + 1;
        assert(out@ =~= before + hrmp_concat(s@.subrange(0, i as int)));
    }
    assert(s@.subrange(0, s@.len() as int) =~= s@);
}

impl CandidateCommitments {
    /// The encoding of these commitments.
    pub fn encode(&self) -> (r: Vec<u8>)
        ensures
            r@ == commitments_enc(*self),
    {
        let mut out: Vec<u8> = Vec::new();
        push_blobs(&mut out, &self.upward_messages);
        push_hrmp(&mut out, &self.horizontal_messages);
        match &self.new_validation_code {
            None => {
                out.push(0u8);
            },
            Some(code) => {
                out.push(1u8);
                push_bytes(&mut out, code);
            },
        }
        push_bytes(&mut out, &self.head_data);
        push_u32(&mut out, self.processed_downward_messages);
        push_u32(&mut out, self.hrmp_watermark);
        assert(out@ =~= commitments_enc(*self));
        out
    }
}

} // verus!
