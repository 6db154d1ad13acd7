//! The builder task: from a produced collation to a signed candidate receipt.
use vstd::prelude::*;
use crate::codec::{push_u32, u32_enc};
use crate::crypto::{blake2_256, blake2_256_of, public_key, sign};
use crate::primitives::{
    commitments_enc, copy_bytes, hash_enc, push_hash, pov_enc, pvd_enc, AvailableData,
    CandidateCommitments, Collation, H256, ParaId, PersistedValidationData, PoV, ValidationData,
};

verus! {

/// What a collator is configured with: its parachain and its signing key.
pub struct CollationGenerationConfig {
    para_id: ParaId,
    key: sp_core::sr25519::Pair,
    collator: [u8; 32],
}

impl CollationGenerationConfig {
    /// A configuration that builds for `para_id` and signs with `key`.
    pub fn new(para_id: ParaId, key: sp_core::sr25519::Pair) -> (r: Self)
        ensures
            r.para_id_spec() == para_id,
            r.key_spec() == key,
    {
        let collator = public_key(&key);
        CollationGenerationConfig { para_id, key, collator }
    }

    /// The parachain that candidates are built for.
    pub fn para_id(&self) -> (r: ParaId)
        ensures
            r == self.para_id_spec(),
    {
        self.para_id
    }

    /// The parachain that is built for.
    pub closed spec fn para_id_spec(&self) -> ParaId {
        self.para_id
    }

    /// The public key that candidates are signed for.
    pub fn collator(&self) -> (r: [u8; 32])
        ensures
            r == self.collator_spec(),
    {
        self.collator
    }

    /// The public key of the signing key.
    pub closed spec fn collator_spec(&self) -> [u8; 32] {
        self.collator
    }

    /// The signing key.
    pub closed spec fn key_spec(&self) -> sp_core::sr25519::Pair {
        self.key
    }

    /// The signing key.
    pub fn key(&self) -> (r: &sp_core::sr25519::Pair)
        ensures
            *r == self.key_spec(),
    {
        &self.key
    }
}

/// Why the erasure coding of a candidate's available data failed.
#[derive(Clone, Copy, Debug, PartialEq, Eq)]
pub enum ErasureError {
    NotEnoughValidators,
    TooManyValidators,
    BadPayload,
}

/// What a candidate is, signed by its collator.
#[derive(Clone, Debug, PartialEq, Eq)]
pub struct CandidateDescriptor {
    pub para_id: ParaId,
    pub relay_parent: H256,
    pub collator: [u8; 32],
    pub persisted_validation_data_hash: H256,
    pub pov_hash: H256,
    pub erasure_root: H256,
    pub signature: [u8; 64],
}

/// A candidate's descriptor with the hash of its commitments.
#[derive(Clone, Debug, PartialEq, Eq)]
pub struct CandidateReceipt {
    pub descriptor: CandidateDescriptor,
    pub commitments_hash: H256,
}

/// The message that hands a candidate to the collator protocol.
#[derive(Clone, Debug, PartialEq, Eq)]
pub struct DistributeCollation {
    pub receipt: CandidateReceipt,
    pub pov: PoV,
}

/// The bytes that a collator signs: relay parent, parachain, hash of the
/// validation data, hash of the proof of validity and erasure root.
pub open spec fn signature_payload_of(
    relay_parent: H256,
    para_id: ParaId,
    pvd_hash: H256,
    pov_hash: H256,
    erasure_root: H256,
) -> Seq<u8> {
    hash_enc(relay_parent) + u32_enc(para_id) + hash_enc(pvd_hash) + hash_enc(pov_hash) + hash_enc(
        erasure_root,
    )
}

/// The payload that the descriptor's signature is over.
pub open spec fn descriptor_payload(d: CandidateDescriptor) -> Seq<u8> {
    signature_payload_of(
        d.relay_parent,
        d.para_id,
        d.persisted_validation_data_hash,
        d.pov_hash,
        d.erasure_root,
    )
}

/// The commitments that a collation makes.
pub open spec fn commitments_of(c: Collation) -> CandidateCommitments {
    CandidateCommitments {
        upward_messages: c.upward_messages,
        horizontal_messages: c.horizontal_messages,
        new_validation_code: c.new_validation_code,
        head_data: c.head_data,
        processed_downward_messages: c.processed_downward_messages,
        hrmp_watermark: c.hrmp_watermark,
    }
}

/// The two values hold the same persisted validation data.
pub open spec fn same_pvd(a: PersistedValidationData, b: PersistedValidationData) -> bool {
    &&& a.parent_head@ == b.parent_head@
    &&& a.block_number == b.block_number
    &&& a.dmq_mqc_head == b.dmq_mqc_head
    &&& a.max_pov_size == b.max_pov_size
}

/// The bytes that a collator signs.
pub fn signature_payload(
    relay_parent: &H256,
    para_id: ParaId,
    pvd_hash: &H256,
    pov_hash: &H256,
    erasure_root: &H256,
) -> (r: Vec<u8>)
    ensures
        r@ == signature_payload_of(*relay_parent, para_id, *pvd_hash, *pov_hash, *erasure_root),
{
    let mut out: Vec<u8> = Vec::new();
    push_hash(&mut out, relay_parent);
    push_u32(&mut out, para_id);
    push_hash(&mut out, pvd_hash);
    push_hash(&mut out, pov_hash);
    push_hash(&mut out, erasure_root);
    assert(out@ =~= signature_payload_of(
        *relay_parent,
        para_id,
        *pvd_hash,
        *pov_hash,
        *erasure_root,
    ));
    out
}

impl CandidateDescriptor {
    /// The bytes that this descriptor's signature is over.
    pub fn payload(&self) -> (r: Vec<u8>)
        ensures
            r@ == descriptor_payload(*self),
    {
        signature_payload(
            &self.relay_parent,
            self.para_id,
            &self.persisted_validation_data_hash,
            &self.pov_hash,
            &self.erasure_root,
        )
    }
}

impl CandidateCommitments {
    /// The hash that a receipt carries of these commitments.
    pub fn hash(&self) -> (r: H256)
        ensures
            r@ == blake2_256_of(commitments_enc(*self)),
    {
        blake2_256(&self.encode())
    }
}

impl PersistedValidationData {
    /// The hash of these parameters.
    pub fn hash(&self) -> (r: H256)
        ensures
            r@ == blake2_256_of(pvd_enc(*self)),
    {
        blake2_256(&self.encode())
    }

    /// A copy of these parameters.
    pub fn copy(&self) -> (r: Self)
        ensures
            same_pvd(r, *self),
    {
        PersistedValidationData {
            parent_head: copy_bytes(&self.parent_head),
            block_number: self.block_number,
            dmq_mqc_head: self.dmq_mqc_head,
            max_pov_size: self.max_pov_size,
        }
    }
}

impl PoV {
    /// The hash of this proof of validity.
    pub fn hash(&self) -> (r: H256)
        ensures
            r@ == blake2_256_of(pov_enc(*self)),
    {
        blake2_256(&self.encode())
    }
}

/// One unit of background work: builds at most one candidate for one core of
/// one relay parent.
pub struct BuilderTask {
    pub relay_parent: H256,
    pub para_id: ParaId,
    pub validation_data: ValidationData,
    pub n_validators: usize,
}

impl BuilderTask {
    /// The task for a core of `relay_parent` scheduled for `para_id`.
    pub fn new(
        relay_parent: H256,
        para_id: ParaId,
        validation_data: ValidationData,
        n_validators: usize,
    ) -> (r: Self)
        ensures
            r == (BuilderTask { relay_parent, para_id, validation_data, n_validators }),
    {
        BuilderTask { relay_parent, para_id, validation_data, n_validators }
    }

    /// What the producer's output asks for next: nothing when it produced
    /// nothing, else the erasure coding of this bundle over `n_validators`.
    pub fn availability_bundle(&self, produced: &Option<Collation>) -> (r: Option<AvailableData>)
        ensures
            match *produced {
                None => r is None,
                Some(c) => r is Some && r->Some_0.pov.block_data@
                    == c.proof_of_validity.block_data@ && same_pvd(
                    r->Some_0.validation_data,
                    self.validation_data.persisted,
                ),
            },
    {
        match produced {
            None => None,
            Some(c) => Some(
                AvailableData {
                    pov: PoV { block_data: copy_bytes(&c.proof_of_validity.block_data) },
                    validation_data: self.validation_data.persisted.copy(),
                },
            ),
        }
    }

    /// Finishes the task once the erasure root of the collation's bundle is
    /// known: nothing when the coding failed, else the signed receipt with the
    /// proof of validity.
    pub fn complete(
        &self,
        config: &CollationGenerationConfig,
        collation: Collation,
        erasure: Result<H256, ErasureError>,
    ) -> (r: Option<DistributeCollation>)
        ensures
            match erasure {
                Err(_) => r is None,
                Ok(root) => r is Some && {
                    let m = r->Some_0;
                    let d = m.receipt.descriptor;
                    &&& d.relay_parent == self.relay_parent
                    &&& d.para_id == self.para_id
                    &&& d.collator == config.collator_spec()
                    &&& d.persisted_validation_data_hash@ == blake2_256_of(
                        pvd_enc(self.validation_data.persisted),
                    )
                    &&& d.pov_hash@ == blake2_256_of(pov_enc(collation.proof_of_validity))
                    &&& d.erasure_root == root
                    &&& m.receipt.commitments_hash@ == blake2_256_of(
                        commitments_enc(commitments_of(collation)),
                    )
                    &&& m.pov == collation.proof_of_validity
                },
            },
    {
        let erasure_root = match erasure {
            Ok(root) => root,
            Err(_) => {
                return None;
            },
        };
        let pvd_hash = self.validation_data.persisted.hash();
        let pov_hash = collation.proof_of_validity.hash();
        let payload = signature_payload(
            &self.relay_parent,
            self.para_id,
            &pvd_hash,
            &pov_hash,
            &erasure_root,
        );
        let signature = sign(config.key(), &payload);
        let commitments = CandidateCommitments {
            upward_messages: collation.upward_messages,
            horizontal_messages: collation.horizontal_messages,
            new_validation_code: collation.new_validation_code,
            head_data: collation.head_data,
            processed_downward_messages: collation.processed_downward_messages,
            hrmp_watermark: collation.hrmp_watermark,
        };
        let commitments_hash = commitments.hash();
        let descriptor = CandidateDescriptor {
            para_id: self.para_id,
            relay_parent: self.relay_parent,
            collator: config.collator(),
            persisted_validation_data_hash: pvd_hash,
            pov_hash,
            erasure_root,
            signature,
        };
        Some(
            DistributeCollation {
                receipt: CandidateReceipt { descriptor, commitments_hash },
                pov: collation.proof_of_validity,
            },
        )
    }
}

} // verus!
