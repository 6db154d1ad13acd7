use collation_generation::activation::{
    actionable_cores, CoreState, OccupiedCore, RelayParentRound, RoundStep, ScheduledCore,
};
use collation_generation::candidate::{
    signature_payload, BuilderTask, CandidateReceipt, CollationGenerationConfig, DistributeCollation,
    ErasureError,
};
use collation_generation::codec::{push_compact, push_le};
use collation_generation::primitives::{
    AvailableData, CandidateCommitments, Collation, OutboundHrmpMessage,
    PersistedValidationData, PoV, TransientValidationData, ValidationData, H256,
};
use collation_generation::subsystem::{
    CollationGenerationSubsystem, Directive, DurationStats, FromOverseer, Metrics, OverseerError,
    Phase,
};
use sp_core::Pair as PairT;

fn key(seed: u8) -> sp_core::sr25519::Pair {
    sp_core::sr25519::Pair::from_seed(&[seed; 32])
}

fn config(para_id: u32, seed: u8) -> CollationGenerationConfig {
    CollationGenerationConfig::new(para_id, key(seed))
}

fn blake2(data: &[u8]) -> [u8; 32] {
    <sp_core::Blake2Hasher as sp_core::Hasher>::hash(data).0
}

fn pvd(block_number: u32) -> PersistedValidationData {
    PersistedValidationData {
        parent_head: vec![1, 2, 3],
        block_number,
        dmq_mqc_head: [9; 32],
        max_pov_size: 1024,
    }
}

fn validation_data(block_number: u32) -> ValidationData {
    ValidationData {
        persisted: pvd(block_number),
        transient: TransientValidationData {
            max_code_size: 1000,
            max_head_data_size: 100,
            code_upgrade_allowed: None,
            dmq_length: 0,
        },
    }
}

fn collation(tag: u8) -> Collation {
    Collation {
        upward_messages: vec![vec![tag], vec![]],
        horizontal_messages: vec![OutboundHrmpMessage { recipient: 7, data: vec![tag, tag] }],
        new_validation_code: Some(vec![0xaa]),
        head_data: vec![tag, 0, tag],
        proof_of_validity: PoV { block_data: vec![tag; 5] },
        processed_downward_messages: 2,
        hrmp_watermark: 3,
    }
}

fn commitments(c: &Collation) -> CandidateCommitments {
    CandidateCommitments {
        upward_messages: c.upward_messages.clone(),
        horizontal_messages: c.horizontal_messages.clone(),
        new_validation_code: c.new_validation_code.clone(),
        head_data: c.head_data.clone(),
        processed_downward_messages: c.processed_downward_messages,
        hrmp_watermark: c.hrmp_watermark,
    }
}

fn scheduled(para_id: u32) -> CoreState {
    CoreState::Scheduled(ScheduledCore { para_id, collator: None })
}

fn occupied(para_id: u32) -> CoreState {
    CoreState::Occupied(OccupiedCore { para_id, candidate_hash: [4; 32] })
}

/// Runs one relay parent the way the actor does: chooses the cores, builds on
/// each with the given producer output and erasure root.
fn run_relay_parent(
    cfg: &CollationGenerationConfig,
    relay_parent: H256,
    cores: &Vec<CoreState>,
    produce: &dyn Fn(usize) -> Option<Collation>,
    erasure: Result<H256, ErasureError>,
) -> Vec<DistributeCollation> {
    let mut out = Vec::new();
    let mut round = RelayParentRound::new(relay_parent, cfg.para_id(), cores, 10);
    while let RoundStep::RequestValidationData { core, para_id } = round.next_step() {
        assert_eq!(para_id, cfg.para_id());
        let task = match round.on_validation_data(Some(validation_data(core as u32))) {
            Some(task) => task,
            None => continue,
        };
        let produced = produce(core);
        if task.availability_bundle(&produced).is_none() {
            continue;
        }
        if let Some(msg) = task.complete(cfg, produced.unwrap(), erasure) {
            out.push(msg);
        }
    }
    out
}

fn check_receipt(receipt: &CandidateReceipt, cfg: &CollationGenerationConfig, pov: &PoV) {
    let d = &receipt.descriptor;
    assert_eq!(d.collator, cfg.key().public().0);
    let sig = sp_core::sr25519::Signature::from_raw(d.signature);
    let public = sp_core::sr25519::Public::from_raw(d.collator);
    assert!(sp_core::sr25519::Pair::verify(&sig, d.payload(), &public));
    assert_eq!(d.pov_hash, blake2(&pov.encode()));
}

#[test]
fn compact_prefix_values() {
    let cases: Vec<(u64, Vec<u8>)> = vec![
        (0, vec![0]),
        (1, vec![4]),
        (63, vec![252]),
        (64, vec![1, 1]),
        (16383, vec![0xfd, 0xff]),
        (16384, vec![2, 0, 1, 0]),
        (0x3fff_ffff, vec![0xfe, 0xff, 0xff, 0xff]),
        (0x4000_0000, vec![3, 0, 0, 0, 0x40]),
        (0x1_0000_0000, vec![7, 0, 0, 0, 0, 1]),
        (u64::MAX, vec![0x13, 0xff, 0xff, 0xff, 0xff, 0xff, 0xff, 0xff, 0xff]),
    ];
    for (n, expected) in cases {
        let mut out = vec![0x55];
        push_compact(&mut out, n);
        let mut want = vec![0x55];
        want.extend(expected);
        assert_eq!(out, want, "compact({})", n);
    }
}

#[test]
fn little_endian_bytes() {
    let mut out = Vec::new();
    push_le(&mut out, 0x0102_0304, 4);
    assert_eq!(out, vec![4, 3, 2, 1]);
    push_le(&mut out, 0x1ff, 1);
    assert_eq!(out, vec![4, 3, 2, 1, 0xff]);
}

#[test]
fn persisted_validation_data_encoding() {
    let mut expected = vec![12, 1, 2, 3, 5, 0, 0, 0];
    expected.extend([9u8; 32]);
    expected.extend([0, 4, 0, 0]);
    assert_eq!(pvd(5).encode(), expected);
    assert_eq!(pvd(5).hash(), blake2(&expected));
    assert_ne!(pvd(5).hash(), pvd(6).hash());
}

#[test]
fn commitments_encoding() {
    let c = commitments(&collation(8));
    let expected = vec![
        8, 4, 8, 0, // two upward messages
        4, 7, 0, 0, 0, 8, 8, 8, // one horizontal message to 7
        1, 4, 0xaa, // new code
        12, 8, 0, 8, // head data
        2, 0, 0, 0, 3, 0, 0, 0,
    ];
    assert_eq!(c.encode(), expected);
    assert_eq!(c.hash(), blake2(&expected));
    let mut no_code = c.clone();
    no_code.new_validation_code = None;
    assert_eq!(no_code.encode()[12], 0);
    assert_eq!(no_code.encode().len(), expected.len() - 2);
}

#[test]
fn pov_and_available_data_encoding() {
    let pov = PoV { block_data: vec![1, 2] };
    assert_eq!(pov.encode(), vec![8, 1, 2]);
    assert_eq!(pov.hash(), blake2(&[8, 1, 2]));
    assert_ne!(pov.hash().to_vec(), pov.encode());
    let data = AvailableData { pov, validation_data: pvd(5) };
    let mut expected = vec![8, 1, 2];
    expected.extend(pvd(5).encode());
    assert_eq!(data.encode(), expected);
}

#[test]
fn signature_payload_layout() {
    let p = signature_payload(&[1; 32], 0x0102_0304, &[2; 32], &[3; 32], &[5; 32]);
    assert_eq!(p.len(), 132);
    assert_eq!(&p[0..32], &[1u8; 32]);
    assert_eq!(&p[32..36], &[4, 3, 2, 1]);
    assert_eq!(&p[36..68], &[2u8; 32]);
    assert_eq!(&p[68..100], &[3u8; 32]);
    assert_eq!(&p[100..132], &[5u8; 32]);
}

#[test]
fn config_exposes_public_key() {
    let cfg = config(100, 1);
    assert_eq!(cfg.para_id(), 100);
    assert_eq!(cfg.collator(), key(1).public().0);
    assert_ne!(cfg.collator(), key(2).public().0);
}

#[test]
fn no_matching_core_no_tasks() {
    let cores = vec![scheduled(5), occupied(100), CoreState::Free, scheduled(6)];
    assert!(actionable_cores(&cores, 100).is_empty());
    let cfg = config(100, 1);
    let out = run_relay_parent(&cfg, [1; 32], &cores, &|i| Some(collation(i as u8)), Ok([3; 32]));
    assert!(out.is_empty());
    assert!(actionable_cores(&vec![], 100).is_empty());
}

#[test]
fn occupied_cores_are_skipped() {
    let cores = vec![occupied(100), scheduled(100), occupied(100), CoreState::Free, scheduled(100)];
    assert_eq!(actionable_cores(&cores, 100), vec![1, 4]);
}

#[test]
fn one_message_per_matching_core() {
    let cores = vec![scheduled(100), scheduled(3), scheduled(100), occupied(100), scheduled(100)];
    let cfg = config(100, 1);
    let out = run_relay_parent(&cfg, [1; 32], &cores, &|i| Some(collation(i as u8)), Ok([3; 32]));
    assert_eq!(out.len(), 3);
    for (msg, core) in out.iter().zip([0usize, 2, 4]) {
        let d = &msg.receipt.descriptor;
        assert_eq!(d.relay_parent, [1; 32]);
        assert_eq!(d.para_id, 100);
        assert_eq!(d.persisted_validation_data_hash, pvd(core as u32).hash());
        assert_eq!(msg.pov, collation(core as u8).proof_of_validity);
        check_receipt(&msg.receipt, &cfg, &msg.pov);
    }
}

#[test]
fn producer_yielding_nothing_emits_nothing() {
    let cores = vec![scheduled(100), scheduled(100)];
    let cfg = config(100, 1);
    let out = run_relay_parent(&cfg, [1; 32], &cores, &|_| None, Ok([3; 32]));
    assert!(out.is_empty());
    let task = BuilderTask::new([1; 32], 100, validation_data(0), 10);
    assert!(task.availability_bundle(&None).is_none());
    let out = run_relay_parent(
        &cfg,
        [1; 32],
        &cores,
        &|i| if i == 0 { None } else { Some(collation(1)) },
        Ok([3; 32]),
    );
    assert_eq!(out.len(), 1);
}

#[test]
fn availability_bundle_holds_pov_and_persisted_data() {
    let task = BuilderTask::new([1; 32], 100, validation_data(4), 10);
    let bundle = task.availability_bundle(&Some(collation(2))).unwrap();
    assert_eq!(bundle.pov, collation(2).proof_of_validity);
    assert_eq!(bundle.validation_data, pvd(4));
}

#[test]
fn erasure_failure_drops_candidate() {
    let cfg = config(100, 1);
    let task = BuilderTask::new([1; 32], 100, validation_data(0), 10);
    for e in [ErasureError::NotEnoughValidators, ErasureError::TooManyValidators, ErasureError::BadPayload] {
        assert!(task.complete(&cfg, collation(1), Err(e)).is_none());
    }
}

#[test]
fn receipt_commits_and_signs() {
    let cfg = config(100, 1);
    let task = BuilderTask::new([7; 32], 100, validation_data(3), 10);
    let c = collation(5);
    let msg = task.complete(&cfg, c.clone(), Ok([3; 32])).unwrap();
    let d = &msg.receipt.descriptor;
    assert_eq!(msg.receipt.commitments_hash, blake2(&commitments(&c).encode()));
    assert_eq!(msg.receipt.commitments_hash, commitments(&c).hash());
    assert_eq!(d.erasure_root, [3; 32]);
    assert_eq!(d.relay_parent, [7; 32]);
    assert_eq!(d.persisted_validation_data_hash, blake2(&pvd(3).encode()));
    assert_eq!(
        d.payload(),
        signature_payload(&[7; 32], 100, &d.persisted_validation_data_hash, &d.pov_hash, &[3; 32])
    );
    check_receipt(&msg.receipt, &cfg, &c.proof_of_validity);
    let other = key(2).public();
    let sig = sp_core::sr25519::Signature::from_raw(d.signature);
    assert!(!sp_core::sr25519::Pair::verify(&sig, d.payload(), &other));
}

#[test]
fn availability_bundle_is_deterministic() {
    let task = BuilderTask::new([1; 32], 100, validation_data(4), 10);
    let a = task.availability_bundle(&Some(collation(2))).unwrap();
    let b = task.availability_bundle(&Some(collation(2))).unwrap();
    assert_eq!(a.encode(), b.encode());
}

#[test]
fn second_initialize_keeps_first_config() {
    let mut s = CollationGenerationSubsystem::new(Metrics::new());
    assert!(s.config().is_none());
    assert_eq!(s.handle_incoming(Ok(FromOverseer::Initialize(config(100, 1)))), Directive::Continue);
    assert_eq!(
        s.handle_incoming(Ok(FromOverseer::Initialize(config(200, 2)))),
        Directive::DoubleInitialization
    );
    let d = s.handle_incoming(Ok(FromOverseer::ActiveLeaves(vec![[1; 32]])));
    assert_eq!(d, Directive::HandleActivations(vec![[1; 32]]));
    let cfg = s.config().unwrap();
    assert_eq!(cfg.para_id(), 100);
    let cores = vec![scheduled(100)];
    let out = run_relay_parent(cfg, [1; 32], &cores, &|_| Some(collation(1)), Ok([3; 32]));
    assert_eq!(out.len(), 1);
    assert_eq!(out[0].receipt.descriptor.para_id, 100);
    assert_eq!(out[0].receipt.descriptor.collator, key(1).public().0);
    check_receipt(&out[0].receipt, cfg, &out[0].pov);
}

#[test]
fn two_relay_parents_two_messages() {
    let mut s = CollationGenerationSubsystem::new(Metrics::new());
    s.handle_incoming(Ok(FromOverseer::Initialize(config(100, 1))));
    let heads = match s.handle_incoming(Ok(FromOverseer::ActiveLeaves(vec![[1; 32], [2; 32]]))) {
        Directive::HandleActivations(h) => h,
        other => panic!("unexpected {:?}", other),
    };
    let cfg = s.config().unwrap();
    let mut out = Vec::new();
    for h in heads {
        let cores = vec![occupied(100), scheduled(100)];
        out.extend(run_relay_parent(cfg, h, &cores, &|_| Some(collation(h[0])), Ok([h[0]; 32])));
    }
    assert_eq!(out.len(), 2);
    for msg in &out {
        let d = &msg.receipt.descriptor;
        let tag = d.relay_parent[0];
        assert_eq!(d.erasure_root, [tag; 32]);
        assert_eq!(msg.pov, collation(tag).proof_of_validity);
        check_receipt(&msg.receipt, cfg, &msg.pov);
    }
    assert_ne!(out[0].receipt.descriptor.relay_parent, out[1].receipt.descriptor.relay_parent);
    let mut s2 = s;
    for msg in out {
        s2.forward(msg);
    }
    assert_eq!(s2.metrics().collations_generated, 2);
}

#[test]
fn conclude_exits_with_task_in_flight() {
    let mut s = CollationGenerationSubsystem::new(Metrics::new());
    s.handle_incoming(Ok(FromOverseer::Initialize(config(100, 1))));
    let in_flight = BuilderTask::new([1; 32], 100, validation_data(0), 10);
    assert_eq!(s.handle_incoming(Ok(FromOverseer::Conclude)), Directive::Exit);
    drop(in_flight);
}

#[test]
fn activation_before_initialize_is_ignored() {
    let mut s = CollationGenerationSubsystem::new(Metrics::new());
    assert_eq!(s.handle_incoming(Ok(FromOverseer::ActiveLeaves(vec![[1; 32]]))), Directive::Continue);
    assert_eq!(s.handle_incoming(Ok(FromOverseer::BlockFinalized([1; 32]))), Directive::Continue);
    assert_eq!(s.handle_incoming(Err(OverseerError)), Directive::Exit);
    assert!(s.config().is_none());
}

#[test]
fn forward_counts_and_passes_through() {
    let mut m = Metrics::new();
    m.collations_generated = u64::MAX - 1;
    let mut s = CollationGenerationSubsystem::new(m);
    let cfg = config(100, 1);
    let task = BuilderTask::new([1; 32], 100, validation_data(0), 10);
    let msg = task.complete(&cfg, collation(1), Ok([3; 32])).unwrap();
    let fwd = s.forward(msg.clone());
    assert_eq!(fwd, msg);
    assert_eq!(s.metrics().collations_generated, u64::MAX);
    s.forward(msg);
    assert_eq!(s.metrics().collations_generated, u64::MAX);
}

#[test]
fn round_requests_matching_cores_in_order() {
    let cores = vec![scheduled(100), occupied(100), scheduled(100), scheduled(4)];
    let mut round = RelayParentRound::new([6; 32], 100, &cores, 12);
    assert_eq!(round.next_step(), RoundStep::RequestValidationData { core: 0, para_id: 100 });
    assert!(round.on_validation_data(None).is_none());
    assert_eq!(round.next_step(), RoundStep::RequestValidationData { core: 2, para_id: 100 });
    let task = round.on_validation_data(Some(validation_data(2))).unwrap();
    assert_eq!(task.relay_parent, [6; 32]);
    assert_eq!(task.para_id, 100);
    assert_eq!(task.n_validators, 12);
    assert_eq!(task.validation_data, validation_data(2));
    assert_eq!(round.next_step(), RoundStep::Done);
    let empty = RelayParentRound::new([6; 32], 100, &vec![occupied(100), CoreState::Free], 12);
    assert_eq!(empty.next_step(), RoundStep::Done);
}

#[test]
fn durations_are_recorded_per_phase() {
    let mut s = CollationGenerationSubsystem::new(Metrics::new());
    s.observe(Phase::Activations, 10);
    s.observe(Phase::RelayParent, 4);
    s.observe(Phase::RelayParent, 6);
    s.observe(Phase::AvailabilityCore, u64::MAX);
    s.observe(Phase::AvailabilityCore, 1);
    let m = s.metrics();
    assert_eq!(m.new_activations, DurationStats { count: 1, total_micros: 10 });
    assert_eq!(m.per_relay_parent, DurationStats { count: 2, total_micros: 10 });
    assert_eq!(m.per_availability_core, DurationStats { count: 2, total_micros: u64::MAX });
    assert_eq!(m.collations_generated, 0);
    assert!(s.config().is_none());
}
