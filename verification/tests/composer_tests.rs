use filecoin_hashers::poseidon::PoseidonDomain;
use filecoin_proofs::types::FallbackPoStSectorProof;
use filecoin_proofs::SectorShape32GiB;
use storage_proofs_core::api_version::ApiVersion;
use window_post::cache::ParameterCache;
use window_post::commitment::as_safe_commitment;
use window_post::composer::{
    compound_setup, get_post_params, window_post, window_post_public_params,
    window_post_setup_params, PublicSector, SetupParams, SnarkProofSet, VanillaProofSet,
};
use window_post::config::{PoStType, ProofConfiguration};
use window_post::error::PostError;

const VALID_SEED: [u8; 32] = [
    156, 40, 35, 233, 178, 130, 183, 47, 22, 168, 5, 55, 185, 78, 43, 202, 117, 156, 69, 3, 209,
    71, 39, 214, 191, 3, 252, 245, 150, 175, 208, 50,
];

const VALID_PROVER: [u8; 32] = [
    200, 31, 0, 0, 0, 0, 0, 0, 0, 0, 0, 0, 0, 0, 0, 0, 0, 0, 0, 0, 0, 0, 0, 0, 0, 0, 0, 0, 0, 0,
    0, 0,
];

fn test_config(sector_count: usize, typ: PoStType) -> ProofConfiguration {
    ProofConfiguration {
        sector_size: 2048,
        challenge_count: 10,
        sector_count,
        typ,
        priority: false,
        api_version: ApiVersion::V1_2_0,
    }
}

fn sectors(n: u64) -> Vec<PublicSector> {
    (0..n)
        .map(|id| PublicSector {
            id,
            comm_r: as_safe_commitment(&VALID_PROVER, "comm_r").unwrap(),
        })
        .collect()
}

/// One per-sector vanilla witness per given sector identifier, in order.
fn witnesses(ids: &[u64]) -> VanillaProofSet {
    let inner: Vec<FallbackPoStSectorProof<SectorShape32GiB>> = ids
        .iter()
        .map(|&id| FallbackPoStSectorProof {
            sector_id: id.into(),
            comm_r: PoseidonDomain::default(),
            vanilla_proof: storage_proofs_post::fallback::Proof { sectors: Vec::new() },
        })
        .collect();
    VanillaProofSet { inner }
}

#[test]
fn mismatched_witness_count_fails_first() {
    let config = test_config(2, PoStType::Window);
    let mut cache = ParameterCache::new();
    // Three sectors, no witnesses: the counts disagree.
    let r = window_post(&config, &VALID_SEED, VALID_PROVER, sectors(3), witnesses(&[]), &mut cache);
    assert!(matches!(r, Err(PostError::InconsistentWitnessSet)));
    assert_eq!(cache.len(), 0);
}

#[test]
fn mismatched_witness_count_wins_over_bad_seed() {
    let config = test_config(2, PoStType::Window);
    let mut cache = ParameterCache::new();
    let bad_seed = [0xffu8; 32];
    // Two sectors, one witness: the count mismatch decides, not the seed.
    let r = window_post(&config, &bad_seed, VALID_PROVER, sectors(2), witnesses(&[0]), &mut cache);
    assert!(matches!(r, Err(PostError::InconsistentWitnessSet)));
}

#[test]
fn invalid_challenge_seed_is_labelled_randomness() {
    let config = test_config(2, PoStType::Window);
    let mut cache = ParameterCache::new();
    let bad_seed = [0xffu8; 32];
    let r =
        window_post(&config, &bad_seed, VALID_PROVER, sectors(2), witnesses(&[0, 1]), &mut cache);
    match r {
        Err(PostError::InvalidCommitment(label)) => assert_eq!(label, "randomness"),
        _ => panic!("expected InvalidCommitment for the challenge seed"),
    }
    assert_eq!(cache.len(), 0);
}

#[test]
fn invalid_prover_id_is_labelled_prover_id() {
    let config = test_config(2, PoStType::Window);
    let mut cache = ParameterCache::new();
    let bad_prover = [0xffu8; 32];
    let r =
        window_post(&config, &VALID_SEED, bad_prover, sectors(2), witnesses(&[0, 1]), &mut cache);
    match r {
        Err(PostError::InvalidCommitment(label)) => assert_eq!(label, "prover_id"),
        _ => panic!("expected InvalidCommitment for the prover identity"),
    }
}

#[test]
fn misordered_witnesses_fail_partitioning() {
    let config = test_config(2, PoStType::Window);
    let mut cache = ParameterCache::new();
    // Same count, but the i-th witness does not belong to the i-th sector.
    let r =
        window_post(&config, &VALID_SEED, VALID_PROVER, sectors(2), witnesses(&[1, 0]), &mut cache);
    assert!(matches!(r, Err(PostError::ProvingError(_))));
    assert_eq!(cache.len(), 0);
}

#[test]
fn non_window_configuration_is_rejected_without_generation() {
    let config = test_config(2, PoStType::Winning);
    let mut cache = ParameterCache::new();
    let r =
        window_post(&config, &VALID_SEED, VALID_PROVER, sectors(2), witnesses(&[0, 1]), &mut cache);
    assert!(matches!(r, Err(PostError::UnsupportedConfiguration)));
    assert_eq!(cache.len(), 0, "no parameters may be generated for an unsupported type");
}

#[test]
fn get_post_params_rejects_non_window_type() {
    let config = test_config(2, PoStType::Winning);
    let mut cache = ParameterCache::new();
    let r = get_post_params(&config, &mut cache);
    assert!(matches!(r, Err(PostError::UnsupportedConfiguration)));
    assert!(!cache.is_cached(2048));
}

#[test]
fn missing_parameter_store_surfaces_generation_error() {
    // Two sectors with their two witnesses are consistent, so the run
    // reaches parameter retrieval; no proving key material exists for this
    // configuration in the test environment, and that failure must surface
    // without being cached.
    let config = test_config(2, PoStType::Window);
    let mut cache = ParameterCache::new();
    let r =
        window_post(&config, &VALID_SEED, VALID_PROVER, sectors(2), witnesses(&[0, 1]), &mut cache);
    assert!(matches!(r, Err(PostError::ParameterGenerationError(_))));
    assert_eq!(cache.len(), 0);
}

#[test]
fn five_sectors_need_five_witnesses_for_three_partitions() {
    // Five sectors at capacity two plan three partitions; the five
    // per-sector witnesses are the consistent set and the run proceeds to
    // parameter retrieval. Three witnesses disagree with the sector count.
    let config = test_config(2, PoStType::Window);
    let mut cache = ParameterCache::new();
    let r = window_post(
        &config,
        &VALID_SEED,
        VALID_PROVER,
        sectors(5),
        witnesses(&[0, 1, 2, 3, 4]),
        &mut cache,
    );
    assert!(matches!(r, Err(PostError::ParameterGenerationError(_))));
    let r2 = window_post(
        &config,
        &VALID_SEED,
        VALID_PROVER,
        sectors(5),
        witnesses(&[0, 1, 2]),
        &mut cache,
    );
    assert!(matches!(r2, Err(PostError::InconsistentWitnessSet)));
}

#[test]
fn identical_runs_agree_up_to_the_parameter_store() {
    // The pipeline introduces no randomness of its own: two runs over
    // identical inputs and one process-lifetime cache take the same path and
    // report the same outcome.
    let config = test_config(2, PoStType::Window);
    let mut cache = ParameterCache::new();
    let first =
        window_post(&config, &VALID_SEED, VALID_PROVER, sectors(2), witnesses(&[0, 1]), &mut cache);
    let second =
        window_post(&config, &VALID_SEED, VALID_PROVER, sectors(2), witnesses(&[0, 1]), &mut cache);
    assert!(matches!(first, Err(PostError::ParameterGenerationError(_))));
    assert!(matches!(second, Err(PostError::ParameterGenerationError(_))));
    assert_eq!(cache.len(), 0);
}

#[test]
fn setup_params_copy_the_configuration() {
    let config = test_config(7, PoStType::Window);
    let sp = window_post_setup_params(&config);
    assert_eq!(sp.sector_size, 2048);
    assert_eq!(sp.challenge_count, 10);
    assert_eq!(sp.sector_count, 7);
    assert!(sp.api_version == ApiVersion::V1_2_0);
}

#[test]
fn public_params_mirror_setup_params() {
    let config = test_config(5, PoStType::Window);
    let pp = window_post_public_params(&config);
    assert_eq!(pp.sector_size, 2048);
    assert_eq!(pp.challenge_count, 10);
    assert_eq!(pp.sector_count, 5);
    assert!(pp.api_version == ApiVersion::V1_2_0);
}

#[test]
fn compound_setup_carries_partitions_and_priority() {
    let config = test_config(2, PoStType::Window);
    let sp = SetupParams {
        vanilla_params: window_post_setup_params(&config),
        partitions: Some(3),
        priority: true,
    };
    let pp = compound_setup(&sp);
    assert_eq!(pp.partitions, Some(3));
    assert!(pp.priority);
    assert_eq!(pp.vanilla_params.sector_count, 2);
}

#[test]
fn proof_count_reports_the_proofs() {
    let empty = SnarkProofSet { inner: Vec::new() };
    assert_eq!(empty.proof_count(), 0);
}

#[test]
fn error_descriptions_name_each_failure() {
    assert_eq!(
        PostError::UnsupportedConfiguration.describe(),
        "invalid post config type"
    );
    assert_eq!(
        PostError::InconsistentWitnessSet.describe(),
        "public sectors and vanilla proofs do not match"
    );
    assert_eq!(
        PostError::ParameterGenerationError("disk".to_string()).describe(),
        "parameter generation failed: disk"
    );
    assert_eq!(
        PostError::ProvingError("backend".to_string()).describe(),
        "proving failed: backend"
    );
}
