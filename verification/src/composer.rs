//! The proof composer: assembles setup parameters, public parameters, public
//! inputs and the batch of vanilla witnesses into the call that produces one
//! succinct proof per partition, pulling proving parameters from the
//! parameter cache on demand.

use vstd::prelude::*;
use crate::cache::{ParameterCache, Shared};
use crate::commitment::{as_safe_commitment, encode_ok, SafeCommitment};
use crate::config::{ProofConfiguration, PoStType, MIN_SECTOR_SIZE};
use crate::error::PostError;
use crate::partition::{ceil_div, get_partitions_for_window_post, spec_partition_count};
use filecoin_hashers::Domain;
use filecoin_proofs::SectorShape32GiB;
use rand::rngs::OsRng;
use storage_proofs_core::compound_proof::CompoundProof;
use storage_proofs_core::proof::ProofScheme;
use storage_proofs_post::fallback;
use storage_proofs_post::fallback::{FallbackPoSt, FallbackPoStCircuit, FallbackPoStCompound};

verus! {

/// The vanilla setup parameters of the window PoSt scheme: the plain values
/// the backend derives its public parameters from.
#[derive(Clone, Copy)]
pub struct WindowPostSetupParams {
    pub sector_size: u64,
    pub challenge_count: usize,
    pub sector_count: usize,
    pub api_version: storage_proofs_core::api_version::ApiVersion,
}

/// The vanilla public parameters of the window PoSt scheme; derived from the
/// setup parameters without randomness, so they are never cached.
#[derive(Clone, Copy)]
pub struct WindowPostPublicParams {
    pub sector_size: u64,
    pub challenge_count: usize,
    pub sector_count: usize,
    pub api_version: storage_proofs_core::api_version::ApiVersion,
}

/// The window PoSt setup parameters a configuration selects: its padded
/// sector size, challenge count and per-partition sector capacity.
pub fn window_post_setup_params(post_config: &ProofConfiguration) -> (r: WindowPostSetupParams)
    ensures
        r.sector_size == post_config.sector_size,
        r.challenge_count == post_config.challenge_count,
        r.sector_count == post_config.sector_count,
        r.api_version == post_config.api_version,
{
    WindowPostSetupParams {
        sector_size: post_config.padded_sector_size(),
        challenge_count: post_config.challenge_count,
        sector_count: post_config.sector_count,
        api_version: post_config.api_version,
    }
}

/// Relies on `FallbackPoSt::setup`, which always succeeds and returns public
/// parameters holding exactly the given setup values.
#[verifier::external_body]
fn fallback_setup(sp: &WindowPostSetupParams) -> (r: WindowPostPublicParams)
    ensures
        r.sector_size == sp.sector_size,
        r.challenge_count == sp.challenge_count,
        r.sector_count == sp.sector_count,
        r.api_version == sp.api_version,
{
    let pp = FallbackPoSt::<SectorShape32GiB>::setup(&fallback::SetupParams {
        sector_size: sp.sector_size,
        challenge_count: sp.challenge_count,
        sector_count: sp.sector_count,
        api_version: sp.api_version,
    }).expect("window post setup is infallible");
    WindowPostPublicParams {
        sector_size: pp.sector_size,
        challenge_count: pp.challenge_count,
        sector_count: pp.sector_count,
        api_version: pp.api_version,
    }
}

/// The public parameters of the window PoSt scheme for a configuration:
/// the vanilla setup handed through the backend's setup step.
pub fn window_post_public_params(post_config: &ProofConfiguration) -> (r: WindowPostPublicParams)
    ensures
        r.sector_size == post_config.sector_size,
        r.challenge_count == post_config.challenge_count,
        r.sector_count == post_config.sector_count,
        r.api_version == post_config.api_version,
{
    fallback_setup(&window_post_setup_params(post_config))
}

/// Setup parameters of the composed (succinct) proof: the vanilla setup, the
/// explicit partition count if any, and the scheduling-priority hint.
#[derive(Clone, Copy)]
pub struct SetupParams {
    pub vanilla_params: WindowPostSetupParams,
    pub partitions: Option<usize>,
    pub priority: bool,
}

/// Public parameters of the composed proof, fully determined by the setup
/// parameters.
#[derive(Clone, Copy)]
pub struct CompoundPublicParams {
    pub vanilla_params: WindowPostPublicParams,
    pub partitions: Option<usize>,
    pub priority: bool,
}

/// Derives the composed proof's public parameters from its setup parameters:
/// the vanilla setup step runs, and partition count and priority are carried
/// over unchanged.
pub fn compound_setup(sp: &SetupParams) -> (r: CompoundPublicParams)
    ensures
        r.vanilla_params.sector_size == sp.vanilla_params.sector_size,
        r.vanilla_params.challenge_count == sp.vanilla_params.challenge_count,
        r.vanilla_params.sector_count == sp.vanilla_params.sector_count,
        r.vanilla_params.api_version == sp.vanilla_params.api_version,
        r.partitions == sp.partitions,
        r.priority == sp.priority,
{
    CompoundPublicParams {
        vanilla_params: fallback_setup(&sp.vanilla_params),
        partitions: sp.partitions,
        priority: sp.priority,
    }
}

/// One sector's public commitment data: its identifier and its commitment
/// root, already encoded as a canonical field element.
#[derive(Clone, Copy, Debug)]
pub struct PublicSector {
    pub id: u64,
    pub comm_r: SafeCommitment,
}

/// The batch of vanilla proof witnesses for one proving session: one
/// per-sector witness, corresponding one to one, by index, with the public
/// sectors, as produced by the out-of-scope earlier proving stage. Opaque to
/// this layer beyond each witness's sector identifier.
#[verifier::external_body]
pub struct VanillaProofSet {
    pub inner: Vec<filecoin_proofs::types::FallbackPoStSectorProof<SectorShape32GiB>>,
}

/// The sector identifiers of the witnesses a vanilla proof set holds, in
/// order; its length is the number of witnesses.
pub uninterp spec fn vanilla_sector_ids(s: VanillaProofSet) -> Seq<u64>;

/// Whether every witness in the set carries at least one sector proof, each
/// with at least one inclusion proof; the partitioning backend cannot pad a
/// partition from an empty witness, and its verification reads the first
/// inclusion proof of every sector proof.
pub uninterp spec fn vanilla_all_populated(s: VanillaProofSet) -> bool;

impl VanillaProofSet {
    /// Relies on `Vec` iteration: hands out each witness's sector
    /// identifier, in order.
    #[verifier::external_body]
    pub(crate) fn witness_sector_ids(&self) -> (r: Vec<u64>)
        ensures
            r@ == vanilla_sector_ids(*self),
    {
        self.inner.iter().map(|p| p.sector_id.into()).collect()
    }

    /// Relies on `Vec` iteration: whether every witness carries at least
    /// one sector proof, each with at least one inclusion proof.
    #[verifier::external_body]
    pub(crate) fn all_populated(&self) -> (r: bool)
        ensures
            r == vanilla_all_populated(*self),
    {
        self.inner.iter().all(
            |p| !p.vanilla_proof.sectors.is_empty() && p.vanilla_proof.sectors.iter().all(
                |sp| !sp.inclusion_proofs.is_empty(),
            ),
        )
    }
}

/// The witnesses of one proving run composed per partition: one witness
/// object per fixed-capacity chunk of the sectors, in partition order.
/// Opaque to this layer beyond their number.
#[verifier::external_body]
pub struct PartitionProofSet {
    inner: Vec<filecoin_proofs::types::VanillaProof<SectorShape32GiB>>,
}

/// How many partition witness objects a composed set holds.
pub uninterp spec fn partition_proof_count(s: PartitionProofSet) -> nat;

/// The ordered succinct proofs of one proving run, one per partition.
/// Opaque to this layer beyond their number.
#[verifier::external_body]
pub struct SnarkProofSet {
    pub inner: Vec<bellperson::groth16::Proof<blstrs::Bls12>>,
}

/// How many succinct proofs a proof set holds.
pub uninterp spec fn snark_count(s: SnarkProofSet) -> nat;

impl SnarkProofSet {
    /// Relies on `Vec::len` for the number of proofs.
    #[verifier::external_body]
    pub fn proof_count(&self) -> (n: usize)
        ensures
            n == snark_count(*self),
    {
        self.inner.len()
    }
}

/// The expensive proving key material for one configuration: shared,
/// reference-counted and immutable for the life of the process. Opaque to
/// this layer.
#[verifier::external_body]
pub struct ProvingParameters {
    inner: std::sync::Arc<storage_proofs_core::parameter_cache::Bls12GrothParams>,
}

impl Shared for ProvingParameters {
    fn share(&self) -> (r: Self) {
        duplicate_params(self)
    }
}

/// Relies on `Arc::clone` handing out another handle to the very same
/// parameter object.
#[verifier::external_body]
fn duplicate_params(p: &ProvingParameters) -> (r: ProvingParameters)
    ensures
        r == *p,
{
    ProvingParameters { inner: std::sync::Arc::clone(&p.inner) }
}

/// The backend's vanilla public-parameter record for the window PoSt
/// scheme, as handed to parameter generation and proving. Opaque here; its
/// plain values are modelled by `WindowPostPublicParams`.
#[verifier::external_type_specification]
#[verifier::external_body]
pub struct ExFallbackPublicParams(storage_proofs_post::fallback::PublicParams);

/// The backend's field-element type for commitment roots and encoded
/// randomness. Opaque here; `SafeCommitment` models its canonical bytes.
#[verifier::external_type_specification]
#[verifier::external_body]
pub struct ExPoseidonDomain(filecoin_hashers::poseidon::PoseidonDomain);

/// Relies on the backend's public-parameter record holding exactly the four
/// plain values it is built from.
#[verifier::external_body]
fn to_vanilla_public_params(p: &WindowPostPublicParams) -> (r: fallback::PublicParams) {
    fallback::PublicParams {
        sector_size: p.sector_size,
        challenge_count: p.challenge_count,
        sector_count: p.sector_count,
        api_version: p.api_version,
    }
}

/// Relies on `Domain::try_from_bytes`, which accepts every canonical
/// 32-byte encoding; a `SafeCommitment` holds nothing else.
#[verifier::external_body]
fn to_domain(c: &SafeCommitment) -> (r: filecoin_hashers::poseidon::PoseidonDomain)
    requires
        c.wf(),
{
    Domain::try_from_bytes(&c.as_bytes()).expect("canonical")
}

/// The backend's configuration record. Opaque here; `ProofConfiguration` models its
/// plain values.
#[verifier::external_type_specification]
#[verifier::external_body]
pub struct ExBackendPostConfig(filecoin_proofs::PoStConfig);

/// Relies on the backend's configuration record holding exactly the values
/// it is built from.
#[verifier::external_body]
fn to_post_config(config: &ProofConfiguration) -> (r: filecoin_proofs::PoStConfig) {
    filecoin_proofs::PoStConfig {
        sector_size: filecoin_proofs::SectorSize(config.sector_size),
        challenge_count: config.challenge_count,
        sector_count: config.sector_count,
        typ: match config.typ {
            PoStType::Winning => filecoin_proofs::PoStType::Winning,
            PoStType::Window => filecoin_proofs::PoStType::Window,
        },
        priority: config.priority,
        api_version: config.api_version,
    }
}

/// Relies on `partition_vanilla_proofs`, which composes one partition
/// witness per fixed-capacity chunk of the public sectors, in input order,
/// from the per-sector witnesses matched by sector identifier, and errors
/// rather than compose when the batch does not fit the partition count. The
/// `requires` clauses keep out what the composition and its closing
/// verification cannot handle: a sector with no matching witness, a witness
/// with no sector or inclusion proofs, and a sector size below the circuit
/// family's minimum (the challenge derivation reduces modulo the node
/// count, and the authentication-path layout needs eight nodes).
#[verifier::external_body]
fn backend_partition_witnesses(
    config: &ProofConfiguration,
    pub_params: &WindowPostPublicParams,
    partitions: usize,
    randomness: filecoin_hashers::poseidon::PoseidonDomain,
    prover_id: filecoin_hashers::poseidon::PoseidonDomain,
    pub_sectors: &Vec<PublicSector>,
    witnesses: &VanillaProofSet,
) -> (r: Result<PartitionProofSet, PostError>)
    requires
        config.typ == PoStType::Window,
        pub_params.sector_count >= 1,
        pub_params.sector_size >= MIN_SECTOR_SIZE,
        partitions as int * pub_params.sector_count as int <= usize::MAX as int,
        forall|j: int|
            0 <= j < pub_sectors@.len() ==> vanilla_sector_ids(*witnesses).contains(
                pub_sectors@[j].id,
            ),
        vanilla_all_populated(*witnesses),
    ensures
        r matches Ok(g) ==> partition_proof_count(g) == ceil_div(
            pub_sectors@.len() as int,
            pub_params.sector_count as int,
        ),
        r matches Err(e) ==> e matches PostError::ProvingError(_),
{
    let pi = fallback::PublicInputs::<filecoin_hashers::poseidon::PoseidonDomain> {
        randomness,
        prover_id,
        sectors: pub_sectors.iter().map(
            |s| fallback::PublicSector { id: s.id.into(), comm_r: to_domain(&s.comm_r) },
        ).collect(),
        k: None,
    };
    filecoin_proofs::partition_vanilla_proofs::<SectorShape32GiB>(
        &to_post_config(config), &to_vanilla_public_params(pub_params), &pi, partitions,
        &witnesses.inner,
    ).map(|v| PartitionProofSet { inner: v }).map_err(
        |e| PostError::ProvingError(format!("{}", e)),
    )
}

/// Relies on `FallbackPoStCompound::groth_params`, which obtains the window
/// PoSt circuit's proving key material from the process's parameter store for
/// these public parameters; its outcome depends on that store, so only the
/// error mapping is promised. The sector-size floor keeps out configurations
/// whose blank circuit the backend cannot lay out (its authentication-path
/// length underflows below eight nodes).
#[verifier::external_body]
fn generate_groth_params(pub_params: &WindowPostPublicParams) -> (r: Result<
    ProvingParameters,
    PostError,
>)
    requires
        pub_params.sector_size >= MIN_SECTOR_SIZE,
    ensures
        r matches Err(e) ==> e matches PostError::ParameterGenerationError(_),
{
    let bp = to_vanilla_public_params(pub_params);
    let generated = <FallbackPoStCompound<SectorShape32GiB> as CompoundProof<
        FallbackPoSt<'_, SectorShape32GiB>,
        FallbackPoStCircuit<SectorShape32GiB>,
    >>::groth_params::<OsRng>(None, &bp);
    match generated {
        Ok(p) => Ok(ProvingParameters { inner: std::sync::Arc::new(p) }),
        Err(e) => Err(PostError::ParameterGenerationError(format!("{}", e))),
    }
}

/// The key the parameter cache files a configuration's parameters under:
/// the padded sector size, one key space per proof kind, and only the
/// window kind exists in this layer's cache.
pub open spec fn cache_key(c: ProofConfiguration) -> u64 {
    c.sector_size
}

/// Returns the proving parameters for a window PoSt configuration, keyed by
/// its padded sector size. Fails fast with `UnsupportedConfiguration`, before
/// any generation, when the configuration's proof type is not the window
/// type. On the first use of a key the expensive generator runs; afterwards
/// the memoized object is shared out and nothing is regenerated. A
/// generation failure surfaces as `ParameterGenerationError` and caches
/// nothing.
pub fn get_post_params(
    post_config: &ProofConfiguration,
    cache: &mut ParameterCache<ProvingParameters>,
) -> (r: Result<ProvingParameters, PostError>)
    requires
        old(cache).wf(),
        post_config.wf(),
    ensures
        final(cache).wf(),
        post_config.typ != PoStType::Window ==> (r matches Err(
            PostError::UnsupportedConfiguration,
        )) && *final(cache) == *old(cache),
        post_config.typ == PoStType::Window && old(cache).contains_key(cache_key(*post_config))
            ==> *final(cache) == *old(cache) && (r matches Ok(v) && v == old(cache).value_for(
            cache_key(*post_config))),
        post_config.typ == PoStType::Window ==> (r matches Ok(v) ==> final(cache).contains_key(
            cache_key(*post_config)) && final(cache).value_for(cache_key(*post_config)) == v),
        post_config.typ == PoStType::Window ==> (r matches Err(e) ==> e
            matches PostError::ParameterGenerationError(_) && *final(cache) == *old(cache)),
        forall|k2: u64|
            k2 != cache_key(*post_config) ==> #[trigger] final(cache).contains_key(k2)
                == old(cache).contains_key(k2),
        forall|k2: u64|
            k2 != cache_key(*post_config) && old(cache).contains_key(k2)
                ==> #[trigger] final(cache).value_for(k2) == old(cache).value_for(k2),
{
    if !matches!(post_config.typ, PoStType::Window) {
        return Err(PostError::UnsupportedConfiguration);
    }
    let pub_params = window_post_public_params(post_config);
    let key = post_config.padded_sector_size();
    let generator = || -> (g: Result<ProvingParameters, PostError>)
        ensures
            g matches Err(e) ==> e matches PostError::ParameterGenerationError(_),
        { generate_groth_params(&pub_params) };
    cache.get_or_generate(key, generator)
}

/// Relies on `FallbackPoStCompound::prove_with_vanilla`, which emits one
/// succinct proof per composed partition witness, in order, and fails
/// rather than prove when handed no witnesses or inconsistent ones.
#[verifier::external_body]
fn backend_prove(
    vanilla_params: fallback::PublicParams,
    partitions: Option<usize>,
    priority: bool,
    randomness: filecoin_hashers::poseidon::PoseidonDomain,
    prover_id: filecoin_hashers::poseidon::PoseidonDomain,
    pub_sectors: &Vec<PublicSector>,
    partition_proofs: PartitionProofSet,
    groth_params: &ProvingParameters,
) -> (r: Result<SnarkProofSet, PostError>)
    requires
        partitions matches Some(k) ==> k >= 1,
    ensures
        r matches Ok(p) ==> snark_count(p) == partition_proof_count(partition_proofs)
            && partition_proof_count(partition_proofs) >= 1,
        r matches Err(e) ==> e matches PostError::ProvingError(_),
{
    let pp = storage_proofs_core::compound_proof::PublicParams { vanilla_params, partitions, priority };
    let pub_inputs = fallback::PublicInputs::<filecoin_hashers::poseidon::PoseidonDomain> {
        randomness,
        prover_id,
        sectors: pub_sectors.iter().map(
            |s| fallback::PublicSector { id: s.id.into(), comm_r: to_domain(&s.comm_r) },
        ).collect(),
        k: None,
    };
    FallbackPoStCompound::<SectorShape32GiB>::prove_with_vanilla(
        &pp, &pub_inputs, partition_proofs.inner, &groth_params.inner,
    ).map(|proofs| SnarkProofSet { inner: proofs }).map_err(
        |e| PostError::ProvingError(format!("{}", e)),
    )
}

/// The witnesses list the same sector identifiers as the public sectors, in
/// the same order: the i-th witness belongs to the i-th sector.
pub open spec fn witnesses_match_sectors(v: VanillaProofSet, sectors: Seq<PublicSector>) -> bool {
    vanilla_sector_ids(v) == sectors.map(|i: int, s: PublicSector| s.id)
}

/// Produces the window PoSt proof set for one batch of sectors: encodes the
/// challenge seed and prover identity, plans the partitioning, derives the
/// public parameters, pulls the proving parameters from the cache, composes
/// the per-sector vanilla witnesses into one witness per partition, and
/// hands them to the proving backend, yielding one succinct proof per
/// partition, in partition order.
///
/// The witnesses correspond one to one, by index, with the public sectors:
/// a count mismatch fails with `InconsistentWitnessSet` before any other
/// work, whatever the remaining inputs, and witnesses whose sector
/// identifiers do not line up with the sectors fail the partitioning step
/// with `ProvingError`. A challenge seed or prover identity that does not
/// encode a canonical field element fails with `InvalidCommitment`,
/// labelled `randomness` or `prover_id`; a non-window configuration fails
/// with `UnsupportedConfiguration`; parameter-store and backend failures
/// surface unchanged as `ParameterGenerationError` and `ProvingError`.
pub fn window_post(
    post_config: &ProofConfiguration,
    randomness: &[u8; 32],
    prover_id: [u8; 32],
    pub_sectors: Vec<PublicSector>,
    vanilla_proofs: VanillaProofSet,
    param_cache: &mut ParameterCache<ProvingParameters>,
) -> (r: Result<SnarkProofSet, PostError>)
    requires
        old(param_cache).wf(),
        post_config.wf(),
        pub_sectors@.len() + post_config.sector_count <= usize::MAX,
    ensures
        final(param_cache).wf(),
        (r matches Err(PostError::InconsistentWitnessSet)) <==> vanilla_sector_ids(
            vanilla_proofs,
        ).len() != pub_sectors@.len(),
        r matches Err(PostError::InconsistentWitnessSet) ==> *final(param_cache)
            == *old(param_cache),
        vanilla_sector_ids(vanilla_proofs).len() == pub_sectors@.len() ==> {
            &&& !encode_ok(randomness@) ==> (r matches Err(PostError::InvalidCommitment(l))
                && l@ == "randomness"@) && *final(param_cache) == *old(param_cache)
            &&& encode_ok(randomness@) && !encode_ok(prover_id@) ==> (r matches Err(
                PostError::InvalidCommitment(l),
            ) && l@ == "prover_id"@) && *final(param_cache) == *old(param_cache)
            &&& encode_ok(randomness@) && encode_ok(prover_id@) && !witnesses_match_sectors(
                vanilla_proofs,
                pub_sectors@,
            ) ==> (r matches Err(PostError::ProvingError(_))) && *final(param_cache) == *old(
                param_cache,
            )
            &&& encode_ok(randomness@) && encode_ok(prover_id@) && witnesses_match_sectors(
                vanilla_proofs,
                pub_sectors@,
            ) && post_config.typ != PoStType::Window ==> (r matches Err(
                PostError::UnsupportedConfiguration,
            )) && *final(param_cache) == *old(param_cache)
            &&& encode_ok(randomness@) && encode_ok(prover_id@) && witnesses_match_sectors(
                vanilla_proofs,
                pub_sectors@,
            ) && post_config.typ == PoStType::Window ==> {
                &&& r matches Ok(p) ==> snark_count(p) == spec_partition_count(
                    pub_sectors@.len() as int,
                    post_config.sector_count as int,
                ) && final(param_cache).contains_key(cache_key(*post_config))
                &&& r matches Err(e) ==> (e matches PostError::ParameterGenerationError(_) || e
                    matches PostError::ProvingError(_))
            }
        },
        r matches Ok(p) ==> vanilla_sector_ids(vanilla_proofs).len() == pub_sectors@.len()
            && witnesses_match_sectors(vanilla_proofs, pub_sectors@) && vanilla_all_populated(
            vanilla_proofs,
        ) && encode_ok(randomness@) && encode_ok(prover_id@) && post_config.typ
            == PoStType::Window,
        forall|k2: u64|
            k2 != cache_key(*post_config) ==> #[trigger] final(param_cache).contains_key(k2)
                == old(param_cache).contains_key(k2),
        forall|k2: u64|
            k2 != cache_key(*post_config) && old(param_cache).contains_key(k2)
                ==> #[trigger] final(param_cache).value_for(k2) == old(param_cache).value_for(k2),
{
    let n = pub_sectors.len();
    let witness_ids = vanilla_proofs.witness_sector_ids();
    if witness_ids.len() != n {
        return Err(PostError::InconsistentWitnessSet);
    }

    let randomness_safe = match as_safe_commitment(randomness, "randomness") {
        Ok(c) => c,
        Err(e) => {
            return Err(e);
        },
    };
    let prover_id_safe = match as_safe_commitment(&prover_id, "prover_id") {
        Ok(c) => c,
        Err(e) => {
            return Err(e);
        },
    };

    let ghost sector_id_seq = pub_sectors@.map(|i: int, s: PublicSector| s.id);
    let mut i: usize = 0;
    while i < n
        invariant
            i <= n,
            n == pub_sectors@.len(),
            witness_ids@ == vanilla_sector_ids(vanilla_proofs),
            witness_ids@.len() == n,
            sector_id_seq == pub_sectors@.map(|j: int, s: PublicSector| s.id),
            forall|j: int| 0 <= j < i ==> witness_ids@[j] == pub_sectors@[j].id,
            encode_ok(randomness@),
            encode_ok(prover_id@),
            *param_cache == *old(param_cache),
            old(param_cache).wf(),
        decreases n - i,
    {
        if witness_ids[i] != pub_sectors[i].id {
            proof {
                assert(sector_id_seq[i as int] == pub_sectors@[i as int].id);
                assert(vanilla_sector_ids(vanilla_proofs)[i as int] != sector_id_seq[i as int]);
            }
            return Err(
                PostError::ProvingError(
                    "vanilla proofs do not correspond to the public sectors".to_string(),
                ),
            );
        }
        i = i + 1;
    }
    proof {
        assert(vanilla_sector_ids(vanilla_proofs) =~= sector_id_seq);
    }

    let vanilla_params = window_post_setup_params(post_config);
    let partitions = get_partitions_for_window_post(n, post_config);
    let setup_params = SetupParams {
        vanilla_params,
        partitions,
        priority: post_config.priority,
    };
    let pub_params = compound_setup(&setup_params);
    let groth_params = match get_post_params(post_config, param_cache) {
        Ok(p) => p,
        Err(e) => {
            return Err(e);
        },
    };

    if !vanilla_proofs.all_populated() {
        return Err(
            PostError::ProvingError(
                "a vanilla proof is missing sector or inclusion proofs".to_string(),
            ),
        );
    }

    let partition_count = match partitions {
        Some(k) => k,
        None => 1,
    };
    proof {
        crate::partition::lemma_partition_cover(n as int, post_config.sector_count as int);
        assert forall|j: int|
            0 <= j < pub_sectors@.len() implies vanilla_sector_ids(vanilla_proofs).contains(
            pub_sectors@[j].id,
        ) by {
            assert(vanilla_sector_ids(vanilla_proofs)[j] == sector_id_seq[j]);
            assert(sector_id_seq[j] == pub_sectors@[j].id);
        }
    }
    let rand_domain = to_domain(&randomness_safe);
    let prover_domain = to_domain(&prover_id_safe);
    let grouped = match backend_partition_witnesses(
        post_config,
        &pub_params.vanilla_params,
        partition_count,
        rand_domain,
        prover_domain,
        &pub_sectors,
        &vanilla_proofs,
    ) {
        Ok(g) => g,
        Err(e) => {
            return Err(e);
        },
    };

    backend_prove(
        to_vanilla_public_params(&pub_params.vanilla_params),
        pub_params.partitions,
        pub_params.priority,
        rand_domain,
        prover_domain,
        &pub_sectors,
        grouped,
        &groth_params,
    )
}

} // verus!
