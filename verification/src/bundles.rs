//! The system-contract bundles: three immutable pairings of a
//! mode-specific bootloader program with a default-account program, built
//! once at startup from a chosen bytecode source and selected per
//! execution intent. Each program carries a deterministic content digest
//! as its code identity.

use vstd::prelude::*;

use crate::bytes::copy_bytes;

verus! {

/// Where the bytecode artifacts come from.
pub enum Options {
    /// The compiled-in contracts.
    BuiltIn,
    /// Contracts loaded at runtime from the configured location.
    Local,
    /// The compiled-in contracts with the non-signature-checking
    /// default account; reserved for test harnesses.
    BuiltInWithoutSecurity,
}

/// The content digest of a bytecode blob. The digest is a function of the
/// bytes alone.
pub uninterp spec fn code_digest(bytes: Seq<u8>) -> Seq<u8>;

/// Relies on `sha2::Sha256::digest`: a deterministic 32-byte digest
/// computed from the input bytes alone.
#[verifier::external_body]
fn sha256_digest(code: &Vec<u8>) -> (r: [u8; 32])
    ensures
        r@ == code_digest(code@),
{
    let digest = <sha2::Sha256 as sha2::Digest>::digest(code.as_slice());
    digest.into()
}

/// One program: its bytecode and the content digest serving as its code
/// identity.
pub struct SystemContractCode {
    pub code: Vec<u8>,
    pub hash: [u8; 32],
}

/// A code value whose identity is the digest of its bytecode.
pub open spec fn code_wf(c: SystemContractCode) -> bool {
    c.hash@ == code_digest(c.code@)
}

/// One immutable bundle: a bootloader program paired with a
/// default-account program.
pub struct ContractBundle {
    pub bootloader: SystemContractCode,
    pub default_aa: SystemContractCode,
}

/// Both programs of the bundle carry their digest as identity.
pub open spec fn bundle_wf(b: ContractBundle) -> bool {
    code_wf(b.bootloader) && code_wf(b.default_aa)
}

/// Wraps a bytecode blob with its content digest.
fn make_code(code: Vec<u8>) -> (r: SystemContractCode)
    ensures
        r.code@ == code@,
        code_wf(r),
{
    let hash = sha256_digest(&code);
    SystemContractCode { code, hash }
}

/// Builds one bundle from a bootloader blob and a default-account blob,
/// hashing both.
pub fn build_bundle(bootloader_bytecode: Vec<u8>, default_account_bytecode: Vec<u8>) -> (r:
    ContractBundle)
    ensures
        r.bootloader.code@ == bootloader_bytecode@,
        r.default_aa.code@ == default_account_bytecode@,
        bundle_wf(r),
{
    ContractBundle {
        bootloader: make_code(bootloader_bytecode),
        default_aa: make_code(default_account_bytecode),
    }
}

/// The bytecode blobs the three bundles are built from, as loaded by the
/// caller for the chosen source.
pub struct BytecodeArtifacts {
    pub baseline_bootloader: Vec<u8>,
    pub playground_bootloader: Vec<u8>,
    pub fee_estimate_bootloader: Vec<u8>,
    pub default_account: Vec<u8>,
    pub default_account_no_security: Vec<u8>,
}

/// The default-account program for a source: the security-checking
/// variant unless the source asks for the non-checking one.
pub open spec fn chosen_default_account(options: Options, a: BytecodeArtifacts) -> Seq<u8> {
    match options {
        Options::BuiltInWithoutSecurity => a.default_account_no_security@,
        _ => a.default_account@,
    }
}

/// Copies the default-account blob chosen for the source.
fn pick_default_account(options: &Options, artifacts: &BytecodeArtifacts) -> (r: Vec<u8>)
    ensures
        r@ == chosen_default_account(*options, *artifacts),
{
    match options {
        Options::BuiltInWithoutSecurity => copy_bytes(artifacts.default_account_no_security.as_slice()),
        _ => copy_bytes(artifacts.default_account.as_slice()),
    }
}

/// The bundle used for read-only calls.
pub fn playground(options: &Options, artifacts: &BytecodeArtifacts) -> (r: ContractBundle)
    ensures
        r.bootloader.code@ == artifacts.playground_bootloader@,
        r.default_aa.code@ == chosen_default_account(*options, *artifacts),
        bundle_wf(r),
{
    build_bundle(copy_bytes(artifacts.playground_bootloader.as_slice()), pick_default_account(
        options,
        artifacts,
    ))
}

/// The bundle used for fee estimation.
pub fn fee_estimate_contracts(options: &Options, artifacts: &BytecodeArtifacts) -> (r:
    ContractBundle)
    ensures
        r.bootloader.code@ == artifacts.fee_estimate_bootloader@,
        r.default_aa.code@ == chosen_default_account(*options, *artifacts),
        bundle_wf(r),
{
    build_bundle(copy_bytes(artifacts.fee_estimate_bootloader.as_slice()), pick_default_account(
        options,
        artifacts,
    ))
}

/// The bundle used to verify and execute transactions.
pub fn baseline_contracts(options: &Options, artifacts: &BytecodeArtifacts) -> (r: ContractBundle)
    ensures
        r.bootloader.code@ == artifacts.baseline_bootloader@,
        r.default_aa.code@ == chosen_default_account(*options, *artifacts),
        bundle_wf(r),
{
    build_bundle(copy_bytes(artifacts.baseline_bootloader.as_slice()), pick_default_account(
        options,
        artifacts,
    ))
}

/// The purpose a transaction is simulated under.
pub enum ExecutionMode {
    /// Verify and execute: all checks apply.
    VerifyExecute,
    /// Fee estimation: signatures are not checked.
    EstimateFee { missed_storage_invocation_limit: usize },
    /// Read-only call: signatures are not checked, fixed gas limit.
    EthCall { missed_storage_invocation_limit: usize },
}

/// The three bundles held by the node, built once and selected per
/// execution intent.
pub struct SystemContracts {
    pub baseline_contracts: ContractBundle,
    pub playground_contracts: ContractBundle,
    pub fee_estimate_contracts: ContractBundle,
}

/// All three bundles carry their digests as identity.
pub open spec fn contracts_wf(s: SystemContracts) -> bool {
    bundle_wf(s.baseline_contracts) && bundle_wf(s.playground_contracts) && bundle_wf(
        s.fee_estimate_contracts,
    )
}

impl SystemContracts {
    /// Builds the three bundles from the artifacts loaded for the chosen
    /// source.
    pub fn from_options(options: &Options, artifacts: &BytecodeArtifacts) -> (r: SystemContracts)
        ensures
            r.baseline_contracts.bootloader.code@ == artifacts.baseline_bootloader@,
            r.playground_contracts.bootloader.code@ == artifacts.playground_bootloader@,
            r.fee_estimate_contracts.bootloader.code@ == artifacts.fee_estimate_bootloader@,
            r.baseline_contracts.default_aa.code@ == chosen_default_account(*options, *artifacts),
            r.playground_contracts.default_aa.code@ == chosen_default_account(
                *options,
                *artifacts,
            ),
            r.fee_estimate_contracts.default_aa.code@ == chosen_default_account(
                *options,
                *artifacts,
            ),
            contracts_wf(r),
    {
        SystemContracts {
            baseline_contracts: baseline_contracts(options, artifacts),
            playground_contracts: playground(options, artifacts),
            fee_estimate_contracts: fee_estimate_contracts(options, artifacts),
        }
    }

    /// Selects the bundle for an execution intent: pure and total.
    pub fn contracts(&self, execution_mode: ExecutionMode) -> (r: &ContractBundle)
        ensures
            *r == match execution_mode {
                ExecutionMode::VerifyExecute => self.baseline_contracts,
                ExecutionMode::EstimateFee { .. } => self.fee_estimate_contracts,
                ExecutionMode::EthCall { .. } => self.playground_contracts,
            },
    {
        match execution_mode {
            ExecutionMode::VerifyExecute => &self.baseline_contracts,
            ExecutionMode::EstimateFee { .. } => &self.fee_estimate_contracts,
            ExecutionMode::EthCall { .. } => &self.playground_contracts,
        }
    }

    /// The bundle for read-only calls.
    pub fn contacts_for_l2_call(&self) -> (r: &ContractBundle)
        ensures
            *r == self.playground_contracts,
    {
        self.contracts(ExecutionMode::EthCall { missed_storage_invocation_limit: 1 })
    }

    /// The bundle for fee estimation.
    pub fn contracts_for_fee_estimate(&self) -> (r: &ContractBundle)
        ensures
            *r == self.fee_estimate_contracts,
    {
        self.contracts(ExecutionMode::EstimateFee { missed_storage_invocation_limit: 1 })
    }
}

/// Identical bytecode bytes yield identical code identities: the digest is
/// a function of the bytes, so two well-formed bundles built over the same
/// blobs carry the same hashes.
pub proof fn lemma_identical_code_identical_identity(b1: ContractBundle, b2: ContractBundle)
    requires
        bundle_wf(b1),
        bundle_wf(b2),
        b1.bootloader.code@ == b2.bootloader.code@,
        b1.default_aa.code@ == b2.default_aa.code@,
    ensures
        b1.bootloader.hash@ == b2.bootloader.hash@,
        b1.default_aa.hash@ == b2.default_aa.hash@,
{
}

} // verus!
