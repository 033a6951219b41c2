use sha2::Digest;
use trace_fmt::bundles::{BytecodeArtifacts, ExecutionMode, Options, SystemContracts};

fn artifacts() -> BytecodeArtifacts {
    BytecodeArtifacts {
        baseline_bootloader: vec![1, 1, 1],
        playground_bootloader: vec![2, 2, 2],
        fee_estimate_bootloader: vec![3, 3, 3],
        default_account: vec![4, 4, 4],
        default_account_no_security: vec![5, 5, 5],
    }
}

#[test]
fn select_is_pure_and_total() {
    let contracts = SystemContracts::from_options(&Options::BuiltIn, &artifacts());
    // Whatever the order and repetition of calls, each intent maps to its
    // own bundle.
    for _ in 0..2 {
        let eth_call = contracts.contracts(ExecutionMode::EthCall {
            missed_storage_invocation_limit: 1,
        });
        assert_eq!(eth_call.bootloader.code, vec![2, 2, 2]);
        let verify = contracts.contracts(ExecutionMode::VerifyExecute);
        assert_eq!(verify.bootloader.code, vec![1, 1, 1]);
        let fee = contracts.contracts(ExecutionMode::EstimateFee {
            missed_storage_invocation_limit: 1,
        });
        assert_eq!(fee.bootloader.code, vec![3, 3, 3]);
    }
    assert_eq!(contracts.contacts_for_l2_call().bootloader.code, vec![2, 2, 2]);
    assert_eq!(contracts.contracts_for_fee_estimate().bootloader.code, vec![3, 3, 3]);
}

#[test]
fn security_variant_choice_follows_the_source() {
    let with_security = SystemContracts::from_options(&Options::BuiltIn, &artifacts());
    assert_eq!(with_security.baseline_contracts.default_aa.code, vec![4, 4, 4]);
    let local = SystemContracts::from_options(&Options::Local, &artifacts());
    assert_eq!(local.baseline_contracts.default_aa.code, vec![4, 4, 4]);
    let without = SystemContracts::from_options(&Options::BuiltInWithoutSecurity, &artifacts());
    assert_eq!(without.baseline_contracts.default_aa.code, vec![5, 5, 5]);
    assert_eq!(without.playground_contracts.default_aa.code, vec![5, 5, 5]);
    assert_eq!(without.fee_estimate_contracts.default_aa.code, vec![5, 5, 5]);
}

#[test]
fn identical_bytecode_yields_identical_hash_and_a_changed_byte_differs() {
    let a = SystemContracts::from_options(&Options::BuiltIn, &artifacts());
    let b = SystemContracts::from_options(&Options::BuiltIn, &artifacts());
    assert_eq!(
        a.baseline_contracts.bootloader.hash,
        b.baseline_contracts.bootloader.hash
    );
    let mut changed = artifacts();
    changed.baseline_bootloader[0] = 9;
    let c = SystemContracts::from_options(&Options::BuiltIn, &changed);
    assert_ne!(
        a.baseline_contracts.bootloader.hash,
        c.baseline_contracts.bootloader.hash
    );
    // The same bundle's two programs differ too.
    assert_ne!(
        a.baseline_contracts.bootloader.hash,
        a.baseline_contracts.default_aa.hash
    );
}

#[test]
fn code_identity_is_the_content_digest_of_the_bytes() {
    let contracts = SystemContracts::from_options(&Options::BuiltIn, &artifacts());
    let expected: [u8; 32] = sha2::Sha256::digest(&[1u8, 1, 1]).into();
    assert_eq!(contracts.baseline_contracts.bootloader.hash, expected);
}
