use runtime_mocks::code_hash::module_with_code_hash;
use runtime_mocks::contracts_mock::{
    DummyComputeDispatchFee, DummyContractAddressFor, DummyTrieIdGenerator, Test,
};
use runtime_mocks::doughnut::{MockDispatchVerifier, MockDoughnut};
use runtime_mocks::ext_builder::ExtBuilder;
use runtime_mocks::fees::{AssociatedConsts, BlockGasLimit, CreationFee, ExistentialDeposit, TransferFee};
use runtime_mocks::params;
use runtime_mocks::aura_mock::new_test_ext;
use runtime_mocks::runtime_interface::{runtime_interface_module, ModuleItem};

const UNVERIFIABLE: &str =
    "Doughnut contract to contract call verification is not implemented for this domain";

#[test]
fn ext_builder_default_values() {
    let mut c = AssociatedConsts::new();
    let g = ExtBuilder::default().build(&mut c);
    assert_eq!(ExistentialDeposit::get(&c), 0);
    assert_eq!(TransferFee::get(&c), 0);
    assert_eq!(CreationFee::get(&c), 0);
    assert_eq!(BlockGasLimit::get(&c), 100_000_000);
    assert_eq!(g.gas_price, 2);
}

#[test]
fn existential_deposit_sets_only_that_field() {
    let mut c = AssociatedConsts::new();
    let g = ExtBuilder::default().existential_deposit(50).build(&mut c);
    assert_eq!(ExistentialDeposit::get(&c), 50);
    assert_eq!(TransferFee::get(&c), 0);
    assert_eq!(CreationFee::get(&c), 0);
    assert_eq!(BlockGasLimit::get(&c), 100_000_000);
    assert_eq!(g.gas_price, 2);
}

#[test]
fn associated_consts_start_at_zero() {
    let c = AssociatedConsts::new();
    assert_eq!(ExistentialDeposit::get(&c), 0);
    assert_eq!(TransferFee::get(&c), 0);
    assert_eq!(CreationFee::get(&c), 0);
    assert_eq!(BlockGasLimit::get(&c), 0);
}

#[test]
fn getters_read_back_what_the_builder_set() {
    let b = ExtBuilder::default().existential_deposit(50);
    let mut c = AssociatedConsts {
        existential_deposit: 9,
        transfer_fee: 8,
        instantiation_fee: 7,
        block_gas_limit: 6,
    };
    b.set_associated_consts(&mut c);
    assert_eq!(ExistentialDeposit::get(&c), 50);
    assert_eq!(TransferFee::get(&c), 0);
    assert_eq!(CreationFee::get(&c), 0);
    assert_eq!(BlockGasLimit::get(&c), 100_000_000);
}

#[test]
fn setting_again_replaces_earlier_values() {
    let mut c = AssociatedConsts::new();
    ExtBuilder::default().existential_deposit(50).set_associated_consts(&mut c);
    ExtBuilder::default().set_associated_consts(&mut c);
    assert_eq!(ExistentialDeposit::get(&c), 0);
}

#[test]
fn build_sets_consts_and_returns_genesis() {
    let mut c = AssociatedConsts::new();
    let g = ExtBuilder::default().existential_deposit(50).build(&mut c);
    assert_eq!(ExistentialDeposit::get(&c), 50);
    assert_eq!(BlockGasLimit::get(&c), 100_000_000);
    assert!(g.balances.is_empty());
    assert!(g.vesting.is_empty());
    assert_eq!(g.gas_price, 2);
    assert!(g.enable_println);
}

#[test]
fn mock_doughnut_accessors() {
    let d = MockDoughnut::new(true);
    assert!(d.verifiable);
    assert!(!MockDoughnut::new(false).verifiable);
    assert_eq!(d.holder(), [0u8; 32]);
    assert_eq!(d.issuer(), [0u8; 32]);
    assert_eq!(d.expiry(), 0);
    assert_eq!(d.not_before(), 0);
    assert!(d.payload().is_empty());
    assert_eq!(d.signature(), ());
    assert_eq!(d.signature_version(), 0);
    assert_eq!(d.get_domain("contracts"), None);
    assert_eq!(d.get_domain(MockDispatchVerifier::DOMAIN), None);
}

#[test]
fn contract_call_verifies_with_verifiable_doughnut() {
    let d = MockDoughnut::new(true);
    assert_eq!(
        MockDispatchVerifier::verify_contract_to_contract_call(&params::ALICE, &d, &params::BOB),
        Ok(())
    );
}

#[test]
fn contract_call_refused_with_unverifiable_doughnut() {
    let d = MockDoughnut::new(false);
    assert_eq!(
        MockDispatchVerifier::verify_contract_to_contract_call(&params::ALICE, &d, &params::BOB),
        Err(UNVERIFIABLE)
    );
}

#[test]
fn dispatch_and_runtime_calls_always_verify() {
    for v in [true, false] {
        let d = MockDoughnut::new(v);
        assert_eq!(MockDispatchVerifier::verify_dispatch(&d, "balances", "transfer"), Ok(()));
        assert_eq!(
            MockDispatchVerifier::verify_runtime_to_contract_call(&params::ALICE, &d, &params::BOB),
            Ok(())
        );
    }
    assert_eq!(MockDispatchVerifier::DOMAIN, "");
}

#[test]
fn contract_address_is_next_account() {
    assert_eq!(DummyContractAddressFor::contract_address_for(&[0u8; 32], &[], &params::ALICE), 2);
    assert_eq!(DummyContractAddressFor::contract_address_for(&[7u8; 32], &[1, 2, 3], &41), 42);
}

#[test]
fn trie_id_layout() {
    let mut counter = 0u64;
    let id = DummyTrieIdGenerator::trie_id(&mut counter, &0x0102_0304_0506_0708);
    assert_eq!(counter, 1);
    let mut expected = b":child_storage:default:".to_vec();
    expected.extend_from_slice(&[1, 0, 0, 0, 0, 0, 0, 0]);
    expected.extend_from_slice(&[8, 7, 6, 5, 4, 3, 2, 1]);
    assert_eq!(id, expected);
    assert_eq!(id.len(), 39);
}

#[test]
fn trie_id_counter_wraps() {
    let mut counter = u64::MAX;
    let id = DummyTrieIdGenerator::trie_id(&mut counter, &params::BOB);
    assert_eq!(counter, 0);
    assert_eq!(&id[23..31], &[0u8; 8]);
    assert_eq!(&id[31..39], &[2, 0, 0, 0, 0, 0, 0, 0]);
}

#[test]
fn successive_trie_ids_differ() {
    let mut counter = 41u64;
    let a = DummyTrieIdGenerator::trie_id(&mut counter, &params::ALICE);
    let b = DummyTrieIdGenerator::trie_id(&mut counter, &params::ALICE);
    assert_eq!(counter, 43);
    assert_ne!(a, b);
    assert!(a.starts_with(b":child_storage:"));
    assert!(b.starts_with(b":child_storage:"));
}

#[test]
fn many_successive_trie_ids_are_pairwise_distinct() {
    let mut counter = u64::MAX - 3;
    let mut ids = Vec::new();
    for account in [1u64, 1, 2, 1, 2, 3, 1] {
        ids.push(DummyTrieIdGenerator::trie_id(&mut counter, &account));
    }
    assert_eq!(counter, 3);
    for i in 0..ids.len() {
        for j in (i + 1)..ids.len() {
            assert_ne!(ids[i], ids[j]);
        }
    }
}

#[test]
fn dispatch_fee_is_constant() {
    assert_eq!(DummyComputeDispatchFee::compute_dispatch_fee(&()), 69);
    assert_eq!(DummyComputeDispatchFee::compute_dispatch_fee(&"call"), 69);
}

#[test]
fn code_hash_is_blake2_256() {
    let (code, hash) = module_with_code_hash(Vec::new());
    assert!(code.is_empty());
    let expected: [u8; 32] = [
        0x0e, 0x57, 0x51, 0xc0, 0x26, 0xe5, 0x43, 0xb2, 0xe8, 0xab, 0x2e, 0xb0, 0x60, 0x99, 0xda,
        0xa1, 0xd1, 0xe5, 0xdf, 0x47, 0x77, 0x8f, 0x77, 0x87, 0xfa, 0xab, 0x45, 0xcd, 0xf1, 0x2f,
        0xe3, 0xa8,
    ];
    assert_eq!(hash, expected);
}

#[test]
fn code_hash_keeps_module_bytes() {
    let wasm = vec![0x00, 0x61, 0x73, 0x6d, 0x01, 0x00, 0x00, 0x00];
    let (code, hash) = module_with_code_hash(wasm.clone());
    assert_eq!(code, wasm);
    let (_, again) = module_with_code_hash(wasm.clone());
    assert_eq!(hash, again);
    let (_, other) = module_with_code_hash(vec![0x00, 0x61, 0x73, 0x6d, 0x02, 0x00, 0x00, 0x00]);
    assert_ne!(hash, other);
}

#[test]
fn runtimes_compare_equal() {
    assert_eq!(Test, Test.clone());
    assert_eq!(runtime_mocks::aura_mock::Test, runtime_mocks::aura_mock::Test);
}

#[test]
fn runtime_parameters() {
    assert_eq!(params::BLOCK_HASH_COUNT, 250);
    assert_eq!(params::MAXIMUM_BLOCK_WEIGHT, 1024);
    assert_eq!(params::MAXIMUM_BLOCK_LENGTH, 2 * 1024);
    assert_eq!(params::MINIMUM_PERIOD, 1);
    assert_eq!(params::MAX_VALUE_SIZE, 16_384);
    assert_eq!(params::ALICE, 1);
    assert_eq!(params::BOB, 2);
}

#[test]
fn aura_genesis_keeps_authorities_in_order() {
    let g = new_test_ext(vec![3, 1, 3, 2]);
    assert_eq!(g.authorities, vec![3, 1, 3, 2]);
    assert!(new_test_ext(Vec::new()).authorities.is_empty());
}

#[test]
fn runtime_interface_module_is_named_in_snake_case() {
    let m = runtime_interface_module::<&str, &str>(
        "TestApiInterface",
        "pub",
        vec!["#[doc]"],
        Ok("bare"),
        "include",
        Ok("decl"),
        Ok("host"),
    )
    .unwrap();
    assert_eq!(m.mod_name, "test_api_interface");
    assert_eq!(m.vis, "pub");
    assert_eq!(m.attrs, vec!["#[doc]"]);
    assert_eq!(m.items.len(), 5);
    assert!(matches!(m.items[0], ModuleItem::UseSuperGlob));
    assert!(matches!(m.items[1], ModuleItem::Generated("include")));
    assert!(matches!(m.items[2], ModuleItem::Generated("bare")));
    assert!(matches!(m.items[3], ModuleItem::Generated("decl")));
    assert!(matches!(m.items[4], ModuleItem::Generated("host")));
    let m = runtime_interface_module::<&str, &str>(
        "Crypto", "", Vec::new(), Ok("b"), "i", Ok("d"), Ok("h"),
    )
    .unwrap();
    assert_eq!(m.mod_name, "crypto");
}

#[test]
fn runtime_interface_module_reports_first_error() {
    let r = runtime_interface_module::<&str, &str>(
        "Io", "", Vec::new(), Err("bare"), "i", Err("decl"), Err("host"),
    );
    assert!(matches!(r, Err("bare")));
    let r = runtime_interface_module::<&str, &str>(
        "Io", "", Vec::new(), Ok("b"), "i", Err("decl"), Err("host"),
    );
    assert!(matches!(r, Err("decl")));
    let r = runtime_interface_module::<&str, &str>(
        "Io", "", Vec::new(), Ok("b"), "i", Ok("d"), Err("host"),
    );
    assert!(matches!(r, Err("host")));
}
