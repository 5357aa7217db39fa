//! The contract test runtime and its deterministic helpers: contract
//! addresses, child-trie ids and dispatch fees.

use vstd::prelude::*;
use vstd::bytes::{
    lemma_auto_spec_u64_to_from_le_bytes, spec_u64_from_le_bytes, spec_u64_to_le_bytes,
    spec_u64_to_le_bytes_to_open, u64_to_le_bytes,
};

verus! {

/// The runtime that the contract tests run against.
#[derive(Clone, Copy, PartialEq, Eq, Debug, Structural)]
pub struct Test;

/// The bytes of `":child_storage:"`, the prefix of every child storage key.
pub open spec fn child_storage_prefix() -> Seq<u8> {
    seq![58u8, 99, 104, 105, 108, 100, 95, 115, 116, 111, 114, 97, 103, 101, 58]
}

/// The bytes of `"default:"`, the name of the default child trie.
pub open spec fn default_trie_marker() -> Seq<u8> {
    seq![100u8, 101, 102, 97, 117, 108, 116, 58]
}

/// The trie id that the generator hands out for `account` when the account
/// counter has just become `seed`: the child storage prefix, `"default:"`,
/// then `seed` and `account` as 8 little-endian bytes each.
pub open spec fn trie_id_for(seed: u64, account: u64) -> Seq<u8> {
    child_storage_prefix() + default_trie_marker() + spec_u64_to_le_bytes(seed) + spec_u64_to_le_bytes(account)
}

/// The account counter after one step: one more, wrapping at `u64::MAX`.
pub open spec fn next_counter(counter: u64) -> u64 {
    if counter == u64::MAX { 0 } else { (counter + 1) as u64 }
}

/// The account counter after `steps` calls of the generator that start
/// from `counter`.
pub open spec fn counter_after(counter: u64, steps: nat) -> u64
    decreases steps,
{
    if steps == 0 {
        counter
    } else {
        next_counter(counter_after(counter, (steps - 1) as nat))
    }
}

/// `sp_storage::well_known_keys::CHILD_STORAGE_KEY_PREFIX`, the constant
/// `b":child_storage:"`: trusted to hold exactly these bytes.
#[verifier::external_body]
fn child_storage_key_prefix() -> (r: &'static [u8])
    ensures
        r@ == child_storage_prefix(),
{
    sp_storage::well_known_keys::CHILD_STORAGE_KEY_PREFIX
}

/// Derives contract addresses.
pub struct DummyContractAddressFor;

impl DummyContractAddressFor {
    /// The address of a contract instantiated by `origin`: the account
    /// that follows `origin`, whatever the code and input data.
    pub fn contract_address_for(code_hash: &[u8; 32], data: &[u8], origin: &u64) -> (r: u64)
        requires
            *origin < u64::MAX,
        ensures
            r == *origin + 1,
    {
        *origin + 1
    }
}

/// Hands out the ids of contracts' child tries.
pub struct DummyTrieIdGenerator;

impl DummyTrieIdGenerator {
    /// Steps the account counter (wrapping at `u64::MAX`) and returns the
    /// trie id for `account_id` under the new counter value.
    pub fn trie_id(account_counter: &mut u64, account_id: &u64) -> (r: Vec<u8>)
        ensures
            *final(account_counter) == next_counter(*old(account_counter)),
            r@ == trie_id_for(*final(account_counter), *account_id),
    {
        *account_counter = account_counter.wrapping_add(1);
        let new_seed = *account_counter;

        let mut res: Vec<u8> = Vec::new();
        res.extend_from_slice(child_storage_key_prefix());
        let marker: [u8; 8] = [100u8, 101, 102, 97, 117, 108, 116, 58];
        res.extend_from_slice(&marker);
        let seed_bytes = u64_to_le_bytes(new_seed);
        res.extend_from_slice(seed_bytes.as_slice());
        let account_bytes = u64_to_le_bytes(*account_id);
        res.extend_from_slice(account_bytes.as_slice());
        assert(marker@ =~= default_trie_marker());
        assert(res@ =~= trie_id_for(new_seed, *account_id));
        res
    }
}

/// Every trie id is 39 bytes long and starts with the child storage
/// prefix, so it is a child storage key.
pub proof fn lemma_trie_id_is_child_storage_key(seed: u64, account: u64)
    ensures
        trie_id_for(seed, account).len() == 39,
        trie_id_for(seed, account).subrange(0, 15) == child_storage_prefix(),
{
    lemma_auto_spec_u64_to_from_le_bytes();
    assert(trie_id_for(seed, account).subrange(0, 15) =~= child_storage_prefix());
}

/// The layout of every trie id, byte by byte: the 15 bytes of
/// `":child_storage:"`, the 8 bytes of `"default:"`, then the new counter
/// and the account, each as 8 bytes that decode little-endian (lowest byte
/// first) to that number.
pub proof fn lemma_trie_id_layout(seed: u64, account: u64)
    ensures
        trie_id_for(seed, account).len() == 39,
        trie_id_for(seed, account).subrange(0, 15) == seq![
            58u8, 99, 104, 105, 108, 100, 95, 115, 116, 111, 114, 97, 103, 101, 58,
        ],
        trie_id_for(seed, account).subrange(15, 23) == seq![100u8, 101, 102, 97, 117, 108, 116, 58],
        spec_u64_from_le_bytes(trie_id_for(seed, account).subrange(23, 31)) == seed,
        spec_u64_from_le_bytes(trie_id_for(seed, account).subrange(31, 39)) == account,
        trie_id_for(seed, account)[23] as int == seed % 256,
        trie_id_for(seed, account)[31] as int == account % 256,
{
    lemma_auto_spec_u64_to_from_le_bytes();
    spec_u64_to_le_bytes_to_open(seed);
    spec_u64_to_le_bytes_to_open(account);
    let t = trie_id_for(seed, account);
    assert(t.subrange(0, 15) =~= seq![
        58u8, 99, 104, 105, 108, 100, 95, 115, 116, 111, 114, 97, 103, 101, 58,
    ]);
    assert(t.subrange(15, 23) =~= seq![100u8, 101, 102, 97, 117, 108, 116, 58]);
    assert(t.subrange(23, 31) =~= spec_u64_to_le_bytes(seed));
    assert(t.subrange(31, 39) =~= spec_u64_to_le_bytes(account));
    assert(t[23] == spec_u64_to_le_bytes(seed)[0]);
    assert(t[31] == spec_u64_to_le_bytes(account)[0]);
    assert(((seed & 0xff) as u8) as int == seed % 256) by (bit_vector);
    assert(((account & 0xff) as u8) as int == account % 256) by (bit_vector);
}

/// Trie ids are unique: two (counter, account) pairs give the same trie id
/// only if they are the same pair.
pub proof fn lemma_trie_id_injective(seed1: u64, account1: u64, seed2: u64, account2: u64)
    requires
        trie_id_for(seed1, account1) == trie_id_for(seed2, account2),
    ensures
        seed1 == seed2,
        account1 == account2,
{
    lemma_auto_spec_u64_to_from_le_bytes();
    let t1 = trie_id_for(seed1, account1);
    let t2 = trie_id_for(seed2, account2);
    assert(t1.subrange(23, 31) =~= spec_u64_to_le_bytes(seed1));
    assert(t2.subrange(23, 31) =~= spec_u64_to_le_bytes(seed2));
    assert(t1.subrange(31, 39) =~= spec_u64_to_le_bytes(account1));
    assert(t2.subrange(31, 39) =~= spec_u64_to_le_bytes(account2));
    assert(spec_u64_from_le_bytes(spec_u64_to_le_bytes(seed1)) == seed1);
    assert(spec_u64_from_le_bytes(spec_u64_to_le_bytes(seed2)) == seed2);
    assert(spec_u64_from_le_bytes(spec_u64_to_le_bytes(account1)) == account1);
    assert(spec_u64_from_le_bytes(spec_u64_to_le_bytes(account2)) == account2);
}

/// Two successive calls of the generator, for any accounts, hand out
/// different trie ids.
pub proof fn lemma_successive_trie_ids_differ(counter: u64, account1: u64, account2: u64)
    ensures
        trie_id_for(next_counter(counter), account1) != trie_id_for(
            next_counter(next_counter(counter)),
            account2,
        ),
{
    if trie_id_for(next_counter(counter), account1) == trie_id_for(
        next_counter(next_counter(counter)),
        account2,
    ) {
        lemma_trie_id_injective(
            next_counter(counter),
            account1,
            next_counter(next_counter(counter)),
            account2,
        );
    }
}

/// After `steps` calls the counter has moved `steps` places forward
/// modulo 2^64.
pub proof fn lemma_counter_after_is_modular(counter: u64, steps: nat)
    ensures
        counter_after(counter, steps) as int == (counter + steps) % 0x1_0000_0000_0000_0000int,
    decreases steps,
{
    let m = 0x1_0000_0000_0000_0000int;
    if steps == 0 {
        vstd::arithmetic::div_mod::lemma_small_mod(counter as nat, m as nat);
    } else {
        let prev = counter_after(counter, (steps - 1) as nat);
        lemma_counter_after_is_modular(counter, (steps - 1) as nat);
        vstd::arithmetic::div_mod::lemma_add_mod_noop(counter + steps - 1, 1, m);
        vstd::arithmetic::div_mod::lemma_small_mod(1, m as nat);
        if prev == u64::MAX {
            vstd::arithmetic::div_mod::lemma_mod_self_0(m);
        } else {
            vstd::arithmetic::div_mod::lemma_small_mod((prev + 1) as nat, m as nat);
        }
    }
}

/// Any run of up to 2^64 successive calls of the generator, for any
/// accounts, hands out pairwise different seeds and pairwise different
/// trie ids: the `i`-th call (counting from 1) seeds its id with
/// `counter_after(counter, i)`.
pub proof fn lemma_successive_trie_ids_pairwise_distinct(counter: u64, accounts: Seq<u64>)
    requires
        accounts.len() <= 0x1_0000_0000_0000_0000int,
    ensures
        forall|i: nat, j: nat|
            1 <= i < j <= accounts.len() ==> #[trigger] counter_after(counter, i)
                != #[trigger] counter_after(counter, j),
        forall|i: int, j: int|
            0 <= i < j < accounts.len() ==> trie_id_for(counter_after(counter, (i + 1) as nat), accounts[i])
                != trie_id_for(counter_after(counter, (j + 1) as nat), accounts[j]),
{
    assert forall|i: nat, j: nat| 1 <= i < j <= accounts.len() implies #[trigger] counter_after(
        counter,
        i,
    ) != #[trigger] counter_after(counter, j) by {
        lemma_counter_after_is_modular(counter, i);
        lemma_counter_after_is_modular(counter, j);
        lemma_distinct_mod(counter + i, counter + j);
    }
    assert forall|i: int, j: int| 0 <= i < j < accounts.len() implies trie_id_for(
        counter_after(counter, (i + 1) as nat),
        accounts[i],
    ) != trie_id_for(counter_after(counter, (j + 1) as nat), accounts[j]) by {
        let ci = counter_after(counter, (i + 1) as nat);
        let cj = counter_after(counter, (j + 1) as nat);
        lemma_counter_after_is_modular(counter, (i + 1) as nat);
        lemma_counter_after_is_modular(counter, (j + 1) as nat);
        lemma_distinct_mod(counter + i + 1, counter + j + 1);
        if trie_id_for(ci, accounts[i]) == trie_id_for(cj, accounts[j]) {
            lemma_trie_id_injective(ci, accounts[i], cj, accounts[j]);
        }
    }
}

/// Two integers less than 2^64 apart, in increasing order, differ modulo
/// 2^64.
proof fn lemma_distinct_mod(a: int, b: int)
    requires
        0 <= a < b,
        b - a < 0x1_0000_0000_0000_0000int,
    ensures
        a % 0x1_0000_0000_0000_0000int != b % 0x1_0000_0000_0000_0000int,
{
    let m = 0x1_0000_0000_0000_0000int;
    vstd::arithmetic::div_mod::lemma_fundamental_div_mod(a, m);
    vstd::arithmetic::div_mod::lemma_fundamental_div_mod(b, m);
    if a % m == b % m {
        let qa = a / m;
        let qb = b / m;
        assert(b - a == m * (qb - qa)) by (nonlinear_arith)
            requires
                a == m * qa + a % m,
                b == m * qb + b % m,
                a % m == b % m,
        ;
        assert(false) by (nonlinear_arith)
            requires
                b - a == m * (qb - qa),
                0 < b - a < m,
                m > 0,
        ;
    }
}

/// Computes the fee of dispatching a call from a contract.
pub struct DummyComputeDispatchFee;

impl DummyComputeDispatchFee {
    /// The dispatch fee: 69, whatever the call.
    pub fn compute_dispatch_fee<C>(call: &C) -> (r: u64)
        ensures
            r == 69,
    {
        69
    }
}

} // verus!
