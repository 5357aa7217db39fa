//! The builder of the contract tests' externalities.

use vstd::prelude::*;

use crate::fees::AssociatedConsts;

verus! {

/// Configuration of a contract test: fees, gas price and block gas limit.
///
/// Its settings are read through its view; only `existential_deposit`
/// changes one of them.
#[derive(Clone, Copy, Debug)]
pub struct ExtBuilder {
    existential_deposit: u64,
    gas_price: u64,
    block_gas_limit: u64,
    transfer_fee: u64,
    instantiation_fee: u64,
}

/// The settings of an `ExtBuilder`.
pub struct ExtBuilderView {
    pub existential_deposit: u64,
    pub gas_price: u64,
    pub block_gas_limit: u64,
    pub transfer_fee: u64,
    pub instantiation_fee: u64,
}

impl View for ExtBuilder {
    type V = ExtBuilderView;

    closed spec fn view(&self) -> ExtBuilderView {
        ExtBuilderView {
            existential_deposit: self.existential_deposit,
            gas_price: self.gas_price,
            block_gas_limit: self.block_gas_limit,
            transfer_fee: self.transfer_fee,
            instantiation_fee: self.instantiation_fee,
        }
    }
}

/// What the genesis storage of a contract test holds, as plain values:
/// the balances pallet's accounts and vesting schedules, and the contracts
/// pallet's gas price and schedule flag.
#[derive(Clone, PartialEq, Eq, Debug)]
pub struct GenesisSpec {
    /// Balances of the accounts at genesis: (account, balance).
    pub balances: Vec<(u64, u64)>,
    /// Vesting schedules at genesis: (account, begin, length).
    pub vesting: Vec<(u64, u64, u64)>,
    /// The gas price of the contracts pallet.
    pub gas_price: u64,
    /// Whether contracts may print (the one field of the schedule that
    /// differs from its default).
    pub enable_println: bool,
}

impl ExtBuilder {
    /// The fee values that `set_associated_consts` writes for this builder.
    pub open spec fn associated_consts(self) -> AssociatedConsts {
        AssociatedConsts {
            existential_deposit: self@.existential_deposit,
            transfer_fee: self@.transfer_fee,
            instantiation_fee: self@.instantiation_fee,
            block_gas_limit: self@.block_gas_limit,
        }
    }

    /// Sets the existential deposit and keeps every other setting.
    pub fn existential_deposit(self, existential_deposit: u64) -> (r: Self)
        ensures
            r@ == (ExtBuilderView { existential_deposit, ..self@ }),
    {
        let mut b = self;
        b.existential_deposit = existential_deposit;
        b
    }

    /// Writes this builder's existential deposit, transfer fee,
    /// instantiation fee and block gas limit to the values that the
    /// runtime's getters read, replacing what was there.
    pub fn set_associated_consts(&self, consts: &mut AssociatedConsts)
        ensures
            *final(consts) == self.associated_consts(),
    {
        consts.existential_deposit = self.existential_deposit;
        consts.transfer_fee = self.transfer_fee;
        consts.instantiation_fee = self.instantiation_fee;
        consts.block_gas_limit = self.block_gas_limit;
    }

    /// Sets the associated constants and returns the genesis storage of
    /// the test: no balances, no vesting, this builder's gas price and a
    /// schedule that lets contracts print.
    pub fn build(self, consts: &mut AssociatedConsts) -> (r: GenesisSpec)
        ensures
            *final(consts) == self.associated_consts(),
            r.balances@ == Seq::<(u64, u64)>::empty(),
            r.vesting@ == Seq::<(u64, u64, u64)>::empty(),
            r.gas_price == self@.gas_price,
            r.enable_println,
    {
        self.set_associated_consts(consts);
        GenesisSpec { balances: Vec::new(), vesting: Vec::new(), gas_price: self.gas_price, enable_println: true }
    }
}

impl Default for ExtBuilder {
    /// No deposit or fees, a gas price of 2 and a block gas limit of
    /// 100 000 000.
    fn default() -> (r: Self)
        ensures
            r@ == (ExtBuilderView {
                existential_deposit: 0,
                gas_price: 2,
                block_gas_limit: 100_000_000,
                transfer_fee: 0,
                instantiation_fee: 0,
            }),
    {
        ExtBuilder {
            existential_deposit: 0,
            gas_price: 2,
            block_gas_limit: 100_000_000,
            transfer_fee: 0,
            instantiation_fee: 0,
        }
    }
}

/// After a builder has set the associated constants, each getter reads
/// back the builder's own setting: the existential deposit, the transfer
/// fee, the instantiation fee (through `CreationFee`) and the block gas
/// limit.
pub proof fn lemma_getters_read_back_builder(b: ExtBuilder, consts: AssociatedConsts)
    requires
        consts == b.associated_consts(),
    ensures
        consts.existential_deposit == b@.existential_deposit,
        consts.transfer_fee == b@.transfer_fee,
        consts.instantiation_fee == b@.instantiation_fee,
        consts.block_gas_limit == b@.block_gas_limit,
{
}

} // verus!
