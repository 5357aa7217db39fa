//! The fee parameters that a test sets before it builds its externalities,
//! and the getters through which the runtime reads them back.

use vstd::prelude::*;

verus! {

/// The values that the runtime's fee getters read: existential deposit,
/// transfer fee, instantiation fee and block gas limit.
///
/// A test writes them all at once (see `ExtBuilder::set_associated_consts`);
/// before that, each of them is 0.
#[derive(Clone, Copy, PartialEq, Eq, Debug, Structural)]
pub struct AssociatedConsts {
    pub existential_deposit: u64,
    pub transfer_fee: u64,
    pub instantiation_fee: u64,
    pub block_gas_limit: u64,
}

impl AssociatedConsts {
    /// The values before any test has set them: all zero.
    pub fn new() -> (r: Self)
        ensures
            r.existential_deposit == 0,
            r.transfer_fee == 0,
            r.instantiation_fee == 0,
            r.block_gas_limit == 0,
    {
        AssociatedConsts { existential_deposit: 0, transfer_fee: 0, instantiation_fee: 0, block_gas_limit: 0 }
    }
}

/// The existential deposit of the balances pallet.
pub struct ExistentialDeposit;

impl ExistentialDeposit {
    /// Reads the existential deposit that was last set.
    pub fn get(consts: &AssociatedConsts) -> (r: u64)
        ensures
            r == consts.existential_deposit,
    {
        consts.existential_deposit
    }
}

/// The fee of a balance transfer.
pub struct TransferFee;

impl TransferFee {
    /// Reads the transfer fee that was last set.
    pub fn get(consts: &AssociatedConsts) -> (r: u64)
        ensures
            r == consts.transfer_fee,
    {
        consts.transfer_fee
    }
}

/// The fee of creating an account or instantiating a contract.
pub struct CreationFee;

impl CreationFee {
    /// Reads the instantiation fee that was last set.
    pub fn get(consts: &AssociatedConsts) -> (r: u64)
        ensures
            r == consts.instantiation_fee,
    {
        consts.instantiation_fee
    }
}

/// The gas limit of a block.
pub struct BlockGasLimit;

impl BlockGasLimit {
    /// Reads the block gas limit that was last set.
    pub fn get(consts: &AssociatedConsts) -> (r: u64)
        ensures
            r == consts.block_gas_limit,
    {
        consts.block_gas_limit
    }
}

} // verus!
