//! What a layer-2 transaction is expected to cost its sender: the value it
//! moves plus the fee it pays, by the kind of contract it calls.

use vstd::prelude::*;
use bytes::Bytes;
use crate::buffer::{as_slice, contents};
use crate::le::{le_value, read_u128_le, read_u64_le};

verus! {

/// The account that holds the native token.
pub const CKB_SUDT_ACCOUNT_ID: u32 = 1;

/// The least length of the arguments of a Polyjuice call.
pub const POLYJUICE_ARGS_MIN_LEN: usize = 52;

/// The bytes with which the arguments of a Polyjuice call begin.
pub open spec fn polyjuice_magic() -> Seq<u8> {
    seq![0xffu8, 0xffu8, 0xffu8, 0x50u8, 0x4fu8, 0x4cu8, 0x59u8]
}

/// The kind of contract that a transaction calls.
#[derive(Clone, Copy, Debug, PartialEq, Eq)]
pub enum AllowedContractType {
    EthAddrReg,
    Meta,
    Sudt,
    Polyjuice,
    Unknown,
}

/// What is wrong with the account that a transaction calls.
#[derive(Clone, Copy, Debug, PartialEq, Eq)]
pub enum AccountError {
    UnknownScript,
}

/// Why a transaction is refused.
#[derive(Clone, Copy, Debug, PartialEq, Eq)]
pub enum TransactionValidateError {
    Account(AccountError),
}

/// The arguments of a call to the address registry.
#[derive(Clone, Copy, Debug, PartialEq, Eq)]
pub enum EthAddrRegArgs {
    EthToGw,
    GwToEth,
    SetMapping { fee: u64 },
    BatchSetMapping { fee: u64 },
}

/// The arguments of a call to the meta contract.
#[derive(Clone, Copy, Debug, PartialEq, Eq)]
pub enum MetaContractArgs {
    CreateAccount { fee: u64 },
}

/// The arguments of a call to a simple-UDT contract.
#[derive(Clone, Copy, Debug, PartialEq, Eq)]
pub enum SudtArgs {
    Query,
    Transfer { amount: u128, fee: u64 },
}

/// Arguments as decoded under the schema of one of the built-in contracts.
#[derive(Clone, Copy, Debug, PartialEq, Eq)]
pub enum DecodedArgs {
    EthAddrReg(EthAddrRegArgs),
    Meta(MetaContractArgs),
    Sudt(SudtArgs),
}

/// What the cost model reads of a layer-2 transaction.
#[derive(Debug, PartialEq, Eq)]
pub struct L2Transaction {
    /// The account that the transaction calls.
    pub to_id: u32,
    /// The arguments as they were sent.
    pub args: Bytes,
    /// The arguments as decoded under the schema of the contract called; `None`
    /// where the contract has no schema or the bytes do not fit it.
    pub decoded: Option<DecodedArgs>,
}

/// A call to the address registry.
pub struct EthAddrRegTx(pub L2Transaction);

/// A call to the meta contract.
pub struct MetaTx(pub L2Transaction);

/// A call to a simple-UDT contract.
pub struct SimpleUDTTx(pub L2Transaction);

/// A call to Polyjuice.
pub struct PolyjuiceTx(pub L2Transaction);

/// A transaction together with the kind of contract it calls.
pub enum TypedTransaction {
    EthAddrReg(EthAddrRegTx),
    Meta(MetaTx),
    SimpleUDT(SimpleUDTTx),
    Polyjuice(PolyjuiceTx),
}

/// The cost of a call to the address registry: the fee of a mapping that is set;
/// nothing for a lookup or for arguments that are not the registry's.
pub open spec fn eth_addr_reg_cost(decoded: Option<DecodedArgs>) -> Option<u64> {
    match decoded {
        Some(DecodedArgs::EthAddrReg(EthAddrRegArgs::SetMapping { fee })) => Some(fee),
        Some(DecodedArgs::EthAddrReg(EthAddrRegArgs::BatchSetMapping { fee })) => Some(fee),
        _ => None,
    }
}

/// The cost of a call to the meta contract: the fee of the account created.
pub open spec fn meta_cost(decoded: Option<DecodedArgs>) -> Option<u64> {
    match decoded {
        Some(DecodedArgs::Meta(MetaContractArgs::CreateAccount { fee })) => Some(fee),
        _ => None,
    }
}

/// The cost of a call to a simple-UDT contract: for a transfer of the native
/// token the amount plus the fee, if that fits 64 bits; for a transfer of another
/// token the fee; nothing for a query.
pub open spec fn sudt_cost(to_id: u32, decoded: Option<DecodedArgs>) -> Option<u64> {
    match decoded {
        Some(DecodedArgs::Sudt(SudtArgs::Transfer { amount, fee })) => if to_id
            == CKB_SUDT_ACCOUNT_ID {
            if amount + fee <= u64::MAX {
                Some((amount + fee) as u64)
            } else {
                None
            }
        } else {
            Some(fee)
        },
        _ => None,
    }
}

/// The gas limit in the arguments of a Polyjuice call.
pub open spec fn polyjuice_gas_limit(args: Seq<u8>) -> nat {
    le_value(args.subrange(8, 16))
}

/// The gas price in the arguments of a Polyjuice call.
pub open spec fn polyjuice_gas_price(args: Seq<u8>) -> nat {
    le_value(args.subrange(16, 32))
}

/// The value in the arguments of a Polyjuice call.
pub open spec fn polyjuice_value(args: Seq<u8>) -> nat {
    le_value(args.subrange(32, 48))
}

/// The cost of a Polyjuice call: the value plus the gas price times the gas
/// limit, if that fits 64 bits; nothing for arguments that are too short or do
/// not begin with the magic bytes.
pub open spec fn polyjuice_cost(args: Seq<u8>) -> Option<u64> {
    if args.len() < POLYJUICE_ARGS_MIN_LEN || args.take(7) != polyjuice_magic() {
        None
    } else {
        let cost = polyjuice_value(args) + polyjuice_gas_price(args) * polyjuice_gas_limit(args);
        if cost <= u64::MAX {
            Some(cost as u64)
        } else {
            None
        }
    }
}

impl TypedTransaction {
    /// The cost of the transaction, by its kind.
    pub open spec fn cost_spec(self) -> Option<u64> {
        match self {
            TypedTransaction::EthAddrReg(tx) => eth_addr_reg_cost(tx.0.decoded),
            TypedTransaction::Meta(tx) => meta_cost(tx.0.decoded),
            TypedTransaction::SimpleUDT(tx) => sudt_cost(tx.0.to_id, tx.0.decoded),
            TypedTransaction::Polyjuice(tx) => polyjuice_cost(contents(tx.0.args)),
        }
    }

    /// Types `tx` by the kind of contract it calls. A contract of unknown kind is
    /// refused.
    pub fn from_tx(tx: L2Transaction, type_: AllowedContractType) -> (typed: Result<
        TypedTransaction,
        TransactionValidateError,
    >)
        ensures
            typed == match type_ {
                AllowedContractType::EthAddrReg => Ok::<_, TransactionValidateError>(
                    TypedTransaction::EthAddrReg(EthAddrRegTx(tx)),
                ),
                AllowedContractType::Meta => Ok(TypedTransaction::Meta(MetaTx(tx))),
                AllowedContractType::Sudt => Ok(TypedTransaction::SimpleUDT(SimpleUDTTx(tx))),
                AllowedContractType::Polyjuice => Ok(TypedTransaction::Polyjuice(PolyjuiceTx(tx))),
                AllowedContractType::Unknown => Err(
                    TransactionValidateError::Account(AccountError::UnknownScript),
                ),
            },
    {
        match type_ {
            AllowedContractType::EthAddrReg => Ok(TypedTransaction::EthAddrReg(EthAddrRegTx(tx))),
            AllowedContractType::Meta => Ok(TypedTransaction::Meta(MetaTx(tx))),
            AllowedContractType::Sudt => Ok(TypedTransaction::SimpleUDT(SimpleUDTTx(tx))),
            AllowedContractType::Polyjuice => Ok(TypedTransaction::Polyjuice(PolyjuiceTx(tx))),
            AllowedContractType::Unknown => Err(
                TransactionValidateError::Account(AccountError::UnknownScript),
            ),
        }
    }

    /// The expected cost of the transaction: the value it moves plus its fee.
    /// `None` where the transaction has no cost, as a read-only call has.
    pub fn cost(&self) -> (cost: Option<u64>)
        ensures
            cost == self.cost_spec(),
    {
        match self {
            TypedTransaction::EthAddrReg(tx) => tx.cost(),
            TypedTransaction::Meta(tx) => tx.cost(),
            TypedTransaction::SimpleUDT(tx) => tx.cost(),
            TypedTransaction::Polyjuice(tx) => tx.cost(),
        }
    }
}

impl EthAddrRegTx {
    /// The fee of the mapping that the call sets, if it sets one.
    pub fn cost(&self) -> (cost: Option<u64>)
        ensures
            cost == eth_addr_reg_cost(self.0.decoded),
    {
        match self.0.decoded {
            Some(DecodedArgs::EthAddrReg(args)) => match args {
                EthAddrRegArgs::EthToGw | EthAddrRegArgs::GwToEth => None,
                EthAddrRegArgs::SetMapping { fee } => Some(fee),
                EthAddrRegArgs::BatchSetMapping { fee } => Some(fee),
            },
            _ => None,
        }
    }
}

impl MetaTx {
    /// The fee of the account that the call creates.
    pub fn cost(&self) -> (cost: Option<u64>)
        ensures
            cost == meta_cost(self.0.decoded),
    {
        match self.0.decoded {
            Some(DecodedArgs::Meta(args)) => match args {
                MetaContractArgs::CreateAccount { fee } => Some(fee),
            },
            _ => None,
        }
    }
}

impl SimpleUDTTx {
    /// What the transfer takes from the sender in the native token, if the call is
    /// a transfer.
    pub fn cost(&self) -> (cost: Option<u64>)
        ensures
            cost == sudt_cost(self.0.to_id, self.0.decoded),
    {
        match self.0.decoded {
            Some(DecodedArgs::Sudt(args)) => match args {
                SudtArgs::Query => None,
                SudtArgs::Transfer { amount, fee } => {
                    if self.0.to_id == CKB_SUDT_ACCOUNT_ID {
                        // the native token: the amount is paid on top of the fee
                        match amount.checked_add(fee as u128) {
                            Some(cost) => narrow(cost),
                            None => None,
                        }
                    } else {
                        Some(fee)
                    }
                },
            },
            _ => None,
        }
    }
}

impl PolyjuiceTx {
    /// The value that the call moves plus the gas it may burn.
    pub fn cost(&self) -> (cost: Option<u64>)
        ensures
            cost == polyjuice_cost(contents(self.0.args)),
    {
        polyjuice_args_cost(as_slice(&self.0.args))
    }
}

/// The cost of a Polyjuice call with the arguments `args`.
pub fn polyjuice_args_cost(args: &[u8]) -> (cost: Option<u64>)
    ensures
        cost == polyjuice_cost(args@),
{
    if args.len() < POLYJUICE_ARGS_MIN_LEN {
        return None;
    }
    if !(args[0] == 0xff && args[1] == 0xff && args[2] == 0xff && args[3] == 0x50 && args[4]
        == 0x4f && args[5] == 0x4c && args[6] == 0x59) {
        return None;
    }
    assert(args@.take(7) =~= polyjuice_magic());
    let gas_limit = read_u64_le(args, 8);
    let gas_price = read_u128_le(args, 16);
    let value = read_u128_le(args, 32);
    let gas = match gas_price.checked_mul(gas_limit as u128) {
        Some(gas) => gas,
        None => {
            return None;
        },
    };
    match value.checked_add(gas) {
        Some(cost) => narrow(cost),
        None => None,
    }
}

/// `wide` as a 64-bit integer, if it is one.
fn narrow(wide: u128) -> (narrowed: Option<u64>)
    ensures
        narrowed == if wide <= u64::MAX {
            Some(wide as u64)
        } else {
            None
        },
{
    if wide <= u64::MAX as u128 {
        Some(wide as u64)
    } else {
        None
    }
}

} // verus!
