use bytes::Bytes;
use block_sync::fee::{calculate_paid_fee, calculate_required_tx_fee, fee_shortfall};
use block_sync::le::{read_u128_le, read_u64_le};
use block_sync::typed_transaction::{
    polyjuice_args_cost, AccountError, AllowedContractType, DecodedArgs, EthAddrRegArgs, EthAddrRegTx, L2Transaction,
    MetaContractArgs, MetaTx, PolyjuiceTx, SimpleUDTTx, SudtArgs, TransactionValidateError,
    TypedTransaction, CKB_SUDT_ACCOUNT_ID,
};

fn decoded(to_id: u32, args: DecodedArgs) -> L2Transaction {
    L2Transaction { to_id, args: Bytes::new(), decoded: Some(args) }
}

fn polyjuice_args(gas_limit: u64, gas_price: u128, value: u128) -> Vec<u8> {
    let mut args = vec![0xff, 0xff, 0xff, b'P', b'O', b'L', b'Y', 0];
    args.extend_from_slice(&gas_limit.to_le_bytes());
    args.extend_from_slice(&gas_price.to_le_bytes());
    args.extend_from_slice(&value.to_le_bytes());
    args.extend_from_slice(&[0, 0, 0, 0]);
    assert_eq!(args.len(), 52);
    args
}

fn polyjuice(args: Vec<u8>) -> PolyjuiceTx {
    PolyjuiceTx(L2Transaction { to_id: 5, args: Bytes::from(args), decoded: None })
}

#[test]
fn unknown_contract_type_is_refused() {
    let tx = L2Transaction { to_id: 9, args: Bytes::from(vec![1u8, 2, 3]), decoded: None };
    match TypedTransaction::from_tx(tx, AllowedContractType::Unknown) {
        Err(e) => assert_eq!(e, TransactionValidateError::Account(AccountError::UnknownScript)),
        Ok(_) => panic!("a contract of unknown kind was typed"),
    }
}

#[test]
fn from_tx_types_by_contract() {
    let make = || L2Transaction { to_id: 9, args: Bytes::from(vec![1u8, 2, 3]), decoded: None };
    assert!(matches!(
        TypedTransaction::from_tx(make(), AllowedContractType::EthAddrReg),
        Ok(TypedTransaction::EthAddrReg(EthAddrRegTx(tx))) if tx == make()
    ));
    assert!(matches!(
        TypedTransaction::from_tx(make(), AllowedContractType::Meta),
        Ok(TypedTransaction::Meta(MetaTx(tx))) if tx == make()
    ));
    assert!(matches!(
        TypedTransaction::from_tx(make(), AllowedContractType::Sudt),
        Ok(TypedTransaction::SimpleUDT(SimpleUDTTx(tx))) if tx == make()
    ));
    assert!(matches!(
        TypedTransaction::from_tx(make(), AllowedContractType::Polyjuice),
        Ok(TypedTransaction::Polyjuice(PolyjuiceTx(tx))) if tx == make()
    ));
}

#[test]
fn address_registry_costs_the_fee_of_a_mapping() {
    let cost = |args| EthAddrRegTx(decoded(4, DecodedArgs::EthAddrReg(args))).cost();
    assert_eq!(cost(EthAddrRegArgs::EthToGw), None);
    assert_eq!(cost(EthAddrRegArgs::GwToEth), None);
    assert_eq!(cost(EthAddrRegArgs::SetMapping { fee: 1000 }), Some(1000));
    assert_eq!(cost(EthAddrRegArgs::BatchSetMapping { fee: u64::MAX }), Some(u64::MAX));
    // arguments that did not decode, or decoded as another contract's
    assert_eq!(EthAddrRegTx(L2Transaction { to_id: 4, args: Bytes::from(vec![1u8]), decoded: None }).cost(), None);
    assert_eq!(EthAddrRegTx(decoded(4, DecodedArgs::Sudt(SudtArgs::Query))).cost(), None);
}

#[test]
fn meta_contract_costs_the_fee_of_the_account() {
    let tx = MetaTx(decoded(0, DecodedArgs::Meta(MetaContractArgs::CreateAccount { fee: 77 })));
    assert_eq!(tx.cost(), Some(77));
    assert_eq!(MetaTx(L2Transaction { to_id: 0, args: Bytes::new(), decoded: None }).cost(), None);
}

#[test]
fn native_transfer_costs_amount_plus_fee() {
    let transfer = |to_id, amount, fee| {
        SimpleUDTTx(decoded(to_id, DecodedArgs::Sudt(SudtArgs::Transfer { amount, fee }))).cost()
    };
    assert_eq!(CKB_SUDT_ACCOUNT_ID, 1);
    assert_eq!(transfer(1, 500, 7), Some(507));
    assert_eq!(transfer(1, 0, 0), Some(0));
    assert_eq!(transfer(1, u64::MAX as u128 - 7, 7), Some(u64::MAX));
    assert_eq!(transfer(1, u64::MAX as u128 - 6, 7), None);
    assert_eq!(transfer(1, u128::MAX, 1), None);
    assert_eq!(transfer(1, u128::MAX, 0), None);
}

#[test]
fn other_token_transfer_costs_the_fee() {
    let transfer = |to_id, amount, fee| {
        SimpleUDTTx(decoded(to_id, DecodedArgs::Sudt(SudtArgs::Transfer { amount, fee }))).cost()
    };
    assert_eq!(transfer(2, 500, 7), Some(7));
    assert_eq!(transfer(0, u128::MAX, 9), Some(9));
    assert_eq!(SimpleUDTTx(decoded(1, DecodedArgs::Sudt(SudtArgs::Query))).cost(), None);
    assert_eq!(SimpleUDTTx(L2Transaction { to_id: 1, args: Bytes::new(), decoded: None }).cost(), None);
}

#[test]
fn polyjuice_costs_value_plus_gas() {
    assert_eq!(polyjuice(polyjuice_args(21_000, 3, 1_000_000)).cost(), Some(1_063_000));
    assert_eq!(polyjuice(polyjuice_args(0, u128::MAX, 5)).cost(), Some(5));
    assert_eq!(polyjuice(polyjuice_args(u64::MAX, 0, 0)).cost(), Some(0));
    assert_eq!(polyjuice(polyjuice_args(1, 1, u64::MAX as u128 - 1)).cost(), Some(u64::MAX));
    // longer arguments are read the same way
    let mut long = polyjuice_args(2, 10, 4);
    long.extend_from_slice(&[0xaa; 40]);
    assert_eq!(polyjuice(long).cost(), Some(24));
}

#[test]
fn polyjuice_cost_beyond_64_bits_is_none() {
    assert_eq!(polyjuice(polyjuice_args(1, 1, u64::MAX as u128)).cost(), None);
    assert_eq!(polyjuice(polyjuice_args(2, 1 << 63, 0)).cost(), None);
    assert_eq!(polyjuice(polyjuice_args(u64::MAX, u128::MAX, 0)).cost(), None);
    assert_eq!(polyjuice(polyjuice_args(1, u128::MAX, 1)).cost(), None);
    assert_eq!(polyjuice(polyjuice_args(0, 0, u128::MAX)).cost(), None);
}

#[test]
fn polyjuice_args_must_be_long_enough_and_begin_with_magic() {
    let good = polyjuice_args(1, 1, 1);
    assert_eq!(polyjuice(good.clone()).cost(), Some(2));
    assert_eq!(polyjuice(good[..51].to_vec()).cost(), None);
    assert_eq!(polyjuice(Vec::new()).cost(), None);
    for i in 0..7 {
        let mut bad = good.clone();
        bad[i] ^= 1;
        assert_eq!(polyjuice(bad).cost(), None);
    }
    // the byte after the magic is not part of it
    let mut other = good.clone();
    other[7] = 3;
    assert_eq!(polyjuice(other).cost(), Some(2));
}

#[test]
fn polyjuice_cost_reads_a_slice_of_a_larger_buffer() {
    // the buffer is a window into a longer allocation
    let mut backing = vec![0x55u8; 9];
    backing.extend_from_slice(&polyjuice_args(7, 3, 100));
    backing.extend_from_slice(&[0x66; 9]);
    let whole = Bytes::from(backing);
    let window = whole.slice(9..61);
    let tx = PolyjuiceTx(L2Transaction { to_id: 5, args: window, decoded: None });
    assert_eq!(tx.cost(), Some(121));
    assert_eq!(polyjuice_args_cost(&whole[9..61]), Some(121));
    assert_eq!(polyjuice_args_cost(&whole[..]), None);
}

#[test]
fn typed_cost_dispatches_on_the_kind() {
    let tx = L2Transaction { to_id: 5, args: Bytes::from(polyjuice_args(10, 2, 1)), decoded: None };
    let typed = TypedTransaction::from_tx(tx, AllowedContractType::Polyjuice);
    assert_eq!(typed.ok().map(|t| t.cost()), Some(Some(21)));
    let tx = decoded(1, DecodedArgs::Sudt(SudtArgs::Transfer { amount: 5, fee: 6 }));
    let typed = TypedTransaction::from_tx(tx, AllowedContractType::Sudt);
    assert_eq!(typed.ok().map(|t| t.cost()), Some(Some(11)));
    // arguments of one contract under the type of another have no cost
    let tx = decoded(1, DecodedArgs::Sudt(SudtArgs::Transfer { amount: 5, fee: 6 }));
    let typed = TypedTransaction::from_tx(tx, AllowedContractType::Meta);
    assert_eq!(typed.ok().map(|t| t.cost()), Some(None));
    let tx = decoded(3, DecodedArgs::EthAddrReg(EthAddrRegArgs::SetMapping { fee: 8 }));
    let typed = TypedTransaction::from_tx(tx, AllowedContractType::EthAddrReg);
    assert_eq!(typed.ok().map(|t| t.cost()), Some(Some(8)));
    let tx = decoded(0, DecodedArgs::Meta(MetaContractArgs::CreateAccount { fee: 9 }));
    let typed = TypedTransaction::from_tx(tx, AllowedContractType::Meta);
    assert_eq!(typed.ok().map(|t| t.cost()), Some(Some(9)));
}

#[test]
fn little_endian_reads_agree_with_std() {
    let mut bytes = vec![0xabu8; 3];
    bytes.extend_from_slice(&0x0102_0304_0506_0708u64.to_le_bytes());
    bytes.extend_from_slice(&0x1122_3344_5566_7788_99aa_bbcc_ddee_ff00u128.to_le_bytes());
    assert_eq!(read_u64_le(&bytes, 3), 0x0102_0304_0506_0708);
    assert_eq!(read_u128_le(&bytes, 11), 0x1122_3344_5566_7788_99aa_bbcc_ddee_ff00);
    assert_eq!(read_u64_le(&[0xff; 8], 0), u64::MAX);
    assert_eq!(read_u128_le(&[0xff; 16], 0), u128::MAX);
    assert_eq!(read_u64_le(&[1, 0, 0, 0, 0, 0, 0, 0], 0), 1);
    assert_eq!(read_u64_le(&[0, 1, 0, 0, 0, 0, 0, 0], 0), 256);
}

#[test]
fn required_fee_is_the_size() {
    assert_eq!(calculate_required_tx_fee(0), 0);
    assert_eq!(calculate_required_tx_fee(1234), 1234);
}

#[test]
fn paid_fee_sums_inputs_and_outputs() {
    assert_eq!(calculate_paid_fee(&[], &[]), (0, 0));
    assert_eq!(calculate_paid_fee(&[100, 250], &[300]), (350, 300));
    assert_eq!(
        calculate_paid_fee(&[u64::MAX, u64::MAX, 2], &[u64::MAX]),
        (2 * (u64::MAX as u128) + 2, u64::MAX as u128)
    );
}

#[test]
fn shortfall_is_what_the_cells_do_not_pay() {
    // the cells pay 50 of the 200 required
    assert_eq!(fee_shortfall(200, &[100, 250], &[300]), 150);
    // the cells pay exactly the fee
    assert_eq!(fee_shortfall(50, &[100, 250], &[300]), 0);
    // the cells pay more than the fee
    assert_eq!(fee_shortfall(10, &[100, 250], &[300]), 0);
    // the cells pay nothing
    assert_eq!(fee_shortfall(321, &[7], &[7]), 321);
    assert_eq!(fee_shortfall(0, &[], &[]), 0);
    assert_eq!(fee_shortfall(5, &[u64::MAX, 3], &[3]), 0);
}
