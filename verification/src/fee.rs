//! The fee of a settlement-layer transaction: what its size requires, what its
//! cells already pay, and what is left for payment cells to cover.

use vstd::prelude::*;

verus! {

/// The sum of `capacities`.
pub open spec fn total(capacities: Seq<u64>) -> nat
    decreases capacities.len(),
{
    if capacities.len() == 0 {
        0
    } else {
        total(capacities.drop_last()) + capacities.last() as nat
    }
}

/// The fee that a transaction of `tx_size` bytes requires: one unit for each byte.
pub open spec fn required_tx_fee(tx_size: nat) -> nat {
    tx_size
}

/// The part of the required fee that the cells of the transaction do not pay.
pub open spec fn shortfall(tx_size: nat, inputs: Seq<u64>, outputs: Seq<u64>) -> int {
    let paid = total(inputs) - total(outputs);
    if required_tx_fee(tx_size) > paid {
        required_tx_fee(tx_size) - paid
    } else {
        0
    }
}

/// A sum is at most as many times the largest capacity as it has terms.
pub proof fn lemma_total_bound(capacities: Seq<u64>)
    ensures
        total(capacities) <= capacities.len() * u64::MAX,
    decreases capacities.len(),
{
    if capacities.len() > 0 {
        lemma_total_bound(capacities.drop_last());
        assert(capacities.drop_last().len() * u64::MAX + u64::MAX == capacities.len() * u64::MAX)
            by (nonlinear_arith)
            requires
                capacities.drop_last().len() + 1 == capacities.len(),
        ;
    }
}

/// The fee that a transaction of `tx_size` bytes requires.
pub fn calculate_required_tx_fee(tx_size: usize) -> (fee: u64)
    ensures
        fee == required_tx_fee(tx_size as nat),
{
    tx_size as u64
}

fn sum(capacities: &[u64]) -> (sum: u128)
    ensures
        sum == total(capacities@),
{
    let mut sum: u128 = 0;
    let mut i: usize = 0;
    while i < capacities.len()
        invariant
            i <= capacities.len(),
            sum == total(capacities@.take(i as int)),
        decreases capacities.len() - i,
    {
        proof {
            let upto = capacities@.take(i + 1);
            assert(upto.drop_last() =~= capacities@.take(i as int));
            lemma_total_bound(upto);
            assert(upto.len() * u64::MAX <= u128::MAX) by (nonlinear_arith)
                requires
                    upto.len() <= usize::MAX <= u64::MAX,
            ;
        }
        sum = sum + capacities[i] as u128;
        i = i + 1;
    }
    assert(capacities@.take(i as int) =~= capacities@);
    sum
}

/// The capacities that the inputs bring and that the outputs take, summed. A sum
/// of 64-bit capacities, one for each element of a slice, stays within 128 bits.
pub fn calculate_paid_fee(inputs: &[u64], outputs: &[u64]) -> (sums: (u128, u128))
    ensures
        sums.0 == total(inputs@),
        sums.1 == total(outputs@),
{
    (sum(inputs), sum(outputs))
}

/// The fee that payment cells have to add to a transaction of `tx_size` bytes
/// whose cells have the capacities `inputs` and `outputs`; 0 where the cells pay
/// the required fee themselves. The inputs must cover the outputs, and what
/// they pay beyond them must fit 64 bits.
pub fn fee_shortfall(tx_size: usize, inputs: &[u64], outputs: &[u64]) -> (fee: u64)
    requires
        total(outputs@) <= total(inputs@),
        total(inputs@) - total(outputs@) <= u64::MAX,
    ensures
        fee == shortfall(tx_size as nat, inputs@, outputs@),
{
    let (input_capacity, output_capacity) = calculate_paid_fee(inputs, outputs);
    let paid_fee: u64 = (input_capacity - output_capacity) as u64;
    match calculate_required_tx_fee(tx_size).checked_sub(paid_fee) {
        Some(fee) => fee,
        None => 0,
    }
}

} // verus!
