use vstd::prelude::*;

verus! {

/// A safety bound for the proving reward.
pub const MAX_PROVING_REWARD: u128 = 3_000_000_000u128;

/// A payment to be ratified.
#[derive(Clone, Copy, Debug, PartialEq, Eq)]
pub enum Ratify<A> {
    /// The proving reward of the prover at an address.
    ProvingReward(A, u64),
}

/// The product of two numbers, capped at the largest 128-bit number.
pub open spec fn saturating_product(a: u128, b: u128) -> u128 {
    if a * b > u128::MAX {
        u128::MAX
    } else {
        (a * b) as u128
    }
}

/// The share of the coinbase reward that a proof target earns: half the
/// coinbase reward, times the proof target, over the combined proof target,
/// rounded down. A combined proof target of zero divides by one.
pub open spec fn reward_quotient(
    coinbase_reward: u64,
    proof_target: u128,
    combined_proof_target: u128,
) -> u128 {
    let numerator = saturating_product(coinbase_reward as u128, proof_target);
    let doubled = saturating_product(combined_proof_target, 2);
    let denominator = if doubled == 0 { 1u128 } else { doubled };
    numerator / denominator
}

/// Whether a proof target earns a reward: its share is positive and within
/// the safety bound.
pub open spec fn earns_reward(
    coinbase_reward: u64,
    proof_target: u128,
    combined_proof_target: u128,
) -> bool {
    0 < reward_quotient(coinbase_reward, proof_target, combined_proof_target)
        <= MAX_PROVING_REWARD
}

/// The rewards of the first `n` provers, in their order: one for each prover
/// that earns a reward.
pub open spec fn rewards_of<A>(
    proof_targets: Seq<(A, u128)>,
    coinbase_reward: u64,
    combined_proof_target: u128,
    n: nat,
) -> Seq<Ratify<A>>
    decreases n,
{
    if n == 0 {
        Seq::empty()
    } else {
        let before = rewards_of(
            proof_targets,
            coinbase_reward,
            combined_proof_target,
            (n - 1) as nat,
        );
        let (address, proof_target) = proof_targets[n - 1];
        if earns_reward(coinbase_reward, proof_target, combined_proof_target) {
            before.push(
                Ratify::ProvingReward(
                    address,
                    reward_quotient(coinbase_reward, proof_target, combined_proof_target) as u64,
                ),
            )
        } else {
            before
        }
    }
}

/// The product of two numbers, capped at the largest 128-bit number.
fn saturating_mul(a: u128, b: u128) -> (r: u128)
    ensures
        r == saturating_product(a, b),
{
    match a.checked_mul(b) {
        Some(product) => product,
        None => u128::MAX,
    }
}

/// The reward that one proof target earns, if it earns one.
pub fn prover_reward(coinbase_reward: u64, proof_target: u128, combined_proof_target: u128) -> (r:
    Option<u64>)
    ensures
        r.is_some() == earns_reward(coinbase_reward, proof_target, combined_proof_target),
        r.is_some() ==> r.unwrap() == reward_quotient(
            coinbase_reward,
            proof_target,
            combined_proof_target,
        ),
{
    let numerator = saturating_mul(coinbase_reward as u128, proof_target);
    let doubled = saturating_mul(combined_proof_target, 2);
    let denominator: u128 = if doubled == 0 { 1 } else { doubled };
    let quotient: u128 = numerator / denominator;
    if quotient > MAX_PROVING_REWARD || quotient == 0 {
        None
    } else {
        Some(quotient as u64)
    }
}

/// Returns the proving rewards for a given coinbase reward and list of
/// proof targets, one for each prover that earns a reward, in the order of
/// the list.
pub fn proving_rewards<A: Copy>(
    proof_targets: Vec<(A, u128)>,
    coinbase_reward: u64,
    combined_proof_target: u128,
) -> (rewards: Vec<Ratify<A>>)
    ensures
        rewards@ == rewards_of(
            proof_targets@,
            coinbase_reward,
            combined_proof_target,
            proof_targets@.len(),
        ),
{
    let mut rewards: Vec<Ratify<A>> = Vec::with_capacity(proof_targets.len());
    let mut i: usize = 0;
    while i < proof_targets.len()
        invariant
            i <= proof_targets@.len(),
            rewards@ == rewards_of(proof_targets@, coinbase_reward, combined_proof_target, i as nat),
        decreases proof_targets@.len() - i,
    {
        let (address, proof_target) = proof_targets[i];
        match prover_reward(coinbase_reward, proof_target, combined_proof_target) {
            Some(reward) => {
                rewards.push(Ratify::ProvingReward(address, reward));
            },
            None => {},
        }
        i += 1;
    }
    rewards
}

/// A prover whose proof target is no more than the combined proof target
/// earns no more than the coinbase reward.
pub proof fn lemma_reward_within_coinbase(
    coinbase_reward: u64,
    proof_target: u128,
    combined_proof_target: u128,
)
    requires
        proof_target <= combined_proof_target,
    ensures
        reward_quotient(coinbase_reward, proof_target, combined_proof_target) <= coinbase_reward,
{
    let c = coinbase_reward as int;
    let t = proof_target as int;
    let s = combined_proof_target as int;
    let numerator = saturating_product(coinbase_reward as u128, proof_target) as int;
    let doubled = saturating_product(combined_proof_target, 2) as int;
    let denominator = if doubled == 0 { 1int } else { doubled };
    let q = numerator / denominator;
    assert(0 <= c * t) by (nonlinear_arith)
        requires
            0 <= c,
            0 <= t,
    ;
    if s == 0 {
        assert(c * t == 0) by (nonlinear_arith)
            requires
                t == 0,
        ;
    } else {
        assert(0 <= q && q * denominator <= numerator) by (nonlinear_arith)
            requires
                q == numerator / denominator,
                denominator > 0,
                numerator >= 0,
        ;
        if doubled == 2 * s {
            assert(c * t <= c * s) by (nonlinear_arith)
                requires
                    0 <= c,
                    0 <= t <= s,
            ;
            assert(q <= c) by (nonlinear_arith)
                requires
                    q * (2 * s) <= c * s,
                    s > 0,
                    q >= 0,
                    c >= 0,
            ;
        } else {
            assert(q <= 1) by (nonlinear_arith)
                requires
                    q * denominator <= numerator,
                    numerator <= denominator,
                    denominator > 0,
            ;
            if c == 0 {
                assert(c * t == 0) by (nonlinear_arith)
                    requires
                        c == 0,
                ;
                assert(q == 0) by (nonlinear_arith)
                    requires
                        q * denominator <= 0,
                        denominator > 0,
                        q >= 0,
                ;
            }
        }
    }
}

} // verus!
