use bhp::rewards::{proving_rewards, prover_reward, Ratify, MAX_PROVING_REWARD};
use rand::Rng;
use snarkvm_console_types::environment::Console;
use snarkvm_console_types::{Address, Group};
use snarkvm_utilities::{TestRng, Uniform};

type CurrentNetwork = Console;

const ITERATIONS: usize = 1000;

#[test]
fn test_proving_rewards_cannot_exceed_coinbase_reward() {
    let rng = &mut TestRng::default();

    for _ in 0..ITERATIONS {
        // Sample a random address.
        let address = Address::<CurrentNetwork>::new(Group::rand(rng));
        // Sample a random coinbase reward.
        let coinbase_reward = rng.gen_range(0..u64::try_from(MAX_PROVING_REWARD).unwrap());
        // Check that a maxed out proof target fails.
        let rewards = proving_rewards::<Address<CurrentNetwork>>(
            vec![(address, u64::MAX as u128)],
            coinbase_reward,
            u64::MAX as u128,
        );
        assert_eq!(rewards.len(), 1);
        assert!(matches!(rewards[0], Ratify::ProvingReward(..)));
        let Ratify::ProvingReward(candidate_address, candidate_amount) = rewards[0];
        assert_eq!(candidate_address, address);
        assert!(candidate_amount <= coinbase_reward);
    }
}

#[test]
fn test_proving_rewards_is_empty() {
    let rng = &mut TestRng::default();
    // Sample a random address.
    let address = Address::<CurrentNetwork>::new(Group::rand(rng));

    // Compute the proving rewards (empty).
    let rewards = proving_rewards::<Address<CurrentNetwork>>(vec![], rng.gen(), 0);
    assert!(rewards.is_empty());

    // Check that a maxed out coinbase reward, returns empty.
    let rewards = proving_rewards::<Address<CurrentNetwork>>(vec![(address, 2)], u64::MAX, 2);
    assert!(rewards.is_empty());

    // Ensure a 0 coinbase reward case is empty.
    let rewards = proving_rewards::<Address<CurrentNetwork>>(vec![(address, 2)], 0, 2);
    assert!(rewards.is_empty());

    // Ensure a proving reward that is too large, renders no rewards.
    for _ in 0..ITERATIONS {
        // Sample a random address.
        let address = Address::<CurrentNetwork>::new(Group::rand(rng));
        // Sample a random overly-large coinbase reward.
        let coinbase_reward = rng.gen_range(u64::try_from(MAX_PROVING_REWARD).unwrap()..u64::MAX);
        // Sample a random proof target.
        let proof_target = rng.gen_range(0..u64::MAX as u128);
        // Check that a maxed out proof target fails.
        let rewards =
            proving_rewards::<Address<CurrentNetwork>>(vec![(address, proof_target)], coinbase_reward, proof_target);
        assert!(rewards.is_empty());
    }
}

#[test]
fn rewards_follow_the_formula() {
    // Half the coinbase reward, split by proof target: 1000 * 3 / (2 * 10) = 150.
    assert_eq!(prover_reward(1000, 3, 10), Some(150));
    assert_eq!(prover_reward(1000, 7, 10), Some(350));
    // Rounded down: 5 * 1 / (2 * 4) = 0, which earns nothing.
    assert_eq!(prover_reward(5, 1, 4), None);
    // 9 * 1 / (2 * 4) = 1.
    assert_eq!(prover_reward(9, 1, 4), Some(1));
    // A combined proof target of zero divides by one.
    assert_eq!(prover_reward(7, 3, 0), Some(21));
    // The bound itself is still paid, one more is not.
    assert_eq!(prover_reward(6_000_000_000, 1, 1), Some(3_000_000_000));
    assert_eq!(prover_reward(6_000_000_002, 1, 1), None);
    // A product beyond 128 bits is capped.
    assert_eq!(prover_reward(u64::MAX, u128::MAX, u128::MAX), Some(1));
    assert_eq!(prover_reward(1, u128::MAX, u128::MAX), Some(1));
}

#[test]
fn rewards_keep_the_order_and_skip_what_earns_nothing() {
    let rewards = proving_rewards::<u8>(vec![(1, 3), (2, 0), (3, 7), (4, 100_000_000_000)], 1000, 10);
    assert_eq!(rewards, vec![Ratify::ProvingReward(1, 150), Ratify::ProvingReward(3, 350)]);
}
