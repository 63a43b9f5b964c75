use bhp::circuit::{Circuit, Mode};
use bhp::field::Scalar;
use snarkvm_curves::edwards_bls12::Fr;
use snarkvm_fields::PrimeField;
use snarkvm_utilities::{TestRng, Uniform};

const ITERATIONS: u64 = 100;
const DOMAIN: &str = "BHPCircuit0";

fn check_commit<const NUM_WINDOWS: u8, const WINDOW_SIZE: u8>(
    mode: Mode,
    num_constants: u64,
    num_public: u64,
    num_private: u64,
    num_constraints: u64,
) {
    // Initialize BHP.
    let native = bhp::native::BHP::setup(NUM_WINDOWS, WINDOW_SIZE, DOMAIN).expect("Failed to set up");
    let circuit = bhp::gadget::BHP::new(NUM_WINDOWS, WINDOW_SIZE, native.clone()).expect("Failed to assemble");
    // Determine the number of inputs.
    let num_input_bits = NUM_WINDOWS as usize * WINDOW_SIZE as usize * bhp::encoding::CHUNK_SIZE;

    let mut rng = TestRng::default();

    for _ in 0..ITERATIONS {
        // Sample a random input.
        let input = (0..num_input_bits).map(|_| bool::rand(&mut rng)).collect::<Vec<bool>>();
        // Sample a randomizer.
        let randomizer = Scalar::new(Fr::rand(&mut rng).to_bigint().0).expect("Failed to sample a scalar");
        // Compute the expected commitment.
        let expected = native.commit(&input, &randomizer).expect("Failed to commit native input");
        // Prepare the circuit input.
        let mut system = Circuit::new();
        let circuit_input = system.new_booleans(mode, &input);
        // Prepare the circuit randomizer.
        let circuit_randomizer = system.new_scalar(mode, &randomizer);

        // Perform the hash operation.
        let scope = system.clone();
        let candidate = circuit.commit(&mut system, &circuit_input, &circuit_randomizer).expect("Failed to commit");
        assert!(system.num_constants() - scope.num_constants() <= num_constants);
        assert_eq!(num_public, system.num_public() - scope.num_public());
        assert!(system.num_private() - scope.num_private() <= num_private);
        assert!(system.num_constraints() - scope.num_constraints() <= num_constraints);
        assert_eq!(expected, candidate.eject_value());
    }
}

#[test]
fn test_commit_constant() {
    check_commit::<32, 48>(Mode::Constant, 8250, 0, 0, 0)
}

#[test]
fn test_commit_public() {
    check_commit::<32, 48>(Mode::Public, 1044, 0, 10781, 10785)
}

#[test]
fn test_commit_private() {
    check_commit::<32, 48>(Mode::Private, 1044, 0, 10781, 10785)
}
