use bhp::curve::Point;
use bhp::native::BHP;
use snarkvm_console_algorithms::bhp::hasher::BHPHasher;
use snarkvm_console_algorithms::HashUncompressed;
use snarkvm_console_types::environment::Console;
use snarkvm_console_types::{Group, Scalar};
use snarkvm_curves::edwards_bls12::Fr;
use snarkvm_fields::PrimeField;
use snarkvm_utilities::{TestRng, Uniform};

fn coordinates(g: &Group<Console>) -> ([u64; 4], [u64; 4]) {
    let (x, y) = g.to_xy_coordinates();
    ((*x).to_bigint().0, (*y).to_bigint().0)
}

fn same_point(p: &Point, g: &Group<Console>) -> bool {
    let (x, y) = coordinates(g);
    p.x.limbs == x && p.y.limbs == y
}

#[test]
fn bases_agree_with_snarkvm_console() {
    let console = BHPHasher::<Console, 8, 32>::setup("AleoLedgerMerkleTreeCRH0").unwrap();
    let ours = BHP::setup(8, 32, "AleoLedgerMerkleTreeCRH0").unwrap();
    assert_eq!(ours.table().num_chunks(), 8 * 32);
    for window in 0..8usize {
        for chunk in 0..32usize {
            let base = ours.table().base(window * 32 + chunk);
            assert!(same_point(&base, &console.bases()[window][chunk]));
        }
    }
    assert!(same_point(&ours.table().random_base(), &console.random_base()[0]));
}

#[test]
fn hash_agrees_with_snarkvm_console() {
    let console = BHPHasher::<Console, 32, 48>::setup("BHPCircuit0").unwrap();
    let ours = BHP::setup(32, 48, "BHPCircuit0").unwrap();
    let mut rng = TestRng::default();
    for bits in [32 * 48 * 3, 48 * 3 + 3, 3000] {
        let input = (0..bits).map(|_| bool::rand(&mut rng)).collect::<Vec<bool>>();
        let expected = console.hash_uncompressed(&input).unwrap();
        let got = ours.hash_uncompressed(&input).unwrap();
        assert!(same_point(&got, &expected));
    }
}

#[test]
fn commitment_agrees_with_snarkvm_console() {
    let console = BHPHasher::<Console, 8, 54>::setup("BHPCircuit0").unwrap();
    let ours = BHP::setup(8, 54, "BHPCircuit0").unwrap();
    let mut rng = TestRng::default();
    for _ in 0..5 {
        let input = (0..8 * 54 * 3).map(|_| bool::rand(&mut rng)).collect::<Vec<bool>>();
        let randomizer = Fr::rand(&mut rng);
        let expected = console.hash_uncompressed(&input).unwrap()
            + console.random_base()[0] * Scalar::<Console>::new(randomizer);
        let scalar = bhp::field::Scalar::new(randomizer.to_bigint().0).unwrap();
        let got = ours.commit_uncompressed(&input, &scalar).unwrap();
        assert!(same_point(&got, &expected));
        assert_eq!(ours.commit(&input, &scalar).unwrap().limbs, coordinates(&expected).0);
    }
}

#[test]
fn doubled_bases_agree_with_snarkvm_console() {
    let console = BHPHasher::<Console, 3, 57>::setup("BHPCircuit0").unwrap();
    let ours = BHP::setup(3, 57, "BHPCircuit0").unwrap();
    // snarkvm-console keeps the base of the randomizer doubled once for each bit of a scalar.
    let mut power = ours.table().random_base();
    for i in 0..10 {
        assert!(same_point(&power, &console.random_base()[i]));
        power = bhp::generator::double_times(&power, 1);
    }
    assert!(same_point(
        &bhp::generator::double_times(&ours.table().random_base(), 250),
        &console.random_base()[250]
    ));
}
