use bhp::circuit::{BitSource, Circuit, Gate, Mode, PointSource};
use bhp::curve::Point;
use bhp::generator::double_times;
use snarkvm_utilities::{TestRng, Uniform};

fn assemble() -> (bhp::native::BHP, bhp::gadget::BHP) {
    let native = bhp::native::BHP::setup(3, 57, "BHPCircuit0").unwrap();
    let circuit = bhp::gadget::BHP::new(3, 57, native.clone()).unwrap();
    (native, circuit)
}

#[test]
fn gates_are_recorded_in_order() {
    let (native, _) = assemble();
    let table = native.multiples(0);
    let mut system = Circuit::new();
    let c = system.new_boolean(Mode::Constant, true);
    let p = system.new_boolean(Mode::Public, false);
    let w = system.new_boolean(Mode::Private, true);
    assert_eq!(system.bits(), &vec![false, true]);

    // Three constants select while the circuit is assembled.
    let folded = system.lookup(&table, &c, &c, &c);
    assert_eq!(folded.eject_mode(), Mode::Constant);
    assert_eq!(folded.eject_value(), table.select(true, true, true));
    assert_eq!(system.num_gates(), 0);

    // One wire among the bits makes a gate.
    let looked_up = system.lookup(&table, &c, &p, &w);
    assert_eq!(looked_up.eject_mode(), Mode::Private);
    assert_eq!(looked_up.eject_value(), table.select(true, false, true));
    assert_eq!(system.num_gates(), 1);
    assert_eq!(system.gate(0), Gate::Lookup {
        table,
        b0: BitSource::Constant(true),
        b1: BitSource::Wire(0),
        b2: BitSource::Wire(1),
    });

    let sum = system.add_points(&folded, &looked_up);
    assert_eq!(system.gate(1), Gate::Sum {
        a: PointSource::Constant(folded.eject_value()),
        b: PointSource::Wire(0),
    });
    let constant_sum = system.add_points(&folded, &folded);
    assert!(constant_sum.is_constant());
    assert_eq!(constant_sum.eject_value(), double_times(&folded.eject_value(), 1));
    assert_eq!(system.num_gates(), 2);

    let chosen = system.select(&w, &sum, &folded);
    assert_eq!(chosen.eject_value(), sum.eject_value());
    assert_eq!(system.gate(2), Gate::Choice {
        condition: BitSource::Wire(1),
        a: PointSource::Wire(1),
        b: PointSource::Constant(folded.eject_value()),
    });
    let other = system.select(&p, &sum, &folded);
    assert_eq!(other.eject_value(), folded.eject_value());
    let by_constant = system.select(&c, &sum, &folded);
    assert_eq!(by_constant, sum);
    assert_eq!(system.num_gates(), 4);

    assert_eq!(
        system.points(),
        &vec![looked_up.eject_value(), sum.eject_value(), sum.eject_value(), folded.eject_value()]
    );
    // Two bits and four gates, each a constraint; two bits and four points of two wires each.
    assert_eq!(system.num_constraints(), 6);
    assert_eq!((system.num_public(), system.num_private()), (1, 9));
    // One constant bit, and three constant points of two wires each.
    assert_eq!(system.num_constants(), 5);
}

#[test]
fn the_assembled_witness_satisfies_the_gates() {
    let (native, circuit) = assemble();
    let mut rng = TestRng::default();
    for mode in [Mode::Constant, Mode::Public, Mode::Private] {
        let input = (0..native.max_bits()).map(|_| bool::rand(&mut rng)).collect::<Vec<bool>>();
        let randomizer = bhp::field::Scalar::new([u64::rand(&mut rng), 7, 9, 11]).unwrap();
        let mut system = Circuit::new();
        let wires = system.new_booleans(mode, &input);
        let scalar = system.new_scalar(mode, &randomizer);
        circuit.commit(&mut system, &wires, &scalar).unwrap();
        if mode == Mode::Constant {
            assert_eq!(system.num_gates(), 0);
        } else {
            assert_eq!(system.num_gates(), 2 * 3 * 57 + 2 * 251);
        }
        let witness = system.points().clone();
        assert_eq!(witness.len(), system.num_gates());
        assert!(system.satisfied_by(&witness));
    }
}

#[test]
fn another_witness_does_not_satisfy_the_gates() {
    let (native, circuit) = assemble();
    let mut rng = TestRng::default();
    let input = (0..native.max_bits()).map(|_| bool::rand(&mut rng)).collect::<Vec<bool>>();
    let mut system = Circuit::new();
    let wires = system.new_booleans(Mode::Private, &input);
    let out = circuit.hash_uncompressed(&mut system, &wires).unwrap();
    let witness = system.points().clone();
    assert!(system.satisfied_by(&witness));
    assert_eq!(witness.last(), Some(&out.eject_value()));

    // Too few or too many points.
    assert!(!system.satisfied_by(&witness[1..]));
    let mut longer = witness.clone();
    longer.push(witness[0]);
    assert!(!system.satisfied_by(&longer));

    // Another point of the curve on any one pair of wires.
    let other: Point = native.table().random_base();
    for position in [0, 1, 2, witness.len() / 2, witness.len() - 2, witness.len() - 1] {
        let mut forged = witness.clone();
        forged[position] = other;
        assert!(!system.satisfied_by(&forged));
    }
}
