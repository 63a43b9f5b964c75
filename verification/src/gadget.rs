use crate::circuit::{
    all_constant, all_in_circuit, none_constant, satisfies, wire_values, Boolean, Circuit, Field,
    Group, Mode, Scalar,
};
use crate::curve::{point_double, point_identity, Point};
use crate::error::Error;
use crate::field::SCALAR_BITS;
use crate::generator::repeated_double;
use crate::native::{hash_prefix, scalar_multiple};
use vstd::prelude::*;

verus! {

/// Most wires of one mode that hashing `bits` bits can add to a circuit: the
/// neutral element, and a lookup and an addition for each chunk.
pub open spec fn hash_room(bits: nat) -> nat {
    2 + 4 * (bits / 3)
}

/// Most wires of one mode that the blinding term can add to a circuit: the
/// neutral element, and a power of the base, an addition and a selection for
/// each bit of the randomizer.
pub open spec fn blinding_room() -> nat {
    2 + 6 * (SCALAR_BITS as nat)
}

/// Most wires of one mode that committing to `bits` bits can add to a
/// circuit: those of the hash, those of the blinding term, and their sum.
pub open spec fn commit_room(bits: nat) -> nat {
    hash_room(bits) + blinding_room() + 2
}

/// Number of gates of the hash of `bits` bits on wires none of which is a
/// constant: a lookup and an addition for each chunk.
pub open spec fn hash_gates(bits: nat) -> nat {
    2 * (bits / 3)
}

/// Number of gates of the blinding term of a randomizer on wires that are
/// not constants: a selection for each bit, and an addition for each bit
/// but the first, which is added to a constant.
pub open spec fn blinding_gates() -> nat {
    (2 * SCALAR_BITS - 1) as nat
}

/// Number of gates of the commitment to `bits` bits, where neither the
/// input wires nor those of the randomizer are constants: the gates of the
/// hash, those of the blinding term, and the addition of the two.
pub open spec fn commit_gates(bits: nat) -> nat {
    hash_gates(bits) + blinding_gates() + 1
}

/// What assembling a hash or a commitment does to a circuit: the circuit
/// stays consistent and keeps what it held; nothing is added but constants
/// and at most `most` gates; and with constant operands nothing is added
/// but constants.
pub open spec fn assembled(
    before: Circuit,
    after: Circuit,
    most: nat,
    all_operands_constant: bool,
) -> bool {
    &&& after.wf()
    &&& after.extends(before)
    &&& after@.grown_by_gates(before@, most)
    &&& all_operands_constant ==> after@.same_cost(before@)
}

/// What assembling a hash does to a circuit: at most a lookup and an
/// addition are added for each chunk, nothing where the input wires are all
/// constants, and all of them where none is.
pub open spec fn hash_assembled(before: Circuit, after: Circuit, input: Seq<Boolean>) -> bool {
    &&& assembled(before, after, hash_gates(input.len()), all_constant(input))
    &&& none_constant(input) ==> after@.constraints == before@.constraints + hash_gates(
        input.len(),
    )
}

/// What assembling a commitment does to a circuit: at most the gates of the
/// hash, those of the blinding term and one addition are added, nothing
/// where the wires of the input and of the randomizer are all constants,
/// and all of them where none is.
pub open spec fn commit_assembled(
    before: Circuit,
    after: Circuit,
    input: Seq<Boolean>,
    randomizer: Scalar,
) -> bool {
    &&& assembled(
        before,
        after,
        commit_gates(input.len()),
        all_constant(input) && randomizer.mode() == Mode::Constant,
    )
    &&& none_constant(input) && randomizer.mode() != Mode::Constant ==> after@.constraints
        == before@.constraints + commit_gates(input.len())
}

/// The same scheme as `native::BHP`, assembled as a circuit: the bases are
/// constants of the circuit, the input bits and the randomizer are wires.
#[derive(Clone, Debug, PartialEq, Eq)]
pub struct BHP {
    native: crate::native::BHP,
}

impl BHP {
    /// The scheme that the circuit evaluates.
    pub closed spec fn spec_native(self) -> crate::native::BHP {
        self.native
    }

    /// The scheme that the circuit evaluates is well-formed.
    pub open spec fn wf(self) -> bool {
        self.spec_native().wf()
    }

    /// Prepares the circuit over a scheme, for a declared number of windows
    /// and window size. Fails when the scheme's table of bases was made for
    /// other parameters.
    pub fn new(num_windows: u8, window_size: u8, native: crate::native::BHP) -> (r: Result<BHP, Error>)
        requires
            native.wf(),
        ensures
            match r {
                Ok(bhp) => {
                    &&& bhp.wf()
                    &&& bhp.spec_native() == native
                    &&& native.spec_table().spec_num_windows() == num_windows
                    &&& native.spec_table().spec_window_size() == window_size
                },
                Err(e) => {
                    &&& e == Error::ParameterMismatchError
                    &&& (native.spec_table().spec_num_windows() != num_windows
                        || native.spec_table().spec_window_size() != window_size)
                },
            },
    {
        if native.table().num_windows() != num_windows || native.table().window_size()
            != window_size {
            return Err(Error::ParameterMismatchError);
        }
        Ok(BHP { native })
    }

    /// The scheme that the circuit evaluates.
    pub fn native(&self) -> (n: &crate::native::BHP)
        ensures
            *n == self.spec_native(),
    {
        &self.native
    }

    /// Hashes the bits on the input wires to a point. The point is the one
    /// that the scheme computes from the bits; with constant wires it is
    /// found while the circuit is assembled, and the circuit gets no public
    /// wire, no private wire and no constraint. An input that the scheme
    /// refuses leaves the circuit as it was.
    pub fn hash_uncompressed(&self, circuit: &mut Circuit, input: &[Boolean]) -> (r: Result<
        Group,
        Error,
    >)
        requires
            self.wf(),
            old(circuit).wf(),
            all_in_circuit(input@, *old(circuit)),
            old(circuit).fits(hash_room(input@.len())),
        ensures
            r.is_ok() == self.spec_native().accepts(wire_values(input@)),
            r.is_err() ==> r.unwrap_err() == Error::InputLengthError && *final(circuit) == *old(
                circuit,
            ),
            r.is_ok() ==> {
                &&& r.unwrap().value() == self.spec_native().spec_hash_uncompressed(
                    wire_values(input@),
                )
                &&& r.unwrap().wf()
                &&& r.unwrap().in_circuit(*final(circuit))
                &&& all_constant(input@) ==> r.unwrap().mode() == Mode::Constant
                &&& hash_assembled(*old(circuit), *final(circuit), input@)
                &&& final(circuit)@.constants + final(circuit)@.private == old(circuit)@.constants
                    + old(circuit)@.private + hash_room(input@.len())
            },
    {
        if !self.native.accepts_length(input.len()) {
            return Err(Error::InputLengthError);
        }
        let ghost bases = self.spec_native().spec_table().spec_bases();
        let ghost values = wire_values(input@);
        let ghost before = old(circuit)@;
        let chunks: usize = input.len() / 3;
        let mut acc = circuit.new_constant(point_identity());
        let mut c: usize = 0;
        while c < chunks
            invariant
                self.wf(),
                circuit.wf(),
                circuit.extends(*old(circuit)),
                all_in_circuit(input@, *circuit),
                acc.in_circuit(*circuit),
                acc.wf(),
                self.spec_native().accepts(values),
                bases == self.spec_native().spec_table().spec_bases(),
                values == wire_values(input@),
                before == old(circuit)@,
                chunks == input@.len() / 3,
                3 * chunks <= input@.len() <= usize::MAX,
                c <= chunks,
                old(circuit).fits(hash_room(input@.len())),
                acc.value() == hash_prefix(bases, values, c as nat),
                circuit@.grown_by_gates(before, 2 * c as nat),
                circuit@.constants + circuit@.private == before.constants + before.private + 2 + 4
                    * c,
                (forall|i: int| 0 <= i < 3 * c ==> (#[trigger] input@[i]).mode() == Mode::Constant)
                    ==> acc.mode() == Mode::Constant && circuit@.constraints == before.constraints,
                none_constant(input@) ==> circuit@.constraints == before.constraints + 2 * c,
            decreases chunks - c,
        {
            let table = self.native.multiples(c);
            let term = circuit.lookup(&table, &input[3 * c], &input[3 * c + 1], &input[3 * c + 2]);
            acc = circuit.add_points(&acc, &term);
            c += 1;
        }
        Ok(acc)
    }

    /// Hashes the bits on the input wires to a field element: the wire of
    /// the x-coordinate of the hash as a point.
    pub fn hash(&self, circuit: &mut Circuit, input: &[Boolean]) -> (r: Result<Field, Error>)
        requires
            self.wf(),
            old(circuit).wf(),
            all_in_circuit(input@, *old(circuit)),
            old(circuit).fits(hash_room(input@.len())),
        ensures
            r.is_ok() == self.spec_native().accepts(wire_values(input@)),
            r.is_err() ==> r.unwrap_err() == Error::InputLengthError && *final(circuit) == *old(
                circuit,
            ),
            r.is_ok() ==> {
                &&& r.unwrap().value() == self.spec_native().spec_hash_uncompressed(
                    wire_values(input@),
                ).x
                &&& all_constant(input@) ==> r.unwrap().mode() == Mode::Constant
                &&& hash_assembled(*old(circuit), *final(circuit), input@)
            },
    {
        match self.hash_uncompressed(circuit, input) {
            Ok(point) => Ok(point.to_x_coordinate()),
            Err(e) => Err(e),
        }
    }

    /// The base of the randomizer multiplied by the scalar on the
    /// randomizer's wires, by doubling and adding: each power of the base is
    /// a constant, and each bit selects whether it is added.
    pub fn blinding(&self, circuit: &mut Circuit, randomizer: &Scalar) -> (out: Group)
        requires
            self.wf(),
            randomizer.wf(),
            old(circuit).wf(),
            randomizer.in_circuit(*old(circuit)),
            old(circuit).fits(blinding_room()),
        ensures
            out.wf(),
            out.in_circuit(*final(circuit)),
            out.value() == scalar_multiple(
                self.spec_native().spec_table().spec_random_base(),
                randomizer.value().bits(SCALAR_BITS as nat),
                SCALAR_BITS as nat,
            ),
            assembled(
                *old(circuit),
                *final(circuit),
                blinding_gates(),
                randomizer.mode() == Mode::Constant,
            ),
            old(circuit)@.constants <= final(circuit)@.constants,
            final(circuit)@.constants + final(circuit)@.private <= old(circuit)@.constants
                + old(circuit)@.private + blinding_room(),
            randomizer.mode() == Mode::Constant ==> out.mode() == Mode::Constant,
            randomizer.mode() != Mode::Constant ==> {
                &&& out.mode() == Mode::Private
                &&& final(circuit)@.constraints == old(circuit)@.constraints + blinding_gates()
            },
    {
        let ghost base = self.spec_native().spec_table().spec_random_base();
        let ghost bits = randomizer.value().bits(SCALAR_BITS as nat);
        let ghost before = old(circuit)@;
        let mut acc = circuit.new_constant(point_identity());
        let mut power: Point = self.native.table().random_base();
        let mut i: usize = 0;
        while i < SCALAR_BITS
            invariant
                i <= SCALAR_BITS,
                self.wf(),
                randomizer.wf(),
                circuit.wf(),
                circuit.extends(*old(circuit)),
                randomizer.in_circuit(*circuit),
                acc.in_circuit(*circuit),
                acc.wf(),
                power.wf(),
                base == self.spec_native().spec_table().spec_random_base(),
                bits == randomizer.value().bits(SCALAR_BITS as nat),
                before == old(circuit)@,
                old(circuit).fits(blinding_room()),
                power == repeated_double(base, i as nat),
                acc.value() == scalar_multiple(base, bits, i as nat),
                circuit@.public == before.public,
                circuit@.private == before.private + 2 * (circuit@.constraints
                    - before.constraints),
                before.constraints <= circuit@.constraints,
                before.constants <= circuit@.constants,
                circuit@.constants + circuit@.private <= before.constants + before.private + 2 + 6
                    * i,
                randomizer.mode() == Mode::Constant || i == 0 ==> acc.mode() == Mode::Constant
                    && circuit@.constraints == before.constraints,
                randomizer.mode() != Mode::Constant && i > 0 ==> acc.mode() == Mode::Private
                    && circuit@.constraints == before.constraints + 2 * i - 1,
            decreases SCALAR_BITS - i,
        {
            let bit = randomizer.bit(i);
            let term = circuit.new_constant(power);
            let sum = circuit.add_points(&acc, &term);
            acc = circuit.select(&bit, &sum, &acc);
            power = point_double(&power);
            i += 1;
        }
        acc
    }

    /// Commits to the bits on the input wires under the scalar on the
    /// randomizer's wires, as a point: the one that the scheme computes from
    /// the bits and the scalar. With constant wires it is found while the
    /// circuit is assembled, and the circuit gets no public wire, no private
    /// wire and no constraint. An input that the scheme refuses leaves the
    /// circuit as it was.
    pub fn commit_uncompressed(
        &self,
        circuit: &mut Circuit,
        input: &[Boolean],
        randomizer: &Scalar,
    ) -> (r: Result<Group, Error>)
        requires
            self.wf(),
            randomizer.wf(),
            old(circuit).wf(),
            all_in_circuit(input@, *old(circuit)),
            randomizer.in_circuit(*old(circuit)),
            old(circuit).fits(commit_room(input@.len())),
        ensures
            r.is_ok() == self.spec_native().accepts(wire_values(input@)),
            r.is_err() ==> r.unwrap_err() == Error::InputLengthError && *final(circuit) == *old(
                circuit,
            ),
            r.is_ok() ==> {
                &&& r.unwrap().value() == self.spec_native().spec_commit_uncompressed(
                    wire_values(input@),
                    randomizer.value(),
                )
                &&& r.unwrap().wf()
                &&& r.unwrap().in_circuit(*final(circuit))
                &&& all_constant(input@) && randomizer.mode() == Mode::Constant ==> r.unwrap().mode()
                    == Mode::Constant
                &&& commit_assembled(*old(circuit), *final(circuit), input@, *randomizer)
                &&& final(circuit)@.constants + final(circuit)@.private <= old(circuit)@.constants
                    + old(circuit)@.private + commit_room(input@.len())
            },
    {
        match self.hash_uncompressed(circuit, input) {
            Ok(hash) => {
                let blind = self.blinding(circuit, randomizer);
                Ok(circuit.add_points(&hash, &blind))
            },
            Err(e) => Err(e),
        }
    }

    /// Commits to the bits on the input wires under the scalar on the
    /// randomizer's wires, as a field element: the wire of the x-coordinate
    /// of the commitment as a point.
    pub fn commit(&self, circuit: &mut Circuit, input: &[Boolean], randomizer: &Scalar) -> (r:
        Result<Field, Error>)
        requires
            self.wf(),
            randomizer.wf(),
            old(circuit).wf(),
            all_in_circuit(input@, *old(circuit)),
            randomizer.in_circuit(*old(circuit)),
            old(circuit).fits(commit_room(input@.len())),
        ensures
            r.is_ok() == self.spec_native().accepts(wire_values(input@)),
            r.is_err() ==> r.unwrap_err() == Error::InputLengthError && *final(circuit) == *old(
                circuit,
            ),
            r.is_ok() ==> {
                &&& r.unwrap().value() == self.spec_native().spec_commit_uncompressed(
                    wire_values(input@),
                    randomizer.value(),
                ).x
                &&& all_constant(input@) && randomizer.mode() == Mode::Constant ==> r.unwrap().mode()
                    == Mode::Constant
                &&& commit_assembled(*old(circuit), *final(circuit), input@, *randomizer)
            },
    {
        match self.commit_uncompressed(circuit, input, randomizer) {
            Ok(point) => Ok(point.to_x_coordinate()),
            Err(e) => Err(e),
        }
    }
}

/// Evaluated in a circuit, the hash and the commitment are what the scheme
/// computes natively from the bits and the scalar that the wires carry,
/// whatever the modes of the wires.
pub proof fn lemma_circuit_equals_native(
    bhp: BHP,
    input: Seq<Boolean>,
    randomizer: Scalar,
    native_hash: Point,
    circuit_hash: Group,
    native_commit: Point,
    circuit_commit: Group,
)
    requires
        native_hash == bhp.spec_native().spec_hash_uncompressed(wire_values(input)),
        circuit_hash.value() == bhp.spec_native().spec_hash_uncompressed(wire_values(input)),
        native_commit == bhp.spec_native().spec_commit_uncompressed(
            wire_values(input),
            randomizer.value(),
        ),
        circuit_commit.value() == bhp.spec_native().spec_commit_uncompressed(
            wire_values(input),
            randomizer.value(),
        ),
    ensures
        circuit_hash.value() == native_hash,
        circuit_hash.value().x == native_hash.x,
        circuit_commit.value() == native_commit,
        circuit_commit.value().x == native_commit.x,
{
}

/// A circuit enforces what it has computed: whatever points satisfy its
/// gates over the bits on its wires, the wires of a point of the circuit
/// carry the point that was computed for them. In particular the wires of a
/// hash or a commitment carry what the scheme computes natively from the
/// bits on the input wires.
pub proof fn lemma_circuit_enforces(circuit: Circuit, out: Group, points: Seq<Point>)
    requires
        circuit.wf(),
        out.in_circuit(circuit),
        satisfies(circuit.spec_gates(), circuit.spec_bits(), points),
    ensures
        out.source().point(points) == out.value(),
{
    crate::circuit::lemma_witness_unique(
        circuit.spec_gates(),
        circuit.spec_bits(),
        circuit.spec_points(),
        points,
    );
}

/// With constant operands a hash or a commitment costs nothing: the circuit
/// holds as many public wires, private wires and constraints as before.
pub proof fn lemma_constant_mode_costs_nothing(before: Circuit, after: Circuit, most: nat)
    requires
        assembled(before, after, most, true),
    ensures
        after@.public == before@.public,
        after@.private == before@.private,
        after@.constraints == before@.constraints,
{
}

} // verus!
