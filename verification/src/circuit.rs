use crate::curve::{curve_add, point_add, Point};
use crate::field::{FieldElement, SCALAR_BITS};
use crate::native::Multiples;
use vstd::prelude::*;

verus! {

/// How a wire gets its value: fixed when the circuit is assembled, given as
/// a public input, or given as a private witness.
#[derive(Clone, Copy, Debug, PartialEq, Eq, Structural)]
pub enum Mode {
    Constant,
    Public,
    Private,
}

impl Mode {
    /// Whether the mode is `Constant`.
    pub fn is_constant(&self) -> (b: bool)
        ensures
            b == (*self == Mode::Constant),
    {
        match self {
            Mode::Constant => true,
            _ => false,
        }
    }
}

/// Number of wires that carry one point: its two coordinates.
pub const POINT_WIRES: u64 = 2;

/// Where a gate takes a bit from: a constant, or the wire of the given number.
#[derive(Clone, Copy, Debug, PartialEq, Eq)]
pub enum BitSource {
    Constant(bool),
    Wire(usize),
}

/// Where a gate takes a point from: a constant, or the wires of the point of
/// the given number.
#[derive(Clone, Copy, Debug, PartialEq, Eq)]
pub enum PointSource {
    Constant(Point),
    Wire(usize),
}

/// A constraint that determines the wires of one new point from wires that
/// the circuit already has.
#[derive(Clone, Copy, Debug, PartialEq, Eq)]
pub enum Gate {
    /// The point is the multiple that three bits select in a table.
    Lookup { table: Multiples, b0: BitSource, b1: BitSource, b2: BitSource },
    /// The point is the sum of two points.
    Sum { a: PointSource, b: PointSource },
    /// The point is the first of two points where a bit is set, the second
    /// where it is not.
    Choice { condition: BitSource, a: PointSource, b: PointSource },
}

impl BitSource {
    /// The source is a constant, or a wire below `bits`.
    pub open spec fn below(self, bits: nat) -> bool {
        match self {
            BitSource::Constant(_) => true,
            BitSource::Wire(i) => i < bits,
        }
    }

    /// The bit that the source gives under an assignment of the wires.
    pub open spec fn bit(self, bits: Seq<bool>) -> bool {
        match self {
            BitSource::Constant(b) => b,
            BitSource::Wire(i) => bits[i as int],
        }
    }
}

impl PointSource {
    /// The source is a constant, or the wires of a point below `points`.
    pub open spec fn below(self, points: nat) -> bool {
        match self {
            PointSource::Constant(_) => true,
            PointSource::Wire(i) => i < points,
        }
    }

    /// The point that the source gives under an assignment of the wires.
    pub open spec fn point(self, points: Seq<Point>) -> Point {
        match self {
            PointSource::Constant(p) => p,
            PointSource::Wire(i) => points[i as int],
        }
    }

    /// A constant source is a point of the curve.
    pub open spec fn wf(self) -> bool {
        match self {
            PointSource::Constant(p) => p.wf(),
            PointSource::Wire(_) => true,
        }
    }
}

impl Gate {
    /// This gate reads no bit wire from `bits` on and no point from `points`
    /// on.
    pub open spec fn reads_below(self, bits: nat, points: nat) -> bool {
        match self {
            Gate::Lookup { table, b0, b1, b2 } => b0.below(bits) && b1.below(bits) && b2.below(
                bits,
            ),
            Gate::Sum { a, b } => a.below(points) && b.below(points),
            Gate::Choice { condition, a, b } => condition.below(bits) && a.below(points)
                && b.below(points),
        }
    }

    /// The constants of this gate are points of the curve.
    pub open spec fn wf(self) -> bool {
        match self {
            Gate::Lookup { table, b0, b1, b2 } => table.wf(),
            Gate::Sum { a, b } => a.wf() && b.wf(),
            Gate::Choice { condition, a, b } => a.wf() && b.wf(),
        }
    }

    /// The point that this gate determines under an assignment of the wires.
    pub open spec fn output(self, bits: Seq<bool>, points: Seq<Point>) -> Point {
        match self {
            Gate::Lookup { table, b0, b1, b2 } => table.spec_select(
                b0.bit(bits),
                b1.bit(bits),
                b2.bit(bits),
            ),
            Gate::Sum { a, b } => curve_add(a.point(points), b.point(points)),
            Gate::Choice { condition, a, b } => if condition.bit(bits) {
                a.point(points)
            } else {
                b.point(points)
            },
        }
    }
}

/// Every gate reads only bits among the first `bits`, and points that
/// earlier gates determine.
pub open spec fn ordered(gates: Seq<Gate>, bits: nat) -> bool {
    forall|k: int| 0 <= k < gates.len() ==> (#[trigger] gates[k]).reads_below(bits, k as nat)
}

/// An assignment satisfies the gates: there is one point for each gate, the
/// one that its gate determines.
pub open spec fn satisfies(gates: Seq<Gate>, bits: Seq<bool>, points: Seq<Point>) -> bool {
    &&& points.len() == gates.len()
    &&& forall|k: int|
        0 <= k < gates.len() ==> points[k] == (#[trigger] gates[k]).output(bits, points)
}

/// The first sequence begins the second.
pub open spec fn begins<T>(first: Seq<T>, second: Seq<T>) -> bool {
    &&& first.len() <= second.len()
    &&& forall|i: int|
        #![trigger first[i]]
        #![trigger second[i]]
        0 <= i < first.len() ==> first[i] == second[i]
}

/// What a gate determines depends only on the wires that it reads.
pub proof fn lemma_output_depends_on_reads(
    gate: Gate,
    bits: Seq<bool>,
    points: Seq<Point>,
    other_bits: Seq<bool>,
    other_points: Seq<Point>,
    b: nat,
    p: nat,
)
    requires
        gate.reads_below(b, p),
        b <= bits.len(),
        b <= other_bits.len(),
        p <= points.len(),
        p <= other_points.len(),
        forall|i: int| 0 <= i < b ==> bits[i] == other_bits[i],
        forall|i: int| 0 <= i < p ==> points[i] == other_points[i],
    ensures
        gate.output(bits, points) == gate.output(other_bits, other_points),
{
}

/// The bits on the wires determine the points: two assignments that satisfy
/// the same gates over the same bits hold the same points.
pub proof fn lemma_witness_unique(
    gates: Seq<Gate>,
    bits: Seq<bool>,
    first: Seq<Point>,
    second: Seq<Point>,
)
    requires
        ordered(gates, bits.len()),
        satisfies(gates, bits, first),
        satisfies(gates, bits, second),
    ensures
        first == second,
{
    lemma_witness_unique_below(gates, bits, first, second, gates.len());
}

/// Two assignments that satisfy the same gates over the same bits hold the
/// same first `n` points.
pub proof fn lemma_witness_unique_below(
    gates: Seq<Gate>,
    bits: Seq<bool>,
    first: Seq<Point>,
    second: Seq<Point>,
    n: nat,
)
    requires
        ordered(gates, bits.len()),
        satisfies(gates, bits, first),
        satisfies(gates, bits, second),
        n <= gates.len(),
    ensures
        forall|k: int| 0 <= k < n ==> first[k] == second[k],
    decreases n,
{
    if n > 0 {
        lemma_witness_unique_below(gates, bits, first, second, (n - 1) as nat);
        let k = n - 1;
        lemma_output_depends_on_reads(gates[k], bits, first, bits, second, bits.len(), k as nat);
    }
}

/// What a circuit holds: its wires by mode, and its constraints.
pub struct Count {
    pub constants: nat,
    pub public: nat,
    pub private: nat,
    pub constraints: nat,
}

impl Count {
    /// Two accounts differ in their constants at most: they hold the same
    /// number of public wires, of private wires and of constraints.
    pub open spec fn same_cost(self, other: Count) -> bool {
        &&& self.public == other.public
        &&& self.private == other.private
        &&& self.constraints == other.constraints
    }

    /// Since an earlier account, gates were added and nothing else that
    /// costs: no public wire, at most `most` constraints, and the two
    /// private wires of a point for each of them.
    pub open spec fn grown_by_gates(self, earlier: Count, most: nat) -> bool {
        &&& self.public == earlier.public
        &&& earlier.constraints <= self.constraints <= earlier.constraints + most
        &&& self.private == earlier.private + 2 * (self.constraints - earlier.constraints)
    }
}

/// A circuit under assembly: the wires that carry bits, each public or
/// private and each constrained to carry a bit; the gates, each of which
/// determines the two private wires of one point; the values that the wires
/// carry; and the account of the wires by mode and of the constraints.
#[derive(Clone, Debug, PartialEq, Eq)]
pub struct Circuit {
    num_constants: u64,
    num_public: u64,
    num_private: u64,
    num_constraints: u64,
    modes: Vec<Mode>,
    bits: Vec<bool>,
    gates: Vec<Gate>,
    points: Vec<Point>,
}

impl View for Circuit {
    type V = Count;

    closed spec fn view(&self) -> Count {
        Count {
            constants: self.num_constants as nat,
            public: self.num_public as nat,
            private: self.num_private as nat,
            constraints: self.num_constraints as nat,
        }
    }
}

/// A wire that carries a bit.
#[derive(Clone, Copy, Debug, PartialEq, Eq)]
pub struct Boolean {
    mode: Mode,
    value: bool,
    index: usize,
}

/// A pair of wires that carries a point of the curve.
#[derive(Clone, Copy, Debug, PartialEq, Eq)]
pub struct Group {
    mode: Mode,
    value: Point,
    index: usize,
}

/// A wire that carries an element of the base field.
#[derive(Clone, Copy, Debug, PartialEq, Eq)]
pub struct Field {
    mode: Mode,
    value: FieldElement,
}

impl Boolean {
    /// The wire's mode.
    pub closed spec fn mode(self) -> Mode {
        self.mode
    }

    /// The bit that the wire carries.
    pub closed spec fn value(self) -> bool {
        self.value
    }

    /// The number of the wire among those of its circuit that carry bits,
    /// where the wire is not a constant.
    pub closed spec fn index(self) -> usize {
        self.index
    }

    /// What a gate reads the wire as.
    pub open spec fn source(self) -> BitSource {
        if self.mode() == Mode::Constant {
            BitSource::Constant(self.value())
        } else {
            BitSource::Wire(self.index())
        }
    }

    /// The wire is a constant, or a wire of the circuit with its mode and
    /// its value.
    pub open spec fn in_circuit(self, circuit: Circuit) -> bool {
        self.mode() != Mode::Constant ==> {
            &&& self.index() < circuit.spec_bits().len()
            &&& self.index() < circuit.spec_modes().len()
            &&& circuit.spec_bits()[self.index() as int] == self.value()
            &&& circuit.spec_modes()[self.index() as int] == self.mode()
        }
    }

    /// The wire's mode.
    pub fn eject_mode(&self) -> (m: Mode)
        ensures
            m == self.mode(),
    {
        self.mode
    }

    /// The bit that the wire carries.
    pub fn eject_value(&self) -> (v: bool)
        ensures
            v == self.value(),
    {
        self.value
    }

    /// Whether the wire is a constant.
    pub fn is_constant(&self) -> (b: bool)
        ensures
            b == (self.mode() == Mode::Constant),
    {
        self.mode.is_constant()
    }

    /// What a gate reads the wire as.
    pub fn to_source(&self) -> (s: BitSource)
        ensures
            s == self.source(),
    {
        if self.mode.is_constant() {
            BitSource::Constant(self.value)
        } else {
            BitSource::Wire(self.index)
        }
    }
}

impl Group {
    /// The wires' mode.
    pub closed spec fn mode(self) -> Mode {
        self.mode
    }

    /// The point that the wires carry.
    pub closed spec fn value(self) -> Point {
        self.value
    }

    /// The number of the point among those that the gates of its circuit
    /// determine, where the wires are not constants.
    pub closed spec fn index(self) -> usize {
        self.index
    }

    /// The wires carry a point of the curve.
    pub open spec fn wf(self) -> bool {
        self.value().wf()
    }

    /// What a gate reads the wires as.
    pub open spec fn source(self) -> PointSource {
        if self.mode() == Mode::Constant {
            PointSource::Constant(self.value())
        } else {
            PointSource::Wire(self.index())
        }
    }

    /// The wires are constants, or the private wires of a point of the
    /// circuit with its value.
    pub open spec fn in_circuit(self, circuit: Circuit) -> bool {
        self.mode() != Mode::Constant ==> {
            &&& self.mode() == Mode::Private
            &&& self.index() < circuit.spec_points().len()
            &&& circuit.spec_points()[self.index() as int] == self.value()
        }
    }

    /// The wires' mode.
    pub fn eject_mode(&self) -> (m: Mode)
        ensures
            m == self.mode(),
    {
        self.mode
    }

    /// The point that the wires carry.
    pub fn eject_value(&self) -> (v: Point)
        ensures
            v == self.value(),
    {
        self.value
    }

    /// Whether the wires are constants.
    pub fn is_constant(&self) -> (b: bool)
        ensures
            b == (self.mode() == Mode::Constant),
    {
        self.mode.is_constant()
    }

    /// What a gate reads the wires as.
    pub fn to_source(&self) -> (s: PointSource)
        ensures
            s == self.source(),
    {
        if self.mode.is_constant() {
            PointSource::Constant(self.value)
        } else {
            PointSource::Wire(self.index)
        }
    }

    /// The wire of the x-coordinate, which is one of the pair: nothing is
    /// added to the circuit.
    pub fn to_x_coordinate(&self) -> (x: Field)
        ensures
            x.mode() == self.mode(),
            x.value() == self.value().x,
    {
        Field { mode: self.mode, value: self.value.x }
    }
}

impl Field {
    /// The wire's mode.
    pub closed spec fn mode(self) -> Mode {
        self.mode
    }

    /// The element that the wire carries.
    pub closed spec fn value(self) -> FieldElement {
        self.value
    }

    /// The wire's mode.
    pub fn eject_mode(&self) -> (m: Mode)
        ensures
            m == self.mode(),
    {
        self.mode
    }

    /// The element that the wire carries.
    pub fn eject_value(&self) -> (v: FieldElement)
        ensures
            v == self.value(),
    {
        self.value
    }
}

impl Circuit {
    /// The bits on the public and private wires that carry bits, in the
    /// order in which the wires were allocated.
    pub closed spec fn spec_bits(self) -> Seq<bool> {
        self.bits@
    }

    /// The mode of each wire that carries a bit.
    pub closed spec fn spec_modes(self) -> Seq<Mode> {
        self.modes@
    }

    /// The gates, in the order in which they were emitted.
    pub closed spec fn spec_gates(self) -> Seq<Gate> {
        self.gates@
    }

    /// The points on the wires that the gates determine, one for each gate.
    pub closed spec fn spec_points(self) -> Seq<Point> {
        self.points@
    }

    /// The circuit is consistent: every wire that carries a bit is public or
    /// private; every gate reads wires that the circuit had when this gate
    /// was emitted; the values on the wires satisfy the gates; and the
    /// account holds one constraint for each wire that carries a bit and for
    /// each gate, and one wire for each bit and two for each point.
    pub open spec fn wf(self) -> bool {
        &&& self.spec_modes().len() == self.spec_bits().len()
        &&& forall|i: int|
            0 <= i < self.spec_modes().len() ==> (#[trigger] self.spec_modes()[i])
                != Mode::Constant
        &&& ordered(self.spec_gates(), self.spec_bits().len())
        &&& forall|k: int| 0 <= k < self.spec_gates().len() ==> (#[trigger] self.spec_gates()[k]).wf()
        &&& forall|k: int| 0 <= k < self.spec_points().len() ==> (#[trigger] self.spec_points()[k]).wf()
        &&& satisfies(self.spec_gates(), self.spec_bits(), self.spec_points())
        &&& self@.constraints == self.spec_bits().len() + self.spec_gates().len()
        &&& self@.public + self@.private == self.spec_bits().len() + 2 * self.spec_points().len()
    }

    /// The circuit holds all that an earlier state of it held, unchanged,
    /// and possibly more.
    pub open spec fn extends(self, earlier: Circuit) -> bool {
        &&& begins(earlier.spec_bits(), self.spec_bits())
        &&& begins(earlier.spec_modes(), self.spec_modes())
        &&& begins(earlier.spec_gates(), self.spec_gates())
        &&& begins(earlier.spec_points(), self.spec_points())
    }

    /// Each entry of the account can grow by `n`.
    pub open spec fn fits(self, n: nat) -> bool {
        &&& self@.constants + n <= u64::MAX
        &&& self@.public + n <= u64::MAX
        &&& self@.private + n <= u64::MAX
        &&& self@.constraints + n <= u64::MAX
    }

    /// The account after `wires` new constants.
    pub open spec fn with_constants(self, wires: nat) -> Count {
        Count {
            constants: self@.constants + wires,
            public: self@.public,
            private: self@.private,
            constraints: self@.constraints,
        }
    }

    /// The account after one gate with `wires` new private wires.
    pub open spec fn with_gate(self, wires: nat) -> Count {
        Count {
            constants: self@.constants,
            public: self@.public,
            private: self@.private + wires,
            constraints: self@.constraints + 1,
        }
    }

    /// The account after `n` new wires of one mode that carry bits.
    pub open spec fn with_booleans(self, mode: Mode, n: nat) -> Count {
        match mode {
            Mode::Constant => self.with_constants(n),
            Mode::Public => Count {
                constants: self@.constants,
                public: self@.public + n,
                private: self@.private,
                constraints: self@.constraints + n,
            },
            Mode::Private => Count {
                constants: self@.constants,
                public: self@.public,
                private: self@.private + n,
                constraints: self@.constraints + n,
            },
        }
    }

    /// An empty circuit.
    pub fn new() -> (c: Circuit)
        ensures
            c.wf(),
            c@ == (Count { constants: 0, public: 0, private: 0, constraints: 0 }),
            c.spec_bits().len() == 0,
            c.spec_gates().len() == 0,
    {
        Circuit {
            num_constants: 0,
            num_public: 0,
            num_private: 0,
            num_constraints: 0,
            modes: Vec::new(),
            bits: Vec::new(),
            gates: Vec::new(),
            points: Vec::new(),
        }
    }

    /// Number of constant wires.
    pub fn num_constants(&self) -> (n: u64)
        ensures
            n == self@.constants,
    {
        self.num_constants
    }

    /// Number of public wires.
    pub fn num_public(&self) -> (n: u64)
        ensures
            n == self@.public,
    {
        self.num_public
    }

    /// Number of private wires.
    pub fn num_private(&self) -> (n: u64)
        ensures
            n == self@.private,
    {
        self.num_private
    }

    /// Number of constraints.
    pub fn num_constraints(&self) -> (n: u64)
        ensures
            n == self@.constraints,
    {
        self.num_constraints
    }

    /// Number of gates.
    pub fn num_gates(&self) -> (n: usize)
        ensures
            n == self.spec_gates().len(),
    {
        self.gates.len()
    }

    /// Gate number `k`.
    pub fn gate(&self, k: usize) -> (g: Gate)
        requires
            k < self.spec_gates().len(),
        ensures
            g == self.spec_gates()[k as int],
    {
        self.gates[k]
    }

    /// The bits on the wires that carry bits.
    pub fn bits(&self) -> (b: &Vec<bool>)
        ensures
            b@ == self.spec_bits(),
    {
        &self.bits
    }

    /// The points on the wires that the gates determine.
    pub fn points(&self) -> (p: &Vec<Point>)
        ensures
            p@ == self.spec_points(),
    {
        &self.points
    }

    /// The bit that a source gives.
    fn read_bit(&self, source: &BitSource) -> (b: bool)
        requires
            source.below(self.spec_bits().len()),
        ensures
            b == source.bit(self.spec_bits()),
    {
        match source {
            BitSource::Constant(b) => *b,
            BitSource::Wire(i) => self.bits[*i],
        }
    }

    /// Whether an assignment of points satisfies the gates of the circuit
    /// over the bits on its wires.
    pub fn satisfied_by(&self, points: &[Point]) -> (ok: bool)
        requires
            self.wf(),
            forall|i: int| 0 <= i < points@.len() ==> (#[trigger] points@[i]).wf(),
        ensures
            ok == satisfies(self.spec_gates(), self.spec_bits(), points@),
    {
        if points.len() != self.gates.len() {
            return false;
        }
        let mut k: usize = 0;
        while k < self.gates.len()
            invariant
                self.wf(),
                points@.len() == self.spec_gates().len(),
                forall|i: int| 0 <= i < points@.len() ==> (#[trigger] points@[i]).wf(),
                k <= self.spec_gates().len(),
                forall|j: int|
                    0 <= j < k ==> points@[j] == (#[trigger] self.spec_gates()[j]).output(
                        self.spec_bits(),
                        points@,
                    ),
            decreases self.spec_gates().len() - k,
        {
            let gate = self.gates[k];
            let expected = match gate {
                Gate::Lookup { table, b0, b1, b2 } => table.select(
                    self.read_bit(&b0),
                    self.read_bit(&b1),
                    self.read_bit(&b2),
                ),
                Gate::Sum { a, b } => {
                    let left = match a {
                        PointSource::Constant(p) => p,
                        PointSource::Wire(i) => points[i],
                    };
                    let right = match b {
                        PointSource::Constant(p) => p,
                        PointSource::Wire(i) => points[i],
                    };
                    point_add(&left, &right)
                },
                Gate::Choice { condition, a, b } => {
                    if self.read_bit(&condition) {
                        match a {
                            PointSource::Constant(p) => p,
                            PointSource::Wire(i) => points[i],
                        }
                    } else {
                        match b {
                            PointSource::Constant(p) => p,
                            PointSource::Wire(i) => points[i],
                        }
                    }
                },
            };
            if !expected.same(&points[k]) {
                return false;
            }
            k += 1;
        }
        true
    }

    /// Enters the two private wires of a point and a gate that determines
    /// them.
    fn emit(&mut self, gate: Gate, value: Point) -> (g: Group)
        requires
            old(self).wf(),
            old(self).fits(POINT_WIRES as nat),
            gate.wf(),
            value.wf(),
            gate.reads_below(old(self).spec_bits().len(), old(self).spec_gates().len()),
            value == gate.output(old(self).spec_bits(), old(self).spec_points()),
        ensures
            final(self).wf(),
            final(self).extends(*old(self)),
            final(self)@ == old(self).with_gate(POINT_WIRES as nat),
            final(self).spec_bits() == old(self).spec_bits(),
            final(self).spec_modes() == old(self).spec_modes(),
            final(self).spec_gates() == old(self).spec_gates().push(gate),
            final(self).spec_points() == old(self).spec_points().push(value),
            g.mode() == Mode::Private,
            g.value() == value,
            g.in_circuit(*final(self)),
    {
        let index = self.points.len();
        self.gates.push(gate);
        self.points.push(value);
        self.num_private = self.num_private + POINT_WIRES;
        self.num_constraints = self.num_constraints + 1;
        Group { mode: Mode::Private, value, index }
    }

    /// Enters `wires` constants.
    fn enter_constants(&mut self, wires: u64)
        requires
            old(self).wf(),
            old(self)@.constants + wires <= u64::MAX,
        ensures
            final(self).wf(),
            final(self).extends(*old(self)),
            final(self)@ == old(self).with_constants(wires as nat),
            final(self).spec_bits() == old(self).spec_bits(),
            final(self).spec_modes() == old(self).spec_modes(),
            final(self).spec_gates() == old(self).spec_gates(),
            final(self).spec_points() == old(self).spec_points(),
    {
        self.num_constants = self.num_constants + wires;
    }

    /// Allocates a wire for a bit. A constant is entered as such; a public or
    /// private wire comes with the constraint that it carries a bit.
    pub fn new_boolean(&mut self, mode: Mode, value: bool) -> (b: Boolean)
        requires
            old(self).wf(),
            old(self).fits(1),
        ensures
            final(self).wf(),
            final(self).extends(*old(self)),
            b.mode() == mode,
            b.value() == value,
            b.in_circuit(*final(self)),
            final(self)@ == old(self).with_booleans(mode, 1),
            final(self).spec_gates() == old(self).spec_gates(),
            final(self).spec_points() == old(self).spec_points(),
    {
        match mode {
            Mode::Constant => {
                self.enter_constants(1);
                Boolean { mode, value, index: 0 }
            },
            _ => {
                let index = self.bits.len();
                self.bits.push(value);
                self.modes.push(mode);
                match mode {
                    Mode::Public => {
                        self.num_public = self.num_public + 1;
                    },
                    _ => {
                        self.num_private = self.num_private + 1;
                    },
                }
                self.num_constraints = self.num_constraints + 1;
                Boolean { mode, value, index }
            },
        }
    }

    /// Allocates the constant wires of a point.
    pub fn new_constant(&mut self, value: Point) -> (g: Group)
        requires
            old(self).wf(),
            old(self).fits(POINT_WIRES as nat),
        ensures
            final(self).wf(),
            final(self).extends(*old(self)),
            g.mode() == Mode::Constant,
            g.value() == value,
            g.in_circuit(*final(self)),
            final(self)@ == old(self).with_constants(POINT_WIRES as nat),
            final(self).spec_gates() == old(self).spec_gates(),
    {
        self.enter_constants(POINT_WIRES);
        Group { mode: Mode::Constant, value, index: 0 }
    }

    /// All three bits are constants.
    pub open spec fn folds3(b0: Boolean, b1: Boolean, b2: Boolean) -> bool {
        b0.mode() == Mode::Constant && b1.mode() == Mode::Constant && b2.mode() == Mode::Constant
    }

    /// Both points are constants.
    pub open spec fn folds2(a: Group, b: Group) -> bool {
        a.mode() == Mode::Constant && b.mode() == Mode::Constant
    }

    /// Looks the contribution of a chunk up in the multiples of its base.
    /// With three constant bits the result is a constant, found while the
    /// circuit is assembled; otherwise one lookup gate determines it.
    pub fn lookup(&mut self, table: &Multiples, b0: &Boolean, b1: &Boolean, b2: &Boolean) -> (g:
        Group)
        requires
            old(self).wf(),
            old(self).fits(POINT_WIRES as nat),
            table.wf(),
            b0.in_circuit(*old(self)),
            b1.in_circuit(*old(self)),
            b2.in_circuit(*old(self)),
        ensures
            final(self).wf(),
            final(self).extends(*old(self)),
            g.wf(),
            g.in_circuit(*final(self)),
            g.value() == table.spec_select(b0.value(), b1.value(), b2.value()),
            Self::folds3(*b0, *b1, *b2) ==> {
                &&& g.mode() == Mode::Constant
                &&& final(self)@ == old(self).with_constants(POINT_WIRES as nat)
                &&& final(self).spec_gates() == old(self).spec_gates()
            },
            !Self::folds3(*b0, *b1, *b2) ==> {
                &&& g.mode() == Mode::Private
                &&& final(self)@ == old(self).with_gate(POINT_WIRES as nat)
                &&& final(self).spec_gates() == old(self).spec_gates().push(
                    Gate::Lookup {
                        table: *table,
                        b0: b0.source(),
                        b1: b1.source(),
                        b2: b2.source(),
                    },
                )
            },
    {
        let value = table.select(b0.value, b1.value, b2.value);
        if b0.is_constant() && b1.is_constant() && b2.is_constant() {
            self.enter_constants(POINT_WIRES);
            Group { mode: Mode::Constant, value, index: 0 }
        } else {
            let gate = Gate::Lookup {
                table: *table,
                b0: b0.to_source(),
                b1: b1.to_source(),
                b2: b2.to_source(),
            };
            self.emit(gate, value)
        }
    }

    /// Adds two points by the complete addition law. The sum of two
    /// constants is a constant, found while the circuit is assembled;
    /// otherwise one addition gate determines it.
    pub fn add_points(&mut self, a: &Group, b: &Group) -> (g: Group)
        requires
            old(self).wf(),
            old(self).fits(POINT_WIRES as nat),
            a.wf(),
            b.wf(),
            a.in_circuit(*old(self)),
            b.in_circuit(*old(self)),
        ensures
            final(self).wf(),
            final(self).extends(*old(self)),
            g.wf(),
            g.in_circuit(*final(self)),
            g.value() == curve_add(a.value(), b.value()),
            Self::folds2(*a, *b) ==> {
                &&& g.mode() == Mode::Constant
                &&& final(self)@ == old(self).with_constants(POINT_WIRES as nat)
                &&& final(self).spec_gates() == old(self).spec_gates()
            },
            !Self::folds2(*a, *b) ==> {
                &&& g.mode() == Mode::Private
                &&& final(self)@ == old(self).with_gate(POINT_WIRES as nat)
                &&& final(self).spec_gates() == old(self).spec_gates().push(
                    Gate::Sum { a: a.source(), b: b.source() },
                )
            },
    {
        let value = point_add(&a.value, &b.value);
        if a.is_constant() && b.is_constant() {
            self.enter_constants(POINT_WIRES);
            Group { mode: Mode::Constant, value, index: 0 }
        } else {
            let gate = Gate::Sum { a: a.to_source(), b: b.to_source() };
            self.emit(gate, value)
        }
    }

    /// Selects the first point where the bit is set, the second where it is
    /// not. A constant bit selects while the circuit is assembled, and the
    /// chosen wires are handed back as they are; otherwise one selection
    /// gate determines the result.
    pub fn select(&mut self, condition: &Boolean, a: &Group, b: &Group) -> (g: Group)
        requires
            old(self).wf(),
            old(self).fits(POINT_WIRES as nat),
            a.wf(),
            b.wf(),
            condition.in_circuit(*old(self)),
            a.in_circuit(*old(self)),
            b.in_circuit(*old(self)),
        ensures
            final(self).wf(),
            final(self).extends(*old(self)),
            g.wf(),
            g.in_circuit(*final(self)),
            g.value() == if condition.value() { a.value() } else { b.value() },
            condition.mode() == Mode::Constant ==> {
                &&& *final(self) == *old(self)
                &&& g == if condition.value() { *a } else { *b }
            },
            condition.mode() != Mode::Constant ==> {
                &&& g.mode() == Mode::Private
                &&& final(self)@ == old(self).with_gate(POINT_WIRES as nat)
                &&& final(self).spec_gates() == old(self).spec_gates().push(
                    Gate::Choice { condition: condition.source(), a: a.source(), b: b.source() },
                )
            },
    {
        if condition.is_constant() {
            if condition.value {
                *a
            } else {
                *b
            }
        } else {
            let gate = Gate::Choice {
                condition: condition.to_source(),
                a: a.to_source(),
                b: b.to_source(),
            };
            let value = if condition.value { a.value } else { b.value };
            self.emit(gate, value)
        }
    }
}

/// The bits that a sequence of wires carries.
pub open spec fn wire_values(bits: Seq<Boolean>) -> Seq<bool> {
    Seq::new(bits.len(), |i: int| bits[i].value())
}

/// Every wire of the sequence is a constant.
pub open spec fn all_constant(bits: Seq<Boolean>) -> bool {
    forall|i: int| 0 <= i < bits.len() ==> (#[trigger] bits[i]).mode() == Mode::Constant
}

/// No wire of the sequence is a constant.
pub open spec fn none_constant(bits: Seq<Boolean>) -> bool {
    forall|i: int| 0 <= i < bits.len() ==> (#[trigger] bits[i]).mode() != Mode::Constant
}

/// Every wire of the sequence is a constant or a wire of the circuit.
pub open spec fn all_in_circuit(bits: Seq<Boolean>, circuit: Circuit) -> bool {
    forall|i: int| 0 <= i < bits.len() ==> (#[trigger] bits[i]).in_circuit(circuit)
}

/// The wires that carry the bits of a scalar, least significant first.
#[derive(Clone, Debug, PartialEq, Eq)]
pub struct Scalar {
    mode: Mode,
    value: crate::field::Scalar,
    bits: Vec<Boolean>,
}

impl Scalar {
    /// The mode of all the wires.
    pub closed spec fn mode(self) -> Mode {
        self.mode
    }

    /// The scalar that the wires carry.
    pub closed spec fn value(self) -> crate::field::Scalar {
        self.value
    }

    /// The wires, least significant bit first.
    pub closed spec fn bits(self) -> Seq<Boolean> {
        self.bits@
    }

    /// The scalar is reduced; there is one wire of the scalar's mode for each
    /// of its bits, and it carries that bit.
    pub open spec fn wf(self) -> bool {
        &&& self.value().is_canonical()
        &&& self.bits().len() == SCALAR_BITS
        &&& forall|i: int|
            0 <= i < SCALAR_BITS ==> (#[trigger] self.bits()[i]).value() == self.value().bit(i)
        &&& forall|i: int| 0 <= i < SCALAR_BITS ==> (#[trigger] self.bits()[i]).mode() == self.mode()
    }

    /// Every wire of the scalar is a constant or a wire of the circuit.
    pub open spec fn in_circuit(self, circuit: Circuit) -> bool {
        all_in_circuit(self.bits(), circuit)
    }

    /// The mode of all the wires.
    pub fn eject_mode(&self) -> (m: Mode)
        ensures
            m == self.mode(),
    {
        self.mode
    }

    /// The scalar that the wires carry.
    pub fn eject_value(&self) -> (v: crate::field::Scalar)
        ensures
            v == self.value(),
    {
        self.value
    }

    /// The wire of bit `i`.
    pub fn bit(&self, i: usize) -> (b: Boolean)
        requires
            self.wf(),
            i < SCALAR_BITS,
        ensures
            b == self.bits()[i as int],
            b.value() == self.value().bit(i as int),
            b.mode() == self.mode(),
    {
        self.bits[i]
    }
}

impl Circuit {
    /// Allocates one wire of the given mode for each bit.
    pub fn new_booleans(&mut self, mode: Mode, values: &[bool]) -> (bits: Vec<Boolean>)
        requires
            old(self).wf(),
            old(self).fits(values@.len()),
        ensures
            final(self).wf(),
            final(self).extends(*old(self)),
            bits@.len() == values@.len(),
            wire_values(bits@) == values@,
            forall|i: int| 0 <= i < bits@.len() ==> (#[trigger] bits@[i]).mode() == mode,
            all_in_circuit(bits@, *final(self)),
            final(self)@ == old(self).with_booleans(mode, values@.len()),
            final(self).spec_gates() == old(self).spec_gates(),
    {
        let mut bits: Vec<Boolean> = Vec::with_capacity(values.len());
        let mut i: usize = 0;
        while i < values.len()
            invariant
                i <= values@.len(),
                old(self).fits(values@.len()),
                self.wf(),
                self.extends(*old(self)),
                bits@.len() == i,
                forall|j: int| 0 <= j < i ==> (#[trigger] bits@[j]).value() == values@[j],
                forall|j: int| 0 <= j < i ==> (#[trigger] bits@[j]).mode() == mode,
                all_in_circuit(bits@, *self),
                self@ == old(self).with_booleans(mode, i as nat),
                self.spec_gates() == old(self).spec_gates(),
            decreases values@.len() - i,
        {
            let b = self.new_boolean(mode, values[i]);
            bits.push(b);
            i += 1;
        }
        bits
    }

    /// Allocates the wires of a scalar, one of the given mode for each of its
    /// bits.
    pub fn new_scalar(&mut self, mode: Mode, value: &crate::field::Scalar) -> (s: Scalar)
        requires
            old(self).wf(),
            value.is_canonical(),
            old(self).fits(SCALAR_BITS as nat),
        ensures
            final(self).wf(),
            final(self).extends(*old(self)),
            s.wf(),
            s.mode() == mode,
            s.value() == *value,
            s.in_circuit(*final(self)),
            final(self)@ == old(self).with_booleans(mode, SCALAR_BITS as nat),
            final(self).spec_gates() == old(self).spec_gates(),
    {
        let values = value.to_bits_le();
        let bits = self.new_booleans(mode, values.as_slice());
        assert forall|i: int| 0 <= i < SCALAR_BITS implies (#[trigger] bits@[i]).value()
            == value.bit(i) by {
            assert(wire_values(bits@)[i] == values@[i]);
        }
        Scalar { mode, value: *value, bits }
    }
}

} // verus!
