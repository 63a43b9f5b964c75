use crate::curve::{
    curve_add, curve_double, curve_neg, identity_point, point_add, point_double, point_identity,
    point_neg, Point,
};
use crate::encoding::{chunk_value, encode_chunk, CHUNK_SIZE};
use crate::error::Error;
use crate::field::{FieldElement, Scalar, SCALAR_BITS};
use crate::generator::{derivable, repeated_double, BaseTable};
use vstd::prelude::*;
use vstd::string::StringSliceAdditionalSpecFns;

verus! {

/// The `magnitude`-fold multiple of a base, for the magnitudes 1 to 4.
pub open spec fn multiple(base: Point, magnitude: int) -> Point {
    if magnitude == 1 {
        base
    } else if magnitude == 2 {
        curve_add(base, base)
    } else if magnitude == 3 {
        curve_add(base, curve_double(base))
    } else {
        curve_add(curve_add(base, base), curve_double(base))
    }
}

/// A base scaled by the signed value of a chunk.
pub open spec fn scaled(base: Point, value: int) -> Point {
    if value < 0 {
        curve_neg(multiple(base, -value))
    } else {
        multiple(base, value)
    }
}

/// What chunk `chunk` of the input adds to the hash: its base, scaled by the
/// value that its three bits encode.
pub open spec fn contribution(bases: Seq<Point>, input: Seq<bool>, chunk: int) -> Point {
    scaled(
        bases[chunk],
        chunk_value(input[3 * chunk], input[3 * chunk + 1], input[3 * chunk + 2]),
    )
}

/// The sum of the contributions of the first `chunks` chunks, taken in order
/// from the neutral element.
pub open spec fn hash_prefix(bases: Seq<Point>, input: Seq<bool>, chunks: nat) -> Point
    decreases chunks,
{
    if chunks == 0 {
        identity_point()
    } else {
        curve_add(
            hash_prefix(bases, input, (chunks - 1) as nat),
            contribution(bases, input, chunks - 1),
        )
    }
}

/// The hash of an input as a point: the sum of the contributions of all its
/// chunks, window after window and chunk after chunk. Chunks that the input
/// does not reach add nothing.
pub open spec fn hash_point(bases: Seq<Point>, input: Seq<bool>) -> Point {
    hash_prefix(bases, input, input.len() / 3)
}

/// The multiple of a base by the number whose first `n` bits are given, least
/// significant first, by doubling and adding.
pub open spec fn scalar_multiple(base: Point, bits: Seq<bool>, n: nat) -> Point
    decreases n,
{
    if n == 0 {
        identity_point()
    } else if bits[n - 1] {
        curve_add(scalar_multiple(base, bits, (n - 1) as nat), repeated_double(base, (n - 1) as nat))
    } else {
        scalar_multiple(base, bits, (n - 1) as nat)
    }
}

/// The commitment to an input as a point: its hash, plus the base of the
/// randomizer multiplied by the randomizer.
pub open spec fn commit_point(
    bases: Seq<Point>,
    random_base: Point,
    input: Seq<bool>,
    randomizer: Scalar,
) -> Point {
    curve_add(
        hash_point(bases, input),
        scalar_multiple(random_base, randomizer.bits(SCALAR_BITS as nat), SCALAR_BITS as nat),
    )
}

/// What deriving a scheme from a domain gives: the scheme over the bases
/// derived from the domain where they can be derived, and the error of the
/// derivation where they cannot.
pub open spec fn setup_outcome(
    r: Result<BHP, Error>,
    num_windows: u8,
    window_size: u8,
    domain: Seq<u8>,
) -> bool {
    match r {
        Ok(bhp) => {
            &&& derivable(num_windows, window_size, domain)
            &&& bhp.wf()
            &&& bhp.spec_table().derived_from(num_windows, window_size, domain)
        },
        Err(e) => e == Error::SetupError && !derivable(num_windows, window_size, domain),
    }
}

/// The multiples of one base that a chunk can select.
#[derive(Clone, Copy, Debug, PartialEq, Eq)]
pub struct Multiples {
    pub one: Point,
    pub two: Point,
    pub three: Point,
    pub four: Point,
}

impl Multiples {
    /// The multiples of `base`.
    pub open spec fn of(base: Point) -> Multiples {
        Multiples {
            one: multiple(base, 1),
            two: multiple(base, 2),
            three: multiple(base, 3),
            four: multiple(base, 4),
        }
    }

    /// All four are points of the curve.
    pub open spec fn wf(self) -> bool {
        self.one.wf() && self.two.wf() && self.three.wf() && self.four.wf()
    }

    /// Computes the multiples of a base.
    pub fn compute(base: &Point) -> (m: Multiples)
        requires
            base.wf(),
        ensures
            m == Multiples::of(*base),
            m.wf(),
    {
        let two = point_add(base, base);
        let doubled = point_double(base);
        let three = point_add(base, &doubled);
        let four = point_add(&two, &doubled);
        Multiples { one: *base, two, three, four }
    }

    /// The multiple that the bits of a chunk select: the first two bits pick
    /// the magnitude, the last one negates.
    pub open spec fn spec_select(self, b0: bool, b1: bool, b2: bool) -> Point {
        let entry = if b0 && b1 {
            self.four
        } else if b1 {
            self.three
        } else if b0 {
            self.two
        } else {
            self.one
        };
        if b2 {
            curve_neg(entry)
        } else {
            entry
        }
    }

    /// Among the multiples of a base, the bits of a chunk select the base
    /// scaled by the value that they encode.
    pub proof fn lemma_select_scaled(base: Point, b0: bool, b1: bool, b2: bool)
        ensures
            Multiples::of(base).spec_select(b0, b1, b2) == scaled(base, chunk_value(b0, b1, b2)),
    {
    }

    /// The multiple that the bits of a chunk select, with their sign.
    pub fn select(&self, b0: bool, b1: bool, b2: bool) -> (p: Point)
        requires
            self.wf(),
        ensures
            p == self.spec_select(b0, b1, b2),
            p.wf(),
    {
        let value = encode_chunk(b0, b1, b2);
        let magnitude: i8 = if value < 0 { -value } else { value };
        let entry = if magnitude == 1 {
            self.one
        } else if magnitude == 2 {
            self.two
        } else if magnitude == 3 {
            self.three
        } else {
            self.four
        };
        if value < 0 {
            point_neg(&entry)
        } else {
            entry
        }
    }
}

/// The hash and commitment scheme over one table of bases.
#[derive(Clone, Debug, PartialEq, Eq)]
pub struct BHP {
    table: BaseTable,
    lookup: Vec<Multiples>,
}

impl BHP {
    /// The table of bases.
    pub closed spec fn spec_table(self) -> BaseTable {
        self.table
    }

    /// The multiples of each base.
    pub closed spec fn spec_lookup(self) -> Seq<Multiples> {
        self.lookup@
    }

    /// The table is well-formed, and the multiples are those of its bases.
    pub open spec fn wf(self) -> bool {
        &&& self.spec_table().wf()
        &&& self.spec_lookup().len() == self.spec_table().spec_bases().len()
        &&& forall|c: int|
            0 <= c < self.spec_lookup().len() ==> #[trigger] self.spec_lookup()[c] == Multiples::of(
                self.spec_table().spec_bases()[c],
            )
        &&& forall|c: int| 0 <= c < self.spec_lookup().len() ==> (#[trigger] self.spec_lookup()[c]).wf()
    }

    /// Largest number of bits that an input may have.
    pub open spec fn spec_max_bits(self) -> nat {
        3 * self.spec_table().spec_num_chunks()
    }

    /// The input's length is a multiple of the chunk size and within the
    /// range of the bases.
    pub open spec fn accepts(self, input: Seq<bool>) -> bool {
        input.len() % 3 == 0 && input.len() <= self.spec_max_bits()
    }

    /// The hash of an input as a point.
    pub open spec fn spec_hash_uncompressed(self, input: Seq<bool>) -> Point {
        hash_point(self.spec_table().spec_bases(), input)
    }

    /// The commitment to an input as a point.
    pub open spec fn spec_commit_uncompressed(self, input: Seq<bool>, randomizer: Scalar) -> Point {
        commit_point(
            self.spec_table().spec_bases(),
            self.spec_table().spec_random_base(),
            input,
            randomizer,
        )
    }

    /// Derives the bases from a domain string and prepares the scheme.
    pub fn setup(num_windows: u8, window_size: u8, domain: &str) -> (r: Result<BHP, Error>)
        ensures
            setup_outcome(r, num_windows, window_size, domain.spec_bytes()),
    {
        match BaseTable::setup(num_windows, window_size, domain) {
            Ok(table) => Ok(BHP::new(table)),
            Err(e) => Err(e),
        }
    }

    /// Prepares the scheme over a table of bases.
    pub fn new(table: BaseTable) -> (bhp: BHP)
        requires
            table.wf(),
        ensures
            bhp.wf(),
            bhp.spec_table() == table,
    {
        let n = table.num_chunks();
        let mut lookup: Vec<Multiples> = Vec::with_capacity(n);
        let mut c: usize = 0;
        while c < n
            invariant
                table.wf(),
                n == table.spec_num_chunks(),
                c <= n,
                lookup@.len() == c,
                forall|i: int|
                    0 <= i < c ==> #[trigger] lookup@[i] == Multiples::of(table.spec_bases()[i]),
                forall|i: int| 0 <= i < c ==> (#[trigger] lookup@[i]).wf(),
            decreases n - c,
        {
            let base = table.base(c);
            let m = Multiples::compute(&base);
            lookup.push(m);
            c += 1;
        }
        BHP { table, lookup }
    }

    /// The table of bases.
    pub fn table(&self) -> (t: &BaseTable)
        ensures
            *t == self.spec_table(),
    {
        &self.table
    }

    /// The multiples of the base of chunk `chunk`.
    pub fn multiples(&self, chunk: usize) -> (m: Multiples)
        requires
            self.wf(),
            chunk < self.spec_table().spec_num_chunks(),
        ensures
            m == Multiples::of(self.spec_table().spec_bases()[chunk as int]),
            m.wf(),
    {
        self.lookup[chunk]
    }

    /// Largest number of bits that an input may have.
    pub fn max_bits(&self) -> (n: usize)
        requires
            self.wf(),
        ensures
            n == self.spec_max_bits(),
    {
        proof {
            self.spec_table().lemma_num_chunks_bound();
        }
        3 * self.lookup.len()
    }

    /// Whether an input of `len` bits is accepted.
    pub fn accepts_length(&self, len: usize) -> (ok: bool)
        requires
            self.wf(),
        ensures
            ok == (len % 3 == 0 && len <= self.spec_max_bits()),
    {
        len % CHUNK_SIZE == 0 && len <= self.max_bits()
    }

    /// Hashes an input to a point. An input whose length is not a multiple of
    /// the chunk size, or exceeds the range of the bases, is refused before
    /// any arithmetic. A shorter input is hashed as it is: no bit is added to
    /// it, and the chunks beyond its end contribute nothing, as if each had
    /// the value zero, which no chunk of bits has.
    pub fn hash_uncompressed(&self, input: &[bool]) -> (r: Result<Point, Error>)
        requires
            self.wf(),
        ensures
            match r {
                Ok(p) => self.accepts(input@) && p == self.spec_hash_uncompressed(input@) && p.wf(),
                Err(e) => e == Error::InputLengthError && !self.accepts(input@),
            },
    {
        if !self.accepts_length(input.len()) {
            return Err(Error::InputLengthError);
        }
        let chunks: usize = input.len() / CHUNK_SIZE;
        let mut acc = point_identity();
        let mut c: usize = 0;
        while c < chunks
            invariant
                self.wf(),
                self.accepts(input@),
                chunks == input@.len() / 3,
                3 * chunks <= input@.len() <= usize::MAX,
                c <= chunks,
                acc.wf(),
                acc == hash_prefix(self.spec_table().spec_bases(), input@, c as nat),
            decreases chunks - c,
        {
            let m = self.multiples(c);
            let term = m.select(input[3 * c], input[3 * c + 1], input[3 * c + 2]);
            acc = point_add(&acc, &term);
            c += 1;
        }
        Ok(acc)
    }

    /// Hashes an input to a field element: the x-coordinate of its hash as a
    /// point.
    pub fn hash(&self, input: &[bool]) -> (r: Result<FieldElement, Error>)
        requires
            self.wf(),
        ensures
            match r {
                Ok(x) => self.accepts(input@) && x.is_canonical() && x == self.spec_hash_uncompressed(
                    input@,
                ).x,
                Err(e) => e == Error::InputLengthError && !self.accepts(input@),
            },
    {
        match self.hash_uncompressed(input) {
            Ok(p) => Ok(p.to_x_coordinate()),
            Err(e) => Err(e),
        }
    }

    /// The base of the randomizer multiplied by a randomizer.
    pub fn blinding(&self, randomizer: &Scalar) -> (p: Point)
        requires
            self.wf(),
            randomizer.is_canonical(),
        ensures
            p == scalar_multiple(
                self.spec_table().spec_random_base(),
                randomizer.bits(SCALAR_BITS as nat),
                SCALAR_BITS as nat,
            ),
            p.wf(),
    {
        let ghost base = self.spec_table().spec_random_base();
        let ghost bits = randomizer.bits(SCALAR_BITS as nat);
        let mut acc = point_identity();
        let mut power = self.table.random_base();
        let mut i: usize = 0;
        while i < SCALAR_BITS
            invariant
                i <= SCALAR_BITS,
                base.wf(),
                bits == randomizer.bits(SCALAR_BITS as nat),
                acc.wf(),
                power.wf(),
                power == repeated_double(base, i as nat),
                acc == scalar_multiple(base, bits, i as nat),
            decreases SCALAR_BITS - i,
        {
            if randomizer.get_bit(i) {
                acc = point_add(&acc, &power);
            }
            power = point_double(&power);
            i += 1;
        }
        acc
    }

    /// Commits to an input under a randomizer, as a point: the hash of the
    /// input plus the blinding term.
    pub fn commit_uncompressed(&self, input: &[bool], randomizer: &Scalar) -> (r: Result<
        Point,
        Error,
    >)
        requires
            self.wf(),
            randomizer.is_canonical(),
        ensures
            match r {
                Ok(p) => self.accepts(input@) && p == self.spec_commit_uncompressed(
                    input@,
                    *randomizer,
                ) && p.wf(),
                Err(e) => e == Error::InputLengthError && !self.accepts(input@),
            },
    {
        match self.hash_uncompressed(input) {
            Ok(hash) => {
                let blind = self.blinding(randomizer);
                Ok(point_add(&hash, &blind))
            },
            Err(e) => Err(e),
        }
    }

    /// Commits to an input under a randomizer, as a field element: the
    /// x-coordinate of the commitment as a point.
    pub fn commit(&self, input: &[bool], randomizer: &Scalar) -> (r: Result<FieldElement, Error>)
        requires
            self.wf(),
            randomizer.is_canonical(),
        ensures
            match r {
                Ok(x) => self.accepts(input@) && x.is_canonical() && x
                    == self.spec_commit_uncompressed(input@, *randomizer).x,
                Err(e) => e == Error::InputLengthError && !self.accepts(input@),
            },
    {
        match self.commit_uncompressed(input, randomizer) {
            Ok(p) => Ok(p.to_x_coordinate()),
            Err(e) => Err(e),
        }
    }
}

} // verus!
