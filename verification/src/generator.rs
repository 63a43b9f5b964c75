use crate::curve::{
    clear_cofactor, curve_clear_cofactor, curve_decode, curve_double, point_decode, point_double,
    Point,
};
use crate::digest::{xof, xof_digest};
use crate::error::Error;
use crate::text::{decimal, push_bytes, push_decimal};
use vstd::prelude::*;
use vstd::string::StringSliceAdditionalSpecFns;

verus! {

/// Number of messages tried for one generator before giving up.
pub const MAX_ATTEMPTS: u8 = 128;

/// Number of bytes that a point is decoded from.
pub const POINT_BYTES: u16 = 32;

/// The personalization of the hash that samples points: `AleoHtC0`.
pub open spec fn sampling_persona() -> Seq<u8> {
    seq![65u8, 108u8, 101u8, 111u8, 72u8, 116u8, 67u8, 48u8]
}

/// The message of attempt `k`: the input, then ` in `, then `k` in decimal.
pub open spec fn attempt_message(input: Seq<u8>, k: nat) -> Seq<u8> {
    input + seq![32u8, 105u8, 110u8, 32u8] + decimal(k)
}

/// The point that attempt `k` yields: the message's digest is decoded, the
/// cofactor is cleared, and the neutral element is refused.
pub open spec fn attempt(input: Seq<u8>, k: nat) -> Option<Point> {
    match curve_decode(xof_digest(attempt_message(input, k), POINT_BYTES, sampling_persona())) {
        Some(raw) => {
            let cleared = curve_clear_cofactor(raw);
            if cleared.is_identity() {
                None
            } else {
                Some(cleared)
            }
        },
        None => None,
    }
}

/// The point of the first attempt from `k` on that yields one, if any attempt
/// below the bound does.
pub open spec fn first_sample(input: Seq<u8>, k: nat) -> Option<Point>
    decreases MAX_ATTEMPTS as nat - k,
{
    if k >= MAX_ATTEMPTS as nat {
        None
    } else if attempt(input, k).is_some() {
        attempt(input, k)
    } else {
        first_sample(input, k + 1)
    }
}

/// The generator that a message is hashed to.
pub open spec fn sample(input: Seq<u8>) -> Option<Point> {
    first_sample(input, 0)
}

/// Hashes a message to a point of the curve, with its cofactor cleared and
/// other than the neutral element. Fails when none of the bounded number of
/// attempts yields one.
pub fn hash_to_curve(input: &[u8]) -> (r: Option<Point>)
    ensures
        r == sample(input@),
        r.is_some() ==> r.unwrap().wf() && !r.unwrap().is_identity(),
{
    let persona: [u8; 8] = [65u8, 108u8, 101u8, 111u8, 72u8, 116u8, 67u8, 48u8];
    let mut k: u8 = 0;
    while k < MAX_ATTEMPTS
        invariant
            k <= MAX_ATTEMPTS,
            persona@ == sampling_persona(),
            sample(input@) == first_sample(input@, k as nat),
        decreases MAX_ATTEMPTS - k,
    {
        let mut message: Vec<u8> = Vec::new();
        push_bytes(&mut message, input);
        push_bytes(&mut message, &[32u8, 105u8, 110u8, 32u8]);
        push_decimal(&mut message, k as u64);
        let digest = xof(message.as_slice(), POINT_BYTES, &persona);
        match point_decode(digest.as_slice()) {
            Some(raw) => {
                let cleared = clear_cofactor(&raw);
                if !cleared.check_identity() {
                    return Some(cleared);
                }
            },
            None => {},
        }
        k += 1;
    }
    None
}

/// A point doubled `n` times.
pub open spec fn repeated_double(p: Point, n: nat) -> Point
    decreases n,
{
    if n == 0 {
        p
    } else {
        curve_double(repeated_double(p, (n - 1) as nat))
    }
}

/// Doubles a point `n` times.
pub fn double_times(p: &Point, n: usize) -> (r: Point)
    requires
        p.wf(),
    ensures
        r == repeated_double(*p, n as nat),
        r.wf(),
{
    let mut r = *p;
    let mut i: usize = 0;
    while i < n
        invariant
            i <= n,
            r.wf(),
            r == repeated_double(*p, i as nat),
        decreases n - i,
    {
        r = point_double(&r);
        i += 1;
    }
    r
}

} // verus!

verus! {

/// Widest window that the scalar field allows: the largest number `s` of
/// chunks for which twice 16 to the `s - 1` stays below half the order of
/// the prime subgroup.
pub const MAX_WINDOW_SIZE: u8 = 63;

/// Twice 16 to the 62 is below half the order of the prime subgroup, and
/// twice 16 to the 63 is not: 63 is the widest window.
pub proof fn lemma_max_window_size()
    ensures
        0x2_00000000_00000000_00000000_00000000_00000000_00000000_00000000_000000nat < (
        crate::field::scalar_modulus() - 1) / 2,
        (crate::field::scalar_modulus() - 1) / 2
            <= 0x2_00000000_00000000_00000000_00000000_00000000_00000000_00000000_0000000nat,
{
}

/// Number of doublings between the bases of neighbouring chunks of a window.
pub const DOUBLINGS_PER_CHUNK: usize = 4;

/// What every message of one parameterization starts with:
/// `Aleo.BHP.`, the number of windows, the window size and the domain,
/// each followed by a dot.
pub open spec fn message_prefix(num_windows: u8, window_size: u8, domain: Seq<u8>) -> Seq<u8> {
    seq![65u8, 108u8, 101u8, 111u8, 46u8, 66u8, 72u8, 80u8, 46u8] + decimal(num_windows as nat)
        + seq![46u8] + decimal(window_size as nat) + seq![46u8] + domain + seq![46u8]
}

/// The message that the generator of window `window` is hashed from.
pub open spec fn window_message(
    num_windows: u8,
    window_size: u8,
    domain: Seq<u8>,
    window: u8,
) -> Seq<u8> {
    message_prefix(num_windows, window_size, domain) + decimal(window as nat)
}

/// The message that the base of the randomizer is hashed from: the prefix and
/// the word `Randomizer`.
pub open spec fn randomizer_message(num_windows: u8, window_size: u8, domain: Seq<u8>) -> Seq<u8> {
    message_prefix(num_windows, window_size, domain) + seq![
        82u8,
        97u8,
        110u8,
        100u8,
        111u8,
        109u8,
        105u8,
        122u8,
        101u8,
        114u8,
    ]
}

/// The generator of window `window`.
pub open spec fn window_generator(
    num_windows: u8,
    window_size: u8,
    domain: Seq<u8>,
    window: u8,
) -> Option<Point> {
    sample(window_message(num_windows, window_size, domain, window))
}

/// The base that blinds a commitment.
pub open spec fn randomizer_generator(num_windows: u8, window_size: u8, domain: Seq<u8>) -> Option<
    Point,
> {
    sample(randomizer_message(num_windows, window_size, domain))
}

/// The bases of a parameterization can be derived: the window is not too
/// wide, and every window and the randomizer get a generator.
pub open spec fn derivable(num_windows: u8, window_size: u8, domain: Seq<u8>) -> bool {
    &&& window_size <= MAX_WINDOW_SIZE
    &&& forall|window: u8|
        window < num_windows ==> #[trigger] window_generator(
            num_windows,
            window_size,
            domain,
            window,
        ).is_some()
    &&& randomizer_generator(num_windows, window_size, domain).is_some()
}

/// The base of chunk `chunk`, counted through all windows: the generator of
/// its window, doubled four times for each chunk that precedes it there.
pub open spec fn base_at(num_windows: u8, window_size: u8, domain: Seq<u8>, chunk: int) -> Point {
    repeated_double(
        window_generator(
            num_windows,
            window_size,
            domain,
            (chunk / window_size as int) as u8,
        ).unwrap(),
        (DOUBLINGS_PER_CHUNK * (chunk % window_size as int)) as nat,
    )
}

/// All bases of a parameterization, window after window.
pub open spec fn derived_bases(num_windows: u8, window_size: u8, domain: Seq<u8>) -> Seq<Point> {
    Seq::new(
        (num_windows as nat) * (window_size as nat),
        |chunk: int| base_at(num_windows, window_size, domain, chunk),
    )
}

/// Doubling `a` times and then `b` times is doubling `a + b` times.
pub proof fn lemma_repeated_double_sum(p: Point, a: nat, b: nat)
    ensures
        repeated_double(repeated_double(p, a), b) == repeated_double(p, a + b),
    decreases b,
{
    if b > 0 {
        lemma_repeated_double_sum(p, a, (b - 1) as nat);
    }
}

/// The bases of one parameterization: one for each chunk of each window, and
/// one more for the randomizer.
#[derive(Clone, Debug, PartialEq, Eq)]
pub struct BaseTable {
    num_windows: u8,
    window_size: u8,
    bases: Vec<Point>,
    random_base: Point,
}

impl BaseTable {
    /// Number of windows.
    pub closed spec fn spec_num_windows(self) -> u8 {
        self.num_windows
    }

    /// Number of chunks in a window.
    pub closed spec fn spec_window_size(self) -> u8 {
        self.window_size
    }

    /// The bases of the chunks, window after window.
    pub closed spec fn spec_bases(self) -> Seq<Point> {
        self.bases@
    }

    /// The base of the randomizer.
    pub closed spec fn spec_random_base(self) -> Point {
        self.random_base
    }

    /// Every chunk has its base, and every base is a point of the curve.
    pub open spec fn wf(self) -> bool {
        &&& self.spec_window_size() <= MAX_WINDOW_SIZE
        &&& self.spec_bases().len() == (self.spec_num_windows() as nat) * (
        self.spec_window_size() as nat)
        &&& forall|i: int| 0 <= i < self.spec_bases().len() ==> (#[trigger] self.spec_bases()[i]).wf()
        &&& self.spec_random_base().wf()
    }

    /// The table holds the bases derived from the given domain.
    pub open spec fn derived_from(self, num_windows: u8, window_size: u8, domain: Seq<u8>) -> bool {
        &&& self.spec_num_windows() == num_windows
        &&& self.spec_window_size() == window_size
        &&& self.spec_bases() == derived_bases(num_windows, window_size, domain)
        &&& Some(self.spec_random_base()) == randomizer_generator(num_windows, window_size, domain)
    }

    /// Number of bases, i.e. of chunks that an input may have.
    pub open spec fn spec_num_chunks(self) -> nat {
        self.spec_bases().len()
    }

    /// A table has at most 255 windows of at most 63 chunks.
    pub proof fn lemma_num_chunks_bound(self)
        requires
            self.wf(),
        ensures
            self.spec_num_chunks() <= 255 * 63,
    {
        let w = self.spec_num_windows() as nat;
        let s = self.spec_window_size() as nat;
        assert(w * s <= 255 * 63) by (nonlinear_arith)
            requires
                w <= 255,
                s <= 63,
        ;
    }

    /// Number of windows.
    pub fn num_windows(&self) -> (n: u8)
        ensures
            n == self.spec_num_windows(),
    {
        self.num_windows
    }

    /// Number of chunks in a window.
    pub fn window_size(&self) -> (n: u8)
        ensures
            n == self.spec_window_size(),
    {
        self.window_size
    }

    /// Number of bases of chunks.
    pub fn num_chunks(&self) -> (n: usize)
        ensures
            n == self.spec_num_chunks(),
    {
        self.bases.len()
    }

    /// The base of chunk `chunk`, counted through all windows.
    pub fn base(&self, chunk: usize) -> (p: Point)
        requires
            chunk < self.spec_num_chunks(),
        ensures
            p == self.spec_bases()[chunk as int],
    {
        self.bases[chunk]
    }

    /// The base of the randomizer.
    pub fn random_base(&self) -> (p: Point)
        ensures
            p == self.spec_random_base(),
    {
        self.random_base
    }

    /// Derives the bases of a parameterization from a domain string. Fails
    /// when the window is wider than the scalar field allows, or when the
    /// bounded search for a generator finds none.
    pub fn setup(num_windows: u8, window_size: u8, domain: &str) -> (r: Result<BaseTable, Error>)
        ensures
            match r {
                Ok(table) => {
                    &&& derivable(num_windows, window_size, domain.spec_bytes())
                    &&& table.wf()
                    &&& table.derived_from(num_windows, window_size, domain.spec_bytes())
                },
                Err(e) => e == Error::SetupError && !derivable(
                    num_windows,
                    window_size,
                    domain.spec_bytes(),
                ),
            },
    {
        if window_size > MAX_WINDOW_SIZE {
            return Err(Error::SetupError);
        }
        let ghost dom = domain.spec_bytes();
        let mut prefix: Vec<u8> = Vec::new();
        push_bytes(&mut prefix, &[65u8, 108u8, 101u8, 111u8, 46u8, 66u8, 72u8, 80u8, 46u8]);
        push_decimal(&mut prefix, num_windows as u64);
        prefix.push(46u8);
        push_decimal(&mut prefix, window_size as u64);
        prefix.push(46u8);
        push_bytes(&mut prefix, domain.as_bytes());
        prefix.push(46u8);

        let mut bases: Vec<Point> = Vec::new();
        let mut window: u8 = 0;
        while window < num_windows
            invariant
                window <= num_windows,
                window_size <= MAX_WINDOW_SIZE,
                dom == domain.spec_bytes(),
                prefix@ == message_prefix(num_windows, window_size, dom),
                bases@.len() == (window as nat) * (window_size as nat),
                forall|v: u8|
                    v < window ==> #[trigger] window_generator(
                        num_windows,
                        window_size,
                        dom,
                        v,
                    ).is_some(),
                forall|c: int|
                    0 <= c < bases@.len() ==> #[trigger] bases@[c] == base_at(
                        num_windows,
                        window_size,
                        dom,
                        c,
                    ),
                forall|c: int| 0 <= c < bases@.len() ==> (#[trigger] bases@[c]).wf(),
            decreases num_windows - window,
        {
            let mut message: Vec<u8> = Vec::new();
            push_bytes(&mut message, prefix.as_slice());
            push_decimal(&mut message, window as u64);
            let generator = match hash_to_curve(message.as_slice()) {
                Some(g) => g,
                None => {
                    return Err(Error::SetupError);
                },
            };
            let mut base = generator;
            let mut chunk: u8 = 0;
            let ghost start = bases@.len() as int;
            while chunk < window_size
                invariant
                    chunk <= window_size,
                    window < num_windows,
                    window_size <= MAX_WINDOW_SIZE,
                    start == (window as int) * (window_size as int),
                    bases@.len() == start + chunk,
                    Some(generator) == window_generator(num_windows, window_size, dom, window),
                    base.wf(),
                    base == repeated_double(generator, (DOUBLINGS_PER_CHUNK * chunk) as nat),
                    forall|c: int|
                        0 <= c < bases@.len() ==> #[trigger] bases@[c] == base_at(
                            num_windows,
                            window_size,
                            dom,
                            c,
                        ),
                    forall|c: int| 0 <= c < bases@.len() ==> (#[trigger] bases@[c]).wf(),
                decreases window_size - chunk,
            {
                proof {
                    let c = start + chunk;
                    vstd::arithmetic::div_mod::lemma_fundamental_div_mod_converse(
                        c,
                        window_size as int,
                        window as int,
                        chunk as int,
                    );
                }
                bases.push(base);
                let next = double_times(&base, DOUBLINGS_PER_CHUNK);
                proof {
                    lemma_repeated_double_sum(
                        generator,
                        (DOUBLINGS_PER_CHUNK * chunk) as nat,
                        DOUBLINGS_PER_CHUNK as nat,
                    );
                }
                base = next;
                chunk += 1;
            }
            proof {
                assert((window as int) * (window_size as int) + (window_size as int) == (window
                    as int + 1) * (window_size as int)) by (nonlinear_arith);
            }
            window += 1;
        }
        let mut message: Vec<u8> = Vec::new();
        push_bytes(&mut message, prefix.as_slice());
        push_bytes(
            &mut message,
            &[82u8, 97u8, 110u8, 100u8, 111u8, 109u8, 105u8, 122u8, 101u8, 114u8],
        );
        let random_base = match hash_to_curve(message.as_slice()) {
            Some(g) => g,
            None => {
                return Err(Error::SetupError);
            },
        };
        let table = BaseTable { num_windows, window_size, bases, random_base };
        assert(table.spec_bases() =~= derived_bases(num_windows, window_size, dom));
        Ok(table)
    }
}

/// Two tables derived from one domain under one parameterization hold the
/// same bases, in the same order, and the same base of the randomizer.
pub proof fn lemma_setup_deterministic(
    first: BaseTable,
    second: BaseTable,
    num_windows: u8,
    window_size: u8,
    domain: Seq<u8>,
)
    requires
        first.derived_from(num_windows, window_size, domain),
        second.derived_from(num_windows, window_size, domain),
    ensures
        first.spec_num_windows() == second.spec_num_windows(),
        first.spec_window_size() == second.spec_window_size(),
        first.spec_bases() == second.spec_bases(),
        first.spec_random_base() == second.spec_random_base(),
{
}

} // verus!
