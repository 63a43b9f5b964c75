use vstd::prelude::*;

verus! {

/// Least significant limb of the base field's modulus.
pub const BASE_MODULUS_0: u64 = 725501752471715841u64;

/// Second limb of the base field's modulus.
pub const BASE_MODULUS_1: u64 = 6461107452199829505u64;

/// Third limb of the base field's modulus.
pub const BASE_MODULUS_2: u64 = 6968279316240510977u64;

/// Most significant limb of the base field's modulus.
pub const BASE_MODULUS_3: u64 = 1345280370688173398u64;

/// Least significant limb of the scalar field's modulus.
pub const SCALAR_MODULUS_0: u64 = 13356249993388743167u64;

/// Second limb of the scalar field's modulus.
pub const SCALAR_MODULUS_1: u64 = 5950279507993463550u64;

/// Third limb of the scalar field's modulus.
pub const SCALAR_MODULUS_2: u64 = 10965441865914903552u64;

/// Most significant limb of the scalar field's modulus.
pub const SCALAR_MODULUS_3: u64 = 336320092672043349u64;

/// Number of bits of a scalar: the order of the prime subgroup is below 2
/// to the 251.
pub const SCALAR_BITS: usize = 251;

/// The integer that four little-endian 64-bit limbs stand for.
pub open spec fn limbs_value(l0: u64, l1: u64, l2: u64, l3: u64) -> nat {
    (l0 as nat) + (l1 as nat) * 0x1_0000_0000_0000_0000nat + (l2 as nat)
        * 0x1_0000_0000_0000_0000_0000_0000_0000_0000nat + (l3 as nat)
        * 0x1_0000_0000_0000_0000_0000_0000_0000_0000_0000_0000_0000_0000nat
}

/// The modulus of the field in which the curve's coordinates live.
pub open spec fn base_modulus() -> nat {
    8444461749428370424248824938781546531375899335154063827935233455917409239041nat
}

/// The order of the curve's prime subgroup, the modulus of its scalars.
pub open spec fn scalar_modulus() -> nat {
    2111115437357092606062206234695386632838870926408408195193685246394721360383nat
}

/// The order of the prime subgroup has 251 bits: it lies between 2 to the
/// 250 and 2 to the 251.
pub proof fn lemma_scalar_modulus_bits()
    ensures
        0x4_00000000_00000000_00000000_00000000_00000000_00000000_00000000_000000nat <= scalar_modulus(),
        scalar_modulus() < 0x8_00000000_00000000_00000000_00000000_00000000_00000000_00000000_000000nat,
{
}

/// The limbs of the two moduli stand for the moduli.
pub proof fn lemma_moduli_limbs()
    ensures
        limbs_value(BASE_MODULUS_0, BASE_MODULUS_1, BASE_MODULUS_2, BASE_MODULUS_3)
            == base_modulus(),
        limbs_value(SCALAR_MODULUS_0, SCALAR_MODULUS_1, SCALAR_MODULUS_2, SCALAR_MODULUS_3)
            == scalar_modulus(),
{
}

/// Whether the integer of the first four limbs is below that of the last four.
fn limbs_less(a: &[u64; 4], m0: u64, m1: u64, m2: u64, m3: u64) -> (less: bool)
    ensures
        less == (limbs_value(a[0], a[1], a[2], a[3]) < limbs_value(m0, m1, m2, m3)),
{
    if a[3] != m3 {
        a[3] < m3
    } else if a[2] != m2 {
        a[2] < m2
    } else if a[1] != m1 {
        a[1] < m1
    } else {
        a[0] < m0
    }
}

/// An element of the base field, as the little-endian limbs of its least
/// non-negative representative.
#[derive(Clone, Copy, Debug, PartialEq, Eq)]
pub struct FieldElement {
    pub limbs: [u64; 4],
}

impl FieldElement {
    /// The integer that the limbs stand for.
    pub open spec fn value(self) -> nat {
        limbs_value(self.limbs[0], self.limbs[1], self.limbs[2], self.limbs[3])
    }

    /// The limbs stand for an integer below the modulus.
    pub open spec fn is_canonical(self) -> bool {
        self.value() < base_modulus()
    }

    /// The element of the given limbs, if they stand for an integer below the modulus.
    pub fn new(limbs: [u64; 4]) -> (r: Option<FieldElement>)
        ensures
            r.is_some() <==> limbs_value(limbs[0], limbs[1], limbs[2], limbs[3]) < base_modulus(),
            r.is_some() ==> r.unwrap().limbs == limbs && r.unwrap().is_canonical(),
    {
        let candidate = FieldElement { limbs };
        if candidate.check_canonical() {
            Some(candidate)
        } else {
            None
        }
    }

    /// Decides `is_canonical`.
    pub fn check_canonical(&self) -> (ok: bool)
        ensures
            ok == self.is_canonical(),
    {
        limbs_less(&self.limbs, BASE_MODULUS_0, BASE_MODULUS_1, BASE_MODULUS_2, BASE_MODULUS_3)
    }

    /// The element zero.
    pub fn zero() -> (r: FieldElement)
        ensures
            r.value() == 0,
            r.is_canonical(),
            r.limbs[0] == 0 && r.limbs[1] == 0 && r.limbs[2] == 0 && r.limbs[3] == 0,
    {
        FieldElement { limbs: [0u64, 0u64, 0u64, 0u64] }
    }

    /// The element one.
    pub fn one() -> (r: FieldElement)
        ensures
            r.value() == 1,
            r.is_canonical(),
            r.limbs[0] == 1 && r.limbs[1] == 0 && r.limbs[2] == 0 && r.limbs[3] == 0,
    {
        FieldElement { limbs: [1u64, 0u64, 0u64, 0u64] }
    }

    /// Whether two elements are the same.
    pub fn same(&self, other: &FieldElement) -> (eq: bool)
        ensures
            eq == (*self == *other),
    {
        let eq = self.limbs[0] == other.limbs[0] && self.limbs[1] == other.limbs[1]
            && self.limbs[2] == other.limbs[2] && self.limbs[3] == other.limbs[3];
        proof {
            if eq {
                assert(self.limbs =~= other.limbs);
            }
        }
        eq
    }
}

/// A scalar, as the little-endian limbs of its least non-negative
/// representative.
#[derive(Clone, Copy, Debug, PartialEq, Eq)]
pub struct Scalar {
    pub limbs: [u64; 4],
}

impl Scalar {
    /// The integer that the limbs stand for.
    pub open spec fn value(self) -> nat {
        limbs_value(self.limbs[0], self.limbs[1], self.limbs[2], self.limbs[3])
    }

    /// The limbs stand for an integer below the order of the prime subgroup.
    pub open spec fn is_canonical(self) -> bool {
        self.value() < scalar_modulus()
    }

    /// Bit `i` of the scalar, the least significant being bit 0.
    pub open spec fn bit(self, i: int) -> bool
        recommends
            0 <= i < 256,
    {
        (self.limbs[i / 64] >> ((i % 64) as u64)) & 1u64 == 1u64
    }

    /// The first `n` bits of the scalar, least significant first.
    pub open spec fn bits(self, n: nat) -> Seq<bool> {
        Seq::new(n, |i: int| self.bit(i))
    }

    /// The scalar of the given limbs, if they stand for an integer below the order.
    pub fn new(limbs: [u64; 4]) -> (r: Option<Scalar>)
        ensures
            r.is_some() <==> limbs_value(limbs[0], limbs[1], limbs[2], limbs[3]) < scalar_modulus(),
            r.is_some() ==> r.unwrap().limbs == limbs && r.unwrap().is_canonical(),
    {
        if limbs_less(&limbs, SCALAR_MODULUS_0, SCALAR_MODULUS_1, SCALAR_MODULUS_2, SCALAR_MODULUS_3) {
            Some(Scalar { limbs })
        } else {
            None
        }
    }

    /// Reads bit `i` of the scalar.
    pub fn get_bit(&self, i: usize) -> (b: bool)
        requires
            i < 256,
        ensures
            b == self.bit(i as int),
    {
        let limb: u64 = self.limbs[i / 64];
        let shift: u64 = (i % 64) as u64;
        (limb >> shift) & 1u64 == 1u64
    }

    /// The 251 bits of a scalar, least significant first.
    pub fn to_bits_le(&self) -> (bits: Vec<bool>)
        ensures
            bits@ == self.bits(SCALAR_BITS as nat),
    {
        let mut bits: Vec<bool> = Vec::with_capacity(SCALAR_BITS);
        let mut i: usize = 0;
        while i < SCALAR_BITS
            invariant
                i <= SCALAR_BITS,
                bits@ == self.bits(i as nat),
            decreases SCALAR_BITS - i,
        {
            let b = self.get_bit(i);
            bits.push(b);
            i += 1;
        }
        bits
    }
}

} // verus!
