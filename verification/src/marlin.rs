use crate::field::FieldElement;
use crate::text::{decimal, push_bytes, push_decimal};
use vstd::prelude::*;
use vstd::string::StringSliceAdditionalSpecFns;

verus! {

/// Number of bytes that one field element takes.
pub const FIELD_ELEMENT_BYTES: usize = 32;

/// A commitment to a polynomial, as far as the size of a proof depends on it.
#[derive(Clone, Copy, Debug, PartialEq, Eq)]
pub struct Commitment {
    /// Whether the commitment enforces a degree bound.
    pub has_degree_bound: bool,
    /// Number of bytes of the serialized commitment.
    pub serialized_size: usize,
}

/// The field elements that the prover sends in one round.
#[derive(Clone, Debug, PartialEq, Eq)]
pub struct ProverMessage {
    pub field_elements: Vec<FieldElement>,
}

/// An evaluation proof, as far as the size of a proof depends on it.
#[derive(Clone, Copy, Debug, PartialEq, Eq)]
pub struct OpeningProof {
    /// Number of bytes of the serialized proof.
    pub serialized_size: usize,
}

/// The evaluation proofs of a batch of linear combinations.
#[derive(Clone, Debug, PartialEq, Eq)]
pub struct BatchLCProof {
    /// The evaluation proofs.
    pub proof: Vec<OpeningProof>,
    /// The evaluations of the polynomials, where they are sent along.
    pub evals: Option<Vec<FieldElement>>,
}

/// A zkSNARK proof.
#[derive(Clone, Debug, PartialEq, Eq)]
pub struct Proof {
    /// Commitments to the polynomials produced by the prover.
    pub commitments: Vec<Vec<Commitment>>,
    /// Evaluations of these polynomials.
    pub evaluations: Vec<FieldElement>,
    /// The field elements sent by the prover.
    pub prover_messages: Vec<ProverMessage>,
    /// An evaluation proof from the polynomial commitment.
    pub pc_proof: BatchLCProof,
}

/// Information about the size of a proof.
#[derive(Clone, Copy, Debug, PartialEq, Eq)]
pub struct SizeInfo {
    pub argument_size: usize,
    pub num_comms_without_degree_bounds: usize,
    pub size_bytes_comms_without_degree_bounds: usize,
    pub num_comms_with_degree_bounds: usize,
    pub size_bytes_comms_with_degree_bounds: usize,
    pub num_proofs: usize,
    pub size_bytes_proofs: usize,
    pub num_evaluations: usize,
    pub evaluation_size_in_bytes: usize,
    pub num_prover_messages: usize,
    pub prover_message_size_in_bytes: usize,
}

/// What is counted over the commitments: how many there are, or how many
/// bytes they take, with a degree bound or without.
pub enum Measure {
    Number { bounded: bool },
    Bytes { bounded: bool },
}

/// What one commitment adds to a measure.
pub open spec fn weight(c: Commitment, m: Measure) -> nat {
    match m {
        Measure::Number { bounded } => if c.has_degree_bound == bounded {
            1
        } else {
            0
        },
        Measure::Bytes { bounded } => if c.has_degree_bound == bounded {
            c.serialized_size as nat
        } else {
            0
        },
    }
}

/// A measure over the first `n` commitments of a row.
pub open spec fn row_total(row: Seq<Commitment>, m: Measure, n: nat) -> nat
    decreases n,
{
    if n == 0 {
        0
    } else {
        row_total(row, m, (n - 1) as nat) + weight(row[n - 1], m)
    }
}

/// A measure over the first `n` rows of commitments.
pub open spec fn grid_total(grid: Seq<Vec<Commitment>>, m: Measure, n: nat) -> nat
    decreases n,
{
    if n == 0 {
        0
    } else {
        grid_total(grid, m, (n - 1) as nat) + row_total(grid[n - 1]@, m, grid[n - 1]@.len())
    }
}

/// Number of bytes of the first `n` evaluation proofs.
pub open spec fn proofs_total(proofs: Seq<OpeningProof>, n: nat) -> nat
    decreases n,
{
    if n == 0 {
        0
    } else {
        proofs_total(proofs, (n - 1) as nat) + proofs[n - 1].serialized_size as nat
    }
}

/// Number of field elements in the first `n` prover messages.
pub open spec fn messages_total(messages: Seq<ProverMessage>, n: nat) -> nat
    decreases n,
{
    if n == 0 {
        0
    } else {
        messages_total(messages, (n - 1) as nat) + messages[n - 1].field_elements@.len()
    }
}

/// A measure over part of a row is no more than over all of it.
pub proof fn lemma_row_total_monotone(row: Seq<Commitment>, m: Measure, i: nat, n: nat)
    requires
        i <= n,
    ensures
        row_total(row, m, i) <= row_total(row, m, n),
    decreases n,
{
    if i < n {
        lemma_row_total_monotone(row, m, i, (n - 1) as nat);
    }
}

/// A measure over the first rows is no more than over all rows.
pub proof fn lemma_grid_total_monotone(grid: Seq<Vec<Commitment>>, m: Measure, i: nat, n: nat)
    requires
        i <= n,
    ensures
        grid_total(grid, m, i) <= grid_total(grid, m, n),
    decreases n,
{
    if i < n {
        lemma_grid_total_monotone(grid, m, i, (n - 1) as nat);
    }
}

/// The first evaluation proofs take no more bytes than all of them.
pub proof fn lemma_proofs_total_monotone(proofs: Seq<OpeningProof>, i: nat, n: nat)
    requires
        i <= n,
    ensures
        proofs_total(proofs, i) <= proofs_total(proofs, n),
    decreases n,
{
    if i < n {
        lemma_proofs_total_monotone(proofs, i, (n - 1) as nat);
    }
}

/// The first prover messages hold no more field elements than all of them.
pub proof fn lemma_messages_total_monotone(messages: Seq<ProverMessage>, i: nat, n: nat)
    requires
        i <= n,
    ensures
        messages_total(messages, i) <= messages_total(messages, n),
    decreases n,
{
    if i < n {
        lemma_messages_total_monotone(messages, i, (n - 1) as nat);
    }
}

impl Proof {
    /// A measure over all commitments of the proof.
    pub open spec fn measure(self, m: Measure) -> nat {
        grid_total(self.commitments@, m, self.commitments@.len())
    }

    /// Number of bytes of all evaluation proofs.
    pub open spec fn spec_size_bytes_proofs(self) -> nat {
        proofs_total(self.pc_proof.proof@, self.pc_proof.proof@.len())
    }

    /// Number of field elements in all prover messages.
    pub open spec fn spec_num_prover_messages(self) -> nat {
        messages_total(self.prover_messages@, self.prover_messages@.len())
    }

    /// Number of bytes of the whole argument: the commitments, the
    /// evaluation proofs, the prover messages and the evaluations.
    pub open spec fn spec_argument_size(self) -> nat {
        self.measure(Measure::Bytes { bounded: true }) + self.measure(
            Measure::Bytes { bounded: false },
        ) + self.spec_size_bytes_proofs() + self.spec_num_prover_messages() * 32
            + self.evaluations@.len() * 32
    }

    /// The information about the size of the proof.
    pub open spec fn spec_size_info(self) -> SizeInfo {
        SizeInfo {
            argument_size: self.spec_argument_size() as usize,
            num_comms_without_degree_bounds: self.measure(Measure::Number { bounded: false })
                as usize,
            size_bytes_comms_without_degree_bounds: self.measure(Measure::Bytes { bounded: false })
                as usize,
            num_comms_with_degree_bounds: self.measure(Measure::Number { bounded: true }) as usize,
            size_bytes_comms_with_degree_bounds: self.measure(Measure::Bytes { bounded: true })
                as usize,
            num_proofs: self.pc_proof.proof@.len() as usize,
            size_bytes_proofs: self.spec_size_bytes_proofs() as usize,
            num_evaluations: self.evaluations@.len() as usize,
            evaluation_size_in_bytes: (self.evaluations@.len() * 32) as usize,
            num_prover_messages: self.spec_num_prover_messages() as usize,
            prover_message_size_in_bytes: (self.spec_num_prover_messages() * 32) as usize,
        }
    }

    /// Every number of the size information fits the machine's word.
    pub open spec fn sizes_fit(self) -> bool {
        &&& self.measure(Measure::Number { bounded: true }) <= usize::MAX
        &&& self.measure(Measure::Number { bounded: false }) <= usize::MAX
        &&& self.spec_argument_size() <= usize::MAX
    }

    /// Construct a new proof.
    pub fn new(
        commitments: Vec<Vec<Commitment>>,
        evaluations: Vec<FieldElement>,
        prover_messages: Vec<ProverMessage>,
        pc_proof: BatchLCProof,
    ) -> (made: Proof)
        ensures
            made.commitments == commitments,
            made.evaluations == evaluations,
            made.prover_messages == prover_messages,
            made.pc_proof == pc_proof,
    {
        Proof { commitments, evaluations, prover_messages, pc_proof }
    }

    /// Computes the information about the size of the proof.
    pub fn size_info(&self) -> (info: SizeInfo)
        requires
            self.sizes_fit(),
        ensures
            info == self.spec_size_info(),
            info.argument_size == self.spec_argument_size(),
            info.num_comms_without_degree_bounds == self.measure(Measure::Number { bounded: false }),
            info.size_bytes_comms_without_degree_bounds == self.measure(
                Measure::Bytes { bounded: false },
            ),
            info.num_comms_with_degree_bounds == self.measure(Measure::Number { bounded: true }),
            info.size_bytes_comms_with_degree_bounds == self.measure(
                Measure::Bytes { bounded: true },
            ),
            info.num_proofs == self.pc_proof.proof@.len(),
            info.size_bytes_proofs == self.spec_size_bytes_proofs(),
            info.num_evaluations == self.evaluations@.len(),
            info.evaluation_size_in_bytes == self.evaluations@.len() * 32,
            info.num_prover_messages == self.spec_num_prover_messages(),
            info.prover_message_size_in_bytes == self.spec_num_prover_messages() * 32,
    {
        let ghost grid = self.commitments@;
        let ghost number_with = Measure::Number { bounded: true };
        let ghost number_without = Measure::Number { bounded: false };
        let ghost bytes_with = Measure::Bytes { bounded: true };
        let ghost bytes_without = Measure::Bytes { bounded: false };
        let mut num_comms_without_degree_bounds: usize = 0;
        let mut num_comms_with_degree_bounds: usize = 0;
        let mut size_bytes_comms_without_degree_bounds: usize = 0;
        let mut size_bytes_comms_with_degree_bounds: usize = 0;
        let mut r: usize = 0;
        while r < self.commitments.len()
            invariant
                self.sizes_fit(),
                grid == self.commitments@,
                number_with == (Measure::Number { bounded: true }),
                number_without == (Measure::Number { bounded: false }),
                bytes_with == (Measure::Bytes { bounded: true }),
                bytes_without == (Measure::Bytes { bounded: false }),
                r <= grid.len(),
                num_comms_with_degree_bounds == grid_total(grid, number_with, r as nat),
                num_comms_without_degree_bounds == grid_total(grid, number_without, r as nat),
                size_bytes_comms_with_degree_bounds == grid_total(grid, bytes_with, r as nat),
                size_bytes_comms_without_degree_bounds == grid_total(grid, bytes_without, r as nat),
            decreases grid.len() - r,
        {
            let row = &self.commitments[r];
            let mut j: usize = 0;
            proof {
                lemma_grid_total_monotone(grid, number_with, (r + 1) as nat, grid.len());
                lemma_grid_total_monotone(grid, number_without, (r + 1) as nat, grid.len());
                lemma_grid_total_monotone(grid, bytes_with, (r + 1) as nat, grid.len());
                lemma_grid_total_monotone(grid, bytes_without, (r + 1) as nat, grid.len());
            }
            while j < row.len()
                invariant
                    self.sizes_fit(),
                    grid == self.commitments@,
                    number_with == (Measure::Number { bounded: true }),
                    number_without == (Measure::Number { bounded: false }),
                    bytes_with == (Measure::Bytes { bounded: true }),
                    bytes_without == (Measure::Bytes { bounded: false }),
                    r < grid.len(),
                    row@ == grid[r as int]@,
                    j <= row@.len(),
                    grid_total(grid, number_with, (r + 1) as nat) <= usize::MAX,
                    grid_total(grid, number_without, (r + 1) as nat) <= usize::MAX,
                    grid_total(grid, bytes_with, (r + 1) as nat) <= usize::MAX,
                    grid_total(grid, bytes_without, (r + 1) as nat) <= usize::MAX,
                    num_comms_with_degree_bounds == grid_total(grid, number_with, r as nat)
                        + row_total(row@, number_with, j as nat),
                    num_comms_without_degree_bounds == grid_total(grid, number_without, r as nat)
                        + row_total(row@, number_without, j as nat),
                    size_bytes_comms_with_degree_bounds == grid_total(grid, bytes_with, r as nat)
                        + row_total(row@, bytes_with, j as nat),
                    size_bytes_comms_without_degree_bounds == grid_total(
                        grid,
                        bytes_without,
                        r as nat,
                    ) + row_total(row@, bytes_without, j as nat),
                decreases row@.len() - j,
            {
                let c = row[j];
                proof {
                    lemma_row_total_monotone(row@, number_with, (j + 1) as nat, row@.len());
                    lemma_row_total_monotone(row@, number_without, (j + 1) as nat, row@.len());
                    lemma_row_total_monotone(row@, bytes_with, (j + 1) as nat, row@.len());
                    lemma_row_total_monotone(row@, bytes_without, (j + 1) as nat, row@.len());
                }
                if !c.has_degree_bound {
                    num_comms_without_degree_bounds += 1;
                    size_bytes_comms_without_degree_bounds += c.serialized_size;
                } else {
                    num_comms_with_degree_bounds += 1;
                    size_bytes_comms_with_degree_bounds += c.serialized_size;
                }
                j += 1;
            }
            r += 1;
        }

        let ghost proofs = self.pc_proof.proof@;
        let num_proofs = self.pc_proof.proof.len();
        let mut size_bytes_proofs: usize = 0;
        let mut p: usize = 0;
        while p < num_proofs
            invariant
                self.sizes_fit(),
                proofs == self.pc_proof.proof@,
                num_proofs == proofs.len(),
                p <= num_proofs,
                size_bytes_proofs == proofs_total(proofs, p as nat),
            decreases num_proofs - p,
        {
            proof {
                lemma_proofs_total_monotone(proofs, (p + 1) as nat, proofs.len());
            }
            size_bytes_proofs += self.pc_proof.proof[p].serialized_size;
            p += 1;
        }

        let ghost messages = self.prover_messages@;
        let mut num_prover_messages: usize = 0;
        let mut k: usize = 0;
        while k < self.prover_messages.len()
            invariant
                self.sizes_fit(),
                messages == self.prover_messages@,
                k <= messages.len(),
                num_prover_messages == messages_total(messages, k as nat),
            decreases messages.len() - k,
        {
            proof {
                lemma_messages_total_monotone(messages, (k + 1) as nat, messages.len());
            }
            num_prover_messages += self.prover_messages[k].field_elements.len();
            k += 1;
        }

        let num_evaluations = self.evaluations.len();
        let evaluation_size_in_bytes = num_evaluations * FIELD_ELEMENT_BYTES;
        let prover_message_size_in_bytes = num_prover_messages * FIELD_ELEMENT_BYTES;
        let argument_size = size_bytes_comms_with_degree_bounds
            + size_bytes_comms_without_degree_bounds + size_bytes_proofs
            + prover_message_size_in_bytes + evaluation_size_in_bytes;
        SizeInfo {
            argument_size,
            num_comms_without_degree_bounds,
            size_bytes_comms_without_degree_bounds,
            num_comms_with_degree_bounds,
            size_bytes_comms_with_degree_bounds,
            num_proofs,
            size_bytes_proofs,
            num_evaluations,
            evaluation_size_in_bytes,
            num_prover_messages,
            prover_message_size_in_bytes,
        }
    }
}

/// One entry of the statistics: a label, a number in decimal, and what ends
/// the entry.
pub open spec fn entry(label: &str, value: usize, end: &str) -> Seq<u8> {
    label.spec_bytes() + decimal(value as nat) + end.spec_bytes()
}

/// The statistics about the size of a proof, as text.
pub open spec fn statistics(info: SizeInfo) -> Seq<u8> {
    entry("Argument size in bytes: ", info.argument_size, "\n\n") + entry(
        "Number of commitments without degree bounds: ",
        info.num_comms_without_degree_bounds,
        "\n",
    ) + entry(
        "Size (in bytes) of commitments without degree bounds: ",
        info.size_bytes_comms_without_degree_bounds,
        "\n",
    ) + entry(
        "Number of commitments with degree bounds: ",
        info.num_comms_with_degree_bounds,
        "\n",
    ) + entry(
        "Size (in bytes) of commitments with degree bounds: ",
        info.size_bytes_comms_with_degree_bounds,
        "\n\n",
    ) + entry("Number of evaluation proofs: ", info.num_proofs, "\n") + entry(
        "Size (in bytes) of evaluation proofs: ",
        info.size_bytes_proofs,
        "\n\n",
    ) + entry("Number of evaluations: ", info.num_evaluations, "\n") + entry(
        "Size (in bytes) of evaluations: ",
        info.evaluation_size_in_bytes,
        "\n\n",
    ) + entry(
        "Number of field elements in prover messages: ",
        info.num_prover_messages,
        "\n",
    ) + entry("Size (in bytes) of prover message: ", info.prover_message_size_in_bytes, "\n")
}

/// Appends one entry of the statistics.
fn push_entry(text: &mut Vec<u8>, label: &str, value: usize, end: &str)
    ensures
        final(text)@ == old(text)@ + entry(label, value, end),
{
    push_bytes(text, label.as_bytes());
    push_decimal(text, value as u64);
    push_bytes(text, end.as_bytes());
}

impl SizeInfo {
    /// Writes the statistics out as text.
    pub fn to_text(&self) -> (text: Vec<u8>)
        ensures
            text@ == statistics(*self),
    {
        let mut text: Vec<u8> = Vec::new();
        push_entry(&mut text, "Argument size in bytes: ", self.argument_size, "\n\n");
        push_entry(
            &mut text,
            "Number of commitments without degree bounds: ",
            self.num_comms_without_degree_bounds,
            "\n",
        );
        push_entry(
            &mut text,
            "Size (in bytes) of commitments without degree bounds: ",
            self.size_bytes_comms_without_degree_bounds,
            "\n",
        );
        push_entry(
            &mut text,
            "Number of commitments with degree bounds: ",
            self.num_comms_with_degree_bounds,
            "\n",
        );
        push_entry(
            &mut text,
            "Size (in bytes) of commitments with degree bounds: ",
            self.size_bytes_comms_with_degree_bounds,
            "\n\n",
        );
        push_entry(&mut text, "Number of evaluation proofs: ", self.num_proofs, "\n");
        push_entry(&mut text, "Size (in bytes) of evaluation proofs: ", self.size_bytes_proofs, "\n\n");
        push_entry(&mut text, "Number of evaluations: ", self.num_evaluations, "\n");
        push_entry(
            &mut text,
            "Size (in bytes) of evaluations: ",
            self.evaluation_size_in_bytes,
            "\n\n",
        );
        push_entry(
            &mut text,
            "Number of field elements in prover messages: ",
            self.num_prover_messages,
            "\n",
        );
        push_entry(
            &mut text,
            "Size (in bytes) of prover message: ",
            self.prover_message_size_in_bytes,
            "\n",
        );
        text
    }
}

impl Proof {
    /// The information about the size of the proof as the text that is
    /// printed.
    pub fn print_size_info(&self) -> (text: Vec<u8>)
        requires
            self.sizes_fit(),
        ensures
            text@ == statistics(self.spec_size_info()),
    {
        self.size_info().to_text()
    }
}

} // verus!
