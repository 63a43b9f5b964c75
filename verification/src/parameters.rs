use crate::error::Error;
use crate::native::{setup_outcome, BHP};
use vstd::prelude::*;
use vstd::string::StringSliceAdditionalSpecFns;

verus! {

/// Depth of the trees of record commitments and of serial numbers.
pub const MERKLE_TREE_DEPTH: usize = 32;

/// The parameters of a Merkle tree: the hash of its nodes, and its depth.
#[derive(Clone, Debug, PartialEq, Eq)]
pub struct MerkleTreeParameters {
    pub crh: BHP,
    pub depth: usize,
}

impl MerkleTreeParameters {
    /// The parameters of a tree of the standard depth over a hash.
    pub fn from(crh: BHP) -> (p: MerkleTreeParameters)
        ensures
            p.crh == crh,
            p.depth == MERKLE_TREE_DEPTH,
    {
        MerkleTreeParameters { crh, depth: MERKLE_TREE_DEPTH }
    }
}

/// What deriving the parameters of a tree gives: the tree of the standard
/// depth over the hash derived from the domain, or the error of the
/// derivation.
pub open spec fn tree_outcome(
    r: Result<MerkleTreeParameters, Error>,
    num_windows: u8,
    window_size: u8,
    domain: Seq<u8>,
) -> bool {
    match r {
        Ok(p) => setup_outcome(Ok(p.crh), num_windows, window_size, domain) && p.depth
            == MERKLE_TREE_DEPTH,
        Err(e) => setup_outcome(Err(e), num_windows, window_size, domain),
    }
}

/// The schemes of the second test network: for each, the number of windows,
/// the window size and the domain that its bases are derived from.
pub struct Testnet2Parameters;

impl Testnet2Parameters {
    /// Number of records that a transaction consumes.
    pub fn num_input_records() -> (n: usize)
        ensures
            n == 2,
    {
        2
    }

    /// Number of records that a transaction produces.
    pub fn num_output_records() -> (n: usize)
        ensures
            n == 2,
    {
        2
    }

    /// The commitment scheme of accounts, over the domain of the account
    /// commitment.
    pub fn account_commitment_scheme(domain: &str) -> (r: Result<BHP, Error>)
        ensures
            setup_outcome(r, 33, 48, domain.spec_bytes()),
    {
        BHP::setup(33, 48, domain)
    }

    /// The commitment scheme of local data.
    pub fn local_data_commitment_scheme() -> (r: Result<BHP, Error>)
        ensures
            setup_outcome(r, 24, 62, "AleoLocalDataCommitment0".spec_bytes()),
    {
        BHP::setup(24, 62, "AleoLocalDataCommitment0")
    }

    /// The hash of local data.
    pub fn local_data_crh() -> (r: Result<BHP, Error>)
        ensures
            setup_outcome(r, 16, 32, "AleoLocalDataCRH0".spec_bytes()),
    {
        BHP::setup(16, 32, "AleoLocalDataCRH0")
    }

    /// The commitment scheme of records.
    pub fn record_commitment_scheme() -> (r: Result<BHP, Error>)
        ensures
            setup_outcome(r, 48, 50, "AleoRecordCommitment0".spec_bytes()),
    {
        BHP::setup(48, 50, "AleoRecordCommitment0")
    }

    /// The hash of the tree of record commitments.
    pub fn record_commitment_tree_crh() -> (r: Result<BHP, Error>)
        ensures
            setup_outcome(r, 8, 32, "AleoLedgerMerkleTreeCRH0".spec_bytes()),
    {
        BHP::setup(8, 32, "AleoLedgerMerkleTreeCRH0")
    }

    /// The hash of the tree of serial numbers.
    pub fn record_serial_number_tree_crh() -> (r: Result<BHP, Error>)
        ensures
            setup_outcome(r, 8, 32, "AleoRecordSerialNumberTreeCRH0".spec_bytes()),
    {
        BHP::setup(8, 32, "AleoRecordSerialNumberTreeCRH0")
    }

    /// The hash of serial number nonces.
    pub fn serial_number_nonce_crh() -> (r: Result<BHP, Error>)
        ensures
            setup_outcome(r, 32, 63, "AleoSerialNumberNonceCRH0".spec_bytes()),
    {
        BHP::setup(32, 63, "AleoSerialNumberNonceCRH0")
    }

    /// The parameters of the tree of record commitments.
    pub fn record_commitment_tree_parameters() -> (r: Result<MerkleTreeParameters, Error>)
        ensures
            tree_outcome(r, 8, 32, "AleoLedgerMerkleTreeCRH0".spec_bytes()),
    {
        match Self::record_commitment_tree_crh() {
            Ok(crh) => Ok(MerkleTreeParameters::from(crh)),
            Err(e) => Err(e),
        }
    }

    /// The parameters of the tree of serial numbers.
    pub fn record_serial_number_tree_parameters() -> (r: Result<MerkleTreeParameters, Error>)
        ensures
            tree_outcome(r, 8, 32, "AleoRecordSerialNumberTreeCRH0".spec_bytes()),
    {
        match Self::record_serial_number_tree_crh() {
            Ok(crh) => Ok(MerkleTreeParameters::from(crh)),
            Err(e) => Err(e),
        }
    }
}

} // verus!
