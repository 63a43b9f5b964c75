use vstd::prelude::*;

verus! {

/// Largest digest, in bytes, that one call of the hash function gives.
pub const BLOCK_DIGEST_BYTES: usize = 32;

/// The parameters of one call of the hash function.
#[derive(Clone, Copy, Debug)]
pub struct HashParams {
    pub hash_length: usize,
    pub fanout: u8,
    pub max_depth: u8,
    pub max_leaf_length: u32,
    pub node_offset: u64,
    pub inner_hash_length: usize,
}

impl HashParams {
    /// The parameters are in the ranges that the hash function takes.
    pub open spec fn wf(self) -> bool {
        &&& 1 <= self.hash_length <= 32
        &&& self.inner_hash_length <= 32
        &&& self.node_offset < 0x1_0000_0000_0000
    }
}

/// The digest of the hash function under the given parameters and
/// personalization.
pub uninterp spec fn blake2s_digest(params: HashParams, personal: Seq<u8>, input: Seq<u8>) -> Seq<u8>;

/// `Params::hash` of blake2s_simd, on parameters set through the builder's
/// methods of the same names and `personal`. The digest is given the name
/// `blake2s_digest`. Claimed beside the name: that the digest has as many
/// bytes as `hash_length` asks for.
#[verifier::external_body]
pub(crate) fn blake2s(params: &HashParams, personal: &[u8], input: &[u8]) -> (digest: Vec<u8>)
    requires
        params.wf(),
        personal@.len() <= 8,
    ensures
        digest@ == blake2s_digest(*params, personal@, input@),
        digest@.len() == params.hash_length,
{
    blake2s_simd::Params::new()
        .hash_length(params.hash_length)
        .fanout(params.fanout)
        .max_depth(params.max_depth)
        .max_leaf_length(params.max_leaf_length)
        .node_offset(params.node_offset)
        .inner_hash_length(params.inner_hash_length)
        .personal(personal)
        .hash(input)
        .as_bytes()
        .to_vec()
}

/// The parameters of the first call of the extendable-output construction:
/// the digest of the input, tagged with the length that will be asked for.
pub open spec fn root_params(length: u16) -> HashParams {
    HashParams {
        hash_length: 32,
        fanout: 1,
        max_depth: 1,
        max_leaf_length: 0,
        node_offset: ((length as u64) * 0x1_0000_0000) as u64,
        inner_hash_length: 0,
    }
}

/// The parameters of the call that gives block `index` of the output.
pub open spec fn block_params(length: u16, index: u16) -> HashParams {
    HashParams {
        hash_length: block_length(length, index) as usize,
        fanout: 0,
        max_depth: 0,
        max_leaf_length: 32,
        node_offset: ((length as u64) * 0x1_0000_0000 + (index as u64)) as u64,
        inner_hash_length: 32,
    }
}

/// Number of blocks in an output of `length` bytes.
pub open spec fn num_blocks(length: u16) -> int {
    (length as int + 31) / 32
}

/// Number of bytes in block `index` of an output of `length` bytes: 32, but
/// for a shorter last block.
pub open spec fn block_length(length: u16, index: u16) -> int {
    if index as int == num_blocks(length) - 1 && length % 32 != 0 {
        (length % 32) as int
    } else {
        32
    }
}

/// The first `count` blocks of the output, one after another.
pub open spec fn xof_blocks(root: Seq<u8>, personal: Seq<u8>, length: u16, count: nat) -> Seq<u8>
    decreases count,
{
    if count == 0 {
        Seq::empty()
    } else {
        xof_blocks(root, personal, length, (count - 1) as nat) + blake2s_digest(
            block_params(length, (count - 1) as u16),
            personal,
            root,
        )
    }
}

/// The extendable-output digest of `length` bytes: the input is hashed once,
/// and each block of the output is a hash of that digest under the block's
/// own index.
pub open spec fn xof_digest(input: Seq<u8>, length: u16, personal: Seq<u8>) -> Seq<u8> {
    xof_blocks(
        blake2s_digest(root_params(length), personal, input),
        personal,
        length,
        num_blocks(length) as nat,
    )
}

/// Number of bytes in the first `count` blocks.
pub open spec fn blocks_len(length: u16, count: nat) -> int
    decreases count,
{
    if count == 0 {
        0
    } else {
        blocks_len(length, (count - 1) as nat) + block_length(length, (count - 1) as u16)
    }
}

/// Computes the extendable-output digest of `length` bytes.
pub fn xof(input: &[u8], length: u16, personal: &[u8]) -> (out: Vec<u8>)
    requires
        length > 0,
        personal@.len() <= 8,
    ensures
        out@ == xof_digest(input@, length, personal@),
        out@.len() == length,
{
    let offset: u64 = (length as u64) * 0x1_0000_0000u64;
    let root_parameters = HashParams {
        hash_length: 32,
        fanout: 1,
        max_depth: 1,
        max_leaf_length: 0,
        node_offset: offset,
        inner_hash_length: 0,
    };
    let root = blake2s(&root_parameters, personal, input);
    let rounds: u16 = ((length as u32 + 31) / 32) as u16;
    let remainder: u16 = length % 32;
    let mut out: Vec<u8> = Vec::new();
    let mut index: u16 = 0;
    while index < rounds
        invariant
            length > 0,
            personal@.len() <= 8,
            index <= rounds,
            rounds as int == num_blocks(length),
            remainder == length % 32,
            offset == (length as u64) * 0x1_0000_0000u64,
            root@ == blake2s_digest(root_params(length), personal@, input@),
            out@ == xof_blocks(root@, personal@, length, index as nat),
            out@.len() == if index == rounds { length as int } else { 32 * index },
        decreases rounds - index,
    {
        let last = index == rounds - 1;
        let block_bytes: usize = if last && remainder != 0 { remainder as usize } else { 32 };
        let parameters = HashParams {
            hash_length: block_bytes,
            fanout: 0,
            max_depth: 0,
            max_leaf_length: 32,
            node_offset: offset + (index as u64),
            inner_hash_length: 32,
        };
        let mut block = blake2s(&parameters, personal, root.as_slice());
        out.append(&mut block);
        index += 1;
    }
    out
}

} // verus!
