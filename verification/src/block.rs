//! A block as the block explorer reports it.

use vstd::prelude::*;

verus! {

/// A block as plain values. The difficulty is held by the bits of its
/// floating-point number.
pub ghost struct BlockView {
    pub id: Seq<char>,
    pub height: u64,
    pub version: u64,
    pub timestamp: u64,
    pub tx_count: u64,
    pub size: u64,
    pub weight: u64,
    pub merkle_root: Seq<char>,
    pub previousblockhash: Seq<char>,
    pub mediantime: u64,
    pub nonce: u64,
    pub bits: u64,
    pub difficulty_bits: u64,
}

/// The low 32 bits of `height`.
pub open spec fn height_as_u32(height: u64) -> u32 {
    (height % 0x1_0000_0000) as u32
}

#[derive(Debug, Clone)]
pub struct Block {
    id: String,
    height: u64,
    version: u64,
    timestamp: u64,
    tx_count: u64,
    size: u64,
    weight: u64,
    merkle_root: String,
    previousblockhash: String,
    mediantime: u64,
    nonce: u64,
    bits: u64,
    difficulty_bits: u64,
}

impl View for Block {
    type V = BlockView;

    closed spec fn view(&self) -> BlockView {
        BlockView {
            id: self.id@,
            height: self.height,
            version: self.version,
            timestamp: self.timestamp,
            tx_count: self.tx_count,
            size: self.size,
            weight: self.weight,
            merkle_root: self.merkle_root@,
            previousblockhash: self.previousblockhash@,
            mediantime: self.mediantime,
            nonce: self.nonce,
            bits: self.bits,
            difficulty_bits: self.difficulty_bits,
        }
    }
}

impl Block {
    pub fn new(
        id: String,
        height: u64,
        version: u64,
        timestamp: u64,
        tx_count: u64,
        size: u64,
        weight: u64,
        merkle_root: String,
        previousblockhash: String,
        mediantime: u64,
        nonce: u64,
        bits: u64,
        difficulty_bits: u64,
    ) -> (block: Block)
        ensures
            block@ == (BlockView {
                id: id@,
                height,
                version,
                timestamp,
                tx_count,
                size,
                weight,
                merkle_root: merkle_root@,
                previousblockhash: previousblockhash@,
                mediantime,
                nonce,
                bits,
                difficulty_bits,
            }),
    {
        Block {
            id,
            height,
            version,
            timestamp,
            tx_count,
            size,
            weight,
            merkle_root,
            previousblockhash,
            mediantime,
            nonce,
            bits,
            difficulty_bits,
        }
    }

    pub fn get_id(&self) -> (id: String)
        ensures
            id@ == self@.id,
    {
        self.id.clone()
    }

    /// The height, cut down to its low 32 bits.
    pub fn get_height(&self) -> (height: u32)
        ensures
            height == height_as_u32(self@.height),
            self@.height <= u32::MAX ==> height == self@.height,
    {
        let height = self.height;
        assert(height as u32 == (height % 0x1_0000_0000) as u32) by (bit_vector);
        height as u32
    }

    pub fn get_timestamp(&self) -> (timestamp: u64)
        ensures
            timestamp == self@.timestamp,
    {
        self.timestamp
    }

    pub fn get_size(&self) -> (size: u64)
        ensures
            size == self@.size,
    {
        self.size
    }

    pub fn get_merkle_root(&self) -> (merkle_root: &str)
        ensures
            merkle_root@ == self@.merkle_root,
    {
        self.merkle_root.as_str()
    }

    /// The bits of the difficulty.
    pub fn get_difficulty_bits(&self) -> (difficulty_bits: u64)
        ensures
            difficulty_bits == self@.difficulty_bits,
    {
        self.difficulty_bits
    }

    pub fn get_tx_count(&self) -> (tx_count: u64)
        ensures
            tx_count == self@.tx_count,
    {
        self.tx_count
    }
}

} // verus!
