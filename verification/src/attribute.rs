//! The attribute records that an extended launch hands to the driver.
//!
//! A record starts with the attribute's id, a 32-bit integer at byte offset 0.
//! Four bytes of padding follow, then, at byte offset 8, a union with the
//! attribute's value. The union is larger than the values that a launch sets,
//! and how large depends on the driver's headers: what no value covers is zero.

use vstd::prelude::*;

verus! {

/// Byte offset of the attribute's id.
pub const ID_OFFSET: usize = 0;

/// Byte offset of the union that holds the attribute's value.
pub const VALUE_OFFSET: usize = 8;

/// Size in bytes of a word of a record.
pub const WORD_BYTES: usize = 4;

/// The fewest words that a record can have: id, padding, and room for three
/// cluster dimensions.
pub const MIN_RECORD_WORDS: usize = 5;

/// The value of the cooperative attribute that turns a cooperative launch on.
pub const COOPERATIVE_ENABLED: u32 = 1;

/// What the driver's headers fix about attribute records.
#[derive(Clone, Copy, Debug, PartialEq, Eq, Structural)]
pub struct AttributeAbi {
    /// `CU_LAUNCH_ATTRIBUTE_CLUSTER_DIMENSION`.
    pub cluster_dimension: u32,
    /// `CU_LAUNCH_ATTRIBUTE_COOPERATIVE`.
    pub cooperative: u32,
    /// The size of a record, in words of four bytes.
    pub record_words: usize,
}

impl AttributeAbi {
    /// A record has room for the values that a launch sets, and is no larger
    /// than an object in memory can be.
    pub open spec fn valid(self) -> bool {
        &&& MIN_RECORD_WORDS <= self.record_words
        &&& self.record_words * WORD_BYTES <= isize::MAX
    }
}

/// What an attribute record asks for.
pub enum AttributeMeaning {
    /// Thread-block clusters of this many blocks along each axis.
    ClusterDimension { x: u32, y: u32, z: u32 },
    /// A cooperative launch.
    Cooperative,
}

/// The words of a record in memory order: the word with index `i` lies at byte
/// offset `4 * i`. The id and the first words of the value are as given, all
/// other words are zero.
pub open spec fn record(abi: AttributeAbi, id: u32, v0: u32, v1: u32, v2: u32) -> Seq<u32> {
    Seq::new(
        abi.record_words as nat,
        |i: int|
            if i == 0 {
                id
            } else if i == 2 {
                v0
            } else if i == 3 {
                v1
            } else if i == 4 {
                v2
            } else {
                0
            },
    )
}

/// The record that asks for `meaning`.
pub open spec fn encode(abi: AttributeAbi, meaning: AttributeMeaning) -> Seq<u32> {
    match meaning {
        AttributeMeaning::ClusterDimension { x, y, z } => record(
            abi,
            abi.cluster_dimension,
            x,
            y,
            z,
        ),
        AttributeMeaning::Cooperative => record(abi, abi.cooperative, COOPERATIVE_ENABLED, 0, 0),
    }
}

/// The record that sets the cluster dimensions to `dim`.
pub open spec fn cluster_record(abi: AttributeAbi, dim: (u32, u32, u32)) -> Seq<u32> {
    encode(abi, AttributeMeaning::ClusterDimension { x: dim.0, y: dim.1, z: dim.2 })
}

/// The record that turns a cooperative launch on.
pub open spec fn cooperative_record(abi: AttributeAbi) -> Seq<u32> {
    encode(abi, AttributeMeaning::Cooperative)
}

/// The word of a record at a byte offset.
pub open spec fn word_at(words: Seq<u32>, offset: int) -> u32 {
    words[offset / (WORD_BYTES as int)]
}

/// What the driver reads out of a record: the id says how to read the value.
pub open spec fn decode(abi: AttributeAbi, words: Seq<u32>) -> Option<AttributeMeaning> {
    let id = word_at(words, ID_OFFSET as int);
    let value = VALUE_OFFSET as int;
    if id == abi.cluster_dimension {
        Some(
            AttributeMeaning::ClusterDimension {
                x: word_at(words, value),
                y: word_at(words, value + WORD_BYTES),
                z: word_at(words, value + 2 * WORD_BYTES),
            },
        )
    } else if id == abi.cooperative && word_at(words, value) == COOPERATIVE_ENABLED {
        Some(AttributeMeaning::Cooperative)
    } else {
        None
    }
}

/// An attribute record, word by word in memory order.
#[derive(Debug, PartialEq, Eq)]
pub struct LaunchAttribute {
    words: Vec<u32>,
}

impl View for LaunchAttribute {
    type V = Seq<u32>;

    closed spec fn view(&self) -> Seq<u32> {
        self.words@
    }
}

impl LaunchAttribute {
    /// A record of zeros.
    fn zeroed(abi: AttributeAbi) -> (attribute: LaunchAttribute)
        requires
            abi.valid(),
        ensures
            attribute@ == record(abi, 0, 0, 0, 0),
    {
        let attribute = LaunchAttribute { words: vec![0; abi.record_words] };
        assert(attribute@ =~= record(abi, 0, 0, 0, 0));
        attribute
    }

    /// Overwrites the word at a byte offset.
    fn write(&mut self, offset: usize, word: u32)
        requires
            offset % WORD_BYTES == 0,
            offset < old(self)@.len() * WORD_BYTES,
        ensures
            final(self)@ == old(self)@.update(offset as int / WORD_BYTES as int, word),
    {
        self.words[offset / WORD_BYTES] = word;
    }

    /// The record that sets the cluster dimensions: the id, and the three
    /// dimensions one after the other at the start of the value.
    pub fn cluster_dimension(abi: AttributeAbi, dim: (u32, u32, u32)) -> (attribute:
        LaunchAttribute)
        requires
            abi.valid(),
        ensures
            attribute@ == cluster_record(abi, dim),
            attribute@.len() == abi.record_words,
            attribute@[0] == abi.cluster_dimension,
            attribute@[1] == 0,
            attribute@[2] == dim.0,
            attribute@[3] == dim.1,
            attribute@[4] == dim.2,
            forall|i: int| 5 <= i < abi.record_words ==> attribute@[i] == 0,
    {
        let mut attribute = LaunchAttribute::zeroed(abi);
        attribute.write(ID_OFFSET, abi.cluster_dimension);
        attribute.write(VALUE_OFFSET, dim.0);
        attribute.write(VALUE_OFFSET + WORD_BYTES, dim.1);
        attribute.write(VALUE_OFFSET + 2 * WORD_BYTES, dim.2);
        assert(attribute@ =~= cluster_record(abi, dim));
        attribute
    }

    /// The record that turns a cooperative launch on: the id, and a one at the
    /// start of the value.
    pub fn cooperative(abi: AttributeAbi) -> (attribute: LaunchAttribute)
        requires
            abi.valid(),
        ensures
            attribute@ == cooperative_record(abi),
            attribute@.len() == abi.record_words,
            attribute@[0] == abi.cooperative,
            attribute@[1] == 0,
            attribute@[2] == 1,
            forall|i: int| 3 <= i < abi.record_words ==> attribute@[i] == 0,
    {
        let mut attribute = LaunchAttribute::zeroed(abi);
        attribute.write(ID_OFFSET, abi.cooperative);
        attribute.write(VALUE_OFFSET, COOPERATIVE_ENABLED);
        assert(attribute@ =~= cooperative_record(abi));
        attribute
    }

    /// The words, in memory order.
    pub fn words(&self) -> (words: &[u32])
        ensures
            words@ == self@,
    {
        self.words.as_slice()
    }
}

} // verus!
