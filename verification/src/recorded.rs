//! A target that answers from a record.

use vstd::prelude::*;
use std::collections::HashMap;
use crate::memory::{text_of, ReadError, ReadMemory};

verus! {

broadcast use vstd::std_specs::hash::group_hash_axioms;

/// Values recorded at addresses, read like a target that stands still: a read
/// at an address gives the value of its kind that was last recorded there,
/// and fails where none was. The kinds are recorded apart: a value of one
/// kind answers no read of another.
pub struct RecordedMemory {
    words: HashMap<usize, u16>,
    double_words: HashMap<usize, u32>,
    pointers: HashMap<usize, usize>,
    texts: HashMap<usize, String>,
}

impl RecordedMemory {
    /// The two-byte values on record, by address.
    pub closed spec fn words(&self) -> Map<usize, u16> {
        self.words@
    }

    /// The four-byte values on record, by address.
    pub closed spec fn double_words(&self) -> Map<usize, u32> {
        self.double_words@
    }

    /// The pointers on record, by address.
    pub closed spec fn pointers(&self) -> Map<usize, usize> {
        self.pointers@
    }

    /// The texts on record, by address.
    pub closed spec fn texts(&self) -> Map<usize, Seq<char>> {
        self.texts@.map_values(|text: String| text@)
    }

    /// What a read of two bytes at `address` gives.
    pub open spec fn answer_u16(&self, address: usize) -> Result<u16, ReadError> {
        if self.words().contains_key(address) {
            Ok(self.words()[address])
        } else {
            Err(ReadError { address })
        }
    }

    /// What a read of four bytes at `address` gives.
    pub open spec fn answer_u32(&self, address: usize) -> Result<u32, ReadError> {
        if self.double_words().contains_key(address) {
            Ok(self.double_words()[address])
        } else {
            Err(ReadError { address })
        }
    }

    /// What a read of a pointer at `address` gives.
    pub open spec fn answer_usize(&self, address: usize) -> Result<usize, ReadError> {
        if self.pointers().contains_key(address) {
            Ok(self.pointers()[address])
        } else {
            Err(ReadError { address })
        }
    }

    /// What a read of the text at `address` gives.
    pub open spec fn answer_text(&self, address: usize) -> Result<Seq<char>, ReadError> {
        if self.texts().contains_key(address) {
            Ok(self.texts()[address])
        } else {
            Err(ReadError { address })
        }
    }

    /// A record of nothing: every read of it fails.
    pub fn new() -> (memory: Self)
        ensures
            memory.words() == Map::<usize, u16>::empty(),
            memory.double_words() == Map::<usize, u32>::empty(),
            memory.pointers() == Map::<usize, usize>::empty(),
            memory.texts() == Map::<usize, Seq<char>>::empty(),
    {
        Self {
            words: HashMap::new(),
            double_words: HashMap::new(),
            pointers: HashMap::new(),
            texts: HashMap::new(),
        }
    }

    /// Records the two-byte value `value` at `address`, in place of the one
    /// that was recorded there.
    pub fn record_u16(&mut self, address: usize, value: u16)
        ensures
            final(self).words() == old(self).words().insert(address, value),
            final(self).double_words() == old(self).double_words(),
            final(self).pointers() == old(self).pointers(),
            final(self).texts() == old(self).texts(),
    {
        self.words.insert(address, value);
    }

    /// Records the four-byte value `value` at `address`, in place of the one
    /// that was recorded there.
    pub fn record_u32(&mut self, address: usize, value: u32)
        ensures
            final(self).double_words() == old(self).double_words().insert(address, value),
            final(self).words() == old(self).words(),
            final(self).pointers() == old(self).pointers(),
            final(self).texts() == old(self).texts(),
    {
        self.double_words.insert(address, value);
    }

    /// Records the pointer `value` at `address`, in place of the one that was
    /// recorded there.
    pub fn record_usize(&mut self, address: usize, value: usize)
        ensures
            final(self).pointers() == old(self).pointers().insert(address, value),
            final(self).words() == old(self).words(),
            final(self).double_words() == old(self).double_words(),
            final(self).texts() == old(self).texts(),
    {
        self.pointers.insert(address, value);
    }

    /// Records the text `text` at `address`, in place of the one that was
    /// recorded there.
    pub fn record_string(&mut self, address: usize, text: &str)
        ensures
            final(self).texts() == old(self).texts().insert(address, text@),
            final(self).words() == old(self).words(),
            final(self).double_words() == old(self).double_words(),
            final(self).pointers() == old(self).pointers(),
    {
        self.texts.insert(address, text.to_owned());
    }
}

impl ReadMemory for RecordedMemory {
    open spec fn may_read_u16(&self, address: usize, outcome: Result<u16, ReadError>) -> bool {
        outcome == self.answer_u16(address)
    }

    open spec fn may_read_u32(&self, address: usize, outcome: Result<u32, ReadError>) -> bool {
        outcome == self.answer_u32(address)
    }

    open spec fn may_read_usize(&self, address: usize, outcome: Result<usize, ReadError>) -> bool {
        outcome == self.answer_usize(address)
    }

    open spec fn may_read_text(
        &self,
        address: usize,
        outcome: Result<Seq<char>, ReadError>,
    ) -> bool {
        outcome == self.answer_text(address)
    }

    fn read_u16(&self, address: usize) -> (outcome: Result<u16, ReadError>) {
        match self.words.get(&address) {
            Some(value) => Ok(*value),
            None => Err(ReadError { address }),
        }
    }

    fn read_u32(&self, address: usize) -> (outcome: Result<u32, ReadError>) {
        match self.double_words.get(&address) {
            Some(value) => Ok(*value),
            None => Err(ReadError { address }),
        }
    }

    fn read_usize(&self, address: usize) -> (outcome: Result<usize, ReadError>) {
        match self.pointers.get(&address) {
            Some(value) => Ok(*value),
            None => Err(ReadError { address }),
        }
    }

    fn read_string(&self, address: usize) -> (outcome: Result<String, ReadError>) {
        match self.texts.get(&address) {
            Some(text) => Ok(text.clone()),
            None => Err(ReadError { address }),
        }
    }
}

} // verus!
