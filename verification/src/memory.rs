//! The read capability through which the target's address space is observed.

use vstd::prelude::*;

verus! {

/// A read of the target's memory that could not be carried out: the range was
/// unmapped or protected, or the target is gone.
#[derive(Clone, Copy, Debug, PartialEq, Eq, Structural)]
pub struct ReadError {
    /// Where the read that failed started.
    pub address: usize,
}

/// Read access to the address space of a target.
///
/// The target runs on while it is read, so two reads of one address may give
/// two answers. What a read may give is therefore stated as a relation
/// between the address and the answer, one relation for each kind of value.
/// An implementation that states none admits every answer, as a live target
/// does; one that reads what stands still states exactly what it gives.
pub trait ReadMemory {
    /// Whether a read of two bytes at `address` may be answered by `outcome`.
    open spec fn may_read_u16(&self, address: usize, outcome: Result<u16, ReadError>) -> bool {
        true
    }

    /// Whether a read of four bytes at `address` may be answered by `outcome`.
    open spec fn may_read_u32(&self, address: usize, outcome: Result<u32, ReadError>) -> bool {
        true
    }

    /// Whether a read of a pointer at `address` may be answered by `outcome`.
    open spec fn may_read_usize(&self, address: usize, outcome: Result<usize, ReadError>) -> bool {
        true
    }

    /// Whether a read of the text that starts at `address` may be answered by
    /// `outcome`.
    open spec fn may_read_text(
        &self,
        address: usize,
        outcome: Result<Seq<char>, ReadError>,
    ) -> bool {
        true
    }

    /// Reads the two-byte unsigned integer at `address`.
    fn read_u16(&self, address: usize) -> (outcome: Result<u16, ReadError>)
        ensures
            self.may_read_u16(address, outcome),
    ;

    /// Reads the four-byte unsigned integer at `address`.
    fn read_u32(&self, address: usize) -> (outcome: Result<u32, ReadError>)
        ensures
            self.may_read_u32(address, outcome),
    ;

    /// Reads the pointer-sized unsigned integer at `address`.
    fn read_usize(&self, address: usize) -> (outcome: Result<usize, ReadError>)
        ensures
            self.may_read_usize(address, outcome),
    ;

    /// Reads the text that starts at `address`, as the target delimits it.
    fn read_string(&self, address: usize) -> (outcome: Result<String, ReadError>)
        ensures
            self.may_read_text(address, text_of(outcome)),
    ;
}

/// The characters of the text that a read gave, or its error.
pub open spec fn text_of(outcome: Result<String, ReadError>) -> Result<Seq<char>, ReadError> {
    match outcome {
        Ok(text) => Ok(text@),
        Err(error) => Err(error),
    }
}

} // verus!
