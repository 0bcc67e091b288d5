//! The descriptor of one field of a class.

use vstd::prelude::*;
use crate::layout::{offset_address, wrap};
use crate::memory::{text_of, ReadError, ReadMemory};

verus! {

/// Where the properties of a field stand in its record, each as a distance in
/// bytes from the start of the record. The build of the target decides them.
#[derive(Clone, Copy, Debug, PartialEq, Eq, Structural)]
pub struct FieldLayout {
    /// Where the pointer to the name of the field stands.
    pub name: usize,
    /// Where the pointer to the descriptor of the field's type stands.
    pub declared_type: usize,
    /// Where the four-byte offset of the field's storage stands.
    pub byte_offset: usize,
}

/// A reference to the type of a field: the address, in the target, of the
/// descriptor of the type.
#[derive(Clone, Copy, Debug, PartialEq, Eq, Structural)]
pub struct TypeRef {
    /// Where the descriptor of the type stands.
    pub address: usize,
}

/// A handle on the metadata record of one field, in the address space of the
/// target that `process` reads.
///
/// The handle is made without touching the target; each property of the
/// field is read when it is asked for, and read anew each time.
pub struct SchemaClassFieldData<'a, P> {
    process: &'a P,
    address: usize,
}

impl<'a, P> SchemaClassFieldData<'a, P> {
    /// The capability through which the record is read.
    pub closed spec fn spec_process(&self) -> &'a P {
        self.process
    }

    /// The address of the record.
    pub closed spec fn spec_address(&self) -> usize {
        self.address
    }

    /// The descriptor of the field whose record stands at `address`.
    pub fn new(process: &'a P, address: usize) -> (field: Self)
        ensures
            field.process() == process,
            field.address() == address,
    {
        Self { process, address }
    }

    /// The capability through which the record is read.
    #[verifier::when_used_as_spec(spec_process)]
    pub fn process(&self) -> (process: &'a P)
        ensures
            process == self.spec_process(),
    {
        self.process
    }

    /// The address of the record.
    #[verifier::when_used_as_spec(spec_address)]
    pub fn address(&self) -> (address: usize)
        ensures
            address == self.spec_address(),
    {
        self.address
    }
}

/// What a query for the name of a field ends in, given what its reads gave:
/// `pointer` is the answer to the read of the name pointer, `text` the answer
/// to the read of the text that the pointer leads to. A failed read of the
/// pointer ends the query, whatever `text` is: no text is asked for then.
pub open spec fn name_outcome(
    pointer: Result<usize, ReadError>,
    text: Result<Seq<char>, ReadError>,
) -> Result<Seq<char>, ReadError> {
    match pointer {
        Err(error) => Err(error),
        Ok(_) => text,
    }
}

impl<'a, P: ReadMemory> SchemaClassFieldData<'a, P> {
    /// Whether a query for the name of the field may end in `outcome`:
    /// whether the target may give answers to the reads of the query that
    /// make it end so. The text is read at the address that the name pointer
    /// gave, and only where the pointer was read.
    pub open spec fn may_name(
        &self,
        layout: FieldLayout,
        outcome: Result<Seq<char>, ReadError>,
    ) -> bool {
        exists|pointer: Result<usize, ReadError>, text: Result<Seq<char>, ReadError>|
            #![trigger name_outcome(pointer, text)]
            self.process().may_read_usize(wrap(self.address() + layout.name), pointer) && (
            pointer matches Ok(start) ==> self.process().may_read_text(start, text)) && outcome
                == name_outcome(pointer, text)
    }

    /// Whether the target may answer `outcome` when the type of the field is
    /// read.
    pub open spec fn may_declare(
        &self,
        layout: FieldLayout,
        outcome: Result<TypeRef, ReadError>,
    ) -> bool {
        self.process().may_read_usize(
            wrap(self.address() + layout.declared_type),
            match outcome {
                Ok(declared) => Ok(declared.address),
                Err(error) => Err(error),
            },
        )
    }

    /// Whether the target may answer `outcome` when the offset of the field's
    /// storage is read.
    pub open spec fn may_offset(
        &self,
        layout: FieldLayout,
        outcome: Result<u32, ReadError>,
    ) -> bool {
        self.process().may_read_u32(wrap(self.address() + layout.byte_offset), outcome)
    }

    /// Reads the name of the field: first the pointer to it, then the text
    /// that the pointer leads to. The first read that fails ends the query,
    /// and its error is returned.
    pub fn name(&self, layout: &FieldLayout) -> (name: Result<String, ReadError>)
        ensures
            self.may_name(*layout, text_of(name)),
    {
        let pointer: usize = match self.process.read_usize(
            offset_address(self.address, layout.name),
        ) {
            Ok(pointer) => pointer,
            Err(error) => {
                assert(name_outcome(Err(error), Err(error)) == Err::<Seq<char>, ReadError>(error));
                return Err(error);
            },
        };
        let name = self.process.read_string(pointer);
        assert(name_outcome(Ok(pointer), text_of(name)) == text_of(name));
        name
    }

    /// Reads which type the field was declared with.
    pub fn declared_type(&self, layout: &FieldLayout) -> (declared: Result<TypeRef, ReadError>)
        ensures
            self.may_declare(*layout, declared),
    {
        match self.process.read_usize(offset_address(self.address, layout.declared_type)) {
            Ok(address) => Ok(TypeRef { address }),
            Err(error) => Err(error),
        }
    }

    /// Reads how far into an instance of the class the storage of the field
    /// starts.
    pub fn byte_offset(&self, layout: &FieldLayout) -> (offset: Result<u32, ReadError>)
        ensures
            self.may_offset(*layout, offset),
    {
        self.process.read_u32(offset_address(self.address, layout.byte_offset))
    }
}

/// The addresses of `fields`, in their order.
pub open spec fn addresses_of<'a, P>(fields: Seq<SchemaClassFieldData<'a, P>>) -> Seq<usize> {
    fields.map_values(|field: SchemaClassFieldData<'a, P>| field.address())
}

} // verus!
