//! The descriptor of a class, and the walk over its field table.

use vstd::prelude::*;
use crate::field::{addresses_of, SchemaClassFieldData};
use crate::layout::{
    count_address, nth_field_address, offset_address, table_pointer_address, FIELD_COUNT_OFFSET,
    FIELD_TABLE_OFFSET,
};
use crate::memory::{ReadError, ReadMemory};
use crate::table::{candidate_addresses, field_addresses, lemma_no_records_no_fields};

verus! {

/// A view of one class of the target: the address of its metadata record and
/// the name it goes by.
///
/// The view keeps nothing of what it reads: every query reads the target anew.
pub struct SchemaClassInfo<'a, P> {
    process: &'a P,
    address: usize,
    class_name: String,
}

impl<'a, P> SchemaClassInfo<'a, P> {
    /// The capability through which the class is read.
    pub closed spec fn process(&self) -> &'a P {
        self.process
    }

    /// The address of the class's metadata record.
    pub closed spec fn address(&self) -> usize {
        self.address
    }

    /// The name that the class was given.
    pub closed spec fn spec_name(&self) -> Seq<char> {
        self.class_name@
    }

    /// The view of the class named `class_name` whose record stands at
    /// `address`. Nothing is read, and nothing is asked of `address`.
    pub fn new(process: &'a P, address: usize, class_name: &str) -> (class: Self)
        ensures
            class.process() == process,
            class.address() == address,
            class.spec_name() == class_name@,
    {
        Self { process, address, class_name: class_name.to_owned() }
    }

    /// The name that the class was given, as it was given.
    pub fn name(&self) -> (name: &str)
        ensures
            name@ == self.spec_name(),
    {
        self.class_name.as_str()
    }

    /// The descriptors of the fields of a table that starts at `table` and
    /// holds `count` records: one for each record whose address is not null,
    /// in the order of the table.
    pub fn fields_of_table(&self, table: usize, count: u16) -> (fields: Vec<
        SchemaClassFieldData<'a, P>,
    >)
        ensures
            addresses_of(fields@) == field_addresses(table, count as nat),
            forall|i: int|
                0 <= i < fields.len() ==> {
                    &&& (#[trigger] fields[i]).process() == self.process()
                    &&& fields[i].address() != 0
                },
    {
        let mut fields: Vec<SchemaClassFieldData<'a, P>> = Vec::new();
        let mut index: u16 = 0;
        while index < count
            invariant
                index <= count,
                addresses_of(fields@) == field_addresses(table, index as nat),
                forall|i: int|
                    0 <= i < fields.len() ==> {
                        &&& (#[trigger] fields[i]).process() == self.process()
                        &&& fields[i].address() != 0
                    },
            decreases count - index,
        {
            let address: usize = nth_field_address(table, index);
            proof {
                let longer = candidate_addresses(table, (index + 1) as nat);
                reveal(Seq::filter);
                assert(longer.drop_last() =~= candidate_addresses(table, index as nat));
            }
            if address != 0 {
                fields.push(SchemaClassFieldData::new(self.process, address));
            }
            index = index + 1;
        }
        fields
    }
}

/// What a walk ends in, given what its reads gave: `count` is the answer to
/// the read of the count, `table` the answer to the read of the table
/// pointer. A failed read of the count ends the walk, whatever `table` is: the
/// pointer is not asked for then.
pub open spec fn walk_outcome(
    count: Result<u16, ReadError>,
    table: Result<usize, ReadError>,
) -> Result<Seq<usize>, ReadError> {
    match count {
        Err(error) => Err(error),
        Ok(count) => match table {
            Err(error) => Err(error),
            Ok(table) => Ok(field_addresses(table, count as nat)),
        },
    }
}

/// What a walk that returned `fields` ended in: the addresses of the fields,
/// or the error.
pub open spec fn listing<'a, P>(
    fields: Result<Vec<SchemaClassFieldData<'a, P>>, ReadError>,
) -> Result<Seq<usize>, ReadError> {
    match fields {
        Ok(found) => Ok(addresses_of(found@)),
        Err(error) => Err(error),
    }
}

impl<'a, P: ReadMemory> SchemaClassInfo<'a, P> {
    /// Whether the target may answer `outcome` when the number of declared
    /// fields is read.
    pub open spec fn may_count(&self, outcome: Result<u16, ReadError>) -> bool {
        self.process().may_read_u16(count_address(self.address()), outcome)
    }

    /// Whether the target may answer `outcome` when the pointer to the field
    /// table is read.
    pub open spec fn may_locate(&self, outcome: Result<usize, ReadError>) -> bool {
        self.process().may_read_usize(table_pointer_address(self.address()), outcome)
    }

    /// Whether a walk over the field table may end in `outcome`: whether the
    /// target may give answers to the reads of the walk that make it end so.
    /// Of the table pointer an answer is asked only where the count was read.
    pub open spec fn may_list(&self, outcome: Result<Seq<usize>, ReadError>) -> bool {
        exists|count: Result<u16, ReadError>, table: Result<usize, ReadError>|
            #![trigger walk_outcome(count, table)]
            self.may_count(count) && (count is Ok ==> self.may_locate(table)) && outcome
                == walk_outcome(count, table)
    }

    /// Reads how many fields the class declares.
    pub fn fields_count(&self) -> (count: Result<u16, ReadError>)
        ensures
            self.may_count(count),
    {
        self.process.read_u16(offset_address(self.address, FIELD_COUNT_OFFSET))
    }

    /// Reads the number of declared fields, then the pointer to the field
    /// table, and gives the descriptors of the fields: one for each record of
    /// the table whose address is not null, in the order of the table.
    ///
    /// The first read that fails ends the walk, and its error is returned.
    pub fn fields(&self) -> (fields: Result<Vec<SchemaClassFieldData<'a, P>>, ReadError>)
        ensures
            self.may_list(listing(fields)),
            fields matches Ok(found) ==> forall|i: int|
                0 <= i < found.len() ==> {
                    &&& (#[trigger] found[i]).process() == self.process()
                    &&& found[i].address() != 0
                },
    {
        let count: u16 = match self.fields_count() {
            Ok(count) => count,
            Err(error) => {
                assert(walk_outcome(Err(error), Err(error)) == Err::<Seq<usize>, ReadError>(error));
                return Err(error);
            },
        };
        let table: usize = match self.process.read_usize(
            offset_address(self.address, FIELD_TABLE_OFFSET),
        ) {
            Ok(table) => table,
            Err(error) => {
                assert(walk_outcome(Ok(count), Err(error)) == Err::<Seq<usize>, ReadError>(error));
                return Err(error);
            },
        };
        let found = self.fields_of_table(table, count);
        assert(walk_outcome(Ok(count), Ok(table)) == Ok::<Seq<usize>, ReadError>(
            addresses_of(found@),
        ));
        Ok(found)
    }

    /// Where each of the two reads has one answer only, a walk has one
    /// outcome only: the one that the two answers make.
    pub proof fn lemma_settled_reads_settle_walk(
        &self,
        count: Result<u16, ReadError>,
        table: Result<usize, ReadError>,
        outcome: Result<Seq<usize>, ReadError>,
    )
        requires
            self.may_list(outcome),
            forall|read: Result<u16, ReadError>| #[trigger] self.may_count(read) ==> read == count,
            forall|read: Result<usize, ReadError>| #[trigger]
                self.may_locate(read) ==> read == table,
        ensures
            outcome == walk_outcome(count, table),
    {
    }

    /// Where the count can only be read as zero and the read of the table
    /// pointer cannot fail, a walk can only end well, and with no field.
    pub proof fn lemma_no_count_no_fields(&self, outcome: Result<Seq<usize>, ReadError>)
        requires
            self.may_list(outcome),
            forall|read: Result<u16, ReadError>| #[trigger]
                self.may_count(read) ==> read == Ok::<u16, ReadError>(0),
            forall|read: Result<usize, ReadError>| #[trigger] self.may_locate(read) ==> read is Ok,
        ensures
            outcome == Ok::<Seq<usize>, ReadError>(Seq::empty()),
    {
        let (count, table) = choose|count: Result<u16, ReadError>, table: Result<usize, ReadError>|
            #![trigger walk_outcome(count, table)]
            self.may_count(count) && (count is Ok ==> self.may_locate(table)) && outcome
                == walk_outcome(count, table);
        lemma_no_records_no_fields(table->Ok_0);
    }

    /// Where the read of the count can only fail, a walk can only fail, and
    /// with an error of that read.
    pub proof fn lemma_count_failure_fails_walk(&self, outcome: Result<Seq<usize>, ReadError>)
        requires
            self.may_list(outcome),
            forall|read: Result<u16, ReadError>| #[trigger] self.may_count(read) ==> read is Err,
        ensures
            outcome matches Err(error) && self.may_count(Err(error)),
    {
    }

    /// Where the read of the count cannot fail and the read of the table
    /// pointer can only fail, a walk can only fail, with an error of the
    /// second read: it gives no field.
    pub proof fn lemma_table_failure_fails_walk(&self, outcome: Result<Seq<usize>, ReadError>)
        requires
            self.may_list(outcome),
            forall|read: Result<u16, ReadError>| #[trigger] self.may_count(read) ==> read is Ok,
            forall|read: Result<usize, ReadError>| #[trigger] self.may_locate(read) ==> read is Err,
        ensures
            outcome matches Err(error) && self.may_locate(Err(error)),
    {
    }

    /// Where neither read can fail, a walk cannot fail.
    pub proof fn lemma_readable_class_lists(&self, outcome: Result<Seq<usize>, ReadError>)
        requires
            self.may_list(outcome),
            forall|read: Result<u16, ReadError>| #[trigger] self.may_count(read) ==> read is Ok,
            forall|read: Result<usize, ReadError>| #[trigger] self.may_locate(read) ==> read is Ok,
        ensures
            outcome is Ok,
    {
    }
}

} // verus!
