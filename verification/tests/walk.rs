use std::cell::RefCell;

use remote_schema::class::SchemaClassInfo;
use remote_schema::field::SchemaClassFieldData;
use remote_schema::memory::{ReadError, ReadMemory};

#[derive(Clone, Copy, Debug, PartialEq, Eq)]
enum Read {
    Word(usize),
    DoubleWord(usize),
    Pointer(usize),
    Text(usize),
}

/// A target that answers every two-byte read with `count` and every pointer
/// read with `table`, and keeps the sequence of the reads it was asked for.
struct Scripted {
    count: Result<u16, ReadError>,
    table: Result<usize, ReadError>,
    reads: RefCell<Vec<Read>>,
}

impl Scripted {
    fn new(count: Result<u16, ReadError>, table: Result<usize, ReadError>) -> Self {
        Scripted { count, table, reads: RefCell::new(Vec::new()) }
    }

    fn reads(&self) -> Vec<Read> {
        self.reads.borrow().clone()
    }
}

impl ReadMemory for Scripted {
    fn read_u16(&self, address: usize) -> Result<u16, ReadError> {
        self.reads.borrow_mut().push(Read::Word(address));
        self.count
    }

    fn read_u32(&self, address: usize) -> Result<u32, ReadError> {
        self.reads.borrow_mut().push(Read::DoubleWord(address));
        Err(ReadError { address })
    }

    fn read_usize(&self, address: usize) -> Result<usize, ReadError> {
        self.reads.borrow_mut().push(Read::Pointer(address));
        self.table
    }

    fn read_string(&self, address: usize) -> Result<String, ReadError> {
        self.reads.borrow_mut().push(Read::Text(address));
        Err(ReadError { address })
    }
}

fn addresses(fields: &[SchemaClassFieldData<'_, Scripted>]) -> Vec<usize> {
    let mut found = Vec::new();
    for field in fields {
        found.push(field.address());
    }
    found
}

#[test]
fn construction_reads_nothing() {
    let target = Scripted::new(Ok(3), Ok(0x1000));
    let class = SchemaClassInfo::new(&target, 0x5000, "CBaseEntity");
    assert_eq!(target.reads(), vec![]);
    let field = SchemaClassFieldData::new(&target, 0x1000);
    assert_eq!(target.reads(), vec![]);
    assert_eq!(class.name(), "CBaseEntity");
    assert_eq!(field.address(), 0x1000);
    assert_eq!(target.reads(), vec![]);
}

#[test]
fn name_is_the_name_given() {
    let target = Scripted::new(Ok(0), Ok(0));
    assert_eq!(SchemaClassInfo::new(&target, 1, "C_BaseEntity").name(), "C_BaseEntity");
    assert_eq!(SchemaClassInfo::new(&target, 1, "").name(), "");
    assert_eq!(SchemaClassInfo::new(&target, 1, "  padded\t").name(), "  padded\t");
    let accented = "Gr\u{fc}\u{df}e::\u{540d}";
    assert_eq!(SchemaClassInfo::new(&target, 1, accented).name(), accented);
    assert_eq!(SchemaClassInfo::new(&target, 1, accented).name().chars().count(), 8);
    assert_eq!(SchemaClassInfo::new(&target, 1, "a\0b").name(), "a\0b");
}

#[test]
fn count_is_read_at_its_offset() {
    let target = Scripted::new(Ok(7), Ok(0x1000));
    let class = SchemaClassInfo::new(&target, 0x5000, "Class");
    assert_eq!(class.fields_count(), Ok(7));
    assert_eq!(target.reads(), vec![Read::Word(0x501C)]);
}

#[test]
fn count_is_read_anew_each_time() {
    let target = Scripted::new(Ok(0xFFFF), Ok(0x1000));
    let class = SchemaClassInfo::new(&target, 0, "Class");
    assert_eq!(class.fields_count(), Ok(0xFFFF));
    assert_eq!(class.fields_count(), Ok(0xFFFF));
    assert_eq!(target.reads(), vec![Read::Word(0x1C), Read::Word(0x1C)]);
}

#[test]
fn count_failure_is_handed_on() {
    let error = ReadError { address: 0xDEAD };
    let target = Scripted::new(Err(error), Ok(0x1000));
    let class = SchemaClassInfo::new(&target, 0x5000, "Class");
    assert_eq!(class.fields_count(), Err(error));
}

#[test]
fn class_without_fields_lists_none_and_still_reads_the_table_pointer() {
    let target = Scripted::new(Ok(0), Ok(0x1000));
    let class = SchemaClassInfo::new(&target, 0x5000, "Empty");
    let fields = class.fields().expect("both reads are answered");
    assert_eq!(fields.len(), 0);
    assert_eq!(target.reads(), vec![Read::Word(0x501C), Read::Pointer(0x5028)]);
}

#[test]
fn class_without_fields_and_null_table_lists_none() {
    let target = Scripted::new(Ok(0), Ok(0));
    let class = SchemaClassInfo::new(&target, 0x5000, "Empty");
    assert_eq!(class.fields().expect("both reads are answered").len(), 0);
}

#[test]
fn three_records_give_three_fields_a_stride_apart() {
    let target = Scripted::new(Ok(3), Ok(0x1000));
    let class = SchemaClassInfo::new(&target, 0x5000, "Three");
    let fields = class.fields().expect("both reads are answered");
    assert_eq!(addresses(&fields), vec![0x1000, 0x1020, 0x1040]);
    assert_eq!(target.reads(), vec![Read::Word(0x501C), Read::Pointer(0x5028)]);
}

#[test]
fn listing_reads_no_record() {
    let target = Scripted::new(Ok(200), Ok(0x7000_0000));
    let class = SchemaClassInfo::new(&target, 0x40, "Wide");
    let fields = class.fields().expect("both reads are answered");
    assert_eq!(fields.len(), 200);
    assert_eq!(target.reads(), vec![Read::Word(0x5C), Read::Pointer(0x68)]);
}

#[test]
fn null_table_pointer_drops_the_first_record_only() {
    let target = Scripted::new(Ok(4), Ok(0));
    let class = SchemaClassInfo::new(&target, 0x5000, "Null");
    let fields = class.fields().expect("both reads are answered");
    assert_eq!(addresses(&fields), vec![0x20, 0x40, 0x60]);
}

#[test]
fn record_that_wraps_to_null_is_dropped_and_order_is_kept() {
    let table = usize::MAX - 0x3F;
    let target = Scripted::new(Ok(4), Ok(table));
    let class = SchemaClassInfo::new(&target, 0x5000, "Wrapping");
    let fields = class.fields().expect("both reads are answered");
    assert_eq!(addresses(&fields), vec![usize::MAX - 0x3F, usize::MAX - 0x1F, 0x20]);
}

#[test]
fn records_past_the_last_address_wrap() {
    let target = Scripted::new(Ok(3), Ok(usize::MAX));
    let class = SchemaClassInfo::new(&target, 0x5000, "Wrapping");
    let fields = class.fields().expect("both reads are answered");
    assert_eq!(addresses(&fields), vec![usize::MAX, 0x1F, 0x3F]);
}

#[test]
fn largest_count_lists_every_record() {
    let target = Scripted::new(Ok(u16::MAX), Ok(0x10_0000));
    let class = SchemaClassInfo::new(&target, 0x5000, "Large");
    let fields = class.fields().expect("both reads are answered");
    assert_eq!(fields.len(), 65535);
    assert_eq!(fields[0].address(), 0x10_0000);
    assert_eq!(fields[1].address(), 0x10_0020);
    assert_eq!(fields[65534].address(), 0x10_0000 + 65534 * 0x20);
    for pair in fields.windows(2) {
        assert_eq!(pair[1].address() - pair[0].address(), 0x20);
    }
}

#[test]
fn record_addresses_near_the_top_wrap_for_the_class_too() {
    let target = Scripted::new(Ok(1), Ok(0x30));
    let class = SchemaClassInfo::new(&target, usize::MAX, "Top");
    let fields = class.fields().expect("both reads are answered");
    assert_eq!(addresses(&fields), vec![0x30]);
    assert_eq!(target.reads(), vec![Read::Word(0x1B), Read::Pointer(0x27)]);
}

#[test]
fn failed_count_read_fails_the_walk_and_ends_it() {
    let error = ReadError { address: 0x501C };
    let target = Scripted::new(Err(error), Ok(0x1000));
    let class = SchemaClassInfo::new(&target, 0x5000, "Gone");
    match class.fields() {
        Err(found) => assert_eq!(found, error),
        Ok(_) => panic!("the walk went on after a failed read"),
    }
    assert_eq!(target.reads(), vec![Read::Word(0x501C)]);
}

#[test]
fn failed_count_read_fails_the_walk_whatever_the_table() {
    let error = ReadError { address: 7 };
    let target = Scripted::new(Err(error), Err(ReadError { address: 8 }));
    let class = SchemaClassInfo::new(&target, 0x5000, "Gone");
    assert_eq!(class.fields().err(), Some(error));
    assert_eq!(target.reads(), vec![Read::Word(0x501C)]);
}

#[test]
fn failed_table_read_fails_the_walk_with_its_error() {
    let error = ReadError { address: 0x5028 };
    let target = Scripted::new(Ok(3), Err(error));
    let class = SchemaClassInfo::new(&target, 0x5000, "Torn");
    match class.fields() {
        Err(found) => assert_eq!(found, error),
        Ok(_) => panic!("fields were listed without a table"),
    }
    assert_eq!(target.reads(), vec![Read::Word(0x501C), Read::Pointer(0x5028)]);
}

#[test]
fn failed_table_read_fails_the_walk_of_an_empty_class_too() {
    let error = ReadError { address: 1 };
    let target = Scripted::new(Ok(0), Err(error));
    let class = SchemaClassInfo::new(&target, 0x5000, "Torn");
    assert_eq!(class.fields().err(), Some(error));
}

#[test]
fn walk_keeps_nothing_between_calls() {
    let target = Scripted::new(Ok(2), Ok(0x2000));
    let class = SchemaClassInfo::new(&target, 0x100, "Twice");
    let first = class.fields().expect("both reads are answered");
    let second = class.fields().expect("both reads are answered");
    assert_eq!(addresses(&first), vec![0x2000, 0x2020]);
    assert_eq!(addresses(&second), vec![0x2000, 0x2020]);
    assert_eq!(
        target.reads(),
        vec![Read::Word(0x11C), Read::Pointer(0x128), Read::Word(0x11C), Read::Pointer(0x128)]
    );
}

#[test]
fn fields_read_through_the_capability_of_their_class() {
    let target = Scripted::new(Ok(2), Ok(0x2000));
    let class = SchemaClassInfo::new(&target, 0x100, "Shared");
    let fields = class.fields().expect("both reads are answered");
    let before = target.reads().len();
    assert_eq!(fields[1].process().read_u16(fields[1].address()), Ok(2));
    assert_eq!(target.reads().len(), before + 1);
    assert_eq!(target.reads()[before], Read::Word(0x2020));
}

#[test]
fn table_of_given_start_and_count() {
    let target = Scripted::new(Err(ReadError { address: 0 }), Err(ReadError { address: 0 }));
    let class = SchemaClassInfo::new(&target, 0x100, "Direct");
    assert_eq!(addresses(&class.fields_of_table(0x1000, 3)), vec![0x1000, 0x1020, 0x1040]);
    assert_eq!(addresses(&class.fields_of_table(0x1000, 0)), vec![]);
    assert_eq!(addresses(&class.fields_of_table(0, 1)), vec![]);
    assert_eq!(addresses(&class.fields_of_table(0, 2)), vec![0x20]);
    assert_eq!(addresses(&class.fields_of_table(usize::MAX - 0x1F, 2)), vec![usize::MAX - 0x1F]);
    assert_eq!(target.reads(), vec![]);
}

#[test]
fn listing_keeps_each_record_that_is_not_null_in_table_order() {
    let tables: Vec<usize> = vec![
        0,
        1,
        0x20,
        0x1000,
        0x7FFF_FFE0,
        usize::MAX,
        usize::MAX - 0x1F,
        usize::MAX - 0x3F,
        usize::MAX - 0x20 * 99 + 1,
        usize::MAX - 0x20 * 100 + 1,
        usize::MAX - 0x20 * 50,
    ];
    let counts: Vec<u16> = vec![0, 1, 2, 3, 50, 100, 101, 1000];
    for table in &tables {
        for count in &counts {
            let target = Scripted::new(Ok(*count), Ok(*table));
            let class = SchemaClassInfo::new(&target, 0x5000, "Swept");
            let fields = class.fields().expect("both reads are answered");
            let mut expected = Vec::new();
            let mut nulls = 0;
            for index in 0..(*count as usize) {
                let candidate = table.wrapping_add(index * 0x20);
                if candidate == 0 {
                    nulls += 1;
                } else {
                    expected.push(candidate);
                }
            }
            assert!(nulls <= 1);
            assert_eq!(fields.len(), *count as usize - nulls);
            assert_eq!(addresses(&fields), expected);
        }
    }
}

#[test]
fn items_are_reached_from_the_crate_root() {
    let target = Scripted::new(Ok(1), Ok(0x40));
    let class = remote_schema::SchemaClassInfo::new(&target, 0, "Root");
    let fields = class.fields().expect("both reads are answered");
    assert_eq!(fields.len(), 1);
    let again = remote_schema::SchemaClassFieldData::new(&target, fields[0].address());
    assert_eq!(again.address(), 0x40);
    assert_eq!(remote_schema::ReadError { address: 3 }, ReadError { address: 3 });
}
