//! The symbol table: its records, and the walk over them.

use vstd::prelude::*;
use crate::bytes::{le_i16, le_u16, le_u32, read_i16, read_u16, read_u32};
use crate::header::{Header, SYMBOL_SIZE};

verus! {

/// One record of the symbol table, as it lies in the file.
///
/// `name` is the raw 8-byte name field: either the name itself, padded with
/// zero bytes, or four zero bytes and a 4-byte offset into the string table.
#[derive(Clone, Copy, Debug, PartialEq, Eq)]
pub struct SymbolRecord {
    pub name: [u8; 8],
    pub value: u32,
    pub section_number: i16,
    pub typ: u16,
    pub storage_class: u8,
    pub number_of_aux_symbols: u8,
}

/// What a `SymbolRecord` holds, as mathematical values.
pub struct SymbolRecordView {
    pub name: Seq<u8>,
    pub value: u32,
    pub section_number: i16,
    pub typ: u16,
    pub storage_class: u8,
    pub number_of_aux_symbols: u8,
}

impl View for SymbolRecord {
    type V = SymbolRecordView;

    open spec fn view(&self) -> SymbolRecordView {
        SymbolRecordView {
            name: self.name@,
            value: self.value,
            section_number: self.section_number,
            typ: self.typ,
            storage_class: self.storage_class,
            number_of_aux_symbols: self.number_of_aux_symbols,
        }
    }
}

/// A symbol record together with its final name. Later stages read the name
/// from here and never go back to the string table.
#[derive(Debug, PartialEq, Eq)]
pub struct ResolvedSymbol {
    pub record: SymbolRecord,
    pub name: String,
}

/// What a `ResolvedSymbol` holds, as mathematical values.
pub struct ResolvedSymbolView {
    pub record: SymbolRecordView,
    pub name: Seq<char>,
}

impl View for ResolvedSymbol {
    type V = ResolvedSymbolView;

    open spec fn view(&self) -> ResolvedSymbolView {
        ResolvedSymbolView { record: self.record@, name: self.name@ }
    }
}

impl Clone for ResolvedSymbol {
    fn clone(&self) -> (copy: Self)
        ensures
            copy@ == self@,
    {
        ResolvedSymbol { record: self.record, name: self.name.clone() }
    }
}

/// The views of a run of symbol records, in order.
pub open spec fn records_view(records: Seq<SymbolRecord>) -> Seq<SymbolRecordView> {
    records.map_values(|r: SymbolRecord| r@)
}

/// The views of a run of resolved symbols, in order.
pub open spec fn symbols_view(symbols: Seq<ResolvedSymbol>) -> Seq<ResolvedSymbolView> {
    symbols.map_values(|s: ResolvedSymbol| s@)
}

/// The 8-byte name field that starts at `at`.
pub open spec fn name_field_at(bytes: Seq<u8>, at: int) -> Seq<u8> {
    bytes.subrange(at, at + 8)
}

/// The symbol record that starts at `at`: the name field, then the value,
/// the section number, the type, the storage class and the number of
/// auxiliary records, all little-endian.
pub open spec fn symbol_at(bytes: Seq<u8>, at: int) -> SymbolRecordView {
    SymbolRecordView {
        name: name_field_at(bytes, at),
        value: le_u32(bytes, at + 8),
        section_number: le_i16(bytes, at + 12),
        typ: le_u16(bytes, at + 14),
        storage_class: bytes[at + 16],
        number_of_aux_symbols: bytes[at + 17],
    }
}

/// How many slots of the symbol table lie at or behind slot `index`.
pub open spec fn slots_left(header: Header, index: int) -> nat {
    if index < header.number_of_symbols {
        (header.number_of_symbols - index) as nat
    } else {
        0
    }
}

/// The symbol records from slot `index` of the table on. The auxiliary
/// records that a symbol declares follow it in the table and are skipped:
/// they are no symbols. A symbol that declares more of them than the table
/// has left is the last one.
pub open spec fn records_from(bytes: Seq<u8>, header: Header, index: int) -> Seq<SymbolRecordView>
    decreases slots_left(header, index),
{
    if 0 <= index < header.number_of_symbols {
        let record = symbol_at(bytes, header.pointer_to_symbol_table + SYMBOL_SIZE * index);
        seq![record] + records_from(bytes, header, index + 1 + record.number_of_aux_symbols)
    } else {
        Seq::empty()
    }
}

/// The symbol records of a file, in table order.
pub open spec fn symbol_records(bytes: Seq<u8>, header: Header) -> Seq<SymbolRecordView> {
    records_from(bytes, header, 0)
}

/// Reads the 8-byte name field that starts at `at`.
pub fn read_name_field(buffer: &[u8], at: usize) -> (field: [u8; 8])
    requires
        at + 8 <= buffer.len(),
    ensures
        field@ == name_field_at(buffer@, at as int),
{
    let field: [u8; 8] = [
        buffer[at],
        buffer[at + 1],
        buffer[at + 2],
        buffer[at + 3],
        buffer[at + 4],
        buffer[at + 5],
        buffer[at + 6],
        buffer[at + 7],
    ];
    field
}

/// Reads the 18-byte symbol record that starts at `at`.
pub fn read_symbol(buffer: &[u8], at: usize) -> (record: SymbolRecord)
    requires
        at + SYMBOL_SIZE <= buffer.len(),
    ensures
        record@ == symbol_at(buffer@, at as int),
{
    SymbolRecord {
        name: read_name_field(buffer, at),
        value: read_u32(buffer, at + 8),
        section_number: read_i16(buffer, at + 12),
        typ: read_u16(buffer, at + 14),
        storage_class: buffer[at + 16],
        number_of_aux_symbols: buffer[at + 17],
    }
}

/// Walks the symbol table of a buffer that holds all of it, and leaves the
/// auxiliary records out.
pub fn read_symbols(buffer: &[u8], header: &Header) -> (records: Vec<SymbolRecord>)
    requires
        header.symbols_end() <= buffer.len(),
    ensures
        records_view(records@) == symbol_records(buffer@, *header),
{
    let base: u64 = header.pointer_to_symbol_table as u64;
    let count: u64 = header.number_of_symbols as u64;
    let mut records: Vec<SymbolRecord> = Vec::new();
    let mut index: u64 = 0;
    while index < count
        invariant
            base == header.pointer_to_symbol_table,
            count == header.number_of_symbols,
            header.symbols_end() <= buffer.len(),
            index <= count + 255,
            records_view(records@) + records_from(buffer@, *header, index as int)
                == symbol_records(buffer@, *header),
        decreases count + 255 - index,
    {
        let at: u64 = base + SYMBOL_SIZE * index;
        let record = read_symbol(buffer, at as usize);
        records.push(record);
        index = index + 1 + record.number_of_aux_symbols as u64;
    }
    records
}

/// A table never yields more symbols than it has slots.
pub proof fn no_more_symbols_than_slots(bytes: Seq<u8>, header: Header, index: int)
    requires
        0 <= index,
    ensures
        records_from(bytes, header, index).len() <= slots_left(header, index),
    decreases slots_left(header, index),
{
    if index < header.number_of_symbols {
        let record = symbol_at(bytes, header.pointer_to_symbol_table + SYMBOL_SIZE * index);
        no_more_symbols_than_slots(bytes, header, index + 1 + record.number_of_aux_symbols);
    }
}

} // verus!
