//! Turning the 8-byte name field of a record into a name.

use vstd::prelude::*;
use vstd::utf8::{decode_utf8, valid_utf8};
use crate::bytes::{copy_range, le_u32, le_u64, read_u32, read_u64};
use crate::error::ParseError;
use crate::header::{Header, LENGTH_FIELD_SIZE};
use crate::symbol::{
    records_view, symbols_view, ResolvedSymbol, ResolvedSymbolView, SymbolRecord,
    SymbolRecordView,
};
use crate::text::{find_byte, first_at, first_at_is_first};

verus! {

/// The string table: the bytes that follow the symbol table, with the four
/// bytes of the length field at their start. Offsets of long names count
/// from the first of these bytes.
#[derive(Debug, PartialEq, Eq)]
pub struct StringTable {
    pub bytes: Vec<u8>,
}

impl View for StringTable {
    type V = Seq<u8>;

    open spec fn view(&self) -> Seq<u8> {
        self.bytes@
    }
}

impl StringTable {
    /// Whether the table declares its own length: it starts with the four
    /// bytes of the length field, and they give the number of its bytes.
    pub open spec fn wf(&self) -> bool {
        self@.len() >= LENGTH_FIELD_SIZE && le_u32(self@, 0) == self@.len()
    }
}

impl Clone for StringTable {
    fn clone(&self) -> (copy: Self)
        ensures
            copy@ == self@,
    {
        StringTable { bytes: self.bytes.clone() }
    }
}

/// The string table of a file: the declared number of bytes from the end of
/// the symbol table on.
pub open spec fn string_table_of(bytes: Seq<u8>, header: Header) -> Seq<u8> {
    bytes.subrange(
        header.symbols_end(),
        header.symbols_end() + le_u32(bytes, header.symbols_end()),
    )
}

/// Whether a name field refers to the string table: its first four bytes are
/// all zero.
pub open spec fn is_long_name(field: Seq<u8>) -> bool
    recommends
        field.len() == 8,
{
    field[0] == 0 && field[1] == 0 && field[2] == 0 && field[3] == 0
}

/// The bytes of the name that a name field stands for.
///
/// An inline field holds the name itself, up to its first zero byte or its
/// eighth byte. A long-name field holds, in its last four bytes, the offset
/// at which the name starts in the string table; the name ends before the
/// next zero byte. The offset must lie inside the table, and the zero byte
/// must be there.
pub open spec fn name_bytes(field: Seq<u8>, table: Seq<u8>) -> Result<Seq<u8>, ParseError>
    recommends
        field.len() == 8,
{
    if is_long_name(field) {
        let offset: u32 = le_u32(field, 4);
        let end: int = first_at(table, 0u8, offset as int);
        if offset < table.len() && end < table.len() {
            Ok(table.subrange(offset as int, end))
        } else {
            Err(ParseError::InvalidStringTableOffset { offset })
        }
    } else {
        Ok(field.take(first_at(field, 0u8, 0)))
    }
}

/// The name that a name field stands for, or the reason why it has none.
/// The bytes of the name are read as UTF-8.
pub open spec fn resolved_name(field: Seq<u8>, table: Seq<u8>) -> Result<Seq<char>, ParseError>
    recommends
        field.len() == 8,
{
    match name_bytes(field, table) {
        Ok(bytes) => if valid_utf8(bytes) {
            Ok(decode_utf8(bytes))
        } else {
            Err(ParseError::UnresolvedSymbolName { name_field: le_u64(field, 0) })
        },
        Err(e) => Err(e),
    }
}

/// Index of the first name field at or after `from` that does not resolve;
/// the number of fields where all of them do.
pub open spec fn first_unresolved(fields: Seq<Seq<u8>>, table: Seq<u8>, from: int) -> int
    decreases fields.len() - from,
{
    if from >= fields.len() {
        fields.len() as int
    } else if resolved_name(fields[from], table) is Err {
        from
    } else {
        first_unresolved(fields, table, from + 1)
    }
}

/// The names of a run of name fields: the error of the first field that does
/// not resolve, or else the name of every field, in order.
pub open spec fn resolved_names(fields: Seq<Seq<u8>>, table: Seq<u8>) -> Result<
    Seq<Seq<char>>,
    ParseError,
> {
    let failed: int = first_unresolved(fields, table, 0);
    if failed < fields.len() {
        Err(resolved_name(fields[failed], table)->Err_0)
    } else {
        Ok(Seq::new(fields.len(), |i: int| resolved_name(fields[i], table)->Ok_0))
    }
}

/// The name fields of a run of symbol records.
pub open spec fn record_fields(records: Seq<SymbolRecordView>) -> Seq<Seq<u8>> {
    records.map_values(|r: SymbolRecordView| r.name)
}

/// A run of records, each with its name.
pub open spec fn named(records: Seq<SymbolRecordView>, names: Seq<Seq<char>>) -> Seq<
    ResolvedSymbolView,
> {
    Seq::new(records.len(), |i: int| ResolvedSymbolView { record: records[i], name: names[i] })
}

/// The resolved symbols of a run of records, or the error of the first
/// record whose name does not resolve.
pub open spec fn resolved_symbols(records: Seq<SymbolRecordView>, table: Seq<u8>) -> Result<
    Seq<ResolvedSymbolView>,
    ParseError,
> {
    match resolved_names(record_fields(records), table) {
        Ok(names) => Ok(named(records, names)),
        Err(e) => Err(e),
    }
}

/// The outcome of a resolution, with the name as a sequence of characters.
pub open spec fn name_view(outcome: Result<String, ParseError>) -> Result<Seq<char>, ParseError> {
    match outcome {
        Ok(name) => Ok(name@),
        Err(e) => Err(e),
    }
}

/// The outcome of resolving a run of records, as mathematical values.
pub open spec fn resolution_view(outcome: Result<Vec<ResolvedSymbol>, ParseError>) -> Result<
    Seq<ResolvedSymbolView>,
    ParseError,
> {
    match outcome {
        Ok(symbols) => Ok(symbols_view(symbols@)),
        Err(e) => Err(e),
    }
}

/// Decodes UTF-8 with `String::from_utf8` of the standard library.
///
/// Taken on trust from the standard library: the call succeeds exactly on
/// valid UTF-8, and the string that it returns is the text that the bytes
/// encode.
#[verifier::external_body]
pub(crate) fn utf8_text(bytes: Vec<u8>) -> (text: Option<String>)
    ensures
        text is Some <==> valid_utf8(bytes@),
        text matches Some(t) ==> t@ == decode_utf8(bytes@),
{
    String::from_utf8(bytes).ok()
}

/// Copies the string table out of a buffer that holds all of it.
pub fn read_string_table(buffer: &[u8], header: &Header) -> (strings: StringTable)
    requires
        header.symbols_end() + LENGTH_FIELD_SIZE <= buffer.len(),
        header.symbols_end() + le_u32(buffer@, header.symbols_end()) <= buffer.len(),
    ensures
        strings@ == string_table_of(buffer@, *header),
        le_u32(buffer@, header.symbols_end()) >= LENGTH_FIELD_SIZE ==> strings.wf(),
{
    let start: u64 = header.symbol_table_end();
    let declared: u32 = read_u32(buffer, start as usize);
    let end: u64 = start + declared as u64;
    let strings = StringTable { bytes: copy_range(buffer, start as usize, end as usize) };
    strings
}

/// Resolves a raw 8-byte name field against a string table.
pub fn resolve_field(field: &[u8; 8], string_table: &StringTable) -> (name: Result<
    String,
    ParseError,
>)
    ensures
        name_view(name) == resolved_name(field@, string_table@),
{
    let table = string_table.bytes.as_slice();
    let bytes = if field[0] == 0 && field[1] == 0 && field[2] == 0 && field[3] == 0 {
        let offset: u32 = read_u32(field.as_slice(), 4);
        if offset as u64 >= table.len() as u64 {
            return Err(ParseError::InvalidStringTableOffset { offset });
        }
        let end: usize = find_byte(table, 0u8, offset as usize);
        if end >= table.len() {
            return Err(ParseError::InvalidStringTableOffset { offset });
        }
        copy_range(table, offset as usize, end)
    } else {
        let end: usize = find_byte(field.as_slice(), 0u8, 0);
        copy_range(field.as_slice(), 0, end)
    };
    match utf8_text(bytes) {
        Some(name) => Ok(name),
        None => Err(
            ParseError::UnresolvedSymbolName { name_field: read_u64(field.as_slice(), 0) },
        ),
    }
}

/// Resolves the name of a symbol record.
///
/// Where the first four bytes of the name field are not all zero, the name
/// is the field itself, up to its first zero byte or its end. Otherwise the
/// last four bytes are an offset into the string table, where the name runs
/// up to the next zero byte; an offset at or behind the end of the table, or
/// a name without that zero byte, is an `InvalidStringTableOffset`. The bytes
/// of the name are read as UTF-8, and bytes that are no valid UTF-8 are an
/// `UnresolvedSymbolName`.
pub fn resolve(record: &SymbolRecord, string_table: &StringTable) -> (name: Result<
    String,
    ParseError,
>)
    ensures
        name_view(name) == resolved_name(record@.name, string_table@),
{
    resolve_field(&record.name, string_table)
}

/// Resolves the name of every record against a string table, in order, and
/// stops at the first record whose name does not resolve.
pub fn resolve_all(records: &Vec<SymbolRecord>, string_table: &StringTable) -> (result: Result<
    Vec<ResolvedSymbol>,
    ParseError,
>)
    ensures
        resolution_view(result) == resolved_symbols(records_view(records@), string_table@),
{
    let ghost fields = record_fields(records_view(records@));
    let mut symbols: Vec<ResolvedSymbol> = Vec::new();
    for i in 0..records.len()
        invariant
            fields == record_fields(records_view(records@)),
            first_unresolved(fields, string_table@, 0) == first_unresolved(
                fields,
                string_table@,
                i as int,
            ),
            symbols@.len() == i,
            forall|j: int|
                0 <= j < i ==> (#[trigger] symbols@[j])@.record == records@[j]@ && Ok::<
                    Seq<char>,
                    ParseError,
                >(symbols@[j]@.name) == resolved_name(fields[j], string_table@),
    {
        match resolve(&records[i], string_table) {
            Ok(name) => {
                symbols.push(ResolvedSymbol { record: records[i], name });
            },
            Err(e) => {
                return Err(e);
            },
        }
    }
    assert(symbols_view(symbols@) =~= named(
        records_view(records@),
        resolved_names(fields, string_table@)->Ok_0,
    ));
    Ok(symbols)
}

/// A long name whose offset equals the length of the string table is
/// rejected as an invalid string-table offset.
pub proof fn offset_at_table_end_is_rejected(field: Seq<u8>, table: Seq<u8>)
    requires
        field.len() == 8,
        is_long_name(field),
        le_u32(field, 4) == table.len(),
    ensures
        resolved_name(field, table) == Err::<Seq<char>, ParseError>(
            ParseError::InvalidStringTableOffset { offset: le_u32(field, 4) },
        ),
{
}

/// A long name resolves only from an offset inside the string table: every
/// offset at or behind its end is rejected as invalid.
pub proof fn offset_outside_table_is_rejected(field: Seq<u8>, table: Seq<u8>)
    requires
        field.len() == 8,
        is_long_name(field),
        le_u32(field, 4) >= table.len(),
    ensures
        resolved_name(field, table) == Err::<Seq<char>, ParseError>(
            ParseError::InvalidStringTableOffset { offset: le_u32(field, 4) },
        ),
{
}

/// The bytes of a name hold no zero byte, and an inline name has at most
/// eight of them.
pub proof fn name_holds_no_zero_byte(field: Seq<u8>, table: Seq<u8>)
    requires
        field.len() == 8,
    ensures
        name_bytes(field, table) matches Ok(bytes) ==> !bytes.contains(0u8) && (!is_long_name(
            field,
        ) ==> bytes.len() <= 8),
{
    first_at_is_first(field, 0u8, 0);
    if le_u32(field, 4) <= table.len() {
        first_at_is_first(table, 0u8, le_u32(field, 4) as int);
    }
}

/// A run of name fields resolves exactly when each of its fields does, and
/// then name `i` is the name of field `i`. Where it does not, the error is
/// that of the first field that fails.
pub proof fn first_failure_decides(fields: Seq<Seq<u8>>, table: Seq<u8>)
    ensures
        resolved_names(fields, table) is Ok <==> forall|i: int|
            0 <= i < fields.len() ==> resolved_name(#[trigger] fields[i], table) is Ok,
        resolved_names(fields, table) matches Ok(names) ==> names.len() == fields.len()
            && forall|i: int|
            0 <= i < fields.len() ==> resolved_name(fields[i], table) == Ok::<
                Seq<char>,
                ParseError,
            >(#[trigger] names[i]),
        resolved_names(fields, table) matches Err(e) ==> exists|k: int|
            0 <= k < fields.len() && resolved_name(#[trigger] fields[k], table) == Err::<
                Seq<char>,
                ParseError,
            >(e) && forall|j: int| 0 <= j < k ==> resolved_name(#[trigger] fields[j], table) is Ok,
{
    first_unresolved_is_first(fields, table, 0);
}

/// `first_unresolved` stops at the first field that fails and skips none
/// before it.
pub proof fn first_unresolved_is_first(fields: Seq<Seq<u8>>, table: Seq<u8>, from: int)
    requires
        0 <= from <= fields.len(),
    ensures
        from <= first_unresolved(fields, table, from) <= fields.len(),
        first_unresolved(fields, table, from) < fields.len() ==> resolved_name(
            fields[first_unresolved(fields, table, from)],
            table,
        ) is Err,
        forall|j: int|
            from <= j < first_unresolved(fields, table, from) ==> resolved_name(
                #[trigger] fields[j],
                table,
            ) is Ok,
    decreases fields.len() - from,
{
    if from < fields.len() && resolved_name(fields[from], table) is Ok {
        first_unresolved_is_first(fields, table, from + 1);
    }
}

} // verus!
