//! Decoding an object file from raw bytes.

use vstd::prelude::*;
use crate::arch::{text_view, MachineArchitecture};
use crate::bytes::le_u32;
use crate::classify::{get_imports, imports_found, imports_view};
use crate::error::{ClassifyError, ParseError};
use crate::header::{
    check_layout, checked_layout, header_at, Header, HEADER_SIZE, LENGTH_FIELD_SIZE,
};
use crate::resolve::{
    read_string_table, resolve_all, resolved_symbols, string_table_of, StringTable,
};
use crate::section::{read_sections, resolved_sections, sections_view, Section, SectionView};
use crate::symbol::{
    no_more_symbols_than_slots, read_symbols, symbol_records, symbols_view, ResolvedSymbol,
    ResolvedSymbolView,
};

verus! {

/// A decoded Beacon Object File: the header, the sections, the symbols with
/// their names, and the string table.
#[derive(Debug, PartialEq, Eq)]
pub struct Bof {
    pub header: Header,
    pub sections: Vec<Section>,
    pub symbols: Vec<ResolvedSymbol>,
    pub strings: StringTable,
}

/// What a `Bof` holds, as mathematical values.
pub struct BofView {
    pub header: Header,
    pub sections: Seq<SectionView>,
    pub symbols: Seq<ResolvedSymbolView>,
    pub strings: Seq<u8>,
}

impl View for Bof {
    type V = BofView;

    open spec fn view(&self) -> BofView {
        BofView {
            header: self.header,
            sections: sections_view(self.sections@),
            symbols: symbols_view(self.symbols@),
            strings: self.strings@,
        }
    }
}

impl BofView {
    /// Whether the parts of the file agree: there are as many sections as
    /// the header counts, no more symbols than the symbol table has slots,
    /// and the string table declares its own length.
    pub open spec fn wf(self) -> bool {
        &&& self.sections.len() == self.header.number_of_sections
        &&& self.symbols.len() <= self.header.number_of_symbols
        &&& self.strings.len() >= LENGTH_FIELD_SIZE
        &&& le_u32(self.strings, 0) == self.strings.len()
    }
}

/// What a buffer decodes to.
///
/// The layout is checked first. Then the names are resolved, those of the
/// sections before those of the symbols, and the first name that does not
/// resolve ends the decoding with its error.
pub open spec fn parsed(bytes: Seq<u8>) -> Result<BofView, ParseError> {
    match checked_layout(bytes) {
        Err(e) => Err(e),
        Ok(header) => {
            let strings = string_table_of(bytes, header);
            match resolved_sections(bytes, header, strings) {
                Err(e) => Err(e),
                Ok(sections) => match resolved_symbols(symbol_records(bytes, header), strings) {
                    Err(e) => Err(e),
                    Ok(symbols) => Ok(BofView { header, sections, symbols, strings }),
                },
            }
        },
    }
}

/// The outcome of a decoding, with the file as mathematical values.
pub open spec fn parse_view(outcome: Result<Bof, ParseError>) -> Result<BofView, ParseError> {
    match outcome {
        Ok(bof) => Ok(bof@),
        Err(e) => Err(e),
    }
}

impl Bof {
    /// Decodes an object file.
    ///
    /// The buffer is only read. The result is the decoded file, or the first
    /// reason why the buffer is none: a table that the header declares ends
    /// behind the end of the buffer, the string table declares less than its
    /// own length field, or a name does not resolve. A machine code that
    /// stands for no known architecture is no error here.
    pub fn parse(buffer: &[u8]) -> (result: Result<Bof, ParseError>)
        ensures
            parse_view(result) == parsed(buffer@),
            result matches Ok(bof) ==> bof@.wf(),
    {
        let header = match check_layout(buffer) {
            Ok(header) => header,
            Err(e) => { return Err(e); },
        };
        proof {
            decoded_file_mirrors_buffer(buffer@);
        }
        let strings = read_string_table(buffer, &header);
        let sections = match read_sections(buffer, &header, &strings) {
            Ok(sections) => sections,
            Err(e) => { return Err(e); },
        };
        let records = read_symbols(buffer, &header);
        let symbols = match resolve_all(&records, &strings) {
            Ok(symbols) => symbols,
            Err(e) => { return Err(e); },
        };
        Ok(Bof { header, sections, symbols, strings })
    }

    /// The architecture that the file was compiled for.
    pub fn architecture(&self) -> (arch: MachineArchitecture)
        ensures
            arch == self@.header.architecture_of(),
    {
        self.header.architecture()
    }

    /// The prefix that marks the imported symbols of this file; `None` where
    /// its architecture defines none.
    pub fn import_prefix(&self) -> (prefix: Option<&'static str>)
        ensures
            text_view(prefix) == self@.header.architecture_of().import_prefix_of(),
    {
        self.header.architecture().import_prefix()
    }

    /// The imported symbols of this file: those whose name begins with the
    /// import prefix, in table order. Fails with `UnsupportedArchitecture`
    /// where the architecture defines no prefix.
    pub fn imports(&self) -> (result: Result<Vec<ResolvedSymbol>, ClassifyError>)
        ensures
            imports_view(result) == imports_found(self@.header.architecture_of(), self@.symbols),
    {
        get_imports(self.header.architecture(), &self.symbols)
    }
}

/// A buffer that ends before the symbol table that its header declares is
/// rejected as truncated, and so is one that is too short for a header.
pub proof fn truncated_symbol_table_is_rejected(bytes: Seq<u8>)
    requires
        bytes.len() < HEADER_SIZE || bytes.len() < header_at(bytes).symbols_end(),
    ensures
        parsed(bytes) matches Err(ParseError::TruncatedBuffer { .. }),
{
}

/// A decoded file holds the header and the string table of its buffer as
/// they lie there, and its parts agree.
pub proof fn decoded_file_mirrors_buffer(bytes: Seq<u8>)
    ensures
        parsed(bytes) matches Ok(bof) ==> bof.header == header_at(bytes) && bof.strings
            == string_table_of(bytes, header_at(bytes)) && bof.wf(),
{
    if parsed(bytes) is Ok {
        no_more_symbols_than_slots(bytes, header_at(bytes), 0);
    }
}

} // verus!
