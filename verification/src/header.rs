//! The COFF file header and the layout that it declares.

use vstd::prelude::*;
use crate::arch::MachineArchitecture;
use crate::bytes::{le_u16, le_u32, read_u32};
use crate::error::{ParseError, Region};

verus! {

/// Size of the file header, in bytes.
pub const HEADER_SIZE: u64 = 20;

/// Size of one record of the section table, in bytes.
pub const SECTION_SIZE: u64 = 40;

/// Size of one record of the symbol table, in bytes.
pub const SYMBOL_SIZE: u64 = 18;

/// Size of the length field that starts the string table, in bytes.
pub const LENGTH_FIELD_SIZE: u64 = 4;

/// The seven fields of the COFF file header.
#[derive(Clone, Copy, Debug, PartialEq, Eq, Structural)]
pub struct Header {
    pub machine: u16,
    pub number_of_sections: u16,
    pub time_date_stamp: u32,
    pub pointer_to_symbol_table: u32,
    pub number_of_symbols: u32,
    pub size_of_optional_header: u16,
    pub characteristics: u16,
}

/// The header that the first 20 bytes of a file encode: seven little-endian
/// fields, one after the other.
pub open spec fn header_at(bytes: Seq<u8>) -> Header
    recommends
        bytes.len() >= HEADER_SIZE,
{
    Header {
        machine: le_u16(bytes, 0),
        number_of_sections: le_u16(bytes, 2),
        time_date_stamp: le_u32(bytes, 4),
        pointer_to_symbol_table: le_u32(bytes, 8),
        number_of_symbols: le_u32(bytes, 12),
        size_of_optional_header: le_u16(bytes, 16),
        characteristics: le_u16(bytes, 18),
    }
}

impl Header {
    /// The architecture that the machine field stands for.
    pub open spec fn architecture_of(self) -> MachineArchitecture {
        MachineArchitecture::of_code(self.machine)
    }

    /// Offset of the section table: it follows the header and the optional
    /// header.
    pub open spec fn sections_start(self) -> int {
        HEADER_SIZE + self.size_of_optional_header
    }

    /// Offset of the first byte behind the section table.
    pub open spec fn sections_end(self) -> int {
        self.sections_start() + SECTION_SIZE * self.number_of_sections
    }

    /// Offset of the first byte behind the symbol table. The string table
    /// starts here.
    pub open spec fn symbols_end(self) -> int {
        self.pointer_to_symbol_table + SYMBOL_SIZE * self.number_of_symbols
    }

    /// The architecture that the machine field stands for.
    pub fn architecture(&self) -> (arch: MachineArchitecture)
        ensures
            arch == self.architecture_of(),
    {
        MachineArchitecture::from_code(self.machine)
    }

    /// Offset of the section table.
    pub fn section_table_start(&self) -> (offset: u64)
        ensures
            offset == self.sections_start(),
    {
        HEADER_SIZE + self.size_of_optional_header as u64
    }

    /// Offset of the first byte behind the section table.
    pub fn section_table_end(&self) -> (offset: u64)
        ensures
            offset == self.sections_end(),
    {
        self.section_table_start() + SECTION_SIZE * (self.number_of_sections as u64)
    }

    /// Offset of the first byte behind the symbol table. No two 32-bit
    /// fields make this sum leave 64 bits.
    pub fn symbol_table_end(&self) -> (offset: u64)
        ensures
            offset == self.symbols_end(),
    {
        self.pointer_to_symbol_table as u64 + SYMBOL_SIZE * (self.number_of_symbols as u64)
    }
}

/// The header of a buffer whose declared layout lies inside it, or the first
/// reason why it does not.
///
/// The checks, in order: the header itself; the section table, which starts
/// behind the header and the optional header; the symbol table; the length
/// field of the string table, which starts where the symbol table ends; that
/// the declared length covers the length field; the string table.
pub open spec fn checked_layout(bytes: Seq<u8>) -> Result<Header, ParseError> {
    let header = header_at(bytes);
    let strings_start: int = header.symbols_end();
    let declared: u32 = le_u32(bytes, strings_start);
    if bytes.len() < HEADER_SIZE {
        Err(ParseError::TruncatedBuffer { region: Region::Header, needed: HEADER_SIZE })
    } else if bytes.len() < header.sections_end() {
        Err(
            ParseError::TruncatedBuffer {
                region: Region::SectionTable,
                needed: header.sections_end() as u64,
            },
        )
    } else if bytes.len() < strings_start {
        Err(ParseError::TruncatedBuffer { region: Region::SymbolTable, needed: strings_start as u64 })
    } else if bytes.len() < strings_start + LENGTH_FIELD_SIZE {
        Err(
            ParseError::TruncatedBuffer {
                region: Region::StringTable,
                needed: (strings_start + LENGTH_FIELD_SIZE) as u64,
            },
        )
    } else if declared < LENGTH_FIELD_SIZE {
        Err(ParseError::MalformedHeader { string_table_length: declared })
    } else if bytes.len() < strings_start + declared {
        Err(
            ParseError::TruncatedBuffer {
                region: Region::StringTable,
                needed: (strings_start + declared) as u64,
            },
        )
    } else {
        Ok(header)
    }
}

/// Decodes the file header with `goblin::pe::header::CoffHeader::parse`, at
/// offset 0.
///
/// Taken on trust from goblin: the call succeeds exactly on buffers of 20
/// bytes or more, and then its seven fields are the little-endian integers
/// at offsets 0, 2, 4, 8, 12, 16 and 18, in the order in which `Header`
/// declares them.
#[verifier::external_body]
pub(crate) fn read_header(buffer: &[u8]) -> (header: Option<Header>)
    ensures
        header is Some <==> buffer.len() >= HEADER_SIZE,
        header matches Some(h) ==> h == header_at(buffer@),
{
    match goblin::pe::header::CoffHeader::parse(buffer, &mut 0usize) {
        Ok(h) => Some(Header {
            machine: h.machine,
            number_of_sections: h.number_of_sections,
            time_date_stamp: h.time_date_stamp,
            pointer_to_symbol_table: h.pointer_to_symbol_table,
            number_of_symbols: h.number_of_symbol_table,
            size_of_optional_header: h.size_of_optional_header,
            characteristics: h.characteristics,
        }),
        Err(_) => None,
    }
}

/// Reads the header and checks that every table it declares lies inside the
/// buffer. No field is read from a buffer that is too short for the header.
pub fn check_layout(buffer: &[u8]) -> (result: Result<Header, ParseError>)
    ensures
        result == checked_layout(buffer@),
{
    let header = match read_header(buffer) {
        Some(header) => header,
        None => {
            return Err(
                ParseError::TruncatedBuffer { region: Region::Header, needed: HEADER_SIZE },
            );
        },
    };
    let length: u64 = buffer.len() as u64;
    let sections_end: u64 = header.section_table_end();
    if length < sections_end {
        return Err(
            ParseError::TruncatedBuffer { region: Region::SectionTable, needed: sections_end },
        );
    }
    let strings_start: u64 = header.symbol_table_end();
    if length < strings_start {
        return Err(
            ParseError::TruncatedBuffer { region: Region::SymbolTable, needed: strings_start },
        );
    }
    if length < strings_start + LENGTH_FIELD_SIZE {
        return Err(
            ParseError::TruncatedBuffer {
                region: Region::StringTable,
                needed: strings_start + LENGTH_FIELD_SIZE,
            },
        );
    }
    let declared: u32 = read_u32(buffer, strings_start as usize);
    if (declared as u64) < LENGTH_FIELD_SIZE {
        return Err(ParseError::MalformedHeader { string_table_length: declared });
    }
    if length < strings_start + declared as u64 {
        return Err(
            ParseError::TruncatedBuffer {
                region: Region::StringTable,
                needed: strings_start + declared as u64,
            },
        );
    }
    Ok(header)
}

/// No offset or count of an accepted header leads out of the buffer: a
/// buffer whose layout passes the check holds the header, both tables and
/// the whole string table, and the string table covers its length field.
pub proof fn accepted_layout_lies_inside_buffer(bytes: Seq<u8>)
    requires
        checked_layout(bytes) is Ok,
    ensures
        checked_layout(bytes) == Ok::<Header, ParseError>(header_at(bytes)),
        HEADER_SIZE <= bytes.len(),
        header_at(bytes).sections_end() <= bytes.len(),
        header_at(bytes).symbols_end() + le_u32(bytes, header_at(bytes).symbols_end())
            <= bytes.len(),
        le_u32(bytes, header_at(bytes).symbols_end()) >= LENGTH_FIELD_SIZE,
{
}

} // verus!
