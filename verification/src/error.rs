//! The ways in which an analysis can end without a report.

use vstd::prelude::*;

verus! {

/// The stages of one analysis run, in the order in which they are gone
/// through. A stage that fails ends the run.
#[derive(Clone, Copy, Debug, PartialEq, Eq, Structural)]
pub enum Stage {
    ValidateHeader,
    ParseSections,
    ParseSymbols,
    ResolveNames,
    ClassifyImports,
    CheckEntrypoint,
    Report,
}

/// A part of the file that must lie inside the buffer.
#[derive(Clone, Copy, Debug, PartialEq, Eq, Structural)]
pub enum Region {
    Header,
    SectionTable,
    SymbolTable,
    StringTable,
}

/// Why a buffer could not be decoded.
#[derive(Clone, Copy, Debug, PartialEq, Eq, Structural)]
pub enum ParseError {
    /// The buffer ends before `region` does; `needed` is the number of bytes
    /// that the buffer would have to hold.
    TruncatedBuffer { region: Region, needed: u64 },
    /// The string table declares a total length below the four bytes of its
    /// own length field.
    MalformedHeader { string_table_length: u32 },
    /// A long name starts at or behind the end of the string table, or runs
    /// to its end without a terminating zero byte.
    InvalidStringTableOffset { offset: u32 },
    /// The bytes of a name are not valid UTF-8. `name_field` is the 8-byte
    /// name field that stands for the name, as a little-endian integer.
    UnresolvedSymbolName { name_field: u64 },
}

/// Why no import could be classified.
#[derive(Clone, Copy, Debug, PartialEq, Eq, Structural)]
pub enum ClassifyError {
    /// The architecture has no import-prefix convention.
    UnsupportedArchitecture,
}

/// Why an analysis produced no report.
#[derive(Clone, Copy, Debug, PartialEq, Eq, Structural)]
pub enum AnalysisError {
    /// The buffer is not a well-formed object file.
    ParseFailure(ParseError),
    /// The file was decoded, but its imports cannot be classified.
    ClassifyFailure(ClassifyError),
}

impl ParseError {
    /// The stage at which a decoding with this error stopped.
    pub open spec fn stage_of(self) -> Stage {
        match self {
            ParseError::TruncatedBuffer { region: Region::Header, .. } => Stage::ValidateHeader,
            ParseError::TruncatedBuffer { region: Region::SectionTable, .. } => {
                Stage::ParseSections
            },
            ParseError::TruncatedBuffer { .. } => Stage::ParseSymbols,
            ParseError::MalformedHeader { .. } => Stage::ParseSymbols,
            ParseError::InvalidStringTableOffset { .. } => Stage::ResolveNames,
            ParseError::UnresolvedSymbolName { .. } => Stage::ResolveNames,
        }
    }

    /// The stage at which a decoding with this error stopped.
    pub fn stage(&self) -> (stage: Stage)
        ensures
            stage == self.stage_of(),
    {
        match self {
            ParseError::TruncatedBuffer { region: Region::Header, .. } => Stage::ValidateHeader,
            ParseError::TruncatedBuffer { region: Region::SectionTable, .. } => {
                Stage::ParseSections
            },
            ParseError::TruncatedBuffer { .. } => Stage::ParseSymbols,
            ParseError::MalformedHeader { .. } => Stage::ParseSymbols,
            ParseError::InvalidStringTableOffset { .. } => Stage::ResolveNames,
            ParseError::UnresolvedSymbolName { .. } => Stage::ResolveNames,
        }
    }
}

impl AnalysisError {
    /// The stage at which a run with this error stopped.
    pub open spec fn stage_of(self) -> Stage {
        match self {
            AnalysisError::ParseFailure(e) => e.stage_of(),
            AnalysisError::ClassifyFailure(_) => Stage::ClassifyImports,
        }
    }

    /// The stage at which a run with this error stopped.
    pub fn stage(&self) -> (stage: Stage)
        ensures
            stage == self.stage_of(),
    {
        match self {
            AnalysisError::ParseFailure(e) => e.stage(),
            AnalysisError::ClassifyFailure(_) => Stage::ClassifyImports,
        }
    }
}

} // verus!
