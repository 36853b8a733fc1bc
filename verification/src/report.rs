//! One analysis run, from bytes to report.

use vstd::prelude::*;
use crate::arch::MachineArchitecture;
use crate::classify::{
    classified, classify_all, entries_view, entrypoint_among, has_entrypoint, CategoryView,
    ImportCategory,
};
use crate::coff::{parsed, Bof, BofView};
use crate::error::{AnalysisError, ClassifyError, ParseError};
use crate::header::{header_at, HEADER_SIZE};
use crate::tables::BEACON_ENTRYPOINT;

verus! {

/// The findings about one object file.
#[derive(Debug, PartialEq, Eq)]
pub struct AnalysisReport {
    /// The architecture that the file was compiled for.
    pub architecture: MachineArchitecture,
    /// Whether the file defines the entry symbol.
    pub entrypoint_found: bool,
    /// Every imported name, without its prefix, and its category, in the
    /// order of the symbol table.
    pub imports: Vec<(String, ImportCategory)>,
}

/// What an `AnalysisReport` holds, as mathematical values.
pub struct ReportView {
    pub architecture: MachineArchitecture,
    pub entrypoint_found: bool,
    pub imports: Seq<(Seq<char>, CategoryView)>,
}

impl View for AnalysisReport {
    type V = ReportView;

    open spec fn view(&self) -> ReportView {
        ReportView {
            architecture: self.architecture,
            entrypoint_found: self.entrypoint_found,
            imports: entries_view(self.imports@),
        }
    }
}

/// The findings about a decoded file.
///
/// There are none where the architecture defines no import prefix.
/// Otherwise the report holds the architecture, whether a symbol bears the
/// name of the entry point, and the classified imports.
pub open spec fn findings(bof: BofView) -> Result<ReportView, ClassifyError> {
    let architecture = bof.header.architecture_of();
    match architecture.import_prefix_of() {
        None => Err(ClassifyError::UnsupportedArchitecture),
        Some(prefix) => Ok(
            ReportView {
                architecture,
                entrypoint_found: entrypoint_among(bof.symbols, BEACON_ENTRYPOINT@),
                imports: classified(prefix, bof.symbols),
            },
        ),
    }
}

/// The outcome of analysing a buffer: a failure to decode it, a failure to
/// classify its imports, or the report.
pub open spec fn analysis_of(bytes: Seq<u8>) -> Result<ReportView, AnalysisError> {
    match parsed(bytes) {
        Err(e) => Err(AnalysisError::ParseFailure(e)),
        Ok(bof) => match findings(bof) {
            Err(e) => Err(AnalysisError::ClassifyFailure(e)),
            Ok(report) => Ok(report),
        },
    }
}

/// The outcome of checking a decoded file, as mathematical values.
pub open spec fn findings_view(outcome: Result<AnalysisReport, ClassifyError>) -> Result<
    ReportView,
    ClassifyError,
> {
    match outcome {
        Ok(report) => Ok(report@),
        Err(e) => Err(e),
    }
}

/// The outcome of an analysis, as mathematical values.
pub open spec fn analysis_view(outcome: Result<AnalysisReport, AnalysisError>) -> Result<
    ReportView,
    AnalysisError,
> {
    match outcome {
        Ok(report) => Ok(report@),
        Err(e) => Err(e),
    }
}

/// Checks a decoded file: classifies its imports and looks for the entry
/// point. A missing entry point is a finding of the report, not a failure.
pub fn check_all(bof: &Bof) -> (result: Result<AnalysisReport, ClassifyError>)
    ensures
        findings_view(result) == findings(bof@),
{
    let architecture = bof.architecture();
    let imports = match classify_all(architecture, &bof.symbols) {
        Ok(imports) => imports,
        Err(e) => { return Err(e); },
    };
    let entrypoint_found = has_entrypoint(&bof.symbols, BEACON_ENTRYPOINT);
    Ok(AnalysisReport { architecture, entrypoint_found, imports })
}

/// Analyses one object file.
///
/// The buffer is decoded, its imports are classified and its entry point is
/// looked for. The first step that fails ends the run and no report is
/// made: a buffer that does not decode gives a `ParseFailure`, an
/// architecture without an import prefix a `ClassifyFailure`.
pub fn parse(buffer: &[u8]) -> (result: Result<AnalysisReport, AnalysisError>)
    ensures
        analysis_view(result) == analysis_of(buffer@),
{
    let bof = match Bof::parse(buffer) {
        Ok(bof) => bof,
        Err(e) => { return Err(AnalysisError::ParseFailure(e)); },
    };
    match check_all(&bof) {
        Ok(report) => Ok(report),
        Err(e) => Err(AnalysisError::ClassifyFailure(e)),
    }
}

/// Whether an analysis ends with a report does not depend on the entry
/// point. It ends with one exactly when the buffer decodes and the
/// architecture has an import prefix, and the report then says whether a
/// symbol is named `go`.
pub proof fn entrypoint_is_reported_not_required(bytes: Seq<u8>)
    ensures
        analysis_of(bytes) is Ok <==> parsed(bytes) is Ok && parsed(
            bytes,
        )->Ok_0.header.architecture_of().import_prefix_of() is Some,
        analysis_of(bytes) matches Ok(report) ==> report.entrypoint_found == entrypoint_among(
            parsed(bytes)->Ok_0.symbols,
            "go"@,
        ),
{
}

/// Two analyses of the same bytes end alike: with the same error, or with
/// reports that hold the same architecture, the same flag and the same
/// imports in the same order.
pub proof fn analysis_is_repeatable(
    bytes: Seq<u8>,
    first: Result<AnalysisReport, AnalysisError>,
    second: Result<AnalysisReport, AnalysisError>,
)
    requires
        analysis_view(first) == analysis_of(bytes),
        analysis_view(second) == analysis_of(bytes),
    ensures
        analysis_view(first) == analysis_view(second),
{
}

/// A buffer that ends before its declared symbol table gives no report.
pub proof fn truncated_buffer_gives_no_report(bytes: Seq<u8>)
    requires
        bytes.len() < HEADER_SIZE || bytes.len() < header_at(bytes).symbols_end(),
    ensures
        analysis_of(bytes) matches Err(
            AnalysisError::ParseFailure(ParseError::TruncatedBuffer { .. }),
        ),
{
}

} // verus!
