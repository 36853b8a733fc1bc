//! The section table.

use vstd::prelude::*;
use crate::bytes::{le_u32, read_u32};
use crate::error::ParseError;
use crate::header::{Header, SECTION_SIZE};
use crate::resolve::{
    first_unresolved, resolve_field, resolved_name, resolved_names, StringTable,
};
use crate::symbol::{name_field_at, read_name_field};

verus! {

/// One section of the file: its name and its characteristics flags.
#[derive(Debug, PartialEq, Eq)]
pub struct Section {
    pub name: String,
    pub characteristics: u32,
}

/// What a `Section` holds, as mathematical values.
pub struct SectionView {
    pub name: Seq<char>,
    pub characteristics: u32,
}

impl View for Section {
    type V = SectionView;

    open spec fn view(&self) -> SectionView {
        SectionView { name: self.name@, characteristics: self.characteristics }
    }
}

impl Clone for Section {
    fn clone(&self) -> (copy: Self)
        ensures
            copy@ == self@,
    {
        Section { name: self.name.clone(), characteristics: self.characteristics }
    }
}

/// The views of a run of sections, in order.
pub open spec fn sections_view(sections: Seq<Section>) -> Seq<SectionView> {
    sections.map_values(|s: Section| s@)
}

/// Offset of record `i` of the section table.
pub open spec fn section_offset(header: Header, i: int) -> int {
    header.sections_start() + SECTION_SIZE * i
}

/// The 8-byte name fields of the sections, in table order. The name field
/// starts each record.
pub open spec fn section_fields(bytes: Seq<u8>, header: Header) -> Seq<Seq<u8>> {
    Seq::new(
        header.number_of_sections as nat,
        |i: int| name_field_at(bytes, section_offset(header, i)),
    )
}

/// The sections of a file, given their names. The characteristics are the
/// last four bytes of each record.
pub open spec fn sections_of(bytes: Seq<u8>, header: Header, names: Seq<Seq<char>>) -> Seq<
    SectionView,
> {
    Seq::new(
        header.number_of_sections as nat,
        |i: int|
            SectionView {
                name: names[i],
                characteristics: le_u32(bytes, section_offset(header, i) + 36),
            },
    )
}

/// The sections of a file, or the error of the first section whose name does
/// not resolve. A section's name field is read as a symbol's is.
pub open spec fn resolved_sections(bytes: Seq<u8>, header: Header, table: Seq<u8>) -> Result<
    Seq<SectionView>,
    ParseError,
> {
    match resolved_names(section_fields(bytes, header), table) {
        Ok(names) => Ok(sections_of(bytes, header, names)),
        Err(e) => Err(e),
    }
}

/// The outcome of reading the section table, as mathematical values.
pub open spec fn sections_outcome(outcome: Result<Vec<Section>, ParseError>) -> Result<
    Seq<SectionView>,
    ParseError,
> {
    match outcome {
        Ok(sections) => Ok(sections_view(sections@)),
        Err(e) => Err(e),
    }
}

/// Reads the section table of a buffer that holds all of it and resolves
/// the name of every section, in order.
pub fn read_sections(buffer: &[u8], header: &Header, string_table: &StringTable) -> (result:
    Result<Vec<Section>, ParseError>)
    requires
        header.sections_end() <= buffer.len(),
    ensures
        sections_outcome(result) == resolved_sections(buffer@, *header, string_table@),
{
    let ghost fields = section_fields(buffer@, *header);
    let start: u64 = header.section_table_start();
    let mut sections: Vec<Section> = Vec::new();
    for i in 0..header.number_of_sections
        invariant
            fields == section_fields(buffer@, *header),
            start == header.sections_start(),
            header.sections_end() <= buffer.len(),
            first_unresolved(fields, string_table@, 0) == first_unresolved(
                fields,
                string_table@,
                i as int,
            ),
            sections@.len() == i,
            forall|j: int|
                0 <= j < i ==> (#[trigger] sections@[j]).characteristics == le_u32(
                    buffer@,
                    section_offset(*header, j) + 36,
                ) && Ok::<Seq<char>, ParseError>(sections@[j].name@) == resolved_name(
                    fields[j],
                    string_table@,
                ),
    {
        let at: u64 = start + SECTION_SIZE * (i as u64);
        let field = read_name_field(buffer, at as usize);
        let characteristics: u32 = read_u32(buffer, (at + 36) as usize);
        match resolve_field(&field, string_table) {
            Ok(name) => {
                sections.push(Section { name, characteristics });
            },
            Err(e) => {
                return Err(e);
            },
        }
    }
    assert(sections_view(sections@) =~= sections_of(
        buffer@,
        *header,
        resolved_names(fields, string_table@)->Ok_0,
    ));
    Ok(sections)
}

} // verus!
