use bof_kit::arch::MachineArchitecture;
use bof_kit::bytes::{copy_range, read_i16, read_u16, read_u32, read_u64};
use bof_kit::classify::ImportCategory;
use bof_kit::header::{check_layout, Header};
use bof_kit::resolve::{resolve, resolve_all, StringTable};
use bof_kit::section::Section;
use bof_kit::symbol::{read_symbols, SymbolRecord};
use bof_kit::error::{AnalysisError, ClassifyError, ParseError, Region};
use bof_kit::report::{check_all, AnalysisReport};
use bof_kit::{parse, Bof};

fn inline(name: &[u8], aux: u8) -> [u8; 18] {
    let mut record = [0u8; 18];
    record[..name.len()].copy_from_slice(name);
    record[8..12].copy_from_slice(&0x1020_3040u32.to_le_bytes());
    record[12..14].copy_from_slice(&(-2i16).to_le_bytes());
    record[14..16].copy_from_slice(&0x0020u16.to_le_bytes());
    record[16] = 2;
    record[17] = aux;
    record
}

fn long(offset: u32) -> [u8; 18] {
    let mut record = [0u8; 18];
    record[4..8].copy_from_slice(&offset.to_le_bytes());
    record[12..14].copy_from_slice(&1i16.to_le_bytes());
    record[16] = 3;
    record
}

fn section(name: &[u8], characteristics: u32) -> [u8; 40] {
    let mut record = [0u8; 40];
    record[..name.len()].copy_from_slice(name);
    record[36..40].copy_from_slice(&characteristics.to_le_bytes());
    record
}

/// A file with the sections right behind the header, then the symbol table,
/// then the string table, whose length field is written here.
fn file(machine: u16, sections: &[[u8; 40]], slots: &[[u8; 18]], strings: &[u8]) -> Vec<u8> {
    let pointer = 20 + 40 * sections.len() as u32;
    let mut bytes = Vec::new();
    bytes.extend_from_slice(&machine.to_le_bytes());
    bytes.extend_from_slice(&(sections.len() as u16).to_le_bytes());
    bytes.extend_from_slice(&0x5f41_fc5eu32.to_le_bytes());
    bytes.extend_from_slice(&pointer.to_le_bytes());
    bytes.extend_from_slice(&(slots.len() as u32).to_le_bytes());
    bytes.extend_from_slice(&0u16.to_le_bytes());
    bytes.extend_from_slice(&0x0004u16.to_le_bytes());
    for s in sections {
        bytes.extend_from_slice(s);
    }
    for s in slots {
        bytes.extend_from_slice(s);
    }
    bytes.extend_from_slice(&(strings.len() as u32 + 4).to_le_bytes());
    bytes.extend_from_slice(strings);
    bytes
}

fn sample() -> Vec<u8> {
    // offsets: 4 "__imp_BeaconPrintf", 23 "__imp_KERNEL32$LoadLibraryA@4",
    // 53 "__imp_FOO$Bar", 67 "__imp_SomethingElse", 87 ".rdata$zzz"
    let strings = b"__imp_BeaconPrintf\0__imp_KERNEL32$LoadLibraryA@4\0__imp_FOO$Bar\0__imp_SomethingElse\0.rdata$zzz\0";
    file(
        0x8664,
        &[section(b".text", 0x6050_0020), section(b"\0\0\0\0\x57\0\0\0", 0x4030_0040)],
        &[
            inline(b".file", 1),
            inline(b"fake", 0),
            inline(b".text", 0),
            inline(b"go", 0),
            long(4),
            long(23),
            long(53),
            long(67),
        ],
        strings,
    )
}

fn sample_report() -> AnalysisReport {
    AnalysisReport {
        architecture: MachineArchitecture::X64,
        entrypoint_found: true,
        imports: vec![
            ("BeaconPrintf".to_string(), ImportCategory::BeaconExport),
            (
                "KERNEL32$LoadLibraryA@4".to_string(),
                ImportCategory::DynamicResolution {
                    module: "KERNEL32".to_string(),
                    function: "LoadLibraryA".to_string(),
                },
            ),
            (
                "FOO$Bar".to_string(),
                ImportCategory::UnrecognizedModule {
                    module: "FOO".to_string(),
                    function: "Bar".to_string(),
                },
            ),
            (
                "SomethingElse".to_string(),
                ImportCategory::UnknownImport { raw_name: "SomethingElse".to_string() },
            ),
        ],
    }
}

fn field(record: &[u8; 18]) -> SymbolRecord {
    let mut name = [0u8; 8];
    name.copy_from_slice(&record[..8]);
    SymbolRecord {
        name,
        value: u32::from_le_bytes([record[8], record[9], record[10], record[11]]),
        section_number: i16::from_le_bytes([record[12], record[13]]),
        typ: u16::from_le_bytes([record[14], record[15]]),
        storage_class: record[16],
        number_of_aux_symbols: record[17],
    }
}

fn table(bytes: &[u8]) -> StringTable {
    StringTable { bytes: bytes.to_vec() }
}

#[test]
fn little_endian_integers_are_read() {
    let bytes = [0x34, 0x12, 0xff, 0xff, 0x00, 0x80, 0x78, 0x56, 0x34, 0x12, 0xfe, 0xff];
    assert_eq!(read_u16(&bytes, 0), 0x1234);
    assert_eq!(read_u16(&bytes, 2), 0xffff);
    assert_eq!(read_u16(&bytes, 1), 0xff12);
    assert_eq!(read_i16(&bytes, 0), 0x1234);
    assert_eq!(read_i16(&bytes, 2), -1);
    assert_eq!(read_i16(&bytes, 4), -32768);
    assert_eq!(read_i16(&bytes, 10), -2);
    assert_eq!(read_i16(&[0xff, 0x7f], 0), 32767);
    assert_eq!(read_u32(&bytes, 6), 0x1234_5678);
    assert_eq!(read_u32(&bytes, 0), 0xffff_1234);
    assert_eq!(read_u32(&[0xff, 0xff, 0xff, 0xff], 0), u32::MAX);
    assert_eq!(read_u64(&bytes, 2), 0x1234_5678_8000_ffff);
    assert_eq!(read_u64(&[1, 2, 3, 4, 5, 6, 7, 8], 0), 0x0807_0605_0403_0201);
    assert_eq!(read_u64(&[0xff; 8], 0), u64::MAX);
    assert_eq!(copy_range(&bytes, 1, 4), vec![0x12, 0xff, 0xff]);
    assert_eq!(copy_range(&bytes, 5, 5), Vec::<u8>::new());
}

#[test]
fn header_fields_are_decoded() {
    let bytes = sample();
    assert_eq!(
        check_layout(&bytes),
        Ok(Header {
            machine: 0x8664,
            number_of_sections: 2,
            time_date_stamp: 0x5f41_fc5e,
            pointer_to_symbol_table: 100,
            number_of_symbols: 8,
            size_of_optional_header: 0,
            characteristics: 4,
        })
    );
    let bof = Bof::parse(&bytes).unwrap();
    assert_eq!(bof.header.machine, 0x8664);
    assert_eq!(bof.header.architecture(), MachineArchitecture::X64);
    assert_eq!(bof.architecture(), MachineArchitecture::X64);
    assert_eq!(bof.import_prefix(), Some("__imp_"));
}

#[test]
fn a_whole_file_is_decoded() {
    let bytes = sample();
    let bof = Bof::parse(&bytes).unwrap();
    assert_eq!(
        bof.sections,
        vec![
            Section { name: ".text".to_string(), characteristics: 0x6050_0020 },
            Section { name: ".rdata$zzz".to_string(), characteristics: 0x4030_0040 },
        ]
    );
    let names: Vec<&str> = bof.symbols.iter().map(|s| s.name.as_str()).collect();
    assert_eq!(
        names,
        vec![
            ".file",
            ".text",
            "go",
            "__imp_BeaconPrintf",
            "__imp_KERNEL32$LoadLibraryA@4",
            "__imp_FOO$Bar",
            "__imp_SomethingElse",
        ]
    );
    assert_eq!(bof.symbols[0].record, field(&inline(b".file", 1)));
    assert_eq!(bof.symbols[0].record.value, 0x1020_3040);
    assert_eq!(bof.symbols[0].record.section_number, -2);
    assert_eq!(bof.symbols[0].record.typ, 0x20);
    assert_eq!(bof.symbols[0].record.storage_class, 2);
    assert_eq!(bof.symbols[0].record.number_of_aux_symbols, 1);
    assert_eq!(bof.symbols[3].record, field(&long(4)));
    assert_eq!(bof.symbols[3].record.name, [0, 0, 0, 0, 4, 0, 0, 0]);
    assert_eq!(bof.strings.bytes.len(), 98);
    assert_eq!(&bof.strings.bytes[..4], &[98, 0, 0, 0]);
    assert_eq!(&bof.strings.bytes[4..10], b"__imp_");
    assert_eq!(bof.strings.clone(), bof.strings);
    let imports = bof.imports().unwrap();
    assert_eq!(imports.len(), 4);
    assert_eq!(imports[0], bof.symbols[3]);
    assert_eq!(imports[3].name, "__imp_SomethingElse");
}

#[test]
fn a_whole_file_is_reported() {
    let bytes = sample();
    assert_eq!(parse(&bytes), Ok(sample_report()));
    let bof = Bof::parse(&bytes).unwrap();
    assert_eq!(check_all(&bof), Ok(sample_report()));
}

#[test]
fn analysis_is_repeatable() {
    let bytes = sample();
    let first = parse(&bytes);
    let second = parse(&bytes);
    assert_eq!(first, second);
    assert_eq!(Bof::parse(&bytes), Bof::parse(&bytes));
    let broken = &bytes[..150];
    assert_eq!(parse(broken), parse(broken));
    assert!(parse(broken).is_err());
}

#[test]
fn missing_entrypoint_is_a_finding() {
    let bytes = file(0x8664, &[], &[inline(b"start", 0), long(4)], b"__imp_BeaconOutput\0");
    assert_eq!(
        parse(&bytes),
        Ok(AnalysisReport {
            architecture: MachineArchitecture::X64,
            entrypoint_found: false,
            imports: vec![("BeaconOutput".to_string(), ImportCategory::BeaconExport)],
        })
    );
    let bytes = file(0x014c, &[], &[inline(b"go", 0)], b"");
    assert_eq!(
        parse(&bytes),
        Ok(AnalysisReport {
            architecture: MachineArchitecture::X86,
            entrypoint_found: true,
            imports: Vec::new(),
        })
    );
}

#[test]
fn unknown_machine_decodes_but_is_not_classified() {
    for machine in [0xaa64u16, 0x01c0, 0, 0xffff] {
        let bytes = file(machine, &[], &[inline(b"go", 0)], b"");
        let bof = Bof::parse(&bytes).unwrap();
        assert_eq!(bof.header.machine, machine);
        assert_eq!(bof.architecture(), MachineArchitecture::from_code(machine));
        assert_eq!(bof.import_prefix(), None);
        assert_eq!(bof.imports(), Err(ClassifyError::UnsupportedArchitecture));
        assert_eq!(check_all(&bof), Err(ClassifyError::UnsupportedArchitecture));
        assert_eq!(
            parse(&bytes),
            Err(AnalysisError::ClassifyFailure(ClassifyError::UnsupportedArchitecture))
        );
    }
}

#[test]
fn short_header_is_truncated() {
    let expected = ParseError::TruncatedBuffer { region: Region::Header, needed: 20 };
    assert_eq!(Bof::parse(&[]), Err(expected));
    assert_eq!(Bof::parse(&sample()[..19]), Err(expected));
    assert_eq!(check_layout(&sample()[..1]), Err(expected));
    assert_eq!(parse(&sample()[..19]), Err(AnalysisError::ParseFailure(expected)));
}

#[test]
fn short_section_table_is_truncated() {
    let bytes = sample();
    let expected = ParseError::TruncatedBuffer { region: Region::SectionTable, needed: 100 };
    assert_eq!(Bof::parse(&bytes[..20]), Err(expected));
    assert_eq!(Bof::parse(&bytes[..99]), Err(expected));
    let mut shifted = file(0x8664, &[section(b".text", 0)], &[], b"");
    shifted[16] = 0x10;
    assert_eq!(
        Bof::parse(&shifted),
        Err(ParseError::TruncatedBuffer { region: Region::SectionTable, needed: 76 })
    );
}

#[test]
fn short_symbol_table_is_truncated() {
    let bytes = sample();
    let expected = ParseError::TruncatedBuffer { region: Region::SymbolTable, needed: 244 };
    assert_eq!(Bof::parse(&bytes[..100]), Err(expected));
    assert_eq!(Bof::parse(&bytes[..243]), Err(expected));
    assert_eq!(parse(&bytes[..243]), Err(AnalysisError::ParseFailure(expected)));
    let mut huge = file(0x8664, &[], &[], b"");
    huge[8..12].copy_from_slice(&u32::MAX.to_le_bytes());
    huge[12..16].copy_from_slice(&u32::MAX.to_le_bytes());
    assert_eq!(
        Bof::parse(&huge),
        Err(ParseError::TruncatedBuffer { region: Region::SymbolTable, needed: 81_604_378_605 })
    );
}

#[test]
fn short_string_table_is_truncated() {
    let bytes = sample();
    assert_eq!(
        Bof::parse(&bytes[..244]),
        Err(ParseError::TruncatedBuffer { region: Region::StringTable, needed: 248 })
    );
    assert_eq!(
        Bof::parse(&bytes[..247]),
        Err(ParseError::TruncatedBuffer { region: Region::StringTable, needed: 248 })
    );
    assert_eq!(
        Bof::parse(&bytes[..248]),
        Err(ParseError::TruncatedBuffer { region: Region::StringTable, needed: 342 })
    );
    assert_eq!(
        Bof::parse(&bytes[..341]),
        Err(ParseError::TruncatedBuffer { region: Region::StringTable, needed: 342 })
    );
    assert_eq!(bytes.len(), 342);
    assert!(Bof::parse(&bytes[..342]).is_ok());
    let mut longer = bytes.clone();
    longer.extend_from_slice(b"trailing bytes");
    assert_eq!(Bof::parse(&longer), Bof::parse(&bytes));
}

#[test]
fn string_table_shorter_than_its_length_field_is_malformed() {
    for declared in 0u32..4 {
        let mut bytes = file(0x8664, &[], &[inline(b"go", 0)], b"");
        bytes[38..42].copy_from_slice(&declared.to_le_bytes());
        assert_eq!(
            Bof::parse(&bytes),
            Err(ParseError::MalformedHeader { string_table_length: declared })
        );
        assert_eq!(
            parse(&bytes),
            Err(AnalysisError::ParseFailure(ParseError::MalformedHeader {
                string_table_length: declared
            }))
        );
    }
}

#[test]
fn offset_at_the_end_of_the_table_is_invalid() {
    let strings = b"__imp_BeaconPrintf\0";
    let bytes = file(0x8664, &[], &[inline(b"go", 0), long(23)], strings);
    assert_eq!(Bof::parse(&bytes), Err(ParseError::InvalidStringTableOffset { offset: 23 }));
    assert_eq!(
        parse(&bytes),
        Err(AnalysisError::ParseFailure(ParseError::InvalidStringTableOffset { offset: 23 }))
    );
    let unterminated = file(0x8664, &[], &[long(9)], b"hello");
    assert_eq!(
        Bof::parse(&unterminated),
        Err(ParseError::InvalidStringTableOffset { offset: 9 })
    );
    let strtab = table(&[9, 0, 0, 0, b'h', b'e', b'l', b'l', b'o']);
    assert_eq!(
        resolve(&field(&long(9)), &strtab),
        Err(ParseError::InvalidStringTableOffset { offset: 9 })
    );
    assert_eq!(
        resolve(&field(&long(u32::MAX)), &strtab),
        Err(ParseError::InvalidStringTableOffset { offset: u32::MAX })
    );
    assert_eq!(
        resolve(&field(&long(0)), &table(&[])),
        Err(ParseError::InvalidStringTableOffset { offset: 0 })
    );
}

#[test]
fn long_name_needs_its_terminator() {
    let strtab = table(&[10, 0, 0, 0, b'a', b'b', 0, b'c', b'd', b'e']);
    assert_eq!(resolve(&field(&long(4)), &strtab), Ok("ab".to_string()));
    assert_eq!(resolve(&field(&long(5)), &strtab), Ok("b".to_string()));
    assert_eq!(resolve(&field(&long(6)), &strtab), Ok(String::new()));
    assert_eq!(
        resolve(&field(&long(7)), &strtab),
        Err(ParseError::InvalidStringTableOffset { offset: 7 })
    );
    assert_eq!(
        resolve(&field(&long(9)), &strtab),
        Err(ParseError::InvalidStringTableOffset { offset: 9 })
    );
    assert_eq!(
        resolve(&field(&long(10)), &strtab),
        Err(ParseError::InvalidStringTableOffset { offset: 10 })
    );
    assert_eq!(resolve(&field(&long(0)), &strtab), Ok("\n".to_string()));
    assert_eq!(resolve(&field(&long(1)), &strtab), Ok(String::new()));
}

#[test]
fn inline_name_ends_at_its_first_zero_byte() {
    let strtab = table(&[4, 0, 0, 0]);
    assert_eq!(resolve(&field(&inline(b"go", 0)), &strtab), Ok("go".to_string()));
    assert_eq!(resolve(&field(&inline(b"go\0x", 0)), &strtab), Ok("go".to_string()));
    assert_eq!(resolve(&field(&inline(b"eightchr", 0)), &strtab), Ok("eightchr".to_string()));
    assert_eq!(resolve(&field(&inline(b".text$mn", 3)), &strtab), Ok(".text$mn".to_string()));
    assert_eq!(resolve(&field(&inline(b"\0\0\0x", 0)), &strtab), Ok(String::new()));
    assert_eq!(resolve(&field(&inline(b"a\0\0\0\x04", 0)), &strtab), Ok("a".to_string()));
    assert_eq!(
        resolve(&field(&inline(b"\0\0\0\0\x04", 0)), &strtab),
        Err(ParseError::InvalidStringTableOffset { offset: 4 })
    );
}

#[test]
fn names_are_read_as_utf8() {
    let strtab = table(&[12, 0, 0, 0, 0xce, 0xa9, b'x', 0, 0xff, 0, 0xc3, 0]);
    assert_eq!(resolve(&field(&inline("größe".as_bytes(), 0)), &strtab), Ok("größe".to_string()));
    assert_eq!(resolve(&field(&long(4)), &strtab), Ok("Ωx".to_string()));
    assert_eq!(
        resolve(&field(&long(5)), &strtab),
        Err(ParseError::UnresolvedSymbolName { name_field: 0x0000_0005_0000_0000 })
    );
    assert_eq!(
        resolve(&field(&long(8)), &strtab),
        Err(ParseError::UnresolvedSymbolName { name_field: 0x0000_0008_0000_0000 })
    );
    assert_eq!(
        resolve(&field(&long(10)), &strtab),
        Err(ParseError::UnresolvedSymbolName { name_field: 0x0000_000a_0000_0000 })
    );
    assert_eq!(
        resolve(&field(&inline(&[b'a', 0x80], 0)), &strtab),
        Err(ParseError::UnresolvedSymbolName { name_field: 0x8061 })
    );
    assert_eq!(
        resolve(&field(&inline(&[0xff; 8], 0)), &strtab),
        Err(ParseError::UnresolvedSymbolName { name_field: u64::MAX })
    );
    let bytes = file(0x8664, &[], &[inline(b"go", 0), inline(&[0xc0, 0xaf], 0)], b"");
    let expected = ParseError::UnresolvedSymbolName { name_field: 0xafc0 };
    assert_eq!(Bof::parse(&bytes), Err(expected));
    assert_eq!(parse(&bytes), Err(AnalysisError::ParseFailure(expected)));
}

#[test]
fn the_first_name_that_fails_decides() {
    let bytes = file(
        0x8664,
        &[section(b"\0\0\0\0\x63\0\0\0", 0)],
        &[inline(&[0xff], 0), long(77)],
        b"x\0",
    );
    assert_eq!(Bof::parse(&bytes), Err(ParseError::InvalidStringTableOffset { offset: 0x63 }));
    let bytes = file(0x8664, &[section(b".data", 0)], &[inline(&[0xff], 0), long(77)], b"x\0");
    assert_eq!(Bof::parse(&bytes), Err(ParseError::UnresolvedSymbolName { name_field: 0xff }));
    let bytes = file(0x8664, &[section(b".data", 0)], &[long(77), inline(&[0xff], 0)], b"x\0");
    assert_eq!(Bof::parse(&bytes), Err(ParseError::InvalidStringTableOffset { offset: 77 }));
    let records = vec![field(&inline(b"ok", 0)), field(&long(6)), field(&inline(&[0xff], 0))];
    assert_eq!(
        resolve_all(&records, &table(&[6, 0, 0, 0, b'x', 0])),
        Err(ParseError::InvalidStringTableOffset { offset: 6 })
    );
    assert_eq!(
        resolve_all(&records[..1].to_vec(), &table(&[])).unwrap()[0].name,
        "ok".to_string()
    );
}

#[test]
fn auxiliary_records_are_no_symbols() {
    let filler = [0xffu8; 18];
    let bytes = file(
        0x8664,
        &[],
        &[inline(b".file", 2), filler, filler, inline(b"go", 0), inline(b".text", 1), filler],
        b"",
    );
    let bof = Bof::parse(&bytes).unwrap();
    let names: Vec<&str> = bof.symbols.iter().map(|s| s.name.as_str()).collect();
    assert_eq!(names, vec![".file", "go", ".text"]);
    let header = check_layout(&bytes).unwrap();
    let records = read_symbols(&bytes, &header);
    assert_eq!(
        records,
        vec![field(&inline(b".file", 2)), field(&inline(b"go", 0)), field(&inline(b".text", 1))]
    );
    let overrun = file(0x8664, &[], &[inline(b"go", 0), inline(b"last", 200)], b"");
    let bof = Bof::parse(&overrun).unwrap();
    assert_eq!(bof.symbols.len(), 2);
    assert_eq!(bof.symbols[1].name, "last");
}

#[test]
fn empty_tables_are_a_file() {
    let bytes = file(0x8664, &[], &[], b"");
    assert_eq!(bytes.len(), 24);
    let bof = Bof::parse(&bytes).unwrap();
    assert!(bof.sections.is_empty());
    assert!(bof.symbols.is_empty());
    assert_eq!(bof.strings.bytes, vec![4, 0, 0, 0]);
    assert_eq!(
        parse(&bytes),
        Ok(AnalysisReport {
            architecture: MachineArchitecture::X64,
            entrypoint_found: false,
            imports: Vec::new(),
        })
    );
}

#[test]
fn sections_follow_the_optional_header() {
    let mut bytes = Vec::new();
    bytes.extend_from_slice(&0x014cu16.to_le_bytes());
    bytes.extend_from_slice(&1u16.to_le_bytes());
    bytes.extend_from_slice(&0u32.to_le_bytes());
    bytes.extend_from_slice(&64u32.to_le_bytes());
    bytes.extend_from_slice(&1u32.to_le_bytes());
    bytes.extend_from_slice(&4u16.to_le_bytes());
    bytes.extend_from_slice(&0u16.to_le_bytes());
    bytes.extend_from_slice(&[0xee; 4]);
    bytes.extend_from_slice(&section(b".bss", 0xc000_0080));
    bytes.extend_from_slice(&inline(b"_go", 0));
    bytes.extend_from_slice(&4u32.to_le_bytes());
    let bof = Bof::parse(&bytes).unwrap();
    assert_eq!(bof.header.size_of_optional_header, 4);
    assert_eq!(
        bof.sections,
        vec![Section { name: ".bss".to_string(), characteristics: 0xc000_0080 }]
    );
    assert_eq!(bof.symbols[0].name, "_go");
    assert_eq!(bof.architecture(), MachineArchitecture::X86);
}

#[test]
fn goblin_reads_the_same_header_and_symbols() {
    let bytes = sample();
    let bof = Bof::parse(&bytes).unwrap();
    let coff = goblin::pe::Coff::parse(&bytes).unwrap();
    assert_eq!(coff.header.machine, bof.header.machine);
    assert_eq!(coff.header.number_of_sections, bof.header.number_of_sections);
    assert_eq!(coff.header.time_date_stamp, bof.header.time_date_stamp);
    assert_eq!(coff.header.pointer_to_symbol_table, bof.header.pointer_to_symbol_table);
    assert_eq!(coff.header.number_of_symbol_table, bof.header.number_of_symbols);
    assert_eq!(coff.header.size_of_optional_header, bof.header.size_of_optional_header);
    assert_eq!(coff.header.characteristics, bof.header.characteristics);
    let theirs: Vec<(String, [u8; 8], u32, i16, u16, u8, u8)> = coff
        .symbols
        .iter()
        .map(|(_, _, s)| {
            (
                s.name(&coff.strings).unwrap().to_string(),
                s.name,
                s.value,
                s.section_number,
                s.typ,
                s.storage_class,
                s.number_of_aux_symbols,
            )
        })
        .collect();
    let ours: Vec<(String, [u8; 8], u32, i16, u16, u8, u8)> = bof
        .symbols
        .iter()
        .map(|s| {
            (
                s.name.clone(),
                s.record.name,
                s.record.value,
                s.record.section_number,
                s.record.typ,
                s.record.storage_class,
                s.record.number_of_aux_symbols,
            )
        })
        .collect();
    assert_eq!(theirs, ours);
    assert_eq!(ours.len(), 7);
}

#[test]
fn tables_may_lie_apart() {
    let mut bytes = Vec::new();
    bytes.extend_from_slice(&0x8664u16.to_le_bytes());
    bytes.extend_from_slice(&1u16.to_le_bytes());
    bytes.extend_from_slice(&0u32.to_le_bytes());
    bytes.extend_from_slice(&80u32.to_le_bytes());
    bytes.extend_from_slice(&2u32.to_le_bytes());
    bytes.extend_from_slice(&0u16.to_le_bytes());
    bytes.extend_from_slice(&0u16.to_le_bytes());
    bytes.extend_from_slice(&section(b".text", 0x6000_0020));
    bytes.extend_from_slice(&[0x90; 20]);
    bytes.extend_from_slice(&inline(b"go", 0));
    bytes.extend_from_slice(&long(4));
    bytes.extend_from_slice(&24u32.to_le_bytes());
    bytes.extend_from_slice(b"__imp_BeaconDataInt\0");
    assert_eq!(bytes.len(), 80 + 36 + 24);
    let bof = Bof::parse(&bytes).unwrap();
    assert_eq!(bof.header.pointer_to_symbol_table, 80);
    let names: Vec<&str> = bof.symbols.iter().map(|s| s.name.as_str()).collect();
    assert_eq!(names, vec!["go", "__imp_BeaconDataInt"]);
    assert_eq!(bof.strings.bytes.len(), 24);
    assert_eq!(
        parse(&bytes),
        Ok(AnalysisReport {
            architecture: MachineArchitecture::X64,
            entrypoint_found: true,
            imports: vec![("BeaconDataInt".to_string(), ImportCategory::BeaconExport)],
        })
    );
}

#[test]
fn string_table_is_looked_for_behind_an_empty_symbol_table() {
    let mut bytes = vec![0u8; 20];
    bytes[0..2].copy_from_slice(&0x8664u16.to_le_bytes());
    assert_eq!(
        Bof::parse(&bytes),
        Err(ParseError::TruncatedBuffer { region: Region::StringTable, needed: 0x8664 })
    );
    bytes[0..2].copy_from_slice(&20u16.to_le_bytes());
    let bof = Bof::parse(&bytes).unwrap();
    assert_eq!(bof.header.machine, 20);
    assert_eq!(bof.strings.bytes, bytes);
    assert!(bof.symbols.is_empty());
    bytes[0..2].copy_from_slice(&3u16.to_le_bytes());
    assert_eq!(Bof::parse(&bytes), Err(ParseError::MalformedHeader { string_table_length: 3 }));
}
