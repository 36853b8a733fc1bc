//! Sorting imported symbols into categories, and the entry-point check.

use vstd::prelude::*;
use crate::arch::MachineArchitecture;
use crate::error::ClassifyError;
use crate::symbol::{symbols_view, ResolvedSymbol, ResolvedSymbolView};
use crate::tables::{listed, lookup, BEACON_EXPORTS, WIN32_BUILTIN, WIN32_MODULES};
use crate::text::{
    begins_with, chars_of, count_trailing_digits, find_char, first_at, first_at_is_first,
    is_digit, piece, str_eq, trailing_digits, trailing_digits_are_digits,
};

verus! {

/// What the host will do about one imported name.
#[derive(Debug, PartialEq, Eq)]
pub enum ImportCategory {
    /// A function that Beacon exports.
    BeaconExport,
    /// A Win32 function that Beacon resolves by itself.
    Win32Builtin,
    /// `module$function` with a known Win32 library: resolved at load time.
    DynamicResolution { module: String, function: String },
    /// `module$function` with a library that is not in the table.
    UnrecognizedModule { module: String, function: String },
    /// A name that follows no convention.
    UnknownImport { raw_name: String },
}

/// What an `ImportCategory` holds, as mathematical values.
pub enum CategoryView {
    BeaconExport,
    Win32Builtin,
    DynamicResolution { module: Seq<char>, function: Seq<char> },
    UnrecognizedModule { module: Seq<char>, function: Seq<char> },
    UnknownImport { raw_name: Seq<char> },
}

impl View for ImportCategory {
    type V = CategoryView;

    open spec fn view(&self) -> CategoryView {
        match self {
            ImportCategory::BeaconExport => CategoryView::BeaconExport,
            ImportCategory::Win32Builtin => CategoryView::Win32Builtin,
            ImportCategory::DynamicResolution { module, function } => {
                CategoryView::DynamicResolution { module: module@, function: function@ }
            },
            ImportCategory::UnrecognizedModule { module, function } => {
                CategoryView::UnrecognizedModule { module: module@, function: function@ }
            },
            ImportCategory::UnknownImport { raw_name } => CategoryView::UnknownImport {
                raw_name: raw_name@,
            },
        }
    }
}

impl Clone for ImportCategory {
    fn clone(&self) -> (copy: Self)
        ensures
            copy@ == self@,
    {
        match self {
            ImportCategory::BeaconExport => ImportCategory::BeaconExport,
            ImportCategory::Win32Builtin => ImportCategory::Win32Builtin,
            ImportCategory::DynamicResolution { module, function } => {
                ImportCategory::DynamicResolution {
                    module: module.clone(),
                    function: function.clone(),
                }
            },
            ImportCategory::UnrecognizedModule { module, function } => {
                ImportCategory::UnrecognizedModule {
                    module: module.clone(),
                    function: function.clone(),
                }
            },
            ImportCategory::UnknownImport { raw_name } => ImportCategory::UnknownImport {
                raw_name: raw_name.clone(),
            },
        }
    }
}

/// Length of the stdcall decoration that ends `s`: an `@` and the one or more
/// decimal digits after it; 0 where `s` does not end so.
pub open spec fn decoration_len(s: Seq<char>) -> nat {
    let digits: nat = trailing_digits(s);
    if 1 <= digits < s.len() && s[s.len() - digits - 1] == '@' {
        digits + 1
    } else {
        0
    }
}

/// `s` without the stdcall decoration at its end.
pub open spec fn undecorated(s: Seq<char>) -> Seq<char> {
    s.take(s.len() - decoration_len(s))
}

/// First rule: the candidate is a function that Beacon exports.
pub open spec fn beacon_export_rule(candidate: Seq<char>) -> Option<CategoryView> {
    if listed(BEACON_EXPORTS@, candidate) {
        Some(CategoryView::BeaconExport)
    } else {
        None
    }
}

/// Second rule: the candidate is a Win32 function built into Beacon.
pub open spec fn win32_builtin_rule(candidate: Seq<char>) -> Option<CategoryView> {
    if listed(WIN32_BUILTIN@, candidate) {
        Some(CategoryView::Win32Builtin)
    } else {
        None
    }
}

/// The module of a `module$function` name: the text before the first `$`.
pub open spec fn module_part(candidate: Seq<char>) -> Seq<char> {
    candidate.take(first_at(candidate, '$', 0))
}

/// The function of a `module$function` name: the text behind the first `$`,
/// without a stdcall decoration at its end.
pub open spec fn function_part(candidate: Seq<char>) -> Seq<char> {
    undecorated(candidate.skip(first_at(candidate, '$', 0) + 1))
}

/// Third rule: the candidate holds a `$`, which splits it into a module and
/// a function. The module table decides between the two outcomes; the module
/// is held against it as it is written.
pub open spec fn module_function_rule(candidate: Seq<char>) -> Option<CategoryView> {
    if first_at(candidate, '$', 0) < candidate.len() {
        let module = module_part(candidate);
        let function = function_part(candidate);
        if listed(WIN32_MODULES@, module) {
            Some(CategoryView::DynamicResolution { module, function })
        } else {
            Some(CategoryView::UnrecognizedModule { module, function })
        }
    } else {
        None
    }
}

/// The category of a candidate import name: the outcome of the first rule
/// that applies, in the order export table, builtin table, `module$function`;
/// an unknown import where none does.
pub open spec fn category_of(candidate: Seq<char>) -> CategoryView {
    if let Some(category) = beacon_export_rule(candidate) {
        category
    } else if let Some(category) = win32_builtin_rule(candidate) {
        category
    } else if let Some(category) = module_function_rule(candidate) {
        category
    } else {
        CategoryView::UnknownImport { raw_name: candidate }
    }
}

/// The test that a symbol's name begins with `prefix`.
pub open spec fn carries(prefix: Seq<char>) -> spec_fn(ResolvedSymbolView) -> bool {
    |s: ResolvedSymbolView| prefix.is_prefix_of(s.name)
}

/// The symbols whose name begins with `prefix`, in table order.
pub open spec fn imports_of(prefix: Seq<char>, symbols: Seq<ResolvedSymbolView>) -> Seq<
    ResolvedSymbolView,
> {
    symbols.filter(carries(prefix))
}

/// The candidate names and their categories: one entry for each symbol that
/// carries `prefix`, in table order, the name without the prefix.
pub open spec fn classified(prefix: Seq<char>, symbols: Seq<ResolvedSymbolView>) -> Seq<
    (Seq<char>, CategoryView),
> {
    imports_of(prefix, symbols).map_values(
        |s: ResolvedSymbolView|
            (s.name.skip(prefix.len() as int), category_of(s.name.skip(prefix.len() as int))),
    )
}

/// The outcome of classifying a table: no prefix, no classification;
/// otherwise the classified imports.
pub open spec fn classification_of(
    architecture: MachineArchitecture,
    symbols: Seq<ResolvedSymbolView>,
) -> Result<Seq<(Seq<char>, CategoryView)>, ClassifyError> {
    match architecture.import_prefix_of() {
        None => Err(ClassifyError::UnsupportedArchitecture),
        Some(prefix) => Ok(classified(prefix, symbols)),
    }
}

/// The outcome of listing the imports of a table: no prefix, no list;
/// otherwise the symbols that carry the prefix.
pub open spec fn imports_found(
    architecture: MachineArchitecture,
    symbols: Seq<ResolvedSymbolView>,
) -> Result<Seq<ResolvedSymbolView>, ClassifyError> {
    match architecture.import_prefix_of() {
        None => Err(ClassifyError::UnsupportedArchitecture),
        Some(prefix) => Ok(imports_of(prefix, symbols)),
    }
}

/// What a rule made of a candidate, as mathematical values.
pub open spec fn rule_view(outcome: Option<ImportCategory>) -> Option<CategoryView> {
    match outcome {
        Some(category) => Some(category@),
        None => None,
    }
}

/// The views of a list of classified imports, in order.
pub open spec fn entries_view(entries: Seq<(String, ImportCategory)>) -> Seq<
    (Seq<char>, CategoryView),
> {
    entries.map_values(|e: (String, ImportCategory)| (e.0@, e.1@))
}

/// The outcome of a classification, as mathematical values.
pub open spec fn classification_view(
    outcome: Result<Vec<(String, ImportCategory)>, ClassifyError>,
) -> Result<Seq<(Seq<char>, CategoryView)>, ClassifyError> {
    match outcome {
        Ok(entries) => Ok(entries_view(entries@)),
        Err(e) => Err(e),
    }
}

/// The outcome of listing imports, as mathematical values.
pub open spec fn imports_view(outcome: Result<Vec<ResolvedSymbol>, ClassifyError>) -> Result<
    Seq<ResolvedSymbolView>,
    ClassifyError,
> {
    match outcome {
        Ok(imports) => Ok(symbols_view(imports@)),
        Err(e) => Err(e),
    }
}

/// Whether some symbol is named exactly `required`.
pub open spec fn entrypoint_among(symbols: Seq<ResolvedSymbolView>, required: Seq<char>) -> bool {
    exists|i: int| 0 <= i < symbols.len() && (#[trigger] symbols[i]).name == required
}

/// Adding a symbol to the end of a table adds it to the end of the imports
/// where it carries the prefix, and changes nothing where it does not.
pub proof fn imports_of_push(
    prefix: Seq<char>,
    symbols: Seq<ResolvedSymbolView>,
    last: ResolvedSymbolView,
)
    ensures
        imports_of(prefix, symbols.push(last)) == if prefix.is_prefix_of(last.name) {
            imports_of(prefix, symbols).push(last)
        } else {
            imports_of(prefix, symbols)
        },
{
    reveal(Seq::filter);
    assert(symbols.push(last).drop_last() =~= symbols);
}

/// Applies the first rule: the export table.
pub fn beacon_export(candidate: &str) -> (category: Option<ImportCategory>)
    ensures
        rule_view(category) == beacon_export_rule(candidate@),
{
    if lookup(&BEACON_EXPORTS, candidate) {
        Some(ImportCategory::BeaconExport)
    } else {
        None
    }
}

/// Applies the second rule: the builtin table.
pub fn win32_builtin(candidate: &str) -> (category: Option<ImportCategory>)
    ensures
        rule_view(category) == win32_builtin_rule(candidate@),
{
    if lookup(&WIN32_BUILTIN, candidate) {
        Some(ImportCategory::Win32Builtin)
    } else {
        None
    }
}

/// Applies the third rule: `module$function`.
pub fn module_function(candidate: &str) -> (category: Option<ImportCategory>)
    ensures
        rule_view(category) == module_function_rule(candidate@),
{
    let chars = chars_of(candidate);
    let split: usize = find_char(&chars, '$', 0);
    if split < chars.len() {
        let module = piece(candidate, 0, split);
        let digits: usize = count_trailing_digits(&chars, split + 1);
        let cut: usize = if 1 <= digits && digits < chars.len() - (split + 1) && chars[chars.len()
            - digits - 1] == '@' {
            digits + 1
        } else {
            0
        };
        let function = piece(candidate, split + 1, chars.len() - cut);
        assert(function@ =~= function_part(candidate@));
        if lookup(&WIN32_MODULES, module.as_str()) {
            Some(ImportCategory::DynamicResolution { module, function })
        } else {
            Some(ImportCategory::UnrecognizedModule { module, function })
        }
    } else {
        None
    }
}

/// Classifies one candidate import name. The rules are tried in their fixed
/// order and the first that applies decides; every name gets a category.
pub fn classify(candidate: &str) -> (category: ImportCategory)
    ensures
        category@ == category_of(candidate@),
{
    if let Some(category) = beacon_export(candidate) {
        category
    } else if let Some(category) = win32_builtin(candidate) {
        category
    } else if let Some(category) = module_function(candidate) {
        category
    } else {
        ImportCategory::UnknownImport { raw_name: candidate.to_owned() }
    }
}

/// The symbols that carry the import prefix of `architecture`, in table
/// order; `UnsupportedArchitecture` where the architecture defines no prefix.
pub fn get_imports(architecture: MachineArchitecture, symbols: &Vec<ResolvedSymbol>) -> (result:
    Result<Vec<ResolvedSymbol>, ClassifyError>)
    ensures
        imports_view(result) == imports_found(architecture, symbols_view(symbols@)),
{
    let prefix: Vec<char> = match architecture.import_prefix() {
        Some(prefix) => chars_of(prefix),
        None => { return Err(ClassifyError::UnsupportedArchitecture); },
    };
    let ghost all = symbols_view(symbols@);
    let mut imports: Vec<ResolvedSymbol> = Vec::new();
    for i in 0..symbols.len()
        invariant
            all == symbols_view(symbols@),
            Some(prefix@) == architecture.import_prefix_of(),
            symbols_view(imports@) == imports_of(prefix@, all.take(i as int)),
    {
        let chars = chars_of(symbols[i].name.as_str());
        proof {
            imports_of_push(prefix@, all.take(i as int), all[i as int]);
            assert(all.take(i as int).push(all[i as int]) =~= all.take(i + 1));
        }
        if begins_with(&chars, &prefix) {
            imports.push(symbols[i].clone());
        }
    }
    assert(all.take(symbols.len() as int) =~= all);
    Ok(imports)
}

/// Classifies every imported symbol of a table.
///
/// The architecture is judged once, before any symbol is looked at: where it
/// defines no import prefix the call fails with `UnsupportedArchitecture`.
/// Otherwise it succeeds with one entry for each symbol that carries the
/// prefix, in table order: the name without the prefix and its category.
pub fn classify_all(architecture: MachineArchitecture, symbols: &Vec<ResolvedSymbol>) -> (result:
    Result<Vec<(String, ImportCategory)>, ClassifyError>)
    ensures
        classification_view(result) == classification_of(architecture, symbols_view(symbols@)),
{
    let prefix = match architecture.import_prefix() {
        Some(prefix) => chars_of(prefix),
        None => { return Err(ClassifyError::UnsupportedArchitecture); },
    };
    let imports = match get_imports(architecture, symbols) {
        Ok(imports) => imports,
        Err(e) => { return Err(e); },
    };
    let ghost found = symbols_view(imports@);
    let mut entries: Vec<(String, ImportCategory)> = Vec::new();
    for i in 0..imports.len()
        invariant
            found == symbols_view(imports@),
            found == imports_of(prefix@, symbols_view(symbols@)),
            entries@.len() == i,
            forall|j: int|
                0 <= j < i ==> (#[trigger] entries@[j]).0@ == found[j].name.skip(
                    prefix@.len() as int,
                ) && entries@[j].1@ == category_of(found[j].name.skip(prefix@.len() as int)),
    {
        let name = imports[i].name.as_str();
        let length: usize = name.unicode_len();
        proof {
            symbols_view(symbols@).lemma_filter_pred(carries(prefix@), i as int);
        }
        let candidate = piece(name, prefix.len(), length);
        let category = classify(candidate.as_str());
        entries.push((candidate, category));
    }
    assert(entries_view(entries@) =~= classified(prefix@, symbols_view(symbols@)));
    Ok(entries)
}

/// Whether some symbol is named exactly `required_name`. The names are held
/// against it as they are, case and all.
pub fn has_entrypoint(symbols: &Vec<ResolvedSymbol>, required_name: &str) -> (found: bool)
    ensures
        found == entrypoint_among(symbols_view(symbols@), required_name@),
{
    for i in 0..symbols.len()
        invariant
            forall|j: int|
                0 <= j < i ==> (#[trigger] symbols_view(symbols@)[j]).name != required_name@,
    {
        if str_eq(symbols[i].name.as_str(), required_name) {
            assert(symbols_view(symbols@)[i as int].name == required_name@);
            return true;
        }
    }
    false
}

/// The machine code alone decides whether a table is classified, and with
/// which prefix: `0x8664` classifies with `__imp_`, `0x014c` with `__imp__`,
/// and under every other code the classification fails with
/// `UnsupportedArchitecture`, whatever the symbols are.
pub proof fn classification_follows_machine_code(code: u16, symbols: Seq<ResolvedSymbolView>)
    ensures
        code == 0x8664 ==> classification_of(MachineArchitecture::of_code(code), symbols) == Ok::<
            Seq<(Seq<char>, CategoryView)>,
            ClassifyError,
        >(classified("__imp_"@, symbols)),
        code == 0x014c ==> classification_of(MachineArchitecture::of_code(code), symbols) == Ok::<
            Seq<(Seq<char>, CategoryView)>,
            ClassifyError,
        >(classified("__imp__"@, symbols)),
        code != 0x8664 && code != 0x014c ==> classification_of(
            MachineArchitecture::of_code(code),
            symbols,
        ) == Err::<Seq<(Seq<char>, CategoryView)>, ClassifyError>(
            ClassifyError::UnsupportedArchitecture,
        ),
{
}

/// Every symbol that carries the prefix is classified once, and in the order
/// of the table: the classification has one entry for each import, and entry
/// `i` is the name of import `i` without the prefix, with the category of
/// that name.
pub proof fn one_entry_for_each_import(
    prefix: Seq<char>,
    symbols: Seq<ResolvedSymbolView>,
    i: int,
)
    requires
        0 <= i < imports_of(prefix, symbols).len(),
    ensures
        classified(prefix, symbols).len() == imports_of(prefix, symbols).len(),
        imports_of(prefix, symbols).len() <= symbols.len(),
        prefix.is_prefix_of(imports_of(prefix, symbols)[i].name),
        prefix + classified(prefix, symbols)[i].0 == imports_of(prefix, symbols)[i].name,
        classified(prefix, symbols)[i].1 == category_of(classified(prefix, symbols)[i].0),
{
    symbols.lemma_filter_len(carries(prefix));
    symbols.lemma_filter_pred(carries(prefix), i);
}

/// A stdcall decoration is an `@` and the digits behind it, nothing else:
/// what `undecorated` leaves out starts with `@`, and every character behind
/// that is a decimal digit, of which there is at least one.
pub proof fn decoration_is_at_and_digits(s: Seq<char>)
    ensures
        decoration_len(s) <= s.len(),
        undecorated(s).is_prefix_of(s),
        decoration_len(s) != 1,
        decoration_len(s) > 0 ==> s[s.len() - decoration_len(s)] == '@',
        forall|i: int| s.len() - decoration_len(s) < i < s.len() ==> is_digit(s[i]),
{
    trailing_digits_are_digits(s);
}

/// The third rule applies exactly to the names that hold a `$`, and splits
/// them at the first one: the module holds no `$`, and the name is the
/// module, the `$`, the function and the decoration, in this order.
pub proof fn name_splits_at_first_dollar(candidate: Seq<char>)
    ensures
        module_function_rule(candidate) is Some <==> candidate.contains('$'),
        !module_part(candidate).contains('$'),
        candidate.contains('$') ==> (module_part(candidate) + seq!['$'] + function_part(
            candidate,
        )).is_prefix_of(candidate) && candidate.len() == module_part(candidate).len() + 1
            + function_part(candidate).len() + decoration_len(
            candidate.skip(first_at(candidate, '$', 0) + 1),
        ),
{
    first_at_is_first(candidate, '$', 0);
    if candidate.contains('$') {
        decoration_is_at_and_digits(candidate.skip(first_at(candidate, '$', 0) + 1));
    }
}

} // verus!
