//! The fixed reference tables that imported names are held against.

use vstd::prelude::*;
use crate::text::str_eq;

verus! {

/// The symbol that the loader calls to start a Beacon Object File.
pub const BEACON_ENTRYPOINT: &'static str = "go";

/// Functions that Beacon itself exports to an object file.
pub const BEACON_EXPORTS: [&'static str; 22] = [
    "BeaconDataParse",
    "BeaconDataInt",
    "BeaconDataShort",
    "BeaconDataLength",
    "BeaconDataExtract",
    "BeaconFormatAlloc",
    "BeaconFormatReset",
    "BeaconFormatFree",
    "BeaconFormatAppend",
    "BeaconFormatPrintf",
    "BeaconFormatToString",
    "BeaconFormatInt",
    "BeaconPrintf",
    "BeaconOutput",
    "BeaconUseToken",
    "BeaconRevertToken",
    "BeaconIsAdmin",
    "BeaconGetSpawnTo",
    "BeaconInjectProcess",
    "BeaconInjectTemporaryProcess",
    "BeaconCleanupProcess",
    "toWideChar",
];

/// Win32 functions that Beacon resolves by itself, without a dynamic lookup.
pub const WIN32_BUILTIN: [&'static str; 4] = [
    "GetProcAddress",
    "LoadLibraryA",
    "GetModuleHandle",
    "FreeLibrary",
];

/// Win32 libraries whose functions may be named as `MODULE$function`.
pub const WIN32_MODULES: [&'static str; 16] = [
    "NTDLL",
    "KERNEL32",
    "KERNELBASE",
    "GDI32",
    "USER32",
    "COMCTL32",
    "COMDLG32",
    "WS2_32",
    "ADVAPI32",
    "NETAPI32",
    "OLE32",
    "MSVCRT",
    "BASESRV",
    "CSRSRV",
    "WINSRV",
    "WININET",
];

/// Whether some entry of `table` is exactly `name`.
pub open spec fn listed(table: Seq<&'static str>, name: Seq<char>) -> bool {
    exists|i: int| 0 <= i < table.len() && (#[trigger] table[i])@ == name
}

/// Looks `name` up in `table`, entry by entry, case-sensitively.
pub fn lookup(table: &[&'static str], name: &str) -> (found: bool)
    ensures
        found == listed(table@, name@),
{
    let mut i: usize = 0;
    while i < table.len()
        invariant
            i <= table.len(),
            forall|j: int| 0 <= j < i ==> (#[trigger] table@[j])@ != name@,
        decreases table.len() - i,
    {
        if str_eq(table[i], name) {
            return true;
        }
        i += 1;
    }
    false
}

} // verus!
