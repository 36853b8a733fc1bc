//! The machine a COFF object was compiled for.

use vstd::prelude::*;

verus! {

/// Machine code of 32-bit x86 objects.
pub const IMAGE_FILE_MACHINE_I386: u16 = 0x014c;

/// Machine code of x86-64 objects.
pub const IMAGE_FILE_MACHINE_AMD64: u16 = 0x8664;

/// Machine code of 64-bit ARM objects.
pub const IMAGE_FILE_MACHINE_ARM64: u16 = 0xaa64;

/// Decoration that marks an imported symbol in x86 objects.
pub const X86_IMPORT_PREFIX: &'static str = "__imp__";

/// Decoration that marks an imported symbol in x86-64 objects.
pub const X64_IMPORT_PREFIX: &'static str = "__imp_";

/// The target of an object file, as its header's 16-bit machine field tells.
#[derive(Clone, Copy, Debug, PartialEq, Eq, Structural)]
pub enum MachineArchitecture {
    X86,
    X64,
    Arm64,
    /// Any other machine code, kept as it was read.
    Unsupported(u16),
}

/// What an optional piece of fixed text says, as a sequence of characters.
pub open spec fn text_view(text: Option<&'static str>) -> Option<Seq<char>> {
    match text {
        Some(t) => Some(t@),
        None => None,
    }
}

impl MachineArchitecture {
    /// The architecture that a machine code stands for.
    pub open spec fn of_code(code: u16) -> Self {
        if code == IMAGE_FILE_MACHINE_I386 {
            MachineArchitecture::X86
        } else if code == IMAGE_FILE_MACHINE_AMD64 {
            MachineArchitecture::X64
        } else if code == IMAGE_FILE_MACHINE_ARM64 {
            MachineArchitecture::Arm64
        } else {
            MachineArchitecture::Unsupported(code)
        }
    }

    /// The machine code of the architecture.
    pub open spec fn code_of(self) -> u16 {
        match self {
            MachineArchitecture::X86 => IMAGE_FILE_MACHINE_I386,
            MachineArchitecture::X64 => IMAGE_FILE_MACHINE_AMD64,
            MachineArchitecture::Arm64 => IMAGE_FILE_MACHINE_ARM64,
            MachineArchitecture::Unsupported(code) => code,
        }
    }

    /// Whether the value is one that a machine code decodes to: `Unsupported`
    /// holds none of the three known codes.
    pub open spec fn wf(self) -> bool {
        self == Self::of_code(self.code_of())
    }

    /// The import prefix of the architecture; `None` where no convention is
    /// defined.
    pub open spec fn import_prefix_of(self) -> Option<Seq<char>> {
        match self {
            MachineArchitecture::X86 => Some(X86_IMPORT_PREFIX@),
            MachineArchitecture::X64 => Some(X64_IMPORT_PREFIX@),
            _ => None,
        }
    }

    /// The short name of the architecture; `None` for an unsupported code.
    pub open spec fn name_of(self) -> Option<Seq<char>> {
        match self {
            MachineArchitecture::X86 => Some("x86"@),
            MachineArchitecture::X64 => Some("x64"@),
            MachineArchitecture::Arm64 => Some("aarch64"@),
            MachineArchitecture::Unsupported(_) => None,
        }
    }

    /// Decodes the machine field of a header. No code is an error here: an
    /// unknown one is carried along for later stages to judge.
    pub fn from_code(code: u16) -> (arch: Self)
        ensures
            arch == Self::of_code(code),
            arch.wf(),
            arch.code_of() == code,
    {
        if code == IMAGE_FILE_MACHINE_I386 {
            MachineArchitecture::X86
        } else if code == IMAGE_FILE_MACHINE_AMD64 {
            MachineArchitecture::X64
        } else if code == IMAGE_FILE_MACHINE_ARM64 {
            MachineArchitecture::Arm64
        } else {
            MachineArchitecture::Unsupported(code)
        }
    }

    /// The machine code of the architecture.
    pub fn code(&self) -> (code: u16)
        ensures
            code == self.code_of(),
    {
        match self {
            MachineArchitecture::X86 => IMAGE_FILE_MACHINE_I386,
            MachineArchitecture::X64 => IMAGE_FILE_MACHINE_AMD64,
            MachineArchitecture::Arm64 => IMAGE_FILE_MACHINE_ARM64,
            MachineArchitecture::Unsupported(code) => *code,
        }
    }

    /// The prefix that marks imported symbols for this architecture.
    pub fn import_prefix(&self) -> (prefix: Option<&'static str>)
        ensures
            text_view(prefix) == self.import_prefix_of(),
    {
        match self {
            MachineArchitecture::X86 => Some(X86_IMPORT_PREFIX),
            MachineArchitecture::X64 => Some(X64_IMPORT_PREFIX),
            _ => None,
        }
    }

    /// The short name under which the architecture is reported.
    pub fn name(&self) -> (name: Option<&'static str>)
        ensures
            text_view(name) == self.name_of(),
    {
        match self {
            MachineArchitecture::X86 => Some("x86"),
            MachineArchitecture::X64 => Some("x64"),
            MachineArchitecture::Arm64 => Some("aarch64"),
            MachineArchitecture::Unsupported(_) => None,
        }
    }
}

/// Decoding a machine code loses nothing: the code of the architecture is
/// the code that was decoded, and an architecture that a code decodes to is
/// what its own code decodes to.
pub proof fn machine_code_round_trip(code: u16, architecture: MachineArchitecture)
    ensures
        MachineArchitecture::of_code(code).code_of() == code,
        MachineArchitecture::of_code(code).wf(),
        architecture.wf() ==> MachineArchitecture::of_code(architecture.code_of()) == architecture,
{
}

/// The import prefix is decided by the machine code alone: `0x8664` selects
/// `__imp_`, `0x014c` selects `__imp__`, and every other code selects none.
pub proof fn prefix_follows_machine_code(code: u16)
    ensures
        code == 0x8664 ==> MachineArchitecture::of_code(code).import_prefix_of() == Some("__imp_"@),
        code == 0x014c ==> MachineArchitecture::of_code(code).import_prefix_of() == Some(
            "__imp__"@,
        ),
        code != 0x8664 && code != 0x014c ==> MachineArchitecture::of_code(
            code,
        ).import_prefix_of() is None,
{
}

} // verus!
