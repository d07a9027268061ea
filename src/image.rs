//! The structured view of an ELF image that detection works on: header
//! fields, program segments, dynamic entries and the symbol table.

use vstd::prelude::*;

verus! {

/// `e_machine` of Intel 80386.
pub const EM_386: u16 = 3;

/// `e_machine` of 32-bit ARM.
pub const EM_ARM: u16 = 40;

/// `e_machine` of AMD x86-64.
pub const EM_X86_64: u16 = 62;

/// `e_machine` of 64-bit ARM.
pub const EM_AARCH64: u16 = 183;

/// `e_type` of an executable linked at a fixed address.
pub const ET_EXEC: u16 = 2;

/// `e_type` of a shared object, which a position-independent executable is.
pub const ET_DYN: u16 = 3;

/// Dynamic tag asking the loader to resolve every symbol at start-up.
pub const DT_BIND_NOW: u64 = 24;

/// Dynamic tag of the extended state flags.
pub const DT_FLAGS_1: u64 = 0x6fff_fffb;

/// Program header type of the segment that states the stack's permissions.
pub const PT_GNU_STACK: u32 = 0x6474_e551;

/// Execute permission bit of a program header's flags.
pub const PF_X: u32 = 1;

/// One program header: its type and its permission flags.
#[derive(Clone, Copy, Debug, PartialEq, Eq)]
pub struct Segment {
    pub p_type: u32,
    pub p_flags: u32,
}

/// One entry of the symbol table: the offset of its name in the string
/// table, and the name found there, if any.
#[derive(Clone, Debug)]
pub struct Symbol {
    pub name_offset: usize,
    pub name: Option<String>,
}

/// The parts of an ELF image that the hardening checks read.
#[derive(Clone, Debug)]
pub struct ImageView {
    pub machine: u16,
    pub image_type: u16,
    /// Tags of the dynamic section's entries; `None` where there is no
    /// dynamic section.
    pub dynamic: Option<Vec<u64>>,
    pub segments: Vec<Segment>,
    pub symbols: Vec<Symbol>,
}

/// Mathematical model of a `Symbol`.
pub ghost struct SymbolModel {
    pub name_offset: usize,
    pub name: Option<Seq<char>>,
}

/// Mathematical model of an `ImageView`.
pub ghost struct ImageModel {
    pub machine: u16,
    pub image_type: u16,
    pub dynamic: Option<Seq<u64>>,
    pub segments: Seq<Segment>,
    pub symbols: Seq<SymbolModel>,
}

impl View for Symbol {
    type V = SymbolModel;

    open spec fn view(&self) -> SymbolModel {
        SymbolModel {
            name_offset: self.name_offset,
            name: match self.name {
                Some(n) => Some(n@),
                None => None,
            },
        }
    }
}

impl View for ImageView {
    type V = ImageModel;

    open spec fn view(&self) -> ImageModel {
        ImageModel {
            machine: self.machine,
            image_type: self.image_type,
            dynamic: match self.dynamic {
                Some(tags) => Some(tags@),
                None => None,
            },
            segments: self.segments@,
            symbols: self.symbols@.map_values(|s: Symbol| s@),
        }
    }
}

/// The symbol has a name: a non-zero offset that resolves in the string table.
pub open spec fn is_named(s: SymbolModel) -> bool {
    s.name_offset != 0 && s.name is Some
}

/// `needle` occurs in `hay` as a contiguous run.
pub open spec fn contains_run(hay: Seq<char>, needle: Seq<char>) -> bool {
    exists|k: int|
        0 <= k && k + needle.len() <= hay.len() && #[trigger] hay.subrange(k, k + needle.len())
            == needle
}

} // verus!
