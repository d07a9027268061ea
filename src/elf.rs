//! Reading an image's structure out of raw bytes, which goblin's ELF
//! parser does.

use vstd::prelude::*;
use crate::image::{ImageModel, ImageView, Segment, Symbol};

verus! {

/// The structure that goblin reads from a buffer, or `None` where it
/// refuses the buffer.
pub uninterp spec fn parsed_elf(bytes: Seq<u8>) -> Option<ImageModel>;

/// The four bytes that open every ELF file.
pub open spec fn elf_magic() -> Seq<u8> {
    seq![0x7fu8, 0x45u8, 0x4cu8, 0x46u8]
}

/// The buffer holds at least a full identification block that opens with
/// the ELF magic.
pub open spec fn has_elf_magic(bytes: Seq<u8>) -> bool {
    bytes.len() >= 16 && bytes.subrange(0, 4) == elf_magic()
}

/// Relies on goblin's `Elf::parse` (and `Strtab::get_at` for symbol names):
/// the structure read depends on the bytes alone, and header parsing refuses
/// a buffer shorter than the 16-byte identification or one that does not
/// open with the ELF magic.
#[verifier::external_body]
pub(crate) fn parse_image(bytes: &[u8]) -> (r: Result<ImageView, String>)
    ensures
        match r {
            Ok(v) => parsed_elf(bytes@) == Some(v@),
            Err(_) => parsed_elf(bytes@) is None,
        },
        !has_elf_magic(bytes@) ==> r is Err,
{
    let elf = goblin::elf::Elf::parse(bytes).map_err(|e| e.to_string())?;
    let dynamic = elf.dynamic.as_ref().map(|d| d.dyns.iter().map(|e| e.d_tag).collect());
    let segments = elf.program_headers.iter().map(|p| Segment { p_type: p.p_type, p_flags: p.p_flags }).collect();
    let symbols = elf.syms.iter().map(|s| Symbol { name_offset: s.st_name, name: elf.strtab.get_at(s.st_name).map(String::from) }).collect();
    Ok(ImageView { machine: elf.header.e_machine, image_type: elf.header.e_type, dynamic, segments, symbols })
}

/// A buffer holding only zero bytes lacks the ELF magic, so analysing it
/// always fails with `InvalidElf`.
pub proof fn lemma_zero_filled_lacks_magic(bytes: Seq<u8>)
    requires
        forall|i: int| 0 <= i < bytes.len() ==> bytes[i] == 0,
    ensures
        !has_elf_magic(bytes),
{
    if bytes.len() >= 16 {
        assert(bytes.subrange(0, 4)[0] != elf_magic()[0]);
    }
}

} // verus!
