//! The object loader: what this crate has from `goblin`.
//!
//! `goblin` parses the container format. Its values are opaque here. A
//! function of this file makes one call into `goblin` and hands the result
//! on, as it is or as plain values; its contract is not proved but taken
//! from `goblin`'s source. What `goblin` computes is a function of the
//! bytes it is given: the hint at the format is written out here, and each
//! other result has a name that the contracts of the rest of the crate
//! speak of.

use vstd::prelude::*;

use crate::address::{be_value, le_value};

verus! {

/// An error of `goblin`, carried through unread.
#[verifier::external_type_specification]
#[verifier::external_body]
pub struct ExGoblinError(goblin::error::Error);

/// A parsed ELF object of `goblin`, carried through unread.
#[verifier::external_type_specification]
#[verifier::external_body]
pub struct ExElf<'a>(goblin::elf::Elf<'a>);

/// A note as `goblin` hands it out. It stands in no signature here: the
/// iterator below hands out such notes, so it cannot be declared without
/// them, and `RawNote` holds what is read of one.
#[verifier::external_type_specification]
#[verifier::external_body]
pub struct ExNote<'a>(goblin::elf::note::Note<'a>);

/// `goblin`'s iterator over the notes of the note sections of an ELF object.
#[verifier::external_type_specification]
#[verifier::external_body]
pub struct ExNoteIterator<'a>(goblin::elf::note::NoteIterator<'a>);

/// What loading a buffer gave: a parsed ELF object, or the name of another
/// container format.
#[derive(Debug)]
pub enum LoadedObject<'a> {
    /// An ELF object, the one format whose notes are decoded.
    Elf(goblin::elf::Elf<'a>),
    /// A PE32/PE32+ image.
    PE,
    /// A terse executable.
    TE,
    /// A COFF object.
    COFF,
    /// A Mach-O binary, or a container of several.
    Mach,
    /// A Unix archive.
    Archive,
    /// None that the loader knows by its magic number, or a buffer too short
    /// to hold one.
    Unknown,
    /// A format that the loader knows and this crate does not.
    Other,
}

/// One note as it stands in a note section: what the decoder reads of a
/// note of `goblin`.
#[derive(Clone, Copy, Debug)]
pub struct RawNote<'a> {
    /// The type of this note.
    pub n_type: u32,
    /// The bytes of the owner's name, without its terminator.
    pub name: &'a [u8],
    /// The descriptor.
    pub desc: &'a [u8],
}

/// The start of a buffer, as long as the loader needs it to tell the format.
pub type Head = [u8; 16];

/// The container format that the first sixteen bytes of a buffer announce.
#[derive(Clone, Copy, Debug, PartialEq, Eq, Structural)]
pub enum ObjectHint {
    /// An ELF object.
    Elf,
    /// A Mach-O binary.
    Mach,
    /// A container of Mach-O binaries for several architectures.
    MachFat,
    /// A PE32/PE32+ image.
    PE,
    /// A terse executable.
    TE,
    /// A COFF object.
    COFF,
    /// A Unix archive.
    Archive,
    /// None of these.
    Unknown,
    /// A format that the loader knows and this crate does not.
    Other,
}

/// The four bytes that every ELF object starts with.
pub open spec fn elf_magic() -> Seq<u8> {
    seq![0x7Fu8, 0x45u8, 0x4Cu8, 0x46u8]
}

/// Whether `data` starts with the magic number of ELF.
pub open spec fn has_elf_magic(data: Seq<u8>) -> bool {
    data.len() >= 4 && data.take(4) == elf_magic()
}

/// The eight bytes that every Unix archive starts with: `!<arch>` and a line
/// feed.
pub open spec fn archive_magic() -> Seq<u8> {
    seq![0x21u8, 0x3Cu8, 0x61u8, 0x72u8, 0x63u8, 0x68u8, 0x3Eu8, 0x0Au8]
}

/// The format that `head`, the first sixteen bytes of a buffer, announces.
/// The magic numbers are looked for in this order: ELF, archive, then the
/// first two bytes as a little-endian number (PE, TE, and the COFF machines
/// x86, x86-64 and ARM64), then the first four bytes as a big-endian number
/// (Mach-O in its four forms, and the fat Mach-O container).
pub open spec fn hint_of(head: Seq<u8>) -> ObjectHint {
    let low = le_value(head.subrange(0, 2));
    let magic = be_value(head.subrange(0, 4));
    if head.subrange(0, 4) == elf_magic() {
        ObjectHint::Elf
    } else if head.subrange(0, 8) == archive_magic() {
        ObjectHint::Archive
    } else if low == 0x5A4D {
        ObjectHint::PE
    } else if low == 0x5A56 {
        ObjectHint::TE
    } else if low == 0x014C || low == 0x8664 || low == 0xAA64 {
        ObjectHint::COFF
    } else if magic == 0xFEED_FACE || magic == 0xCEFA_EDFE || magic == 0xFEED_FACF || magic
        == 0xCFFA_EDFE {
        ObjectHint::Mach
    } else if magic == 0xCAFE_BABE {
        ObjectHint::MachFat
    } else {
        ObjectHint::Unknown
    }
}

/// What `goblin::elf::Elf::parse` makes of a buffer with these bytes. (The
/// parsed object borrows from the buffer, which a specification has no use
/// for.)
pub uninterp spec fn parsed_elf(data: Seq<u8>) -> Result<goblin::elf::Elf<'static>, goblin::error::Error>;

/// Whether `goblin` found the ELF object to be of the 64-bit class.
pub uninterp spec fn elf_is_64(elf: goblin::elf::Elf) -> bool;

/// Whether `goblin` found the ELF object to be little endian.
pub uninterp spec fn elf_little_endian(elf: goblin::elf::Elf) -> bool;

/// What `goblin::elf::Elf::iter_note_sections` gives for the note sections of
/// the given name: an iterator over their notes, or `None` where the object
/// has no note section of that name.
pub uninterp spec fn note_sections(
    elf: goblin::elf::Elf,
    data: Seq<u8>,
    section_name: Seq<char>,
) -> Option<goblin::elf::note::NoteIterator>;

/// The items that the iterator has yet to hand out, in order: a note, or the
/// error with which `goblin` gave up on the bytes of one.
pub uninterp spec fn pending_notes(it: goblin::elf::note::NoteIterator) -> Seq<
    Result<RawNote, goblin::error::Error>,
>;

/// `goblin::peek_bytes`: tells the container format from the magic number at
/// the start of sixteen bytes. It reads nothing but these bytes, compares
/// them with the magic numbers in the order that `hint_of` writes out, and
/// gives no error: every read lies within the sixteen bytes. Of the hint
/// only the format is kept.
#[verifier::external_body]
pub(crate) fn peek_hint(head: &Head) -> (r: Result<ObjectHint, goblin::error::Error>)
    ensures
        r is Ok,
        r matches Ok(hint) ==> hint == hint_of(head@),
{
    match goblin::peek_bytes(head) {
        Ok(goblin::Hint::Elf(_)) => Ok(ObjectHint::Elf),
        Ok(goblin::Hint::Mach(_)) => Ok(ObjectHint::Mach),
        Ok(goblin::Hint::MachFat(_)) => Ok(ObjectHint::MachFat),
        Ok(goblin::Hint::PE) => Ok(ObjectHint::PE),
        Ok(goblin::Hint::TE) => Ok(ObjectHint::TE),
        Ok(goblin::Hint::COFF) => Ok(ObjectHint::COFF),
        Ok(goblin::Hint::Archive) => Ok(ObjectHint::Archive),
        Ok(goblin::Hint::Unknown(_)) => Ok(ObjectHint::Unknown),
        Ok(_) => Ok(ObjectHint::Other),
        Err(e) => Err(e),
    }
}

/// `goblin::elf::Elf::parse`: parses the buffer as an ELF object, or fails
/// with an error of its own where the header, a table or a section does not
/// fit the buffer, however short the buffer is. The result depends on the
/// bytes alone.
#[verifier::external_body]
pub(crate) fn parse_elf<'a>(data: &'a [u8]) -> (r: Result<goblin::elf::Elf<'a>, goblin::error::Error>)
    ensures
        r == parsed_elf(data@),
{
    goblin::elf::Elf::parse(data)
}

/// The field `is_64` of `goblin::elf::Elf`.
#[verifier::external_body]
pub(crate) fn is_64(elf: &goblin::elf::Elf) -> (b: bool)
    ensures
        b == elf_is_64(*elf),
{
    elf.is_64
}

/// The field `little_endian` of `goblin::elf::Elf`.
#[verifier::external_body]
pub(crate) fn little_endian(elf: &goblin::elf::Elf) -> (b: bool)
    ensures
        b == elf_little_endian(*elf),
{
    elf.little_endian
}

/// `goblin::elf::Elf::iter_note_sections` with a section name: an iterator
/// over the notes of the sections of type `SHT_NOTE` and of that name, in
/// the order of the section headers; `None` where there is no such section.
/// The iterator depends on the parsed object, the bytes and the name alone.
#[verifier::external_body]
pub(crate) fn iter_note_sections<'a>(
    elf: &goblin::elf::Elf<'a>,
    data: &'a [u8],
    section_name: &str,
) -> (r: Option<goblin::elf::note::NoteIterator<'a>>)
    ensures
        r == note_sections(*elf, data@, section_name@),
{
    elf.iter_note_sections(data, Some(section_name))
}

/// `next` of `goblin::elf::note::NoteIterator`: hands out the first of the
/// pending items and keeps the rest, or gives `None` once nothing is
/// pending, and from then on. The pending items are finitely many: every
/// note takes at least the twelve bytes of its header, and an error is the
/// last item of its section. Of a note, its type, the bytes of its owner
/// and its descriptor are handed on.
#[verifier::external_body]
pub(crate) fn next_note<'a>(it: &mut goblin::elf::note::NoteIterator<'a>) -> (r: Option<
    Result<RawNote<'a>, goblin::error::Error>,
>)
    ensures
        match r {
            Some(item) => {
                &&& pending_notes(*old(it)).len() > 0
                &&& item == pending_notes(*old(it))[0]
                &&& pending_notes(*final(it)) == pending_notes(*old(it)).skip(1)
            },
            None => pending_notes(*old(it)).len() == 0 && pending_notes(*final(it)).len() == 0,
        },
{
    match it.next() {
        Some(Ok(note)) => Some(
            Ok(RawNote { n_type: note.n_type, name: note.name.as_bytes(), desc: note.desc }),
        ),
        Some(Err(e)) => Some(Err(e)),
        None => None,
    }
}

/// `Display` of `goblin::error::Error`: what the error prints of itself. It
/// may hold the text of an I/O error, so nothing is claimed of it.
#[verifier::external_body]
pub(crate) fn goblin_error_text(e: &goblin::error::Error) -> String {
    format!("{}", e)
}

} // verus!
