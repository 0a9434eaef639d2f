//! The handle on a loaded object, and the probes it holds.

use vstd::prelude::*;

use crate::error::UsdtError;
use crate::layout::{AddressWidth, ByteOrder};
use crate::loader::{
    elf_is_64, elf_little_endian, elf_magic, has_elf_magic, hint_of, is_64, iter_note_sections,
    little_endian, next_note,
    note_sections, parse_elf, parsed_elf, peek_hint, pending_notes, Head, LoadedObject,
    ObjectHint, RawNote,
};
use crate::probe::{decode_one, result_view, spec_decode_one, Probe, ProbeView};

verus! {

/// Name of the note section that holds the probe descriptors.
pub const PROBE_NOTE_SECTION: &'static str = ".note.stapsdt";

/// Number of bytes at the start of a buffer that tell its container format.
pub const HINT_BYTES: usize = 16;

/// The first sixteen bytes of `data`, or `None` where it has fewer.
pub fn head_bytes(data: &[u8]) -> (r: Option<Head>)
    ensures
        match r {
            Some(head) => data@.len() >= HINT_BYTES && head@ == data@.take(HINT_BYTES as int),
            None => data@.len() < HINT_BYTES,
        },
{
    if data.len() < HINT_BYTES {
        return None;
    }
    let mut head = [0u8; 16];
    let mut i: usize = 0;
    while i < HINT_BYTES
        invariant
            i <= HINT_BYTES <= data@.len(),
            forall|j: int| 0 <= j < i ==> head@[j] == data@[j],
        decreases HINT_BYTES - i,
    {
        head[i] = data[i];
        i += 1;
    }
    proof {
        assert(head@ =~= data@.take(HINT_BYTES as int));
    }
    Some(head)
}

/// Tells whether `data` starts with the magic number of ELF.
pub fn starts_with_elf_magic(data: &[u8]) -> (b: bool)
    ensures
        b == has_elf_magic(data@),
{
    let b = data.len() >= 4 && data[0] == 0x7F && data[1] == 0x45 && data[2] == 0x4C && data[3]
        == 0x46;
    proof {
        if b {
            assert(data@.take(4) =~= elf_magic());
        } else if data@.len() >= 4 {
            let head = data@.take(4);
            assert(head[0] == data@[0] && head[1] == data@[1] && head[2] == data@[2] && head[3]
                == data@[3]);
        }
    }
    b
}

impl<'a> LoadedObject<'a> {
    /// What parsing a buffer with these bytes as an ELF object gives: the
    /// object, or the loader's error.
    pub open spec fn spec_load_elf(data: Seq<u8>) -> Result<LoadedObject<'static>, goblin::error::Error> {
        match parsed_elf(data) {
            Ok(elf) => Ok(LoadedObject::Elf(elf)),
            Err(e) => Err(e),
        }
    }

    /// What loading a buffer with these bytes gives.
    ///
    /// A buffer that starts with the magic number of ELF is parsed as an ELF
    /// object, which may fail with the loader's error, also where the buffer
    /// breaks off before its sixteenth byte. Any other buffer of fewer than
    /// sixteen bytes is too short to announce a format and is of no known
    /// format. Any other format is named by what the first sixteen bytes
    /// announce and not looked at further.
    pub open spec fn spec_load(data: Seq<u8>) -> Result<LoadedObject<'static>, goblin::error::Error> {
        if data.len() < HINT_BYTES {
            if has_elf_magic(data) {
                Self::spec_load_elf(data)
            } else {
                Ok(LoadedObject::Unknown)
            }
        } else {
            match hint_of(data.take(HINT_BYTES as int)) {
                ObjectHint::Elf => Self::spec_load_elf(data),
                ObjectHint::Mach | ObjectHint::MachFat => Ok(LoadedObject::Mach),
                ObjectHint::PE => Ok(LoadedObject::PE),
                ObjectHint::TE => Ok(LoadedObject::TE),
                ObjectHint::COFF => Ok(LoadedObject::COFF),
                ObjectHint::Archive => Ok(LoadedObject::Archive),
                ObjectHint::Unknown => Ok(LoadedObject::Unknown),
                ObjectHint::Other => Ok(LoadedObject::Other),
            }
        }
    }

    /// Parses a buffer as an ELF object.
    pub fn load_elf(data: &'a [u8]) -> (r: Result<LoadedObject<'a>, goblin::error::Error>)
        ensures
            r == Self::spec_load_elf(data@),
    {
        match parse_elf(data) {
            Ok(elf) => Ok(LoadedObject::Elf(elf)),
            Err(e) => Err(e),
        }
    }

    /// Classifies a buffer by the magic number at its start and, where that
    /// announces an ELF object, parses it. No other format is parsed.
    pub fn load(data: &'a [u8]) -> (r: Result<LoadedObject<'a>, goblin::error::Error>)
        ensures
            r == Self::spec_load(data@),
    {
        let head = match head_bytes(data) {
            Some(head) => head,
            None => {
                if starts_with_elf_magic(data) {
                    return Self::load_elf(data);
                }
                return Ok(LoadedObject::Unknown);
            },
        };
        match peek_hint(&head) {
            Ok(ObjectHint::Elf) => Self::load_elf(data),
            Ok(ObjectHint::Mach) => Ok(LoadedObject::Mach),
            Ok(ObjectHint::MachFat) => Ok(LoadedObject::Mach),
            Ok(ObjectHint::PE) => Ok(LoadedObject::PE),
            Ok(ObjectHint::TE) => Ok(LoadedObject::TE),
            Ok(ObjectHint::COFF) => Ok(LoadedObject::COFF),
            Ok(ObjectHint::Archive) => Ok(LoadedObject::Archive),
            Ok(ObjectHint::Unknown) => Ok(LoadedObject::Unknown),
            Ok(ObjectHint::Other) => Ok(LoadedObject::Other),
            Err(e) => Err(e),
        }
    }

    /// Name of the container format.
    pub open spec fn spec_kind_name(self) -> Seq<char> {
        match self {
            LoadedObject::Elf(_) => "Elf"@,
            LoadedObject::PE => "PE"@,
            LoadedObject::TE => "TE"@,
            LoadedObject::COFF => "COFF"@,
            LoadedObject::Mach => "Mach"@,
            LoadedObject::Archive => "Archive"@,
            LoadedObject::Unknown => "Unknown"@,
            LoadedObject::Other => "Other"@,
        }
    }

    /// Name of the container format.
    pub fn kind_name(&self) -> (name: String)
        ensures
            name@ == self.spec_kind_name(),
    {
        match self {
            LoadedObject::Elf(_) => "Elf".to_owned(),
            LoadedObject::PE => "PE".to_owned(),
            LoadedObject::TE => "TE".to_owned(),
            LoadedObject::COFF => "COFF".to_owned(),
            LoadedObject::Mach => "Mach".to_owned(),
            LoadedObject::Archive => "Archive".to_owned(),
            LoadedObject::Unknown => "Unknown".to_owned(),
            LoadedObject::Other => "Other".to_owned(),
        }
    }
}

/// The handle on a loaded ELF object: the bytes of the file and what the
/// loader parsed of them. It is never changed, and every call of `probes`
/// scans the notes anew.
pub struct Context<'a> {
    data: &'a [u8],
    elf: goblin::elf::Elf<'a>,
}

/// What one item of the note iterator becomes: the loader's error is handed
/// on, a note is decoded.
pub open spec fn spec_parse_probe(
    note_desc: Result<RawNote, goblin::error::Error>,
    width: AddressWidth,
    order: ByteOrder,
) -> Result<ProbeView, UsdtError> {
    match note_desc {
        Ok(note) => spec_decode_one(note, width, order),
        Err(e) => Err(UsdtError::GoblinError(e)),
    }
}

/// What the items of the note iterator become, one result for each and in
/// their order.
pub open spec fn spec_parse_probes(
    notes: Seq<Result<RawNote, goblin::error::Error>>,
    width: AddressWidth,
    order: ByteOrder,
) -> Seq<Result<ProbeView, UsdtError>> {
    Seq::new(notes.len(), |i: int| spec_parse_probe(notes[i], width, order))
}

/// Each decoding result with its probe taken by its view.
pub open spec fn results_view(results: Seq<Result<Probe, UsdtError>>) -> Seq<Result<ProbeView, UsdtError>> {
    Seq::new(results.len(), |i: int| result_view(results[i]))
}

impl<'a> Context<'a> {
    /// The bytes of the object file.
    pub closed spec fn data(&self) -> Seq<u8> {
        self.data@
    }

    /// The parsed object.
    pub closed spec fn elf(&self) -> goblin::elf::Elf<'a> {
        self.elf
    }

    /// Address width of the object.
    pub open spec fn spec_width(&self) -> AddressWidth {
        AddressWidth::spec_from_is_64(elf_is_64(self.elf()))
    }

    /// Byte order of the object.
    pub open spec fn spec_order(&self) -> ByteOrder {
        ByteOrder::spec_from_little_endian(elf_little_endian(self.elf()))
    }

    /// The notes of the probe-note section in file order, each as the loader
    /// hands it out. Empty where the object has no such section.
    pub open spec fn spec_notes(&self) -> Seq<Result<RawNote, goblin::error::Error>> {
        match note_sections(self.elf(), self.data(), PROBE_NOTE_SECTION@) {
            Some(it) => pending_notes(it),
            None => Seq::empty(),
        }
    }

    /// The probes of the object: one result for each note of the probe-note
    /// section, in file order.
    pub open spec fn spec_probes(&self) -> Seq<Result<ProbeView, UsdtError>> {
        spec_parse_probes(self.spec_notes(), self.spec_width(), self.spec_order())
    }

    /// Whether `r` is what `probes` gives for this handle: no error, and the
    /// probes of the object.
    pub open spec fn is_probes_result(&self, r: Result<Vec<Result<Probe, UsdtError>>, UsdtError>) -> bool {
        r matches Ok(results) && results_view(results@) == self.spec_probes()
    }

    /// Whether `r` is what loading `data` comes to, given what the loader
    /// made of it: the handle on an ELF object, the name of another format,
    /// or the loader's error.
    pub open spec fn is_loaded(
        data: Seq<u8>,
        loaded: Result<LoadedObject, goblin::error::Error>,
        r: Result<Context, UsdtError>,
    ) -> bool {
        match loaded {
            Ok(LoadedObject::Elf(elf)) => r matches Ok(context) && context.data() == data
                && context.elf() == elf,
            Ok(other) => r matches Err(UsdtError::UnsupportedObjectType(name)) && name@
                == other.spec_kind_name(),
            Err(e) => r matches Err(UsdtError::GoblinError(cause)) && cause == e,
        }
    }

    /// Creates a new context from an object file data.
    pub fn new(data: &'a [u8]) -> (r: Result<Context<'a>, UsdtError>)
        ensures
            Self::is_loaded(data@, LoadedObject::spec_load(data@), r),
    {
        Self::from_loaded(data, LoadedObject::load(data))
    }

    /// Creates a context from what the loader made of `data`. Only an ELF
    /// object is supported; no note is looked at here.
    pub fn from_loaded(data: &'a [u8], loaded: Result<LoadedObject<'a>, goblin::error::Error>) -> (r:
        Result<Context<'a>, UsdtError>)
        ensures
            Self::is_loaded(data@, loaded, r),
    {
        match loaded {
            Ok(LoadedObject::Elf(elf)) => Self::new_from_elf(data, elf),
            Ok(other) => Err(UsdtError::UnsupportedObjectType(other.kind_name())),
            Err(e) => Err(UsdtError::GoblinError(e)),
        }
    }

    /// Creates a context from an object file data and the ELF object that
    /// the loader parsed of it.
    pub fn new_from_elf(data: &'a [u8], elf: goblin::elf::Elf<'a>) -> (r: Result<Context<'a>, UsdtError>)
        ensures
            r matches Ok(context) && context.data() == data@ && context.elf() == elf,
    {
        Ok(Context { elf, data })
    }

    /// Address width of the object.
    pub fn width(&self) -> (w: AddressWidth)
        ensures
            w == self.spec_width(),
    {
        AddressWidth::from_is_64(is_64(&self.elf))
    }

    /// Byte order of the object.
    pub fn order(&self) -> (o: ByteOrder)
        ensures
            o == self.spec_order(),
    {
        ByteOrder::from_little_endian(little_endian(&self.elf))
    }

    /// Starts a scan of the probe-note section. The cursor decodes one note
    /// at a time, from the first on; every scan starts anew.
    pub fn cursor(&self) -> (cursor: ProbeCursor<'a>)
        ensures
            cursor.remaining() == self.spec_probes(),
    {
        ProbeCursor {
            notes: iter_note_sections(&self.elf, self.data, PROBE_NOTE_SECTION),
            width: self.width(),
            order: self.order(),
        }
    }

    /// Decodes the probes of the object: one result for each note of the
    /// probe-note section, in file order. An object without such a section
    /// has no probes, which is no error. A note that is no probe is an error
    /// in its place and does not end the scan.
    pub fn probes(&self) -> (r: Result<Vec<Result<Probe, UsdtError>>, UsdtError>)
        ensures
            self.is_probes_result(r),
            r matches Ok(results) && results@.len() == self.spec_notes().len(),
            r matches Ok(results) && forall|i: int|
                0 <= i < results@.len() ==> (#[trigger] results@[i] matches Ok(probe)
                    ==> probe@.well_formed()),
            note_sections(self.elf(), self.data(), PROBE_NOTE_SECTION@) is None ==> (r matches Ok(
                results,
            ) && results@.len() == 0),
    {
        let mut cursor = self.cursor();
        let mut results: Vec<Result<Probe, UsdtError>> = Vec::new();
        loop
            invariant
                results.len() <= self.spec_probes().len(),
                cursor.remaining() == self.spec_probes().skip(results.len() as int),
                forall|i: int|
                    0 <= i < results.len() ==> result_view(#[trigger] results[i])
                        == self.spec_probes()[i],
                forall|i: int|
                    0 <= i < results.len() ==> (#[trigger] results[i] matches Ok(probe)
                        ==> probe@.well_formed()),
            ensures
                results.len() == self.spec_probes().len(),
            decreases cursor.remaining().len(),
        {
            match cursor.next_probe() {
                Some(result) => {
                    results.push(result);
                },
                None => {
                    break;
                },
            }
        }
        proof {
            assert(results_view(results@) =~= self.spec_probes());
        }
        Ok(results)
    }

    /// Decodes one item of the note iterator: the loader's error is handed
    /// on, a note becomes a probe or the reason why it is none.
    pub fn parse_probe(
        note_desc: Result<RawNote<'_>, goblin::error::Error>,
        width: AddressWidth,
        order: ByteOrder,
    ) -> (r: Result<Probe, UsdtError>)
        ensures
            result_view(r) == spec_parse_probe(note_desc, width, order),
            r matches Ok(probe) ==> probe@.well_formed(),
    {
        match note_desc {
            Ok(note) => decode_one(&note, width, order),
            Err(e) => Err(UsdtError::GoblinError(e)),
        }
    }
}

/// A scan of the probe-note section of an object: the probes are decoded one
/// after the other, each when it is asked for.
pub struct ProbeCursor<'a> {
    notes: Option<goblin::elf::note::NoteIterator<'a>>,
    width: AddressWidth,
    order: ByteOrder,
}

impl<'a> ProbeCursor<'a> {
    /// The results that are yet to come, in file order.
    pub closed spec fn remaining(&self) -> Seq<Result<ProbeView, UsdtError>> {
        match self.notes {
            Some(it) => spec_parse_probes(pending_notes(it), self.width, self.order),
            None => Seq::empty(),
        }
    }

    /// Decodes the next note of the section: its probe, or why it is none.
    /// `None` once the section is at its end, and from then on.
    pub fn next_probe(&mut self) -> (r: Option<Result<Probe, UsdtError>>)
        ensures
            match r {
                Some(result) => {
                    &&& old(self).remaining().len() > 0
                    &&& result_view(result) == old(self).remaining()[0]
                    &&& final(self).remaining() == old(self).remaining().skip(1)
                    &&& result matches Ok(probe) ==> probe@.well_formed()
                },
                None => old(self).remaining().len() == 0 && final(self).remaining().len() == 0,
            },
    {
        let width = self.width;
        let order = self.order;
        let item = match &mut self.notes {
            Some(it) => next_note(it),
            None => None,
        };
        match item {
            Some(note_desc) => {
                proof {
                    let before = pending_notes(old(self).notes->Some_0);
                    assert(spec_parse_probes(before.skip(1), width, order) =~= spec_parse_probes(
                        before,
                        width,
                        order,
                    ).skip(1));
                }
                Some(Context::parse_probe(note_desc, width, order))
            },
            None => None,
        }
    }
}

} // verus!
