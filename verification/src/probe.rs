//! Probe records and the decoder of probe notes.
//!
//! A probe note has the type tag `NT_STAPSDT` and the owner `stapsdt`. Its
//! descriptor holds three addresses of the object's width and byte order
//! (probe site, base of the probes' section, semaphore) and then three
//! NUL-terminated strings (provider, probe, argument format).

use vstd::prelude::*;
use vstd::utf8::{decode_utf8, valid_utf8};

use crate::address::{address_value, read_usize_from_desc};
use crate::error::{Field, UsdtError};
use crate::layout::{AddressWidth, ByteOrder};
use crate::loader::RawNote;
use crate::text::{decode_text, read_cstr, spec_read_cstr};

verus! {

/// Type tag of a probe note.
pub const NT_STAPSDT: u32 = 3;

/// Owner of a probe note: the bytes of `stapsdt`.
pub open spec fn stapsdt_owner() -> Seq<u8> {
    seq![0x73u8, 0x74u8, 0x61u8, 0x70u8, 0x73u8, 0x64u8, 0x74u8]
}

/// A place in a loaded image. The reader works on object files, where every
/// address is a link-time address, and resolves none.
#[derive(Debug)]
pub struct Location {}

/// One probe of an object file, as its note describes it. The addresses are
/// link-time addresses: nothing is relocated.
#[derive(Debug)]
pub struct Probe {
    /// Probe name.
    pub probe_name: String,
    /// Provider name.
    pub provider_name: String,
    /// Argument format.
    pub args_str: String,
    /// Probe PC address.
    pub probe_addr: u64,
    /// Link-time sh_addr of .stapsdt.base section
    pub sh_addr: u64,
    /// Link-time address of the semaphore variable.
    /// Zero if the probe does not have an associated semaphore.
    pub semaphore: u64,
    /// Semaphore address adjusted to sh_addr: the link-time address of the
    /// semaphore as the note gives it, zero where there is no semaphore.
    pub semaphore_offset: u64,
}

/// What a `Probe` holds, with its strings as sequences of characters.
pub struct ProbeView {
    pub probe_name: Seq<char>,
    pub provider_name: Seq<char>,
    pub args_str: Seq<char>,
    pub probe_addr: u64,
    pub sh_addr: u64,
    pub semaphore: u64,
    pub semaphore_offset: u64,
}

impl View for Probe {
    type V = ProbeView;

    open spec fn view(&self) -> ProbeView {
        ProbeView {
            probe_name: self.probe_name@,
            provider_name: self.provider_name@,
            args_str: self.args_str@,
            probe_addr: self.probe_addr,
            sh_addr: self.sh_addr,
            semaphore: self.semaphore,
            semaphore_offset: self.semaphore_offset,
        }
    }
}

impl ProbeView {
    /// What holds of every decoded probe: provider and probe are named, and
    /// the semaphore offset is the link-time semaphore address (zero where
    /// the probe has no semaphore).
    pub open spec fn well_formed(self) -> bool {
        &&& self.provider_name.len() > 0
        &&& self.probe_name.len() > 0
        &&& self.semaphore_offset == self.semaphore
    }
}

impl Probe {
    /// Whether the argument format can be taken apart into arguments. It
    /// cannot: the format is kept as it stands in the note, as `args_str`.
    pub open spec fn arguments_offered() -> bool {
        false
    }

    /// The arguments of a probe, taken apart. This is not offered, so no
    /// call is allowed; `argument_format` gives the format as one string.
    pub fn arguments()
        requires
            Self::arguments_offered(),
    {
        unreached()
    }

    /// The argument format of the probe, as it stands in the note.
    pub fn argument_format(&self) -> (r: &str)
        ensures
            r@ == self@.args_str,
    {
        self.args_str.as_str()
    }
}

/// The three strings of a descriptor as bytes, each without its terminator,
/// and the offset just behind the terminator of the third.
pub struct NoteText {
    pub provider: Seq<u8>,
    pub probe: Seq<u8>,
    pub args: Seq<u8>,
    pub end: int,
}

/// The three strings of a descriptor, which start at `from`: provider, probe
/// and argument format. `None` where the descriptor ends before the third
/// terminator.
pub open spec fn spec_read_strings(desc: Seq<u8>, from: int) -> Option<NoteText> {
    match spec_read_cstr(desc, from) {
        None => None,
        Some((provider, after_provider)) => match spec_read_cstr(desc, after_provider) {
            None => None,
            Some((probe, after_probe)) => match spec_read_cstr(desc, after_probe) {
                None => None,
                Some((args, end)) => Some(NoteText { provider, probe, args, end }),
            },
        },
    }
}

/// Offset of the strings in a descriptor: behind the three addresses.
pub open spec fn strings_offset(width: AddressWidth) -> int {
    3 * (width.spec_bytes() as int)
}

/// What the descriptor of a probe note says, for an object of the given
/// address width and byte order.
///
/// The descriptor is truncated where it is shorter than three addresses or
/// ends before the terminator of the third string. Then the first string
/// that is not valid UTF-8 is named. Then a note without a provider or probe
/// name is malformed. What is left is a probe.
pub open spec fn spec_decode_desc(desc: Seq<u8>, width: AddressWidth, order: ByteOrder) -> Result<
    ProbeView,
    UsdtError,
> {
    let w = width.spec_bytes() as int;
    if desc.len() < strings_offset(width) {
        Err(UsdtError::TruncatedNote)
    } else {
        match spec_read_strings(desc, strings_offset(width)) {
            None => Err(UsdtError::TruncatedNote),
            Some(text) => {
                if !valid_utf8(text.provider) {
                    Err(UsdtError::InvalidText(Field::Provider))
                } else if !valid_utf8(text.probe) {
                    Err(UsdtError::InvalidText(Field::Probe))
                } else if !valid_utf8(text.args) {
                    Err(UsdtError::InvalidText(Field::Arguments))
                } else if text.provider.len() == 0 || text.probe.len() == 0 {
                    Err(UsdtError::MalformedNote)
                } else {
                    let semaphore = address_value(desc.subrange(2 * w, 3 * w), order) as u64;
                    Ok(
                        ProbeView {
                            probe_name: decode_utf8(text.probe),
                            provider_name: decode_utf8(text.provider),
                            args_str: decode_utf8(text.args),
                            probe_addr: address_value(desc.subrange(0, w), order) as u64,
                            sh_addr: address_value(desc.subrange(w, 2 * w), order) as u64,
                            semaphore,
                            semaphore_offset: semaphore,
                        },
                    )
                }
            },
        }
    }
}

/// Whether the note carries the signature of a probe descriptor.
pub open spec fn is_probe_note(note: RawNote) -> bool {
    note.n_type == NT_STAPSDT && note.name@ == stapsdt_owner()
}

/// What a note says: malformed where it is no probe note, else what its
/// descriptor says.
pub open spec fn spec_decode_one(note: RawNote, width: AddressWidth, order: ByteOrder) -> Result<
    ProbeView,
    UsdtError,
> {
    if is_probe_note(note) {
        spec_decode_desc(note.desc@, width, order)
    } else {
        Err(UsdtError::MalformedNote)
    }
}

/// A decoding result with the probe taken by its view.
pub open spec fn result_view(r: Result<Probe, UsdtError>) -> Result<ProbeView, UsdtError> {
    match r {
        Ok(probe) => Ok(probe@),
        Err(e) => Err(e),
    }
}

/// Tells whether `name` is the owner of a probe note.
pub fn is_stapsdt_owner(name: &[u8]) -> (b: bool)
    ensures
        b == (name@ == stapsdt_owner()),
{
    let b = name.len() == 7 && name[0] == 0x73 && name[1] == 0x74 && name[2] == 0x61 && name[3]
        == 0x70 && name[4] == 0x73 && name[5] == 0x64 && name[6] == 0x74;
    proof {
        if b {
            assert(name@ =~= stapsdt_owner());
        }
    }
    b
}

/// Decodes one note into a probe: the signature is checked, then the three
/// addresses are read, then the three strings, which must be UTF-8; provider
/// and probe must have a name. The first of these that fails is the error.
pub fn decode_one(note: &RawNote, width: AddressWidth, order: ByteOrder) -> (r: Result<Probe, UsdtError>)
    ensures
        result_view(r) == spec_decode_one(*note, width, order),
        r matches Ok(probe) ==> probe@.well_formed(),
{
    if note.n_type != NT_STAPSDT || !is_stapsdt_owner(note.name) {
        return Err(UsdtError::MalformedNote);
    }
    let desc = note.desc;
    let w = width.bytes();
    let probe_addr = match read_usize_from_desc(desc, 0, width, order) {
        Ok(v) => v,
        Err(e) => { return Err(e); },
    };
    let sh_addr = match read_usize_from_desc(desc, w, width, order) {
        Ok(v) => v,
        Err(e) => { return Err(e); },
    };
    let semaphore = match read_usize_from_desc(desc, 2 * w, width, order) {
        Ok(v) => v,
        Err(e) => { return Err(e); },
    };
    let (provider, after_provider) = match read_cstr(desc, 3 * w) {
        Ok(s) => s,
        Err(e) => { return Err(e); },
    };
    let (probe, after_probe) = match read_cstr(desc, after_provider) {
        Ok(s) => s,
        Err(e) => { return Err(e); },
    };
    let (args, _) = match read_cstr(desc, after_probe) {
        Ok(s) => s,
        Err(e) => { return Err(e); },
    };
    let named = provider.len() > 0 && probe.len() > 0;
    let provider_name = match decode_text(provider, Field::Provider) {
        Ok(s) => s,
        Err(e) => { return Err(e); },
    };
    let probe_name = match decode_text(probe, Field::Probe) {
        Ok(s) => s,
        Err(e) => { return Err(e); },
    };
    let args_str = match decode_text(args, Field::Arguments) {
        Ok(s) => s,
        Err(e) => { return Err(e); },
    };
    if !named {
        return Err(UsdtError::MalformedNote);
    }
    Ok(
        Probe {
            probe_name,
            provider_name,
            args_str,
            probe_addr,
            sh_addr,
            semaphore,
            semaphore_offset: semaphore,
        },
    )
}

} // verus!
