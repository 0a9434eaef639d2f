//! What holds of the decoder as a whole.

use vstd::prelude::*;
use vstd::utf8::{encode_utf8, encode_utf8_decode_utf8, encode_utf8_valid_utf8};

use crate::address::{address_bytes, lemma_address_round_trip, truncate_address};
use crate::context::{results_view, spec_parse_probe, Context, HINT_BYTES};
use crate::error::UsdtError;
use crate::layout::{AddressWidth, ByteOrder};
use crate::loader::{has_elf_magic, hint_of, parsed_elf, LoadedObject, ObjectHint, RawNote};
use crate::probe::{
    is_probe_note, spec_decode_desc, spec_decode_one, spec_read_strings, strings_offset,
    NoteText, Probe, ProbeView,
};
use crate::text::{
    has_no_nul, lemma_encode_utf8_no_nul, lemma_terminator, lemma_terminator_is,
    lemma_terminator_none, spec_read_cstr, terminator,
};

verus! {

/// A string of a descriptor: the UTF-8 encoding of the text and a terminator.
pub open spec fn cstr_bytes(text: Seq<char>) -> Seq<u8> {
    encode_utf8(text).push(0u8)
}

/// The descriptor that holds `probe` for an object of the given address
/// width and byte order: the three addresses, then provider, probe and
/// argument format, each with its terminator.
pub open spec fn encode_desc(probe: ProbeView, width: AddressWidth, order: ByteOrder) -> Seq<u8> {
    address_bytes(probe.probe_addr, width, order) + address_bytes(probe.sh_addr, width, order)
        + address_bytes(probe.semaphore, width, order) + cstr_bytes(probe.provider_name)
        + cstr_bytes(probe.probe_name) + cstr_bytes(probe.args_str)
}

impl ProbeView {
    /// The probe as an object of the given address width can hold it: a
    /// 32-bit object keeps the low 32 bits of each address.
    pub open spec fn truncated(self, width: AddressWidth) -> ProbeView {
        ProbeView {
            probe_name: self.probe_name,
            provider_name: self.provider_name,
            args_str: self.args_str,
            probe_addr: truncate_address(self.probe_addr, width),
            sh_addr: truncate_address(self.sh_addr, width),
            semaphore: truncate_address(self.semaphore, width),
            semaphore_offset: truncate_address(self.semaphore_offset, width),
        }
    }

    /// Whether a descriptor can hold the probe: it is well formed and none of
    /// its strings holds a NUL.
    pub open spec fn encodable(self) -> bool {
        &&& self.well_formed()
        &&& has_no_nul(self.provider_name)
        &&& has_no_nul(self.probe_name)
        &&& has_no_nul(self.args_str)
    }
}

/// A string without zero byte that stands at `from` and is followed by a
/// zero byte is the string read at `from`.
proof fn lemma_read_cstr_at(desc: Seq<u8>, from: int, text: Seq<u8>)
    requires
        0 <= from,
        from + text.len() < desc.len(),
        desc.subrange(from, from + text.len()) == text,
        desc[from + text.len()] == 0,
        forall|i: int| 0 <= i < text.len() ==> text[i] != 0,
    ensures
        spec_read_cstr(desc, from) == Some((text, from + text.len() + 1)),
{
    assert forall|j: int| from <= j < from + text.len() implies desc[j] != 0 by {
        assert(desc[j] == text[j - from]);
    }
    lemma_terminator_is(desc, from, from + text.len());
}

/// Round trip, and independence of width and byte order: a probe written as
/// a descriptor in any of the four layouts, with whatever follows the third
/// string, decodes in the same layout to the same probe, but for the 32-bit
/// layouts, which keep the low 32 bits of each address.
pub proof fn lemma_decode_encoded(probe: ProbeView, width: AddressWidth, order: ByteOrder, rest: Seq<u8>)
    requires
        probe.encodable(),
    ensures
        spec_decode_desc(encode_desc(probe, width, order) + rest, width, order) == Ok::<
            ProbeView,
            UsdtError,
        >(probe.truncated(width)),
{
    let w = width.spec_bytes() as int;
    let a0 = address_bytes(probe.probe_addr, width, order);
    let a1 = address_bytes(probe.sh_addr, width, order);
    let a2 = address_bytes(probe.semaphore, width, order);
    let provider = encode_utf8(probe.provider_name);
    let name = encode_utf8(probe.probe_name);
    let args = encode_utf8(probe.args_str);
    let desc = encode_desc(probe, width, order) + rest;
    lemma_address_round_trip(probe.probe_addr, width, order);
    lemma_address_round_trip(probe.sh_addr, width, order);
    lemma_address_round_trip(probe.semaphore, width, order);
    lemma_encode_utf8_no_nul(probe.provider_name);
    lemma_encode_utf8_no_nul(probe.probe_name);
    lemma_encode_utf8_no_nul(probe.args_str);
    encode_utf8_valid_utf8(probe.provider_name);
    encode_utf8_valid_utf8(probe.probe_name);
    encode_utf8_valid_utf8(probe.args_str);
    encode_utf8_decode_utf8(probe.provider_name);
    encode_utf8_decode_utf8(probe.probe_name);
    encode_utf8_decode_utf8(probe.args_str);
    let at_provider = 3 * w;
    let at_name = at_provider + provider.len() + 1;
    let at_args = at_name + name.len() + 1;
    let end = at_args + args.len() + 1;
    assert(desc.len() == end + rest.len());
    assert(desc.subrange(0, w) =~= a0);
    assert(desc.subrange(w, 2 * w) =~= a1);
    assert(desc.subrange(2 * w, 3 * w) =~= a2);
    assert(desc.subrange(at_provider, at_provider + provider.len()) =~= provider);
    assert(desc.subrange(at_name, at_name + name.len()) =~= name);
    assert(desc.subrange(at_args, at_args + args.len()) =~= args);
    assert(desc[at_provider + provider.len()] == 0);
    assert(desc[at_name + name.len()] == 0);
    assert(desc[at_args + args.len()] == 0);
    lemma_read_cstr_at(desc, at_provider, provider);
    lemma_read_cstr_at(desc, at_name, name);
    lemma_read_cstr_at(desc, at_args, args);
    assert(spec_read_strings(desc, 3 * w) == Some(NoteText { provider, probe: name, args, end }));
}

/// Whether `note` is a probe note whose descriptor holds `probe` for an
/// object of the given address width and byte order.
pub open spec fn holds_probe(note: RawNote, probe: ProbeView, width: AddressWidth, order: ByteOrder) -> bool {
    &&& is_probe_note(note)
    &&& probe.encodable()
    &&& encode_desc(probe, width, order).is_prefix_of(note.desc@)
}

/// A note that holds a probe decodes to that probe, as far as the address
/// width lets it.
pub proof fn lemma_decode_note(note: RawNote, probe: ProbeView, width: AddressWidth, order: ByteOrder)
    requires
        holds_probe(note, probe, width, order),
    ensures
        spec_decode_one(note, width, order) == Ok::<ProbeView, UsdtError>(probe.truncated(width)),
{
    let encoded = encode_desc(probe, width, order);
    let rest = note.desc@.skip(encoded.len() as int);
    assert(note.desc@ =~= encoded + rest);
    lemma_decode_encoded(probe, width, order, rest);
}

/// Many probes: an object whose probe-note section holds nothing but notes
/// that hold probes has exactly those probes, as many as there are notes and
/// in file order.
pub proof fn lemma_probes_of_notes(context: &Context, probes: Seq<ProbeView>)
    requires
        context.spec_notes().len() == probes.len(),
        forall|i: int|
            0 <= i < probes.len() ==> (#[trigger] context.spec_notes()[i] matches Ok(note)
                && holds_probe(note, probes[i], context.spec_width(), context.spec_order())),
    ensures
        context.spec_probes() == Seq::new(
            probes.len(),
            |i: int| Ok::<ProbeView, UsdtError>(probes[i].truncated(context.spec_width())),
        ),
{
    let width = context.spec_width();
    let order = context.spec_order();
    let expected = Seq::new(
        probes.len(),
        |i: int| Ok::<ProbeView, UsdtError>(probes[i].truncated(width)),
    );
    assert forall|i: int| 0 <= i < probes.len() implies context.spec_probes()[i] == expected[i] by {
        let item = context.spec_notes()[i];
        lemma_decode_note(item->Ok_0, probes[i], width, order);
        assert(context.spec_probes()[i] == spec_parse_probe(item, width, order));
    }
    assert(context.spec_probes() =~= expected);
}

/// Whatever decodes is well formed: provider and probe are named, and the
/// semaphore offset is the semaphore address, zero where there is none.
pub proof fn lemma_decoded_is_well_formed(desc: Seq<u8>, width: AddressWidth, order: ByteOrder)
    ensures
        spec_decode_desc(desc, width, order) matches Ok(probe) ==> probe.well_formed(),
        spec_decode_desc(desc, width, order) matches Ok(probe) ==> (probe.semaphore == 0
            ==> probe.semaphore_offset == 0),
{
}

/// The first zero byte of a prefix is the first zero byte of the whole, as
/// long as the prefix reaches it.
proof fn lemma_terminator_of_prefix(bytes: Seq<u8>, cut: int, from: int)
    requires
        0 <= from,
        0 <= cut <= bytes.len(),
    ensures
        terminator(bytes.take(cut), from) == match terminator(bytes, from) {
            Some(end) => if end < cut {
                Some(end)
            } else {
                None
            },
            None => None,
        },
{
    let prefix = bytes.take(cut);
    lemma_terminator(bytes, from);
    match terminator(bytes, from) {
        Some(end) => {
            if end < cut {
                lemma_terminator_is(prefix, from, end);
            } else {
                lemma_terminator_none(prefix, from);
            }
        },
        None => {
            lemma_terminator_none(prefix, from);
        },
    }
}

/// Truncation: a descriptor cut off before the end of its third string is
/// truncated, wherever the cut falls, in the addresses or in a string. So is
/// every prefix of a descriptor that never had three strings.
pub proof fn lemma_cut_is_truncated(desc: Seq<u8>, cut: int, width: AddressWidth, order: ByteOrder)
    requires
        0 <= cut <= desc.len(),
        spec_read_strings(desc, strings_offset(width)) matches Some(text) ==> cut < text.end,
    ensures
        spec_decode_desc(desc.take(cut), width, order) == Err::<ProbeView, UsdtError>(
            UsdtError::TruncatedNote,
        ),
{
    let w = width.spec_bytes() as int;
    let prefix = desc.take(cut);
    if prefix.len() >= 3 * w {
        lemma_terminator_of_prefix(desc, cut, 3 * w);
        lemma_terminator(desc, 3 * w);
        if let Some((provider, at_name)) = spec_read_cstr(prefix, 3 * w) {
            lemma_terminator_of_prefix(desc, cut, at_name);
            lemma_terminator(desc, at_name);
            if let Some((name, at_args)) = spec_read_cstr(prefix, at_name) {
                lemma_terminator_of_prefix(desc, cut, at_args);
                lemma_terminator(desc, at_args);
            }
        }
    }
}

/// Unsupported kind: what the loader took for another format than ELF gives
/// no handle, and so no note is ever decoded, but the error that names the
/// format.
pub proof fn lemma_unsupported_object(data: Seq<u8>, loaded: LoadedObject, r: Result<Context, UsdtError>)
    requires
        !(loaded is Elf),
        Context::is_loaded(data, Ok(loaded), r),
    ensures
        r matches Err(UsdtError::UnsupportedObjectType(name)) && name@ == loaded.spec_kind_name(),
{
}

/// Unsupported kind, on the bytes: a buffer that does not start with the
/// magic number of ELF gives no handle but the error that names its format;
/// and bytes that announce no format at all, or are too few to announce
/// one, are named `Unknown`.
pub proof fn lemma_no_elf_magic_is_unsupported(data: Seq<u8>, r: Result<Context, UsdtError>)
    requires
        !has_elf_magic(data),
        Context::is_loaded(data, LoadedObject::spec_load(data), r),
    ensures
        r matches Err(UsdtError::UnsupportedObjectType(name)) && (data.len() < HINT_BYTES
            || hint_of(data.take(HINT_BYTES as int)) == ObjectHint::Unknown ==> name@
            == "Unknown"@),
{
    if data.len() >= HINT_BYTES {
        assert(data.take(HINT_BYTES as int).subrange(0, 4) =~= data.take(4));
    }
}

/// A buffer that starts with the magic number of ELF is the loader's to
/// judge, however short it is: where the loader fails, its error is handed
/// on as it is; where it succeeds, there is a handle on what it parsed.
pub proof fn lemma_elf_magic_is_parsed(data: Seq<u8>, r: Result<Context, UsdtError>)
    requires
        has_elf_magic(data),
        Context::is_loaded(data, LoadedObject::spec_load(data), r),
    ensures
        match parsed_elf(data) {
            Ok(elf) => r matches Ok(context) && context.data() == data && context.elf() == elf,
            Err(e) => r matches Err(UsdtError::GoblinError(cause)) && cause == e,
        },
{
    if data.len() >= HINT_BYTES {
        assert(data.take(HINT_BYTES as int).subrange(0, 4) =~= data.take(4));
    }
}

/// Idempotence: whatever two runs of `probes` over one handle give, they
/// give the same probes and the same errors, in the same order.
pub proof fn lemma_probes_idempotent(
    context: &Context,
    first: Result<Vec<Result<Probe, UsdtError>>, UsdtError>,
    second: Result<Vec<Result<Probe, UsdtError>>, UsdtError>,
)
    requires
        context.is_probes_result(first),
        context.is_probes_result(second),
    ensures
        first matches Ok(a) && second matches Ok(b) && results_view(a@) == results_view(b@),
{
}

} // verus!
