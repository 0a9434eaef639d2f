//! The errors and what they say.

use usdt_reader::error::with_detail;
use usdt_reader::{Context, Field, LoadedObject, UsdtError};

fn unsupported(loaded: LoadedObject<'static>) -> String {
    match Context::from_loaded(&[], Ok(loaded)) {
        Err(UsdtError::UnsupportedObjectType(kind)) => kind,
        Err(other) => panic!("unexpected error {:?}", other),
        Ok(_) => panic!("a context for an unsupported object"),
    }
}

#[test]
fn every_other_format_is_unsupported_by_name() {
    assert_eq!(unsupported(LoadedObject::PE), "PE");
    assert_eq!(unsupported(LoadedObject::TE), "TE");
    assert_eq!(unsupported(LoadedObject::COFF), "COFF");
    assert_eq!(unsupported(LoadedObject::Mach), "Mach");
    assert_eq!(unsupported(LoadedObject::Archive), "Archive");
    assert_eq!(unsupported(LoadedObject::Unknown), "Unknown");
    assert_eq!(unsupported(LoadedObject::Other), "Other");
}

#[test]
fn the_names_of_the_formats() {
    assert_eq!(LoadedObject::PE.kind_name(), "PE");
    assert_eq!(LoadedObject::TE.kind_name(), "TE");
    assert_eq!(LoadedObject::COFF.kind_name(), "COFF");
    assert_eq!(LoadedObject::Mach.kind_name(), "Mach");
    assert_eq!(LoadedObject::Archive.kind_name(), "Archive");
    assert_eq!(LoadedObject::Unknown.kind_name(), "Unknown");
    assert_eq!(LoadedObject::Other.kind_name(), "Other");
}

#[test]
fn the_loader_s_error_is_wrapped() {
    let cause = goblin::error::Error::Malformed("Object is too small.".to_string());
    match Context::from_loaded(&[1, 2, 3], Err(cause)) {
        Err(UsdtError::GoblinError(goblin::error::Error::Malformed(text))) => {
            assert_eq!(text, "Object is too small.")
        },
        Err(other) => panic!("unexpected error {:?}", other),
        Ok(_) => panic!("a context without an object"),
    }
}

#[test]
fn errors_from_outside_convert() {
    let e: UsdtError = std::io::Error::new(std::io::ErrorKind::NotFound, "gone").into();
    match e {
        UsdtError::IoError(inner) => assert_eq!(inner.kind(), std::io::ErrorKind::NotFound),
        other => panic!("unexpected error {:?}", other),
    }
    let e = UsdtError::from(goblin::error::Error::BadMagic(0xfeed));
    assert!(matches!(e, UsdtError::GoblinError(goblin::error::Error::BadMagic(0xfeed))));
}

#[test]
fn messages_of_the_reader_s_own_errors() {
    assert_eq!(
        UsdtError::UnsupportedObjectType("PE".to_string()).message(),
        "Unsupported object file format PE (only ELF is supported at the moment)."
    );
    assert_eq!(UsdtError::MalformedNote.message(), "Malformed probe note.");
    assert_eq!(UsdtError::TruncatedNote.message(), "Truncated probe note.");
    assert_eq!(UsdtError::InvalidText(Field::Provider).message(), "Invalid string: provider name.");
    assert_eq!(UsdtError::InvalidText(Field::Probe).message(), "Invalid string: probe name.");
    assert_eq!(UsdtError::InvalidText(Field::Arguments).message(), "Invalid string: argument format.");
}

#[test]
fn messages_of_errors_from_outside() {
    let e = UsdtError::IoError(std::io::Error::new(std::io::ErrorKind::Other, "disk on fire"));
    assert_eq!(e.message(), "I/O error: disk on fire");
    let e = UsdtError::GoblinError(goblin::error::Error::Malformed("no header".to_string()));
    assert_eq!(
        e.message(),
        "Error occured when reading an object file header: Malformed entity: no header"
    );
    let e = UsdtError::GoblinError(goblin::error::Error::BadMagic(0x10));
    assert_eq!(
        e.message(),
        "Error occured when reading an object file header: Invalid magic number: 0x10"
    );
}

#[test]
fn the_names_of_the_fields() {
    assert_eq!(Field::Provider.name(), "provider name");
    assert_eq!(Field::Probe.name(), "probe name");
    assert_eq!(Field::Arguments.name(), "argument format");
}

#[test]
fn the_text_of_an_error_from_outside_follows_the_words_in_full() {
    let e = UsdtError::IoError(std::io::Error::new(std::io::ErrorKind::Other, "boom"));
    assert_eq!(e.message(), "I/O error: boom");
    let cause = goblin::error::Error::BufferTooShort(3, "section headers");
    let detail = format!("{}", cause);
    assert_eq!(detail, "Buffer is too short for 3 section headers");
    assert_eq!(
        UsdtError::GoblinError(cause).message(),
        format!("Error occured when reading an object file header: {}", detail)
    );
}

#[test]
fn words_and_detail_are_put_together() {
    assert_eq!(with_detail("I/O error: ", "boom"), "I/O error: boom");
    assert_eq!(with_detail("", "boom"), "boom");
    assert_eq!(with_detail("I/O error: ", ""), "I/O error: ");
    assert_eq!(with_detail("a\u{e9}", "\u{65e5}b"), "a\u{e9}\u{65e5}b");
}
