//! Reader for USDT probe descriptors stored in the `.note.stapsdt` section of
//! an ELF object.
//!
//! The object file is loaded by `goblin`; everything that gives the probe
//! notes their meaning (address width and byte order, the NUL-terminated
//! strings, the error taxonomy) is decided here and verified with Verus.
//!
//! - [`loader`] is the boundary to `goblin`: it tells the format of a buffer
//!   from its first bytes, parses an ELF object, and walks its notes. The
//!   contracts of these calls are taken on trust.
//! - [`context`] holds the handle on a loaded object and the scan of its
//!   probe notes.
//! - [`probe`] holds the probe record and the decoder of one note, on top of
//!   [`address`] and [`text`].
//! - [`laws`] states what holds of the decoder as a whole: round trip,
//!   independence of width and byte order, truncation, idempotence.

pub mod address;
pub mod context;
pub mod error;
pub mod laws;
pub mod layout;
pub mod loader;
pub mod probe;
pub mod text;

pub use address::read_usize_from_desc;
pub use context::{Context, ProbeCursor};
pub use error::{Field, UsdtError};
pub use layout::{AddressWidth, ByteOrder};
pub use loader::{LoadedObject, ObjectHint, RawNote};
pub use probe::{decode_one, Location, Probe};
