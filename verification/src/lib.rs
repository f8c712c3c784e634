//! Wire protocol of a wallet-synchronisation network for light clients:
//! the message taxonomy, the binary encoding of every message body, the
//! framing that turns a byte stream into typed messages, and the gzip
//! layer used for bulk responses.
//!
//! Every encoder is specified by a function from a value's model to the
//! bytes it puts on the wire, every decoder by a function from bytes to a
//! model or an error, and the two are proved to be inverse on canonical
//! values. No decoder panics, whatever bytes it is given.
//!
//! The modules, from the leaves up:
//!
//! - [`error`]: why bytes are refused;
//! - [`primitives`]: fixed-width and variable-length integers;
//! - [`wire`]: the trait of types with a wire form, runs and lists of them;
//! - [`fields`]: integers, byte strings, text and pairs as such types;
//! - [`currency`], [`version`], [`address`]: the small values;
//! - [`handshake`], [`filters`], [`fee`], [`reject`], [`rates`]: the
//!   message bodies;
//! - [`compress`], [`bulk`]: the gzip layer and the bodies that use it;
//! - [`message`]: the envelope, and every public type under one roof;
//! - [`text`]: values as text, for logs.

pub mod error;
pub mod primitives;
pub mod wire;
pub mod fields;
pub mod currency;
pub mod version;
pub mod address;
pub mod handshake;
pub mod filters;
pub mod fee;
pub mod reject;
pub mod rates;
pub mod compress;
pub mod bulk;
pub mod message;
pub mod text;

pub use error::Error;
