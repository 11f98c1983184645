//! A compact binary codec for a little-endian, length-implicit wire format.
//!
//! Values are turned into flat byte sequences and back through the
//! [`Serializable`] and [`Deserializable`] contracts; [`Transmittable`]
//! combines the two and carries the proof that every encoding decodes back
//! to the value it came from.

pub mod deserializable;
pub mod error;
pub mod integer;
pub mod ipv4_addr;
pub mod laws;
pub mod le_bytes;
pub mod records;
pub mod serializable;
pub mod transmittable;
pub mod uuid;

pub use deserializable::Deserializable;
pub use error::Error;
pub use ipv4_addr::Ipv4Addr;
pub use records::Marker;
pub use records::Pair;
pub use records::PairFlipped;
pub use records::Triple;
pub use serializable::Serializable;
pub use transmittable::Transmittable;
pub use uuid::Uuid;
