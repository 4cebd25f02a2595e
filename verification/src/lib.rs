//! Typed value marshaling for an embedded graph database.
//!
//! A host program describes data with [`Value`] and [`LogicalType`]; the
//! engine on the far side of the foreign-function boundary is modelled by
//! [`ForeignValue`] and [`ForeignType`], plain trees that hold exactly what
//! the engine's accessors hand out and what its constructors take.  The
//! conversions between the two are executable, and their contracts are
//! stated over the views of these types.
//!
//! * [`logical_type`], [`value`], [`temporal`], [`internal_id`]: the host's
//!   side, with [`type_equality`], [`value_equality`] and [`typing`] for
//!   when types and values agree.
//! * [`foreign`]: the engine's side, with [`well_formed`] for what of it
//!   can be read.
//! * [`type_codec`], [`codec`], [`encode`], [`decode`]: the conversions,
//!   and [`wide_int`], [`rdf_variant`], [`bytes`] for the scalars that
//!   need more than a copy.
//! * [`laws`], [`exactness`]: what holds of a round trip through the
//!   engine, and for which values.
//! * [`display`], [`text`], [`error`]: values and errors as text.
//! * [`database`], [`connection`], [`query_result`]: what is decided around
//!   the engine's own work.

pub mod bytes;
pub mod codec;
pub mod connection;
pub mod conversions;
pub mod database;
pub mod decode;
pub mod display;
pub mod encode;
pub mod error;
pub mod exactness;
pub mod foreign;
pub mod internal_id;
pub mod laws;
pub mod logical_type;
pub mod query_result;
pub mod rdf_variant;
pub mod temporal;
pub mod text;
pub mod type_codec;
pub mod type_equality;
pub mod typing;
pub mod value;
pub mod value_equality;
pub mod well_formed;
pub mod wide_int;

pub use bytes::ByteOrder;
pub use database::SystemConfig;
pub use display::FloatBits;
pub use error::{ConversionError, Error};
pub use foreign::{ForeignType, ForeignValue};
pub use internal_id::InternalID;
pub use logical_type::{LogicalType, LogicalTypeID};
pub use query_result::{CSVOptions, ResultCursor};
pub use temporal::{Date, DateTime, Duration};
pub use value::{NodeVal, RDFVariant, RelVal, Value};
