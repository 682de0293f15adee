//! Dynamically typed values and arrays in the layout of the OLE automation
//! runtime: the tagged `Variant`, its safe facade `Value`, and `SafeArray`.
//!
//! Everything here works on plain data. A `Variant` holds its tag and what the
//! payload union holds for that tag; a `SafeArray` holds its descriptor, its
//! elements and the address of its buffer in the runtime. Conversions and
//! arithmetic that only the runtime can compute are not performed here: the
//! library decides which primitive is due and on what operand, and says what
//! becomes of the primitive's outcome. The same holds of copying and destroying
//! buffers and of counting references.

pub mod bounds;
pub mod cell;
pub mod coerce;
pub mod convert;
pub mod counting;
pub mod display;
pub mod element;
pub mod errors;
pub mod layout;
pub mod ops;
pub mod owner;
pub mod safearray;
pub mod text;
pub mod value;
pub mod variant;
pub mod vartype;

pub use errors::Error;
pub use safearray::SafeArray;
pub use value::Value;
pub use variant::Variant;
