use vstd::prelude::*;

verus! {

// The type tags of the automation runtime, by their numbers.
pub const VT_EMPTY: i32 = 0;
pub const VT_NULL: i32 = 1;
pub const VT_I2: i32 = 2;
pub const VT_I4: i32 = 3;
pub const VT_R4: i32 = 4;
pub const VT_R8: i32 = 5;
pub const VT_CY: i32 = 6;
pub const VT_DATE: i32 = 7;
pub const VT_BSTR: i32 = 8;
pub const VT_DISPATCH: i32 = 9;
pub const VT_ERROR: i32 = 10;
pub const VT_BOOL: i32 = 11;
pub const VT_VARIANT: i32 = 12;
pub const VT_UNKNOWN: i32 = 13;
pub const VT_DECIMAL: i32 = 14;
pub const VT_I1: i32 = 16;
pub const VT_UI1: i32 = 17;
pub const VT_UI2: i32 = 18;
pub const VT_UI4: i32 = 19;
pub const VT_I8: i32 = 20;
pub const VT_UI8: i32 = 21;
pub const VT_INT: i32 = 22;
pub const VT_UINT: i32 = 23;
pub const VT_VOID: i32 = 24;
pub const VT_HRESULT: i32 = 25;
pub const VT_SAFEARRAY: i32 = 27;
pub const VT_LPSTR: i32 = 30;
pub const VT_LPWSTR: i32 = 31;
pub const VT_ARRAY: i32 = 8192;

/// The 16-bit boolean of the runtime that stands for true.
pub const VARIANT_TRUE: i16 = -1;
/// The 16-bit boolean of the runtime that stands for false.
pub const VARIANT_FALSE: i16 = 0;

/// Status that the array primitives report for an index outside the bounds.
pub const DISP_E_BADINDEX: i32 = -2147352565;

/// The null family: empty, null and void.
pub open spec fn null_tag(vt: int) -> bool {
    vt == VT_EMPTY || vt == VT_NULL || vt == VT_VOID
}

/// The three string representations: dynamic, wide and narrow.
pub open spec fn string_tag(vt: int) -> bool {
    vt == VT_BSTR || vt == VT_LPWSTR || vt == VT_LPSTR
}

/// The two array tags.
pub open spec fn array_tag(vt: int) -> bool {
    vt == VT_SAFEARRAY || vt == VT_ARRAY
}

/// The two kinds of reference handle.
pub open spec fn handle_tag(vt: int) -> bool {
    vt == VT_UNKNOWN || vt == VT_DISPATCH
}

/// How a payload is held for a tag.
#[derive(Clone, Copy, Debug, PartialEq, Eq, Structural)]
pub enum Shape {
    /// Up to eight bytes in the union itself.
    Scalar,
    /// A string.
    Text,
    /// A reference handle, which may be null.
    Object,
    /// Another dynamic value.
    Nested,
    /// A decimal number.
    Decimal,
    /// An array.
    Array,
}

/// The payload shape that a tag selects. Tags that the library knows nothing
/// of keep their eight bytes.
pub open spec fn shape_of(vt: int) -> Shape {
    if string_tag(vt) {
        Shape::Text
    } else if handle_tag(vt) {
        Shape::Object
    } else if vt == VT_VARIANT {
        Shape::Nested
    } else if vt == VT_DECIMAL {
        Shape::Decimal
    } else if array_tag(vt) {
        Shape::Array
    } else {
        Shape::Scalar
    }
}

pub fn is_null_tag(vt: i32) -> (r: bool)
    ensures
        r == null_tag(vt as int),
{
    vt == VT_EMPTY || vt == VT_NULL || vt == VT_VOID
}

pub fn is_string_tag(vt: i32) -> (r: bool)
    ensures
        r == string_tag(vt as int),
{
    vt == VT_BSTR || vt == VT_LPWSTR || vt == VT_LPSTR
}

pub fn is_array_tag(vt: i32) -> (r: bool)
    ensures
        r == array_tag(vt as int),
{
    vt == VT_SAFEARRAY || vt == VT_ARRAY
}

pub fn is_handle_tag(vt: i32) -> (r: bool)
    ensures
        r == handle_tag(vt as int),
{
    vt == VT_UNKNOWN || vt == VT_DISPATCH
}

pub fn tag_shape(vt: i32) -> (s: Shape)
    ensures
        s == shape_of(vt as int),
{
    if is_string_tag(vt) {
        Shape::Text
    } else if is_handle_tag(vt) {
        Shape::Object
    } else if vt == VT_VARIANT {
        Shape::Nested
    } else if vt == VT_DECIMAL {
        Shape::Decimal
    } else if is_array_tag(vt) {
        Shape::Array
    } else {
        Shape::Scalar
    }
}

/// Bytes that one scalar of the tag takes in an array or in the union, and
/// nothing for tags that hold no scalar.
pub open spec fn scalar_width(vt: int) -> Option<nat> {
    if vt == VT_I1 || vt == VT_UI1 {
        Some(1)
    } else if vt == VT_I2 || vt == VT_UI2 || vt == VT_BOOL {
        Some(2)
    } else if vt == VT_I4 || vt == VT_UI4 || vt == VT_INT || vt == VT_UINT || vt == VT_R4 || vt
        == VT_ERROR || vt == VT_HRESULT {
        Some(4)
    } else if vt == VT_I8 || vt == VT_UI8 || vt == VT_R8 || vt == VT_CY || vt == VT_DATE {
        Some(8)
    } else {
        None
    }
}

pub fn width_of(vt: i32) -> (w: Option<u8>)
    ensures
        match w {
            Some(n) => scalar_width(vt as int) == Some(n as nat),
            None => scalar_width(vt as int) is None,
        },
{
    if vt == VT_I1 || vt == VT_UI1 {
        Some(1)
    } else if vt == VT_I2 || vt == VT_UI2 || vt == VT_BOOL {
        Some(2)
    } else if vt == VT_I4 || vt == VT_UI4 || vt == VT_INT || vt == VT_UINT || vt == VT_R4 || vt
        == VT_ERROR || vt == VT_HRESULT {
        Some(4)
    } else if vt == VT_I8 || vt == VT_UI8 || vt == VT_R8 || vt == VT_CY || vt == VT_DATE {
        Some(8)
    } else {
        None
    }
}

} // verus!
