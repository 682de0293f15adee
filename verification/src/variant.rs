//! The dynamic value in the layout of the runtime: a 16-bit tag and the
//! payload that the tag selects.

use vstd::prelude::*;
use crate::errors::Error;
use crate::layout::{
    bits_bool, bool_bits, from_bool_bits, low16, low32, low8, signed16, signed32, signed64,
    signed8, take16, take32, take8, to_bool_bits, to_signed16, to_signed32, to_signed64,
    to_signed8, to_unsigned16, to_unsigned32, to_unsigned64, to_unsigned8, unsigned16,
    unsigned32, unsigned64, unsigned8,
};
use crate::cell::{cell_fits, CellView};
use crate::counting::references_of;
use crate::safearray::{BufferView, SafeArray, SafeArrayView};
use crate::value::{Decimal, Handle, Value, ValueView};
use crate::vartype::{
    array_tag, handle_tag, is_array_tag, is_null_tag, is_string_tag, null_tag, shape_of,
    string_tag, tag_shape, Shape, VT_BOOL, VT_BSTR, VT_CY, VT_DATE, VT_DECIMAL, VT_DISPATCH,
    VT_EMPTY, VT_ERROR, VT_HRESULT, VT_I1, VT_I2, VT_I4, VT_I8, VT_INT, VT_NULL, VT_R4, VT_R8,
    VT_SAFEARRAY, VT_UI1, VT_UI2, VT_UI4, VT_UI8, VT_UINT, VT_UNKNOWN, VT_VARIANT, VT_VOID,
};

verus! {

/// What the payload union holds, by shape.
#[derive(Debug, PartialEq, Eq)]
pub enum Payload {
    /// The eight bytes of the union, little-endian, for the scalar tags and
    /// for tags that the library knows nothing of.
    Scalar(u64),
    /// The string behind a string tag.
    Text(String),
    /// The address behind a reference-handle tag; zero is the null handle.
    Object(usize),
    /// The dynamic value behind the nested-value tag.
    Nested(Box<Variant>),
    /// The number behind the decimal tag.
    Decimal(Decimal),
    /// The array behind an array tag.
    Array(SafeArray),
}

/// What a `Payload` holds.
pub enum PayloadView {
    Scalar(u64),
    Text(Seq<char>),
    Object(usize),
    Nested(Box<VariantView>),
    Decimal(Decimal),
    Array(SafeArrayView),
}

impl PayloadView {
    pub open spec fn shape(self) -> Shape {
        match self {
            PayloadView::Scalar(_) => Shape::Scalar,
            PayloadView::Text(_) => Shape::Text,
            PayloadView::Object(_) => Shape::Object,
            PayloadView::Nested(_) => Shape::Nested,
            PayloadView::Decimal(_) => Shape::Decimal,
            PayloadView::Array(_) => Shape::Array,
        }
    }

    /// The eight bytes of a scalar payload.
    pub open spec fn bits(self) -> u64 {
        match self {
            PayloadView::Scalar(b) => b,
            _ => 0,
        }
    }

    /// The characters of a string payload.
    pub open spec fn text(self) -> Seq<char> {
        match self {
            PayloadView::Text(s) => s,
            _ => Seq::empty(),
        }
    }

    /// The address of a reference-handle payload.
    pub open spec fn object(self) -> usize {
        match self {
            PayloadView::Object(h) => h,
            _ => 0,
        }
    }

    /// The dynamic value of a nested payload.
    pub open spec fn nested(self) -> VariantView {
        match self {
            PayloadView::Nested(inner) => *inner,
            _ => arbitrary(),
        }
    }

    /// The number of a decimal payload.
    pub open spec fn decimal(self) -> Decimal {
        match self {
            PayloadView::Decimal(d) => d,
            _ => arbitrary(),
        }
    }

    /// The buffer of an array payload; none behind a null handle.
    pub open spec fn array(self) -> Option<BufferView> {
        match self {
            PayloadView::Array(a) => a.buffer,
            _ => None,
        }
    }
}

/// What a `Variant` is: its tag and its payload.
pub struct VariantView {
    pub vt: u16,
    pub data: PayloadView,
}

impl VariantView {
    /// What holds of every dynamic value: the payload has the shape that the
    /// tag selects; a nested value in it is well formed; an array in it is well
    /// formed and owned, for the dynamic value is the one that answers for it.
    pub open spec fn wf(self) -> bool
        decreases self,
    {
        &&& self.data.shape() == shape_of(self.vt as int)
        &&& match self.data {
            PayloadView::Nested(inner) => inner.wf(),
            PayloadView::Array(a) => a.owned && a.wf(),
            _ => true,
        }
    }

    /// The duplicate of the dynamic value: the same tag and a deep copy of the
    /// payload. An array in it, and in a value nested in it, is copied to
    /// another buffer.
    pub open spec fn copied(self) -> VariantView
        decreases self,
    {
        VariantView {
            vt: self.vt,
            data: match self.data {
                PayloadView::Nested(inner) => PayloadView::Nested(Box::new(inner.copied())),
                PayloadView::Array(a) => PayloadView::Array(a.copied()),
                other => other,
            },
        }
    }
}

impl Payload {
    /// What the payload holds.
    pub open spec fn model(self) -> PayloadView
        decreases self,
    {
        match self {
            Payload::Scalar(b) => PayloadView::Scalar(b),
            Payload::Text(s) => PayloadView::Text(s@),
            Payload::Object(h) => PayloadView::Object(h),
            Payload::Nested(v) => PayloadView::Nested(Box::new(v.model())),
            Payload::Decimal(d) => PayloadView::Decimal(d),
            Payload::Array(a) => PayloadView::Array(a.model()),
        }
    }
}

impl View for Payload {
    type V = PayloadView;

    open spec fn view(&self) -> PayloadView {
        self.model()
    }
}

/// A dynamic value: a tag and the payload that the tag selects.
#[derive(Debug, PartialEq, Eq)]
pub struct Variant {
    vt: u16,
    data: Payload,
}

impl View for Variant {
    type V = VariantView;

    open spec fn view(&self) -> VariantView {
        self.model()
    }
}

/// The payload fits the tag: it has the shape that the tag selects, and an
/// array is owned, for the dynamic value is the one that answers for it.
pub open spec fn payload_fits(vt: u16, data: PayloadView) -> bool {
    &&& data.shape() == shape_of(vt as int)
    &&& data matches PayloadView::Array(a) ==> a.owned
}

/// The tags that decompose into a `Value`.
pub open spec fn recognized(vt: int) -> bool {
    null_tag(vt) || vt == VT_I1 || vt == VT_I2 || vt == VT_I4 || vt == VT_I8 || vt == VT_INT || vt
        == VT_UI1 || vt == VT_UI2 || vt == VT_UI4 || vt == VT_UI8 || vt == VT_UINT || vt == VT_R4
        || vt == VT_R8 || vt == VT_CY || vt == VT_DATE || string_tag(vt) || handle_tag(vt) || vt
        == VT_ERROR || vt == VT_HRESULT || vt == VT_BOOL || vt == VT_VARIANT || vt == VT_DECIMAL
        || array_tag(vt)
}

/// The value that a dynamic value decomposes into: by its tag, read from the
/// bytes that the tag selects. A null reference handle gives `NULL`. A nested
/// value is given as a deep copy. Both array tags give `SAFEARRAY`, which is the
/// same buffer and not owned. A tag that is not recognized is a type error.
pub open spec fn spec_value(v: VariantView) -> Result<ValueView, Error> {
    let vt = v.vt as int;
    let bits = v.data.bits();
    if vt == VT_EMPTY {
        Ok(ValueView::EMPTY)
    } else if vt == VT_NULL {
        Ok(ValueView::NULL)
    } else if vt == VT_VOID {
        Ok(ValueView::VOID)
    } else if vt == VT_I1 {
        Ok(ValueView::I1(signed8(low8(bits))))
    } else if vt == VT_I2 {
        Ok(ValueView::I2(signed16(low16(bits))))
    } else if vt == VT_I4 {
        Ok(ValueView::I4(signed32(low32(bits))))
    } else if vt == VT_I8 {
        Ok(ValueView::I8(signed64(bits)))
    } else if vt == VT_INT {
        Ok(ValueView::INT(signed32(low32(bits))))
    } else if vt == VT_UI1 {
        Ok(ValueView::UI1(low8(bits)))
    } else if vt == VT_UI2 {
        Ok(ValueView::UI2(low16(bits)))
    } else if vt == VT_UI4 {
        Ok(ValueView::UI4(low32(bits)))
    } else if vt == VT_UI8 {
        Ok(ValueView::UI8(bits))
    } else if vt == VT_UINT {
        Ok(ValueView::UINT(low32(bits)))
    } else if vt == VT_R4 {
        Ok(ValueView::R4(low32(bits)))
    } else if vt == VT_R8 {
        Ok(ValueView::R8(bits))
    } else if vt == VT_CY {
        Ok(ValueView::CURRENCY(signed64(bits)))
    } else if vt == VT_DATE {
        Ok(ValueView::DATE(bits))
    } else if string_tag(vt) {
        Ok(ValueView::STRING(v.data.text()))
    } else if vt == VT_DISPATCH {
        if v.data.object() != 0 {
            Ok(ValueView::DISPATCH(v.data.object()))
        } else {
            Ok(ValueView::NULL)
        }
    } else if vt == VT_UNKNOWN {
        if v.data.object() != 0 {
            Ok(ValueView::UNKNOWN(v.data.object()))
        } else {
            Ok(ValueView::NULL)
        }
    } else if vt == VT_ERROR {
        Ok(ValueView::ERROR(signed32(low32(bits))))
    } else if vt == VT_HRESULT {
        Ok(ValueView::HRESULT(signed32(low32(bits))))
    } else if vt == VT_BOOL {
        Ok(ValueView::BOOL(bits_bool(bits)))
    } else if vt == VT_VARIANT {
        Ok(ValueView::VARIANT(v.data.nested().copied()))
    } else if vt == VT_DECIMAL {
        Ok(ValueView::DECIMAL(v.data.decimal()))
    } else if array_tag(vt) {
        Ok(ValueView::SAFEARRAY(SafeArrayView { buffer: v.data.array(), owned: false }))
    } else {
        Err(Error::TypeError)
    }
}

/// The dynamic value that is made of a value: its tag, and its payload in the
/// bytes that the tag selects. Both array kinds get the same tag, and the
/// dynamic value takes the array over: it holds the same buffer, owned.
pub open spec fn spec_variant(val: ValueView) -> VariantView {
    match val {
        ValueView::EMPTY => VariantView { vt: VT_EMPTY as u16, data: PayloadView::Scalar(0) },
        ValueView::NULL => VariantView { vt: VT_NULL as u16, data: PayloadView::Scalar(0) },
        ValueView::VOID => VariantView { vt: VT_VOID as u16, data: PayloadView::Scalar(0) },
        ValueView::I1(v) => VariantView {
            vt: VT_I1 as u16,
            data: PayloadView::Scalar(unsigned8(v) as u64),
        },
        ValueView::I2(v) => VariantView {
            vt: VT_I2 as u16,
            data: PayloadView::Scalar(unsigned16(v) as u64),
        },
        ValueView::I4(v) => VariantView {
            vt: VT_I4 as u16,
            data: PayloadView::Scalar(unsigned32(v) as u64),
        },
        ValueView::I8(v) => VariantView {
            vt: VT_I8 as u16,
            data: PayloadView::Scalar(unsigned64(v)),
        },
        ValueView::INT(v) => VariantView {
            vt: VT_INT as u16,
            data: PayloadView::Scalar(unsigned32(v) as u64),
        },
        ValueView::UI1(v) => VariantView { vt: VT_UI1 as u16, data: PayloadView::Scalar(v as u64) },
        ValueView::UI2(v) => VariantView { vt: VT_UI2 as u16, data: PayloadView::Scalar(v as u64) },
        ValueView::UI4(v) => VariantView { vt: VT_UI4 as u16, data: PayloadView::Scalar(v as u64) },
        ValueView::UI8(v) => VariantView { vt: VT_UI8 as u16, data: PayloadView::Scalar(v) },
        ValueView::UINT(v) => VariantView {
            vt: VT_UINT as u16,
            data: PayloadView::Scalar(v as u64),
        },
        ValueView::R4(v) => VariantView { vt: VT_R4 as u16, data: PayloadView::Scalar(v as u64) },
        ValueView::R8(v) => VariantView { vt: VT_R8 as u16, data: PayloadView::Scalar(v) },
        ValueView::CURRENCY(v) => VariantView {
            vt: VT_CY as u16,
            data: PayloadView::Scalar(unsigned64(v)),
        },
        ValueView::DATE(v) => VariantView { vt: VT_DATE as u16, data: PayloadView::Scalar(v) },
        ValueView::STRING(s) => VariantView { vt: VT_BSTR as u16, data: PayloadView::Text(s) },
        ValueView::UNKNOWN(h) => VariantView { vt: VT_UNKNOWN as u16, data: PayloadView::Object(h) },
        ValueView::DISPATCH(h) => VariantView {
            vt: VT_DISPATCH as u16,
            data: PayloadView::Object(h),
        },
        ValueView::ERROR(c) => VariantView {
            vt: VT_ERROR as u16,
            data: PayloadView::Scalar(unsigned32(c) as u64),
        },
        ValueView::HRESULT(c) => VariantView {
            vt: VT_HRESULT as u16,
            data: PayloadView::Scalar(unsigned32(c) as u64),
        },
        ValueView::BOOL(b) => VariantView {
            vt: VT_BOOL as u16,
            data: PayloadView::Scalar(bool_bits(b)),
        },
        ValueView::VARIANT(v) => VariantView {
            vt: VT_VARIANT as u16,
            data: PayloadView::Nested(Box::new(v)),
        },
        ValueView::DECIMAL(d) => VariantView {
            vt: VT_DECIMAL as u16,
            data: PayloadView::Decimal(d),
        },
        ValueView::SAFEARRAY(a) => VariantView {
            vt: VT_SAFEARRAY as u16,
            data: PayloadView::Array(SafeArrayView { buffer: a.buffer, owned: true }),
        },
        ValueView::ARRAY(a) => VariantView {
            vt: VT_SAFEARRAY as u16,
            data: PayloadView::Array(SafeArrayView { buffer: a.buffer, owned: true }),
        },
    }
}

impl Clone for Variant {
    /// A duplicate with the same tag and a deep copy of the payload. Each live
    /// reference in the duplicate is a counted copy: `references` lists them.
    fn clone(&self) -> (v: Variant)
        ensures
            v@ == self@.copied(),
        decreases self,
    {
        proof {
            use_type_invariant(self);
        }
        let data = match &self.data {
            Payload::Scalar(b) => Payload::Scalar(*b),
            Payload::Text(s) => Payload::Text(s.clone()),
            Payload::Object(h) => Payload::Object(*h),
            Payload::Nested(inner) => {
                let copy = (&**inner).clone();
                proof {
                    use_type_invariant(&copy);
                }
                Payload::Nested(Box::new(copy))
            },
            Payload::Decimal(d) => Payload::Decimal(*d),
            Payload::Array(a) => {
                let copy = a.clone();
                proof {
                    use_type_invariant(&copy);
                    a.lemma_model();
                    copy.lemma_model();
                }
                Payload::Array(copy)
            },
        };
        Variant { vt: self.vt, data }
    }
}

impl Default for Variant {
    /// The empty dynamic value, with all payload bytes zero.
    fn default() -> (v: Variant)
        ensures
            v@ == spec_variant(ValueView::EMPTY),
    {
        Variant { vt: VT_EMPTY as u16, data: Payload::Scalar(0) }
    }
}

impl From<Value> for Variant {
    /// The dynamic value made of a value: a straight mapping of tag and payload,
    /// which never fails. A resource in the value passes to the dynamic value.
    fn from(value: Value) -> (v: Variant)
        ensures
            v@ == spec_variant(value@),
    {
        match value {
            Value::EMPTY => Variant { vt: VT_EMPTY as u16, data: Payload::Scalar(0) },
            Value::NULL => Variant { vt: VT_NULL as u16, data: Payload::Scalar(0) },
            Value::VOID => Variant { vt: VT_VOID as u16, data: Payload::Scalar(0) },
            Value::I1(v) => Variant { vt: VT_I1 as u16, data: Payload::Scalar(to_unsigned8(v) as u64) },
            Value::I2(v) => Variant {
                vt: VT_I2 as u16,
                data: Payload::Scalar(to_unsigned16(v) as u64),
            },
            Value::I4(v) => Variant {
                vt: VT_I4 as u16,
                data: Payload::Scalar(to_unsigned32(v) as u64),
            },
            Value::I8(v) => Variant { vt: VT_I8 as u16, data: Payload::Scalar(to_unsigned64(v)) },
            Value::INT(v) => Variant {
                vt: VT_INT as u16,
                data: Payload::Scalar(to_unsigned32(v) as u64),
            },
            Value::UI1(v) => Variant { vt: VT_UI1 as u16, data: Payload::Scalar(v as u64) },
            Value::UI2(v) => Variant { vt: VT_UI2 as u16, data: Payload::Scalar(v as u64) },
            Value::UI4(v) => Variant { vt: VT_UI4 as u16, data: Payload::Scalar(v as u64) },
            Value::UI8(v) => Variant { vt: VT_UI8 as u16, data: Payload::Scalar(v) },
            Value::UINT(v) => Variant { vt: VT_UINT as u16, data: Payload::Scalar(v as u64) },
            Value::R4(v) => Variant { vt: VT_R4 as u16, data: Payload::Scalar(v as u64) },
            Value::R8(v) => Variant { vt: VT_R8 as u16, data: Payload::Scalar(v) },
            Value::CURRENCY(v) => Variant {
                vt: VT_CY as u16,
                data: Payload::Scalar(to_unsigned64(v)),
            },
            Value::DATE(v) => Variant { vt: VT_DATE as u16, data: Payload::Scalar(v) },
            Value::STRING(s) => Variant { vt: VT_BSTR as u16, data: Payload::Text(s) },
            Value::UNKNOWN(h) => Variant { vt: VT_UNKNOWN as u16, data: Payload::Object(h.addr()) },
            Value::DISPATCH(h) => Variant {
                vt: VT_DISPATCH as u16,
                data: Payload::Object(h.addr()),
            },
            Value::ERROR(c) => Variant {
                vt: VT_ERROR as u16,
                data: Payload::Scalar(to_unsigned32(c) as u64),
            },
            Value::HRESULT(c) => Variant {
                vt: VT_HRESULT as u16,
                data: Payload::Scalar(to_unsigned32(c) as u64),
            },
            Value::BOOL(b) => Variant { vt: VT_BOOL as u16, data: Payload::Scalar(to_bool_bits(b)) },
            Value::VARIANT(inner) => {
                proof {
                    use_type_invariant(&inner);
                }
                Variant { vt: VT_VARIANT as u16, data: Payload::Nested(Box::new(inner)) }
            },
            Value::DECIMAL(d) => Variant { vt: VT_DECIMAL as u16, data: Payload::Decimal(d) },
            Value::SAFEARRAY(a) => {
                let held = a.taken_over();
                proof {
                    use_type_invariant(&held);
                    held.lemma_model();
                }
                Variant { vt: VT_SAFEARRAY as u16, data: Payload::Array(held) }
            },
            Value::ARRAY(a) => {
                let held = a.taken_over();
                proof {
                    use_type_invariant(&held);
                    held.lemma_model();
                }
                Variant { vt: VT_SAFEARRAY as u16, data: Payload::Array(held) }
            },
        }
    }
}

// What a conversion gives is stated by `from` itself, over views: the values
// made here hold strings and vectors, which no spec function can name. So the
// conversions of this file promise nothing through `from_spec`.
impl vstd::std_specs::convert::FromSpecImpl<Value> for Variant {
    open spec fn obeys_from_spec() -> bool {
        false
    }

    open spec fn from_spec(value: Value) -> Variant {
        arbitrary()
    }
}

impl From<bool> for Variant {
    /// The dynamic value of a `bool`.
    fn from(value: bool) -> (v: Variant)
        ensures
            v@ == spec_variant(ValueView::BOOL(value)),
    {
        Variant::from(Value::BOOL(value))
    }
}

impl vstd::std_specs::convert::FromSpecImpl<bool> for Variant {
    open spec fn obeys_from_spec() -> bool {
        false
    }

    open spec fn from_spec(value: bool) -> Variant {
        arbitrary()
    }
}

impl From<i8> for Variant {
    /// The dynamic value of a `i8`.
    fn from(value: i8) -> (v: Variant)
        ensures
            v@ == spec_variant(ValueView::I1(value)),
    {
        Variant::from(Value::I1(value))
    }
}

impl vstd::std_specs::convert::FromSpecImpl<i8> for Variant {
    open spec fn obeys_from_spec() -> bool {
        false
    }

    open spec fn from_spec(value: i8) -> Variant {
        arbitrary()
    }
}

impl From<i16> for Variant {
    /// The dynamic value of a `i16`.
    fn from(value: i16) -> (v: Variant)
        ensures
            v@ == spec_variant(ValueView::I2(value)),
    {
        Variant::from(Value::I2(value))
    }
}

impl vstd::std_specs::convert::FromSpecImpl<i16> for Variant {
    open spec fn obeys_from_spec() -> bool {
        false
    }

    open spec fn from_spec(value: i16) -> Variant {
        arbitrary()
    }
}

impl From<i32> for Variant {
    /// The dynamic value of a `i32`.
    fn from(value: i32) -> (v: Variant)
        ensures
            v@ == spec_variant(ValueView::I4(value)),
    {
        Variant::from(Value::I4(value))
    }
}

impl vstd::std_specs::convert::FromSpecImpl<i32> for Variant {
    open spec fn obeys_from_spec() -> bool {
        false
    }

    open spec fn from_spec(value: i32) -> Variant {
        arbitrary()
    }
}

impl From<i64> for Variant {
    /// The dynamic value of a `i64`.
    fn from(value: i64) -> (v: Variant)
        ensures
            v@ == spec_variant(ValueView::I8(value)),
    {
        Variant::from(Value::I8(value))
    }
}

impl vstd::std_specs::convert::FromSpecImpl<i64> for Variant {
    open spec fn obeys_from_spec() -> bool {
        false
    }

    open spec fn from_spec(value: i64) -> Variant {
        arbitrary()
    }
}

impl From<u8> for Variant {
    /// The dynamic value of a `u8`.
    fn from(value: u8) -> (v: Variant)
        ensures
            v@ == spec_variant(ValueView::UI1(value)),
    {
        Variant::from(Value::UI1(value))
    }
}

impl vstd::std_specs::convert::FromSpecImpl<u8> for Variant {
    open spec fn obeys_from_spec() -> bool {
        false
    }

    open spec fn from_spec(value: u8) -> Variant {
        arbitrary()
    }
}

impl From<u16> for Variant {
    /// The dynamic value of a `u16`.
    fn from(value: u16) -> (v: Variant)
        ensures
            v@ == spec_variant(ValueView::UI2(value)),
    {
        Variant::from(Value::UI2(value))
    }
}

impl vstd::std_specs::convert::FromSpecImpl<u16> for Variant {
    open spec fn obeys_from_spec() -> bool {
        false
    }

    open spec fn from_spec(value: u16) -> Variant {
        arbitrary()
    }
}

impl From<u32> for Variant {
    /// The dynamic value of a `u32`.
    fn from(value: u32) -> (v: Variant)
        ensures
            v@ == spec_variant(ValueView::UI4(value)),
    {
        Variant::from(Value::UI4(value))
    }
}

impl vstd::std_specs::convert::FromSpecImpl<u32> for Variant {
    open spec fn obeys_from_spec() -> bool {
        false
    }

    open spec fn from_spec(value: u32) -> Variant {
        arbitrary()
    }
}

impl From<u64> for Variant {
    /// The dynamic value of a `u64`.
    fn from(value: u64) -> (v: Variant)
        ensures
            v@ == spec_variant(ValueView::UI8(value)),
    {
        Variant::from(Value::UI8(value))
    }
}

impl vstd::std_specs::convert::FromSpecImpl<u64> for Variant {
    open spec fn obeys_from_spec() -> bool {
        false
    }

    open spec fn from_spec(value: u64) -> Variant {
        arbitrary()
    }
}

impl From<String> for Variant {
    /// The dynamic value of a string.
    fn from(value: String) -> (v: Variant)
        ensures
            v@ == spec_variant(ValueView::STRING(value@)),
    {
        Variant::from(Value::STRING(value))
    }
}

impl vstd::std_specs::convert::FromSpecImpl<String> for Variant {
    open spec fn obeys_from_spec() -> bool {
        false
    }

    open spec fn from_spec(value: String) -> Variant {
        arbitrary()
    }
}

impl<'a> From<&'a str> for Variant {
    /// The dynamic value of a string.
    fn from(value: &'a str) -> (v: Variant)
        ensures
            v@ == spec_variant(ValueView::STRING(value@)),
    {
        Variant::from(Value::STRING(String::from_str(value)))
    }
}

impl<'a> vstd::std_specs::convert::FromSpecImpl<&'a str> for Variant {
    open spec fn obeys_from_spec() -> bool {
        false
    }

    open spec fn from_spec(value: &'a str) -> Variant {
        arbitrary()
    }
}

impl Variant {
    /// The addresses of the live references that the dynamic value holds, one
    /// entry for each reference: its own reference handle, those of a value
    /// nested in it, and those of an array in it. A duplicate owes an increment
    /// of the count on each, and the end of the value a decrement on each.
    pub fn references(&self) -> (r: Vec<usize>)
        ensures
            r@ == references_of(self@),
        decreases self,
    {
        match &self.data {
            Payload::Object(h) => {
                let mut out: Vec<usize> = Vec::new();
                if *h != 0 {
                    out.push(*h);
                }
                out
            },
            Payload::Nested(inner) => (&**inner).references(),
            Payload::Array(a) => {
                proof {
                    a.lemma_model();
                }
                a.references()
            },
            _ => Vec::new(),
        }
    }

    /// The same dynamic value once more: what it holds lies where it lay.
    pub fn replica(&self) -> (v: Variant)
        ensures
            v@ == self@,
        decreases self,
    {
        proof {
            use_type_invariant(self);
        }
        let data = match &self.data {
            Payload::Scalar(b) => Payload::Scalar(*b),
            Payload::Text(s) => Payload::Text(s.clone()),
            Payload::Object(h) => Payload::Object(*h),
            Payload::Nested(inner) => Payload::Nested(Box::new((&**inner).replica())),
            Payload::Decimal(d) => Payload::Decimal(*d),
            Payload::Array(a) => {
                let same = a.replica();
                proof {
                    a.lemma_model();
                    same.lemma_model();
                }
                Payload::Array(same)
            },
        };
        Variant { vt: self.vt, data }
    }

    /// What the dynamic value is.
    pub closed spec fn model(self) -> VariantView
        decreases self,
    {
        VariantView { vt: self.vt, data: self.data.model() }
    }

    /// Holds of every dynamic value.
    #[verifier::type_invariant]
    pub open spec fn inv(self) -> bool {
        self@.wf()
    }

    /// A dynamic value of the tag and payload, where the payload fits the tag;
    /// a type error where it does not.
    pub fn new(vt: u16, data: Payload) -> (r: Result<Variant, Error>)
        ensures
            match r {
                Ok(v) => payload_fits(vt, data@) && v@ == (VariantView { vt, data: data@ })
                    && v@.wf(),
                Err(e) => !payload_fits(vt, data@) && e == Error::TypeError,
            },
    {
        let fits = match &data {
            Payload::Scalar(_) => tag_shape(vt as i32) == Shape::Scalar,
            Payload::Text(_) => tag_shape(vt as i32) == Shape::Text,
            Payload::Object(_) => tag_shape(vt as i32) == Shape::Object,
            Payload::Nested(inner) => {
                proof {
                    use_type_invariant(&**inner);
                }
                tag_shape(vt as i32) == Shape::Nested
            },
            Payload::Decimal(_) => tag_shape(vt as i32) == Shape::Decimal,
            Payload::Array(a) => {
                proof {
                    use_type_invariant(a);
                    a.lemma_model();
                }
                tag_shape(vt as i32) == Shape::Array && a.is_owned()
            },
        };
        if fits {
            Ok(Variant { vt, data })
        } else {
            Err(Error::TypeError)
        }
    }

    /// A dynamic value of the tag with all payload bytes zero, where the tag
    /// holds its payload in those bytes; a type error where it does not.
    pub fn new_null(vt: u16) -> (r: Result<Variant, Error>)
        ensures
            match r {
                Ok(v) => shape_of(vt as int) == Shape::Scalar && v@ == (VariantView {
                    vt,
                    data: PayloadView::Scalar(0),
                }) && v@.wf(),
                Err(e) => shape_of(vt as int) != Shape::Scalar && e == Error::TypeError,
            },
    {
        Variant::new(vt, Payload::Scalar(0))
    }

    /// The tag, as a signed number.
    pub fn get_type(&self) -> (vt: i32)
        ensures
            vt == self@.vt,
    {
        self.vt as i32
    }

    /// The payload.
    pub fn get_data(&self) -> (data: &Payload)
        ensures
            data@ == self@.data,
    {
        &self.data
    }

    /// The value that the dynamic value decomposes into, by exhaustive dispatch
    /// on the tag; a type error where the tag is not recognized. Payloads that
    /// are resources are copied: the dynamic value keeps its own.
    pub fn get_value(&self) -> (r: Result<Value, Error>)
        ensures
            r is Ok <==> recognized(self@.vt as int),
            match r {
                Ok(val) => spec_value(self@) == Ok::<ValueView, Error>(val@) && val@.wf(),
                Err(e) => spec_value(self@) == Err::<ValueView, Error>(e) && e == Error::TypeError,
            },
    {
        proof {
            use_type_invariant(self);
        }
        let vt = self.vt as i32;
        match &self.data {
            Payload::Scalar(b) => {
                let bits = *b;
                if vt == VT_EMPTY {
                    Ok(Value::EMPTY)
                } else if vt == VT_NULL {
                    Ok(Value::NULL)
                } else if vt == VT_VOID {
                    Ok(Value::VOID)
                } else if vt == VT_I1 {
                    Ok(Value::I1(to_signed8(take8(bits))))
                } else if vt == VT_I2 {
                    Ok(Value::I2(to_signed16(take16(bits))))
                } else if vt == VT_I4 {
                    Ok(Value::I4(to_signed32(take32(bits))))
                } else if vt == VT_I8 {
                    Ok(Value::I8(to_signed64(bits)))
                } else if vt == VT_INT {
                    Ok(Value::INT(to_signed32(take32(bits))))
                } else if vt == VT_UI1 {
                    Ok(Value::UI1(take8(bits)))
                } else if vt == VT_UI2 {
                    Ok(Value::UI2(take16(bits)))
                } else if vt == VT_UI4 {
                    Ok(Value::UI4(take32(bits)))
                } else if vt == VT_UI8 {
                    Ok(Value::UI8(bits))
                } else if vt == VT_UINT {
                    Ok(Value::UINT(take32(bits)))
                } else if vt == VT_R4 {
                    Ok(Value::R4(take32(bits)))
                } else if vt == VT_R8 {
                    Ok(Value::R8(bits))
                } else if vt == VT_CY {
                    Ok(Value::CURRENCY(to_signed64(bits)))
                } else if vt == VT_DATE {
                    Ok(Value::DATE(bits))
                } else if vt == VT_ERROR {
                    Ok(Value::ERROR(to_signed32(take32(bits))))
                } else if vt == VT_HRESULT {
                    Ok(Value::HRESULT(to_signed32(take32(bits))))
                } else if vt == VT_BOOL {
                    Ok(Value::BOOL(from_bool_bits(bits)))
                } else {
                    Err(Error::TypeError)
                }
            },
            Payload::Text(s) => Ok(Value::STRING(s.clone())),
            Payload::Object(h) => {
                match Handle::new(*h) {
                    Some(handle) => {
                        if vt == VT_DISPATCH {
                            Ok(Value::DISPATCH(handle))
                        } else {
                            Ok(Value::UNKNOWN(handle))
                        }
                    },
                    None => Ok(Value::NULL),
                }
            },
            Payload::Nested(inner) => {
                let copy = (&**inner).clone();
                proof {
                    use_type_invariant(&copy);
                }
                Ok(Value::VARIANT(copy))
            },
            Payload::Decimal(d) => Ok(Value::DECIMAL(*d)),
            Payload::Array(a) => {
                let view = a.borrowed();
                proof {
                    use_type_invariant(&view);
                    a.lemma_model();
                }
                Ok(Value::SAFEARRAY(view))
            },
        }
    }

    /// Whether the payload is a resource that the dynamic value answers for: a
    /// string, a reference handle, a nested value, a decimal or an array.
    pub fn holds_resource(&self) -> (r: bool)
        ensures
            r == (shape_of(self@.vt as int) != Shape::Scalar),
    {
        match tag_shape(self.vt as i32) {
            Shape::Scalar => false,
            _ => true,
        }
    }

    /// Whether the tag is empty, null or void.
    pub fn is_null(&self) -> (r: bool)
        ensures
            r == null_tag(self@.vt as int),
    {
        is_null_tag(self.vt as i32)
    }

    /// Whether the tag is one of the three string representations.
    pub fn is_string(&self) -> (r: bool)
        ensures
            r == string_tag(self@.vt as int),
    {
        is_string_tag(self.vt as i32)
    }

    /// The string behind a string tag; a type error for every other tag.
    pub fn get_string(&self) -> (r: Result<String, Error>)
        ensures
            match r {
                Ok(s) => string_tag(self@.vt as int) && s@ == self@.data.text(),
                Err(e) => !string_tag(self@.vt as int) && e == Error::TypeError,
            },
    {
        proof {
            use_type_invariant(self);
        }
        match &self.data {
            Payload::Text(s) => Ok(s.clone()),
            _ => Err(Error::TypeError),
        }
    }

    /// Whether the tag is one of the two array tags.
    pub fn is_array(&self) -> (r: bool)
        ensures
            r == array_tag(self@.vt as int),
    {
        is_array_tag(self.vt as i32)
    }
}

impl Variant {
    /// The array behind an array tag, as a view that does not own the buffer;
    /// a type error for every other tag.
    pub fn get_array(&self) -> (r: Result<SafeArray, Error>)
        ensures
            match r {
                Ok(a) => array_tag(self@.vt as int) && a@ == (SafeArrayView {
                    buffer: self@.data.array(),
                    owned: false,
                }) && a@.wf(),
                Err(e) => !array_tag(self@.vt as int) && e == Error::TypeError,
            },
    {
        proof {
            use_type_invariant(self);
        }
        match &self.data {
            Payload::Array(a) => {
                let view = a.borrowed();
                proof {
                    use_type_invariant(&view);
                    a.lemma_model();
                }
                Ok(view)
            },
            _ => Err(Error::TypeError),
        }
    }
}

/// The duplicate of a well-formed dynamic value is well formed.
pub proof fn lemma_copy_is_well_formed(v: VariantView)
    requires
        v.wf(),
    ensures
        v.copied().wf(),
    decreases v,
{
    match v.data {
        PayloadView::Nested(inner) => {
            lemma_copy_is_well_formed(*inner);
        },
        PayloadView::Array(a) => {
            lemma_array_copy_is_well_formed(a);
        },
        _ => {},
    }
}

/// The duplicate of a well-formed array is well formed.
pub proof fn lemma_array_copy_is_well_formed(a: SafeArrayView)
    requires
        a.wf(),
    ensures
        a.copied().wf(),
    decreases a,
{
    if a.owned && a.buffer is Some {
        let b = a.buffer->0;
        let c = a.copied().buffer->0;
        assert forall|i: int| 0 <= i < c.cells.len() implies cell_fits(
            c.vt as int,
            #[trigger] c.cells[i],
        ) by {
            assert(cell_fits(b.vt as int, b.cells[i]));
            match b.cells[i] {
                CellView::Nested(inner) => {
                    lemma_copy_is_well_formed(inner);
                },
                _ => {},
            }
        }
    }
}

/// What a value comes back as after it was made into a dynamic value and
/// decomposed again: itself, but for a nested value, which comes back as a
/// deep copy, and for an array, which comes back as `SAFEARRAY`, the same
/// buffer, and not owned.
pub open spec fn settled(val: ValueView) -> ValueView {
    match val {
        ValueView::VARIANT(v) => ValueView::VARIANT(v.copied()),
        ValueView::SAFEARRAY(a) => ValueView::SAFEARRAY(
            SafeArrayView { buffer: a.buffer, owned: false },
        ),
        ValueView::ARRAY(a) => ValueView::SAFEARRAY(
            SafeArrayView { buffer: a.buffer, owned: false },
        ),
        _ => val,
    }
}

/// A value whose payload is a plain scalar (an integer, a real, a boolean, a
/// string, a currency amount or a date) is decomposed unchanged from the dynamic
/// value that was made of it.
pub proof fn lemma_round_trip(val: ValueView)
    requires
        val.plain(),
    ensures
        spec_value(spec_variant(val)) == Ok::<ValueView, Error>(val),
{
}

/// Every value is decomposed from the dynamic value that was made of it as
/// `settled` says, and the dynamic value is well formed.
pub proof fn lemma_decompose_made(val: ValueView)
    requires
        val.wf(),
    ensures
        spec_variant(val).wf(),
        spec_value(spec_variant(val)) == Ok::<ValueView, Error>(settled(val)),
{
    match val {
        ValueView::SAFEARRAY(a) => {
            assert((SafeArrayView { buffer: a.buffer, owned: true }).wf());
        },
        ValueView::ARRAY(a) => {
            assert((SafeArrayView { buffer: a.buffer, owned: true }).wf());
        },
        _ => {},
    }
}

/// The dynamic value made of a value has a tag of the null family exactly
/// where the value is empty, null or void.
pub proof fn lemma_null_family(val: ValueView)
    ensures
        null_tag(spec_variant(val).vt as int) <==> (val is EMPTY || val is NULL || val is VOID),
{
}

} // verus!
