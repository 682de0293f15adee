//! The coercion matrix: for each target type, what a dynamic value of each
//! source tag becomes. A value whose tag already has the target's
//! representation is read directly. Every other pair is the work of one
//! conversion primitive of the runtime, named by the target and by the kind of
//! the operand: the library says which operand is due, and what the primitive's
//! outcome means.

use vstd::prelude::*;
use crate::errors::Error;
use crate::layout::{
    low16, low32, low8, signed16, signed32, signed64, signed8, take16, take32, take8,
    to_signed16, to_signed32, to_signed64, to_signed8,
};
use crate::value::Decimal;
use crate::variant::{Payload, Variant, VariantView};
use crate::vartype::{
    array_tag, string_tag, VT_BOOL, VT_CY, VT_DATE, VT_DECIMAL, VT_DISPATCH, VT_I1, VT_I2, VT_I4, VT_I8,
    VT_INT, VT_R4, VT_R8, VT_UI1, VT_UI2, VT_UI4, VT_UI8, VT_UINT,
};

verus! {

/// What a conversion primitive is called on: the payload, read as the source
/// tag says. The two reals and the date are the bits of their number.
#[derive(Debug, PartialEq)]
pub enum Operand {
    Bool(i16),
    Cy(i64),
    Date(u64),
    Dec(Decimal),
    /// The address of a dispatch handle.
    Disp(usize),
    I1(i8),
    I2(i16),
    I4(i32),
    I8(i64),
    R4(u32),
    R8(u64),
    Str(String),
    UI1(u8),
    UI2(u16),
    UI4(u32),
    UI8(u64),
}

/// What an `Operand` holds.
pub enum OperandView {
    Bool(i16),
    Cy(i64),
    Date(u64),
    Dec(Decimal),
    Disp(usize),
    I1(i8),
    I2(i16),
    I4(i32),
    I8(i64),
    R4(u32),
    R8(u64),
    Str(Seq<char>),
    UI1(u8),
    UI2(u16),
    UI4(u32),
    UI8(u64),
}

impl View for Operand {
    type V = OperandView;

    open spec fn view(&self) -> OperandView {
        match *self {
            Operand::Bool(v) => OperandView::Bool(v),
            Operand::Cy(v) => OperandView::Cy(v),
            Operand::Date(v) => OperandView::Date(v),
            Operand::Dec(v) => OperandView::Dec(v),
            Operand::Disp(v) => OperandView::Disp(v),
            Operand::I1(v) => OperandView::I1(v),
            Operand::I2(v) => OperandView::I2(v),
            Operand::I4(v) => OperandView::I4(v),
            Operand::I8(v) => OperandView::I8(v),
            Operand::R4(v) => OperandView::R4(v),
            Operand::R8(v) => OperandView::R8(v),
            Operand::Str(s) => OperandView::Str(s@),
            Operand::UI1(v) => OperandView::UI1(v),
            Operand::UI2(v) => OperandView::UI2(v),
            Operand::UI4(v) => OperandView::UI4(v),
            Operand::UI8(v) => OperandView::UI8(v),
        }
    }
}

/// The tags that can be coerced: boolean, currency, date, decimal, dispatch
/// handle, every integer, both reals and the three string representations.
pub open spec fn source_tag(vt: int) -> bool {
    vt == VT_BOOL || vt == VT_CY || vt == VT_DATE || vt == VT_DECIMAL || vt == VT_DISPATCH || vt
        == VT_I1 || vt == VT_I2 || vt == VT_I4 || vt == VT_INT || vt == VT_I8 || vt == VT_R4 || vt
        == VT_R8 || string_tag(vt) || vt == VT_UI1 || vt == VT_UI2 || vt == VT_UI4 || vt
        == VT_UINT || vt == VT_UI8
}

/// The operand of a dynamic value: its payload, read as its tag says. The two
/// 32-bit integer tags read alike, as do the two unsigned ones and the three
/// strings. A tag outside the source set is a type error.
pub open spec fn spec_operand(v: VariantView) -> Result<OperandView, Error> {
    let vt = v.vt as int;
    let bits = v.data.bits();
    if vt == VT_BOOL {
        Ok(OperandView::Bool(signed16(low16(bits))))
    } else if vt == VT_CY {
        Ok(OperandView::Cy(signed64(bits)))
    } else if vt == VT_DATE {
        Ok(OperandView::Date(bits))
    } else if vt == VT_DECIMAL {
        Ok(OperandView::Dec(v.data.decimal()))
    } else if vt == VT_DISPATCH {
        Ok(OperandView::Disp(v.data.object()))
    } else if vt == VT_I1 {
        Ok(OperandView::I1(signed8(low8(bits))))
    } else if vt == VT_I2 {
        Ok(OperandView::I2(signed16(low16(bits))))
    } else if vt == VT_I4 || vt == VT_INT {
        Ok(OperandView::I4(signed32(low32(bits))))
    } else if vt == VT_I8 {
        Ok(OperandView::I8(signed64(bits)))
    } else if vt == VT_R4 {
        Ok(OperandView::R4(low32(bits)))
    } else if vt == VT_R8 {
        Ok(OperandView::R8(bits))
    } else if string_tag(vt) {
        Ok(OperandView::Str(v.data.text()))
    } else if vt == VT_UI1 {
        Ok(OperandView::UI1(low8(bits)))
    } else if vt == VT_UI2 {
        Ok(OperandView::UI2(low16(bits)))
    } else if vt == VT_UI4 || vt == VT_UINT {
        Ok(OperandView::UI4(low32(bits)))
    } else if vt == VT_UI8 {
        Ok(OperandView::UI8(bits))
    } else {
        Err(Error::TypeError)
    }
}

/// What a coercion comes to before any primitive runs.
pub enum Step<T> {
    /// The result, read from the payload.
    Ready(T),
    /// The operand on which the target's primitive for this kind of operand is due.
    Delegate(OperandView),
}

/// A coercion as far as the library takes it.
#[derive(Debug, PartialEq)]
pub enum Coercion<T> {
    /// The result, read from the payload: no primitive is called.
    Ready(T),
    /// The operand on which the target's primitive for this kind of operand is
    /// due; `settle` says what becomes of its outcome.
    Delegate(Operand),
}

/// A null dispatch handle: it is coerced to the target's zero without a call.
pub open spec fn null_handle(op: OperandView) -> bool {
    op == OperandView::Disp(0)
}

/// Coercion to a boolean: a boolean is read directly, true unless zero; a null
/// dispatch handle is false.
pub open spec fn bool_step(op: OperandView) -> Step<bool> {
    match op {
        OperandView::Bool(v) => Step::Ready(v != 0),
        OperandView::Disp(h) if h == 0 => Step::Ready(false),
        _ => Step::Delegate(op),
    }
}

/// Coercion to a string: a string is read directly; a null dispatch handle is
/// the empty string.
pub open spec fn string_step(op: OperandView) -> Step<Seq<char>> {
    match op {
        OperandView::Str(s) => Step::Ready(s),
        OperandView::Disp(h) if h == 0 => Step::Ready(Seq::empty()),
        _ => Step::Delegate(op),
    }
}

/// Coercion to an 8-bit signed integer.
pub open spec fn i8_step(op: OperandView) -> Step<i8> {
    match op {
        OperandView::I1(v) => Step::Ready(v),
        OperandView::Disp(h) if h == 0 => Step::Ready(0i8),
        _ => Step::Delegate(op),
    }
}

/// Coercion to a 16-bit signed integer.
pub open spec fn i16_step(op: OperandView) -> Step<i16> {
    match op {
        OperandView::I2(v) => Step::Ready(v),
        OperandView::Disp(h) if h == 0 => Step::Ready(0i16),
        _ => Step::Delegate(op),
    }
}

/// Coercion to a 32-bit signed integer.
pub open spec fn i32_step(op: OperandView) -> Step<i32> {
    match op {
        OperandView::I4(v) => Step::Ready(v),
        OperandView::Disp(h) if h == 0 => Step::Ready(0i32),
        _ => Step::Delegate(op),
    }
}

/// Coercion to a 64-bit signed integer. The runtime has no primitive from a
/// 32-bit signed integer: that one is widened here.
pub open spec fn i64_step(op: OperandView) -> Step<i64> {
    match op {
        OperandView::I4(v) => Step::Ready(v as i64),
        OperandView::I8(v) => Step::Ready(v),
        OperandView::Disp(h) if h == 0 => Step::Ready(0i64),
        _ => Step::Delegate(op),
    }
}

/// Coercion to a 32-bit real, as the bits of the number.
pub open spec fn r4_step(op: OperandView) -> Step<u32> {
    match op {
        OperandView::R4(v) => Step::Ready(v),
        OperandView::Disp(h) if h == 0 => Step::Ready(0u32),
        _ => Step::Delegate(op),
    }
}

/// Coercion to a 64-bit real, as the bits of the number.
pub open spec fn r8_step(op: OperandView) -> Step<u64> {
    match op {
        OperandView::R8(v) => Step::Ready(v),
        OperandView::Disp(h) if h == 0 => Step::Ready(0u64),
        _ => Step::Delegate(op),
    }
}

/// Coercion to an 8-bit unsigned integer.
pub open spec fn u8_step(op: OperandView) -> Step<u8> {
    match op {
        OperandView::UI1(v) => Step::Ready(v),
        OperandView::Disp(h) if h == 0 => Step::Ready(0u8),
        _ => Step::Delegate(op),
    }
}

/// Coercion to a 16-bit unsigned integer.
pub open spec fn u16_step(op: OperandView) -> Step<u16> {
    match op {
        OperandView::UI2(v) => Step::Ready(v),
        OperandView::Disp(h) if h == 0 => Step::Ready(0u16),
        _ => Step::Delegate(op),
    }
}

/// Coercion to a 32-bit unsigned integer.
pub open spec fn u32_step(op: OperandView) -> Step<u32> {
    match op {
        OperandView::UI4(v) => Step::Ready(v),
        OperandView::Disp(h) if h == 0 => Step::Ready(0u32),
        _ => Step::Delegate(op),
    }
}

/// Coercion to a 64-bit unsigned integer. The runtime has no primitive from a
/// 32-bit signed integer: that one is widened to 64 bits, which loses nothing,
/// and handed to the primitive from 64-bit signed integers, so that the runtime
/// reports a negative number as it does for every other source.
pub open spec fn u64_step(op: OperandView) -> Step<u64> {
    match op {
        OperandView::I4(v) => Step::Delegate(OperandView::I8(v as i64)),
        OperandView::UI8(v) => Step::Ready(v),
        OperandView::Disp(h) if h == 0 => Step::Ready(0u64),
        _ => Step::Delegate(op),
    }
}

/// How far a coercion got, as against what the matrix says for the operand.
pub open spec fn agrees<T>(got: Coercion<T>, due: Step<T>) -> bool {
    match got {
        Coercion::Ready(x) => due == Step::Ready(x),
        Coercion::Delegate(op) => due == Step::<T>::Delegate(op@),
    }
}

/// The same, for a string, which is told by its characters.
pub open spec fn agrees_string(got: Coercion<String>, due: Step<Seq<char>>) -> bool {
    match got {
        Coercion::Ready(x) => due == Step::Ready(x@),
        Coercion::Delegate(op) => due == Step::<Seq<char>>::Delegate(op@),
    }
}

impl Variant {
    /// The operand of the dynamic value: its payload, read as its tag says; a
    /// type error if and only if the tag is outside the source set.
    pub fn operand(&self) -> (r: Result<Operand, Error>)
        ensures
            r is Ok <==> source_tag(self@.vt as int),
            match r {
                Ok(op) => spec_operand(self@) == Ok::<OperandView, Error>(op@),
                Err(e) => spec_operand(self@) == Err::<OperandView, Error>(e) && e
                    == Error::TypeError,
            },
    {
        proof {
            use_type_invariant(self);
        }
        let vt = self.get_type();
        match self.get_data() {
            Payload::Scalar(b) => {
                let bits = *b;
                if vt == VT_BOOL {
                    Ok(Operand::Bool(to_signed16(take16(bits))))
                } else if vt == VT_CY {
                    Ok(Operand::Cy(to_signed64(bits)))
                } else if vt == VT_DATE {
                    Ok(Operand::Date(bits))
                } else if vt == VT_I1 {
                    Ok(Operand::I1(to_signed8(take8(bits))))
                } else if vt == VT_I2 {
                    Ok(Operand::I2(to_signed16(take16(bits))))
                } else if vt == VT_I4 || vt == VT_INT {
                    Ok(Operand::I4(to_signed32(take32(bits))))
                } else if vt == VT_I8 {
                    Ok(Operand::I8(to_signed64(bits)))
                } else if vt == VT_R4 {
                    Ok(Operand::R4(take32(bits)))
                } else if vt == VT_R8 {
                    Ok(Operand::R8(bits))
                } else if vt == VT_UI1 {
                    Ok(Operand::UI1(take8(bits)))
                } else if vt == VT_UI2 {
                    Ok(Operand::UI2(take16(bits)))
                } else if vt == VT_UI4 || vt == VT_UINT {
                    Ok(Operand::UI4(take32(bits)))
                } else if vt == VT_UI8 {
                    Ok(Operand::UI8(bits))
                } else {
                    Err(Error::TypeError)
                }
            },
            Payload::Text(s) => Ok(Operand::Str(s.clone())),
            Payload::Object(h) => {
                if vt == VT_DISPATCH {
                    Ok(Operand::Disp(*h))
                } else {
                    Err(Error::TypeError)
                }
            },
            Payload::Decimal(d) => Ok(Operand::Dec(*d)),
            _ => Err(Error::TypeError),
        }
    }

    /// Coercion to a boolean. A boolean is read directly, true unless zero; a null
    /// dispatch handle is false; the primitive for any other operand hands back a
    /// 16-bit boolean, which `settle_bool` reads.
    pub fn to_bool(&self) -> (r: Result<Coercion<bool>, Error>)
        ensures
            r is Ok <==> source_tag(self@.vt as int),
            match (r, spec_operand(self@)) {
                (Ok(c), Ok(op)) => agrees(c, bool_step(op)),
                (Err(e), Err(d)) => e == d,
                _ => false,
            },
    {
        match self.operand()? {
            Operand::Bool(v) => Ok(Coercion::Ready(v != 0)),
            Operand::Disp(0) => Ok(Coercion::Ready(false)),
            op => Ok(Coercion::Delegate(op)),
        }
    }

    /// Coercion to a string. A string of any of the three representations is read
    /// directly; a null dispatch handle is the empty string.
    pub fn to_text(&self) -> (r: Result<Coercion<String>, Error>)
        ensures
            r is Ok <==> source_tag(self@.vt as int),
            match (r, spec_operand(self@)) {
                (Ok(c), Ok(op)) => agrees_string(c, string_step(op)),
                (Err(e), Err(d)) => e == d,
                _ => false,
            },
    {
        match self.operand()? {
            Operand::Str(s) => Ok(Coercion::Ready(s)),
            Operand::Disp(0) => Ok(Coercion::Ready(String::new())),
            op => Ok(Coercion::Delegate(op)),
        }
    }

    /// Coercion to an 8-bit signed integer.
    pub fn to_i8(&self) -> (r: Result<Coercion<i8>, Error>)
        ensures
            r is Ok <==> source_tag(self@.vt as int),
            match (r, spec_operand(self@)) {
                (Ok(c), Ok(op)) => agrees(c, i8_step(op)),
                (Err(e), Err(d)) => e == d,
                _ => false,
            },
    {
        match self.operand()? {
            Operand::I1(v) => Ok(Coercion::Ready(v)),
            Operand::Disp(0) => Ok(Coercion::Ready(0)),
            op => Ok(Coercion::Delegate(op)),
        }
    }

    /// Coercion to a 16-bit signed integer.
    pub fn to_i16(&self) -> (r: Result<Coercion<i16>, Error>)
        ensures
            r is Ok <==> source_tag(self@.vt as int),
            match (r, spec_operand(self@)) {
                (Ok(c), Ok(op)) => agrees(c, i16_step(op)),
                (Err(e), Err(d)) => e == d,
                _ => false,
            },
    {
        match self.operand()? {
            Operand::I2(v) => Ok(Coercion::Ready(v)),
            Operand::Disp(0) => Ok(Coercion::Ready(0)),
            op => Ok(Coercion::Delegate(op)),
        }
    }

    /// Coercion to a 32-bit signed integer.
    pub fn to_i32(&self) -> (r: Result<Coercion<i32>, Error>)
        ensures
            r is Ok <==> source_tag(self@.vt as int),
            match (r, spec_operand(self@)) {
                (Ok(c), Ok(op)) => agrees(c, i32_step(op)),
                (Err(e), Err(d)) => e == d,
                _ => false,
            },
    {
        match self.operand()? {
            Operand::I4(v) => Ok(Coercion::Ready(v)),
            Operand::Disp(0) => Ok(Coercion::Ready(0)),
            op => Ok(Coercion::Delegate(op)),
        }
    }

    /// Coercion to a 64-bit signed integer. A 32-bit signed integer is widened here.
    pub fn to_i64(&self) -> (r: Result<Coercion<i64>, Error>)
        ensures
            r is Ok <==> source_tag(self@.vt as int),
            match (r, spec_operand(self@)) {
                (Ok(c), Ok(op)) => agrees(c, i64_step(op)),
                (Err(e), Err(d)) => e == d,
                _ => false,
            },
    {
        match self.operand()? {
            Operand::I4(v) => Ok(Coercion::Ready(v as i64)),
            Operand::I8(v) => Ok(Coercion::Ready(v)),
            Operand::Disp(0) => Ok(Coercion::Ready(0)),
            op => Ok(Coercion::Delegate(op)),
        }
    }

    /// Coercion to a 32-bit real, as the bits of the number.
    pub fn to_r4(&self) -> (r: Result<Coercion<u32>, Error>)
        ensures
            r is Ok <==> source_tag(self@.vt as int),
            match (r, spec_operand(self@)) {
                (Ok(c), Ok(op)) => agrees(c, r4_step(op)),
                (Err(e), Err(d)) => e == d,
                _ => false,
            },
    {
        match self.operand()? {
            Operand::R4(v) => Ok(Coercion::Ready(v)),
            Operand::Disp(0) => Ok(Coercion::Ready(0)),
            op => Ok(Coercion::Delegate(op)),
        }
    }

    /// Coercion to a 64-bit real, as the bits of the number.
    pub fn to_r8(&self) -> (r: Result<Coercion<u64>, Error>)
        ensures
            r is Ok <==> source_tag(self@.vt as int),
            match (r, spec_operand(self@)) {
                (Ok(c), Ok(op)) => agrees(c, r8_step(op)),
                (Err(e), Err(d)) => e == d,
                _ => false,
            },
    {
        match self.operand()? {
            Operand::R8(v) => Ok(Coercion::Ready(v)),
            Operand::Disp(0) => Ok(Coercion::Ready(0)),
            op => Ok(Coercion::Delegate(op)),
        }
    }

    /// Coercion to an 8-bit unsigned integer.
    pub fn to_u8(&self) -> (r: Result<Coercion<u8>, Error>)
        ensures
            r is Ok <==> source_tag(self@.vt as int),
            match (r, spec_operand(self@)) {
                (Ok(c), Ok(op)) => agrees(c, u8_step(op)),
                (Err(e), Err(d)) => e == d,
                _ => false,
            },
    {
        match self.operand()? {
            Operand::UI1(v) => Ok(Coercion::Ready(v)),
            Operand::Disp(0) => Ok(Coercion::Ready(0)),
            op => Ok(Coercion::Delegate(op)),
        }
    }

    /// Coercion to a 16-bit unsigned integer.
    pub fn to_u16(&self) -> (r: Result<Coercion<u16>, Error>)
        ensures
            r is Ok <==> source_tag(self@.vt as int),
            match (r, spec_operand(self@)) {
                (Ok(c), Ok(op)) => agrees(c, u16_step(op)),
                (Err(e), Err(d)) => e == d,
                _ => false,
            },
    {
        match self.operand()? {
            Operand::UI2(v) => Ok(Coercion::Ready(v)),
            Operand::Disp(0) => Ok(Coercion::Ready(0)),
            op => Ok(Coercion::Delegate(op)),
        }
    }

    /// Coercion to a 32-bit unsigned integer.
    pub fn to_u32(&self) -> (r: Result<Coercion<u32>, Error>)
        ensures
            r is Ok <==> source_tag(self@.vt as int),
            match (r, spec_operand(self@)) {
                (Ok(c), Ok(op)) => agrees(c, u32_step(op)),
                (Err(e), Err(d)) => e == d,
                _ => false,
            },
    {
        match self.operand()? {
            Operand::UI4(v) => Ok(Coercion::Ready(v)),
            Operand::Disp(0) => Ok(Coercion::Ready(0)),
            op => Ok(Coercion::Delegate(op)),
        }
    }

    /// Coercion to a 64-bit unsigned integer. A 32-bit signed integer is handed
    /// on as the 64-bit signed integer of the same value.
    pub fn to_u64(&self) -> (r: Result<Coercion<u64>, Error>)
        ensures
            r is Ok <==> source_tag(self@.vt as int),
            match (r, spec_operand(self@)) {
                (Ok(c), Ok(op)) => agrees(c, u64_step(op)),
                (Err(e), Err(d)) => e == d,
                _ => false,
            },
    {
        match self.operand()? {
            Operand::I4(v) => Ok(Coercion::Delegate(Operand::I8(v as i64))),
            Operand::UI8(v) => Ok(Coercion::Ready(v)),
            Operand::Disp(0) => Ok(Coercion::Ready(0)),
            op => Ok(Coercion::Delegate(op)),
        }
    }
}

/// What the outcome of a primitive that converts to a boolean means: the
/// primitive hands back a 16-bit boolean, which is true unless zero; a failure
/// keeps its status.
pub fn settle_bool(outcome: Result<i16, i32>) -> (r: Result<bool, Error>)
    ensures
        r == match outcome {
            Ok(v) => Ok::<bool, Error>(v != 0),
            Err(code) => Err::<bool, Error>(Error::ExternalError(code)),
        },
{
    match outcome {
        Ok(v) => Ok(v != 0),
        Err(code) => Err(Error::ExternalError(code)),
    }
}

/// A dispatch handle that is null is coerced without a call, to the zero of
/// every numeric target, to false and to the empty string.
pub proof fn lemma_null_dispatch_is_zero(v: VariantView)
    requires
        v.vt == VT_DISPATCH,
        v.data.object() == 0,
    ensures
        spec_operand(v) == Ok::<OperandView, Error>(OperandView::Disp(0)),
        i8_step(OperandView::Disp(0)) == Step::Ready(0i8),
        i16_step(OperandView::Disp(0)) == Step::Ready(0i16),
        i32_step(OperandView::Disp(0)) == Step::Ready(0i32),
        i64_step(OperandView::Disp(0)) == Step::Ready(0i64),
        u8_step(OperandView::Disp(0)) == Step::Ready(0u8),
        u16_step(OperandView::Disp(0)) == Step::Ready(0u16),
        u32_step(OperandView::Disp(0)) == Step::Ready(0u32),
        u64_step(OperandView::Disp(0)) == Step::Ready(0u64),
        r4_step(OperandView::Disp(0)) == Step::Ready(0u32),
        r8_step(OperandView::Disp(0)) == Step::Ready(0u64),
        bool_step(OperandView::Disp(0)) == Step::Ready(false),
        string_step(OperandView::Disp(0)) == Step::Ready(Seq::<char>::empty()),
{
}

/// No coercion takes a dynamic value whose tag is outside the source set: an
/// array, a nested value, an unknown-style handle, an error code and the null
/// family are type errors for every target.
pub proof fn lemma_outside_source_set(v: VariantView)
    requires
        !source_tag(v.vt as int),
    ensures
        spec_operand(v) == Err::<OperandView, Error>(Error::TypeError),
{
}

/// An array is coerced to no primitive: a type error.
pub proof fn lemma_array_is_not_coerced(v: VariantView)
    requires
        array_tag(v.vt as int),
    ensures
        spec_operand(v) == Err::<OperandView, Error>(Error::TypeError),
{
}

/// A coercion is delegated only on an operand that a primitive can take: never
/// on a null dispatch handle.
pub proof fn lemma_delegated_handle_is_live(op: OperandView)
    ensures
        i8_step(op) == Step::<i8>::Delegate(op) ==> !null_handle(op),
        i16_step(op) == Step::<i16>::Delegate(op) ==> !null_handle(op),
        i32_step(op) == Step::<i32>::Delegate(op) ==> !null_handle(op),
        i64_step(op) == Step::<i64>::Delegate(op) ==> !null_handle(op),
        u8_step(op) == Step::<u8>::Delegate(op) ==> !null_handle(op),
        u16_step(op) == Step::<u16>::Delegate(op) ==> !null_handle(op),
        u32_step(op) == Step::<u32>::Delegate(op) ==> !null_handle(op),
        u64_step(op) matches Step::Delegate(due) ==> !null_handle(due),
        r4_step(op) == Step::<u32>::Delegate(op) ==> !null_handle(op),
        r8_step(op) == Step::<u64>::Delegate(op) ==> !null_handle(op),
        bool_step(op) == Step::<bool>::Delegate(op) ==> !null_handle(op),
        string_step(op) == Step::<Seq<char>>::Delegate(op) ==> !null_handle(op),
{
}

} // verus!
