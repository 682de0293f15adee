//! The safe facade of a dynamic value: one variant for each kind of payload.

use vstd::prelude::*;
use crate::safearray::{SafeArray, SafeArrayView};
use crate::variant::{Variant, VariantView};

verus! {

/// A reference handle to an object of the runtime. It is never null.
#[derive(Clone, Copy, Debug, PartialEq, Eq)]
pub struct Handle {
    addr: usize,
}

impl View for Handle {
    type V = usize;

    closed spec fn view(&self) -> usize {
        self.addr
    }
}

impl Handle {
    /// Holds of every handle.
    #[verifier::type_invariant]
    pub open spec fn inv(self) -> bool {
        self@ != 0
    }

    /// The handle at an address, and none at the null address.
    pub fn new(addr: usize) -> (h: Option<Handle>)
        ensures
            match h {
                Some(x) => addr != 0 && x@ == addr,
                None => addr == 0,
            },
    {
        if addr == 0 {
            None
        } else {
            Some(Handle { addr })
        }
    }

    /// The address behind the handle.
    pub fn addr(&self) -> (a: usize)
        ensures
            a == self@,
            a != 0,
    {
        proof {
            use_type_invariant(self);
        }
        self.addr
    }
}

/// A 96-bit decimal number with a sign and a power-of-ten scale.
#[derive(Clone, Copy, Debug, PartialEq, Eq, Structural)]
pub struct Decimal {
    pub scale: u8,
    pub sign: u8,
    pub hi32: u32,
    pub lo64: u64,
}

impl View for Decimal {
    type V = Decimal;

    open spec fn view(&self) -> Decimal {
        *self
    }
}

/// A dynamic value, by kind. The two reals and the date hold the bits of
/// their IEEE 754 number.
#[derive(Debug, PartialEq, Eq)]
pub enum Value {
    EMPTY,
    NULL,
    VOID,
    I1(i8),
    I2(i16),
    I4(i32),
    I8(i64),
    INT(i32),
    UI1(u8),
    UI2(u16),
    UI4(u32),
    UI8(u64),
    UINT(u32),
    R4(u32),
    R8(u64),
    CURRENCY(i64),
    DATE(u64),
    STRING(String),
    UNKNOWN(Handle),
    DISPATCH(Handle),
    ERROR(i32),
    HRESULT(i32),
    BOOL(bool),
    VARIANT(Variant),
    DECIMAL(Decimal),
    SAFEARRAY(SafeArray),
    ARRAY(SafeArray),
}

/// What a `Value` holds.
pub enum ValueView {
    EMPTY,
    NULL,
    VOID,
    I1(i8),
    I2(i16),
    I4(i32),
    I8(i64),
    INT(i32),
    UI1(u8),
    UI2(u16),
    UI4(u32),
    UI8(u64),
    UINT(u32),
    R4(u32),
    R8(u64),
    CURRENCY(i64),
    DATE(u64),
    STRING(Seq<char>),
    UNKNOWN(usize),
    DISPATCH(usize),
    ERROR(i32),
    HRESULT(i32),
    BOOL(bool),
    VARIANT(VariantView),
    DECIMAL(Decimal),
    SAFEARRAY(SafeArrayView),
    ARRAY(SafeArrayView),
}

impl ValueView {
    /// What holds of every value: its handle is not null, and the dynamic value
    /// or the array in it is well formed.
    pub open spec fn wf(self) -> bool {
        match self {
            ValueView::UNKNOWN(h) => h != 0,
            ValueView::DISPATCH(h) => h != 0,
            ValueView::VARIANT(v) => v.wf(),
            ValueView::SAFEARRAY(a) => a.wf(),
            ValueView::ARRAY(a) => a.wf(),
            _ => true,
        }
    }

    /// The duplicate of the value: the same kind with a deep copy of the
    /// payload. An owned array, and one in a dynamic value, is copied to another
    /// buffer; an array that is not owned stays the same buffer.
    pub open spec fn copied(self) -> ValueView {
        match self {
            ValueView::VARIANT(v) => ValueView::VARIANT(v.copied()),
            ValueView::SAFEARRAY(a) => ValueView::SAFEARRAY(a.copied()),
            ValueView::ARRAY(a) => ValueView::ARRAY(a.copied()),
            other => other,
        }
    }

    /// The payload is a plain scalar: an integer, a real, a boolean, a string,
    /// a currency amount or a date.
    pub open spec fn plain(self) -> bool {
        match self {
            ValueView::I1(_) | ValueView::I2(_) | ValueView::I4(_) | ValueView::I8(_)
            | ValueView::INT(_) | ValueView::UI1(_) | ValueView::UI2(_) | ValueView::UI4(_)
            | ValueView::UI8(_) | ValueView::UINT(_) | ValueView::R4(_) | ValueView::R8(_)
            | ValueView::CURRENCY(_) | ValueView::DATE(_) | ValueView::STRING(_)
            | ValueView::BOOL(_) => true,
            _ => false,
        }
    }
}

impl Clone for Value {
    /// A duplicate of the same kind with a deep copy of the payload.
    fn clone(&self) -> (v: Value)
        ensures
            v@ == self@.copied(),
    {
        match self {
            Value::EMPTY => Value::EMPTY,
            Value::NULL => Value::NULL,
            Value::VOID => Value::VOID,
            Value::I1(v) => Value::I1(*v),
            Value::I2(v) => Value::I2(*v),
            Value::I4(v) => Value::I4(*v),
            Value::I8(v) => Value::I8(*v),
            Value::INT(v) => Value::INT(*v),
            Value::UI1(v) => Value::UI1(*v),
            Value::UI2(v) => Value::UI2(*v),
            Value::UI4(v) => Value::UI4(*v),
            Value::UI8(v) => Value::UI8(*v),
            Value::UINT(v) => Value::UINT(*v),
            Value::R4(v) => Value::R4(*v),
            Value::R8(v) => Value::R8(*v),
            Value::CURRENCY(v) => Value::CURRENCY(*v),
            Value::DATE(v) => Value::DATE(*v),
            Value::STRING(s) => Value::STRING(s.clone()),
            Value::UNKNOWN(h) => Value::UNKNOWN(*h),
            Value::DISPATCH(h) => Value::DISPATCH(*h),
            Value::ERROR(v) => Value::ERROR(*v),
            Value::HRESULT(v) => Value::HRESULT(*v),
            Value::BOOL(v) => Value::BOOL(*v),
            Value::VARIANT(v) => Value::VARIANT(v.clone()),
            Value::DECIMAL(d) => Value::DECIMAL(*d),
            Value::SAFEARRAY(a) => Value::SAFEARRAY(a.clone()),
            Value::ARRAY(a) => Value::ARRAY(a.clone()),
        }
    }
}

impl View for Value {
    type V = ValueView;

    open spec fn view(&self) -> ValueView {
        match *self {
            Value::EMPTY => ValueView::EMPTY,
            Value::NULL => ValueView::NULL,
            Value::VOID => ValueView::VOID,
            Value::I1(v) => ValueView::I1(v),
            Value::I2(v) => ValueView::I2(v),
            Value::I4(v) => ValueView::I4(v),
            Value::I8(v) => ValueView::I8(v),
            Value::INT(v) => ValueView::INT(v),
            Value::UI1(v) => ValueView::UI1(v),
            Value::UI2(v) => ValueView::UI2(v),
            Value::UI4(v) => ValueView::UI4(v),
            Value::UI8(v) => ValueView::UI8(v),
            Value::UINT(v) => ValueView::UINT(v),
            Value::R4(v) => ValueView::R4(v),
            Value::R8(v) => ValueView::R8(v),
            Value::CURRENCY(v) => ValueView::CURRENCY(v),
            Value::DATE(v) => ValueView::DATE(v),
            Value::STRING(s) => ValueView::STRING(s@),
            Value::UNKNOWN(h) => ValueView::UNKNOWN(h@),
            Value::DISPATCH(h) => ValueView::DISPATCH(h@),
            Value::ERROR(v) => ValueView::ERROR(v),
            Value::HRESULT(v) => ValueView::HRESULT(v),
            Value::BOOL(v) => ValueView::BOOL(v),
            Value::VARIANT(v) => ValueView::VARIANT(v@),
            Value::DECIMAL(d) => ValueView::DECIMAL(d),
            Value::SAFEARRAY(a) => ValueView::SAFEARRAY(a@),
            Value::ARRAY(a) => ValueView::ARRAY(a@),
        }
    }
}

} // verus!
