use variants::coerce::{Coercion, Operand};
use variants::errors::{settle, Error};
use variants::value::{Decimal, Handle};
use variants::variant::Payload;
use variants::vartype::{
    VT_ARRAY, VT_BOOL, VT_BSTR, VT_CY, VT_DATE, VT_DECIMAL, VT_DISPATCH, VT_EMPTY, VT_ERROR,
    VT_HRESULT, VT_I1, VT_I2, VT_I4, VT_I8, VT_INT, VT_LPSTR, VT_LPWSTR, VT_NULL, VT_R4, VT_R8,
    VT_SAFEARRAY, VT_UI1, VT_UI2, VT_UI4, VT_UI8, VT_UINT, VT_UNKNOWN, VT_VARIANT, VT_VOID,
};
use variants::{SafeArray, Value, Variant};

fn scalar(vt: i32, bits: u64) -> Variant {
    Variant::new(vt as u16, Payload::Scalar(bits)).unwrap()
}

fn null_dispatch() -> Variant {
    Variant::new(VT_DISPATCH as u16, Payload::Object(0)).unwrap()
}

fn outside_source_set() -> Vec<Variant> {
    vec![
        Variant::from(Value::EMPTY),
        Variant::from(Value::NULL),
        Variant::from(Value::VOID),
        Variant::from(Value::ERROR(1)),
        Variant::from(Value::HRESULT(1)),
        Variant::from(Value::UNKNOWN(Handle::new(8).unwrap())),
        Variant::new(VT_UNKNOWN as u16, Payload::Object(0)).unwrap(),
        Variant::from(Value::VARIANT(Variant::from(Value::I4(1)))),
        Variant::from(Value::SAFEARRAY(SafeArray::from_vector(VT_I4, &vec![1i32]).unwrap())),
        Variant::new(VT_ARRAY as u16, Payload::Array(SafeArray::null(true))).unwrap(),
        scalar(26, 0),
        scalar(0x2003, 0),
    ]
}

#[test]
fn operand_is_the_payload_read_as_the_tag_says() {
    assert_eq!(scalar(VT_BOOL, 0xffff).operand(), Ok(Operand::Bool(-1)));
    assert_eq!(scalar(VT_BOOL, 0).operand(), Ok(Operand::Bool(0)));
    assert_eq!(scalar(VT_CY, u64::MAX).operand(), Ok(Operand::Cy(-1)));
    assert_eq!(scalar(VT_DATE, 2.5f64.to_bits()).operand(), Ok(Operand::Date(2.5f64.to_bits())));
    assert_eq!(scalar(VT_I1, 0x80).operand(), Ok(Operand::I1(-128)));
    assert_eq!(scalar(VT_I2, 0x8000).operand(), Ok(Operand::I2(i16::MIN)));
    assert_eq!(scalar(VT_I4, 0xffff_fffe).operand(), Ok(Operand::I4(-2)));
    assert_eq!(scalar(VT_INT, 0xffff_fffe).operand(), Ok(Operand::I4(-2)));
    assert_eq!(scalar(VT_I8, 1 << 63).operand(), Ok(Operand::I8(i64::MIN)));
    assert_eq!(scalar(VT_R4, 0x3fc0_0000).operand(), Ok(Operand::R4(1.5f32.to_bits())));
    assert_eq!(scalar(VT_R8, 7).operand(), Ok(Operand::R8(7)));
    assert_eq!(scalar(VT_UI1, 0x1ff).operand(), Ok(Operand::UI1(255)));
    assert_eq!(scalar(VT_UI2, 0x1_0001).operand(), Ok(Operand::UI2(1)));
    assert_eq!(scalar(VT_UI4, 0x1_0000_0002).operand(), Ok(Operand::UI4(2)));
    assert_eq!(scalar(VT_UINT, 3).operand(), Ok(Operand::UI4(3)));
    assert_eq!(scalar(VT_UI8, u64::MAX).operand(), Ok(Operand::UI8(u64::MAX)));
    let d = Decimal { scale: 1, sign: 0, hi32: 0, lo64: 15 };
    assert_eq!(Variant::from(Value::DECIMAL(d)).operand(), Ok(Operand::Dec(d)));
    assert_eq!(null_dispatch().operand(), Ok(Operand::Disp(0)));
    let h = Handle::new(64).unwrap();
    assert_eq!(Variant::from(Value::DISPATCH(h)).operand(), Ok(Operand::Disp(64)));
    for vt in [VT_BSTR, VT_LPWSTR, VT_LPSTR] {
        let v = Variant::new(vt as u16, Payload::Text("12".into())).unwrap();
        assert_eq!(v.operand(), Ok(Operand::Str("12".into())));
    }
    for v in outside_source_set() {
        assert_eq!(v.operand(), Err(Error::TypeError));
    }
}

#[test]
fn null_dispatch_handle_is_the_zero_of_every_target() {
    let v = null_dispatch();
    assert_eq!(v.to_bool(), Ok(Coercion::Ready(false)));
    assert_eq!(v.to_text(), Ok(Coercion::Ready(String::new())));
    assert_eq!(v.to_i8(), Ok(Coercion::Ready(0)));
    assert_eq!(v.to_i16(), Ok(Coercion::Ready(0)));
    assert_eq!(v.to_i32(), Ok(Coercion::Ready(0)));
    assert_eq!(v.to_i64(), Ok(Coercion::Ready(0)));
    assert_eq!(v.to_u8(), Ok(Coercion::Ready(0)));
    assert_eq!(v.to_u16(), Ok(Coercion::Ready(0)));
    assert_eq!(v.to_u32(), Ok(Coercion::Ready(0)));
    assert_eq!(v.to_u64(), Ok(Coercion::Ready(0)));
    assert_eq!(v.to_r4(), Ok(Coercion::Ready(0)));
    assert_eq!(v.to_r8(), Ok(Coercion::Ready(0)));
    assert_eq!(f32::from_bits(0), 0.0);
    assert_eq!(f64::from_bits(0), 0.0);
}

#[test]
fn live_dispatch_handle_goes_to_the_primitive() {
    let v = Variant::from(Value::DISPATCH(Handle::new(0x7000).unwrap()));
    assert_eq!(v.to_bool(), Ok(Coercion::Delegate(Operand::Disp(0x7000))));
    assert_eq!(v.to_text(), Ok(Coercion::Delegate(Operand::Disp(0x7000))));
    assert_eq!(v.to_i32(), Ok(Coercion::Delegate(Operand::Disp(0x7000))));
    assert_eq!(v.to_u64(), Ok(Coercion::Delegate(Operand::Disp(0x7000))));
    assert_eq!(v.to_r8(), Ok(Coercion::Delegate(Operand::Disp(0x7000))));
}

#[test]
fn arrays_and_other_tags_outside_the_source_set_are_type_errors() {
    for v in outside_source_set() {
        assert_eq!(v.to_bool(), Err(Error::TypeError));
        assert_eq!(v.to_text(), Err(Error::TypeError));
        assert_eq!(v.to_i8(), Err(Error::TypeError));
        assert_eq!(v.to_i16(), Err(Error::TypeError));
        assert_eq!(v.to_i32(), Err(Error::TypeError));
        assert_eq!(v.to_i64(), Err(Error::TypeError));
        assert_eq!(v.to_u8(), Err(Error::TypeError));
        assert_eq!(v.to_u16(), Err(Error::TypeError));
        assert_eq!(v.to_u32(), Err(Error::TypeError));
        assert_eq!(v.to_u64(), Err(Error::TypeError));
        assert_eq!(v.to_r4(), Err(Error::TypeError));
        assert_eq!(v.to_r8(), Err(Error::TypeError));
    }
    let a = Variant::from(Value::ARRAY(SafeArray::from_vector(VT_I1, &vec![1i8]).unwrap()));
    assert_eq!(a.get_type(), VT_SAFEARRAY);
    assert_eq!(a.to_i32(), Err(Error::TypeError));
}

#[test]
fn a_tag_of_the_targets_representation_is_read_directly() {
    assert_eq!(Variant::from(Value::BOOL(true)).to_bool(), Ok(Coercion::Ready(true)));
    assert_eq!(scalar(VT_BOOL, 1).to_bool(), Ok(Coercion::Ready(true)));
    assert_eq!(Variant::from(Value::BOOL(false)).to_bool(), Ok(Coercion::Ready(false)));
    assert_eq!(Variant::from(Value::I1(-5)).to_i8(), Ok(Coercion::Ready(-5)));
    assert_eq!(Variant::from(Value::I2(-5)).to_i16(), Ok(Coercion::Ready(-5)));
    assert_eq!(Variant::from(Value::I4(-5)).to_i32(), Ok(Coercion::Ready(-5)));
    assert_eq!(Variant::from(Value::INT(-6)).to_i32(), Ok(Coercion::Ready(-6)));
    assert_eq!(Variant::from(Value::I8(-5)).to_i64(), Ok(Coercion::Ready(-5)));
    assert_eq!(Variant::from(Value::UI1(5)).to_u8(), Ok(Coercion::Ready(5)));
    assert_eq!(Variant::from(Value::UI2(5)).to_u16(), Ok(Coercion::Ready(5)));
    assert_eq!(Variant::from(Value::UI4(5)).to_u32(), Ok(Coercion::Ready(5)));
    assert_eq!(Variant::from(Value::UINT(6)).to_u32(), Ok(Coercion::Ready(6)));
    assert_eq!(Variant::from(Value::UI8(5)).to_u64(), Ok(Coercion::Ready(5)));
    assert_eq!(
        Variant::from(Value::R4(1.5f32.to_bits())).to_r4(),
        Ok(Coercion::Ready(1.5f32.to_bits()))
    );
    assert_eq!(
        Variant::from(Value::R8(1.5f64.to_bits())).to_r8(),
        Ok(Coercion::Ready(1.5f64.to_bits()))
    );
    for vt in [VT_BSTR, VT_LPWSTR, VT_LPSTR] {
        let v = Variant::new(vt as u16, Payload::Text("Hello".into())).unwrap();
        assert_eq!(v.to_text(), Ok(Coercion::Ready(String::from("Hello"))));
    }
}

#[test]
fn a_32_bit_integer_is_widened_where_the_runtime_has_no_primitive() {
    // To a 64-bit signed integer the widening is the result.
    assert_eq!(Variant::from(Value::I4(-5)).to_i64(), Ok(Coercion::Ready(-5)));
    assert_eq!(Variant::from(Value::INT(i32::MIN)).to_i64(), Ok(Coercion::Ready(i32::MIN as i64)));
    // To a 64-bit unsigned integer the widened number goes to the primitive
    // from 64-bit signed integers, which reports a negative number.
    assert_eq!(Variant::from(Value::I4(7)).to_u64(), Ok(Coercion::Delegate(Operand::I8(7))));
    assert_eq!(Variant::from(Value::I4(-1)).to_u64(), Ok(Coercion::Delegate(Operand::I8(-1))));
    assert_eq!(Variant::from(-1i32).to_u64(), Ok(Coercion::Delegate(Operand::I8(-1))));
    assert_eq!(Variant::from(Value::INT(-2)).to_u64(), Ok(Coercion::Delegate(Operand::I8(-2))));
    assert_eq!(
        Variant::from(Value::I4(i32::MIN)).to_u64(),
        Ok(Coercion::Delegate(Operand::I8(i32::MIN as i64)))
    );
    assert_eq!(settle::<u64>(Err(-2147352566)), Err(Error::ExternalError(-2147352566)));
    // The unsigned 32-bit integer has a primitive to both.
    assert_eq!(Variant::from(Value::UI4(7)).to_u64(), Ok(Coercion::Delegate(Operand::UI4(7))));
    assert_eq!(Variant::from(Value::UI4(7)).to_i64(), Ok(Coercion::Delegate(Operand::UI4(7))));
}

#[test]
fn every_other_pair_goes_to_the_primitive() {
    let v = Variant::from(Value::I4(300));
    assert_eq!(v.to_bool(), Ok(Coercion::Delegate(Operand::I4(300))));
    assert_eq!(v.to_text(), Ok(Coercion::Delegate(Operand::I4(300))));
    assert_eq!(v.to_i8(), Ok(Coercion::Delegate(Operand::I4(300))));
    assert_eq!(v.to_i16(), Ok(Coercion::Delegate(Operand::I4(300))));
    assert_eq!(v.to_u8(), Ok(Coercion::Delegate(Operand::I4(300))));
    assert_eq!(v.to_u16(), Ok(Coercion::Delegate(Operand::I4(300))));
    assert_eq!(v.to_u32(), Ok(Coercion::Delegate(Operand::I4(300))));
    assert_eq!(v.to_r4(), Ok(Coercion::Delegate(Operand::I4(300))));
    assert_eq!(v.to_r8(), Ok(Coercion::Delegate(Operand::I4(300))));
    let b = Variant::from(Value::BOOL(true));
    assert_eq!(b.to_text(), Ok(Coercion::Delegate(Operand::Bool(-1))));
    assert_eq!(b.to_i32(), Ok(Coercion::Delegate(Operand::Bool(-1))));
    let s = Variant::from(Value::STRING("12".into()));
    assert_eq!(s.to_i32(), Ok(Coercion::Delegate(Operand::Str("12".into()))));
    assert_eq!(s.to_r8(), Ok(Coercion::Delegate(Operand::Str("12".into()))));
    let c = Variant::from(Value::CURRENCY(10000));
    assert_eq!(c.to_i64(), Ok(Coercion::Delegate(Operand::Cy(10000))));
    let d = Variant::from(Value::DATE(1.0f64.to_bits()));
    assert_eq!(d.to_r8(), Ok(Coercion::Delegate(Operand::Date(1.0f64.to_bits()))));
    let r = Variant::from(Value::R8(2.5f64.to_bits()));
    assert_eq!(r.to_i32(), Ok(Coercion::Delegate(Operand::R8(2.5f64.to_bits()))));
    assert_eq!(r.to_r4(), Ok(Coercion::Delegate(Operand::R8(2.5f64.to_bits()))));
    let e = Decimal { scale: 0, sign: 0, hi32: 0, lo64: 3 };
    assert_eq!(Variant::from(Value::DECIMAL(e)).to_u8(), Ok(Coercion::Delegate(Operand::Dec(e))));
    // What the primitive answers is the result; its failure keeps the status.
    assert_eq!(settle::<u8>(Ok(44)), Ok(44));
    assert_eq!(settle::<u8>(Err(-2147352566)), Err(Error::ExternalError(-2147352566)));
}

#[test]
fn tags_outside_sixteen_bits_do_not_occur() {
    for vt in [VT_EMPTY, VT_NULL, VT_VOID, VT_ERROR, VT_HRESULT, VT_VARIANT, VT_DECIMAL, VT_I8, VT_UI8, VT_I1, VT_I2, VT_UI1, VT_UI2, VT_R4, VT_R8, VT_CY, VT_DATE] {
        assert!(0 <= vt && vt <= 0xffff);
    }
    assert_eq!(Variant::from(Value::I4(1)).get_type(), VT_I4);
}
