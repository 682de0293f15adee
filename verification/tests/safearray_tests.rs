use variants::element::Element;
use variants::errors::Error;
use variants::bounds::{indices_at, span, Bound};
use variants::cell::{can_store, fits, Cell};
use variants::text::Piece;
use variants::value::{Decimal, Handle};
use variants::variant::Payload;
use variants::vartype::{
    DISP_E_BADINDEX, VT_BOOL, VT_BSTR, VT_CY, VT_DATE, VT_DECIMAL, VT_DISPATCH, VT_EMPTY,
    VT_ERROR, VT_I1, VT_I2, VT_I4, VT_I8, VT_INT, VT_LPWSTR, VT_R4, VT_R8, VT_UI1, VT_UI2, VT_UI4,
    VT_UI8, VT_UINT, VT_UNKNOWN, VT_VARIANT,
};
use variants::{SafeArray, Value, Variant};

fn show(a: &SafeArray) -> String {
    let mut out = String::new();
    for p in a.fmt().unwrap() {
        match p {
            Piece::Text(s) => out.push_str(&s),
            Piece::Single(b) => out.push_str(&format!("{}", f32::from_bits(b))),
            Piece::Double(b) => out.push_str(&format!("{}", f64::from_bits(b))),
        }
    }
    out
}

#[test]
fn test_safearray_i1() {
    let vals: Vec<i8> = vec![1, 2, 3];
    let arr: SafeArray = vals.try_into().unwrap();

    assert_eq!(arr.get_dim(), 1);
    assert_eq!(arr.get_lower_bound(1).unwrap(), 0);
    assert_eq!(arr.get_upper_bound(1).unwrap(), 2);

    let vals: Vec<i8> = arr.try_into().unwrap();

    assert_eq!(vals.len(), 3);
    assert_eq!(vals[0], 1);
    assert_eq!(vals[1], 2);
    assert_eq!(vals[2], 3);
}

#[test]
fn test_safearray_bool() {
    let vals = vec![true, false];
    let arr: SafeArray = vals.try_into().unwrap();

    assert_eq!(arr.get_var_type().unwrap(), VT_BOOL);

    assert_eq!(show(&arr), "[true, false]");

    let vals: Vec<bool> = arr.try_into().unwrap();
    assert_eq!(vals.len(), 2);
    assert!(vals[0]);
    assert!(!vals[1]);
}

#[test]
fn booleans_are_stored_as_all_ones_and_zero() {
    let arr = SafeArray::try_from(vec![true, false, true]).unwrap();
    assert_eq!(arr.into_vector::<i16>(VT_BOOL).unwrap(), vec![-1, 0, -1]);
    assert_eq!(
        *arr.get_array().unwrap(),
        vec![Cell::Bits(0xffff), Cell::Bits(0), Cell::Bits(0xffff)]
    );
    // Anything but zero reads as true.
    let odd = SafeArray::from_vector(VT_BOOL, &vec![1i16, 0, -1, 256]).unwrap();
    assert_eq!(Vec::<bool>::try_from(&odd).unwrap(), vec![true, false, true, true]);
    assert_eq!(show(&odd), "[true, false, true, true]");
    let ints = SafeArray::from_vector(VT_I2, &vec![1i16]).unwrap();
    assert_eq!(Vec::<bool>::try_from(&ints), Err(Error::TypeError));
    assert_eq!(Vec::<bool>::try_from(SafeArray::null(true)), Err(Error::NullPointer));
}

#[test]
fn vectors_of_every_type_round_trip() {
    fn check<T: Element + Clone + PartialEq + std::fmt::Debug>(vt: i32, items: Vec<T>) {
        let arr = SafeArray::from_vector(vt, &items).unwrap();
        assert!(arr.is_owned());
        assert!(!arr.is_null());
        assert_eq!(arr.get_var_type(), Ok(vt));
        assert_eq!(arr.get_dim(), 1);
        assert_eq!(arr.get_lower_bound(1), Ok(0));
        assert_eq!(arr.get_upper_bound(1), Ok(items.len() as i32 - 1));
        assert_eq!(arr.into_vector::<T>(vt).unwrap(), items);
        for (i, item) in items.iter().enumerate() {
            assert_eq!(arr.get_element::<T>(i as i32).unwrap(), *item);
        }
    }
    check::<i8>(VT_I1, vec![i8::MIN, -1, 0, 1, i8::MAX]);
    check::<i16>(VT_I2, vec![i16::MIN, -1, 0, 1, i16::MAX]);
    check::<i32>(VT_I4, vec![i32::MIN, -1, 0, 1, i32::MAX]);
    check::<i32>(VT_INT, vec![i32::MIN, -1, 0, 1, i32::MAX]);
    check::<i64>(VT_I8, vec![i64::MIN, -1, 0, 1, i64::MAX]);
    check::<u8>(VT_UI1, vec![0, 1, u8::MAX]);
    check::<u16>(VT_UI2, vec![0, 1, u16::MAX]);
    check::<u32>(VT_UI4, vec![0, 1, u32::MAX]);
    check::<u32>(VT_UINT, vec![0, 1, u32::MAX]);
    check::<u64>(VT_UI8, vec![0, 1, u64::MAX]);
    check::<u32>(VT_R4, vec![1.5f32.to_bits(), (-0.0f32).to_bits(), f32::INFINITY.to_bits()]);
    check::<u64>(VT_R8, vec![1.5f64.to_bits(), f64::NAN.to_bits()]);
    check::<i64>(VT_CY, vec![-10000, 10000]);
    check::<u64>(VT_DATE, vec![45000.25f64.to_bits()]);
    check::<i32>(VT_ERROR, vec![DISP_E_BADINDEX]);
    check::<String>(VT_BSTR, vec!["a".to_string(), String::new(), "b c".to_string()]);
    check::<usize>(VT_UNKNOWN, vec![0x1000, 0, 0x2000]);
    check::<usize>(VT_DISPATCH, vec![0x1000]);
    check::<i8>(VT_I1, vec![]);
}

#[test]
fn an_empty_vector_has_its_upper_bound_below_the_lower() {
    let arr = SafeArray::from_vector::<i32>(VT_I4, &vec![]).unwrap();
    assert_eq!(arr.get_dim(), 1);
    assert_eq!(arr.get_lower_bound(1), Ok(0));
    assert_eq!(arr.get_upper_bound(1), Ok(-1));
    assert_eq!(arr.into_vector::<i32>(VT_I4), Ok(vec![]));
    assert_eq!(show(&arr), "[]");
    assert_eq!(arr.get_element::<i32>(0), Err(Error::ExternalError(DISP_E_BADINDEX)));
    // With no element to read or write, the element type is never met.
    assert_eq!(arr.into_vector::<i8>(VT_I4), Ok(vec![]));
    assert!(SafeArray::from_vector::<i8>(VT_I4, &vec![]).is_ok());
}

#[test]
fn type_mismatch_is_a_type_error() {
    let arr = SafeArray::from_vector(VT_I1, &vec![1i8, 2, 3]).unwrap();
    // An expected tag that is not the array's.
    assert_eq!(arr.into_vector::<i8>(VT_UI1), Err(Error::TypeError));
    assert_eq!(arr.into_vector::<i8>(VT_I2), Err(Error::TypeError));
    assert_eq!(arr.into_vector::<i16>(VT_I2), Err(Error::TypeError));
    assert_eq!(arr.into_vector::<i8>(VT_I1 + 0x10000), Err(Error::TypeError));
    assert_eq!(arr.into_string_vector(), Err(Error::TypeError));
    assert_eq!(arr.into_interface_vector(), Err(Error::TypeError));
    assert_eq!(Vec::<i32>::try_from(&arr), Err(Error::TypeError));
    assert_eq!(Vec::<u32>::try_from(&arr), Err(Error::TypeError));
    // An element type that the tag does not admit.
    assert_eq!(arr.into_vector::<i32>(VT_I1), Err(Error::TypeError));
    assert_eq!(arr.into_vector::<String>(VT_I1), Err(Error::TypeError));
    assert_eq!(arr.get_element::<i16>(0), Err(Error::TypeError));
    assert_eq!(arr.get_element::<usize>(0), Err(Error::TypeError));
    assert_eq!(arr.get_interface(0), Err(Error::TypeError));
    assert_eq!(SafeArray::from_vector(VT_I1, &vec![1i32]), Err(Error::TypeError));
    assert_eq!(SafeArray::from_vector(VT_BSTR, &vec![1i32]), Err(Error::TypeError));
    // A type of the same width is admitted: the bytes are the same.
    assert_eq!(arr.into_vector::<u8>(VT_I1), Ok(vec![1u8, 2, 3]));
    let neg = SafeArray::from_vector(VT_I1, &vec![-1i8]).unwrap();
    assert_eq!(neg.get_element::<u8>(0), Ok(255));
}

#[test]
fn machine_integer_tags_are_read_as_32_bit() {
    let a = SafeArray::from_vector(VT_INT, &vec![-1i32, 2]).unwrap();
    assert_eq!(Vec::<i32>::try_from(&a), Ok(vec![-1, 2]));
    let a = SafeArray::from_vector(VT_I4, &vec![-1i32, 2]).unwrap();
    assert_eq!(Vec::<i32>::try_from(&a), Ok(vec![-1, 2]));
    let a = SafeArray::from_vector(VT_UINT, &vec![1u32, 2]).unwrap();
    assert_eq!(Vec::<u32>::try_from(&a), Ok(vec![1, 2]));
    let a = SafeArray::from_vector(VT_UI4, &vec![1u32, 2]).unwrap();
    assert_eq!(Vec::<u32>::try_from(&a), Ok(vec![1, 2]));
    assert_eq!(Vec::<i32>::try_from(&a), Err(Error::TypeError));
    assert_eq!(Vec::<i32>::try_from(SafeArray::null(true)), Err(Error::NullPointer));
    assert_eq!(Vec::<u32>::try_from(SafeArray::null(true)), Err(Error::NullPointer));
}

#[test]
fn new_vector_is_blank_with_lower_bound_zero() {
    let a = SafeArray::new_vector(VT_I4, 3).unwrap();
    assert!(a.is_owned());
    assert_eq!(a.get_var_type(), Ok(VT_I4));
    assert_eq!(a.get_dim(), 1);
    assert_eq!(a.get_lower_bound(1), Ok(0));
    assert_eq!(a.get_upper_bound(1), Ok(2));
    assert_eq!(a.into_vector::<i32>(VT_I4), Ok(vec![0, 0, 0]));
    let s = SafeArray::new_vector(VT_BSTR, 2).unwrap();
    assert_eq!(s.into_string_vector(), Ok(vec![String::new(), String::new()]));
    let h = SafeArray::new_vector(VT_DISPATCH, 1).unwrap();
    assert_eq!(h.get_element::<usize>(0), Ok(0));
    assert_eq!(h.get_interface(0), Err(Error::NullPointer));
    // Of the tag number the first 16 bits count.
    let c = SafeArray::new_vector(VT_I2 + 0x30000, 1).unwrap();
    assert_eq!(c.get_var_type(), Ok(VT_I2));
    let n = SafeArray::new_vector(-1, 1);
    assert_eq!(n, Err(Error::NullPointer));
    // No array is made of these.
    for vt in [VT_EMPTY, VT_LPWSTR, 26, 27, 0x2003, 0xffff] {
        assert_eq!(SafeArray::new_vector(vt, 1), Err(Error::NullPointer));
        assert!(!can_store(vt));
    }
    assert_eq!(SafeArray::new_vector(VT_UI1, 0x8000_0001), Err(Error::NullPointer));
    assert_eq!(SafeArray::new_vector(VT_UI1, u32::MAX), Err(Error::NullPointer));
    assert_eq!(SafeArray::from_vector(VT_EMPTY, &vec![1i32]), Err(Error::NullPointer));
}

#[test]
fn elements_are_written_and_read_by_index() {
    let mut a = SafeArray::new_vector(VT_I2, 3).unwrap();
    assert_eq!(a.put_element(0, -5i16), Ok(()));
    assert_eq!(a.put_element(2, 7i16), Ok(()));
    assert_eq!(a.get_element::<i16>(0), Ok(-5));
    assert_eq!(a.get_element::<i16>(1), Ok(0));
    assert_eq!(a.get_element::<i16>(2), Ok(7));
    assert_eq!(a.into_vector::<i16>(VT_I2), Ok(vec![-5, 0, 7]));
    // Outside the bounds, and the array is as before.
    assert_eq!(a.put_element(3, 1i16), Err(Error::ExternalError(DISP_E_BADINDEX)));
    assert_eq!(a.put_element(-1, 1i16), Err(Error::ExternalError(DISP_E_BADINDEX)));
    assert_eq!(a.get_element::<i16>(3), Err(Error::ExternalError(DISP_E_BADINDEX)));
    assert_eq!(a.get_element::<i16>(-1), Err(Error::ExternalError(DISP_E_BADINDEX)));
    assert_eq!(a.get_element::<i16>(i32::MIN), Err(Error::ExternalError(DISP_E_BADINDEX)));
    assert_eq!(a.get_element::<i16>(i32::MAX), Err(Error::ExternalError(DISP_E_BADINDEX)));
    assert_eq!(a.put_element(0, 1i32), Err(Error::TypeError));
    assert_eq!(a.put_element(0, String::from("x")), Err(Error::TypeError));
    assert_eq!(a.into_vector::<i16>(VT_I2), Ok(vec![-5, 0, 7]));
    let mut s = SafeArray::new_vector(VT_BSTR, 1).unwrap();
    assert_eq!(s.put_element(0, String::from("text")), Ok(()));
    assert_eq!(s.get_element::<String>(0), Ok(String::from("text")));
    let mut n = SafeArray::null(true);
    assert_eq!(n.put_element(0, 1i16), Err(Error::NullPointer));
    assert_eq!(n.get_element::<i16>(0), Err(Error::NullPointer));
}

#[test]
fn bounds_need_not_start_at_zero() {
    let cells = vec![Cell::Bits(10), Cell::Bits(20), Cell::Bits(30)];
    let mut a =
        SafeArray::from_parts(0x1000, VT_UI1 as u16, vec![Bound { lower: -1, count: 3 }], cells, false).unwrap();
    assert!(!a.is_owned());
    assert_eq!(a.get_lower_bound(1), Ok(-1));
    assert_eq!(a.get_upper_bound(1), Ok(1));
    assert_eq!(a.get_element::<u8>(-1), Ok(10));
    assert_eq!(a.get_element::<u8>(0), Ok(20));
    assert_eq!(a.get_element::<u8>(1), Ok(30));
    assert_eq!(a.get_element::<u8>(2), Err(Error::ExternalError(DISP_E_BADINDEX)));
    assert_eq!(a.get_element::<u8>(-2), Err(Error::ExternalError(DISP_E_BADINDEX)));
    assert_eq!(a.put_element(1, 31u8), Ok(()));
    assert_eq!(a.into_vector::<u8>(VT_UI1), Ok(vec![10, 20, 31]));
    assert_eq!(show(&a), "[10, 20, 31]");
    let top = SafeArray::from_parts(0x1000, VT_UI1 as u16,
        vec![Bound { lower: i32::MAX, count: 1 }],
        vec![Cell::Bits(1)],
        true,
    )
    .unwrap();
    assert_eq!(top.get_upper_bound(1), Ok(i32::MAX));
    assert_eq!(top.get_element::<u8>(i32::MAX), Ok(1));
    let low = SafeArray::from_parts(0x1000, VT_UI1 as u16,
        vec![Bound { lower: i32::MIN, count: 2 }],
        vec![Cell::Bits(1), Cell::Bits(2)],
        true,
    )
    .unwrap();
    assert_eq!(low.get_element::<u8>(i32::MIN + 1), Ok(2));
}

#[test]
fn bound_queries_count_dimensions_from_one() {
    let cells: Vec<Cell> = (0..6).map(|i| Cell::Bits(i)).collect();
    let a = SafeArray::from_parts(0x1000, VT_I4 as u16,
        vec![Bound { lower: 1, count: 2 }, Bound { lower: -3, count: 3 }],
        cells,
        true,
    )
    .unwrap();
    assert_eq!(a.get_dim(), 2);
    assert_eq!(a.get_lower_bound(1), Ok(1));
    assert_eq!(a.get_upper_bound(1), Ok(2));
    assert_eq!(a.get_lower_bound(2), Ok(-3));
    assert_eq!(a.get_upper_bound(2), Ok(-1));
    assert_eq!(a.get_lower_bound(0), Err(Error::ExternalError(DISP_E_BADINDEX)));
    assert_eq!(a.get_upper_bound(3), Err(Error::ExternalError(DISP_E_BADINDEX)));
    // An array of two dimensions is no vector.
    assert_eq!(a.into_vector::<i32>(VT_I4), Err(Error::TypeError));
    assert_eq!(Vec::<i32>::try_from(&a), Err(Error::TypeError));
    assert_eq!(a.get_element::<i32>(1), Err(Error::ExternalError(DISP_E_BADINDEX)));
    assert!(a.fmt().is_none());
    assert_eq!(a.get_array().unwrap().len(), 6);
    let n = SafeArray::null(false);
    assert_eq!(n.get_dim(), 0);
    assert_eq!(n.get_var_type(), Err(Error::NullPointer));
    assert_eq!(n.get_lower_bound(1), Err(Error::NullPointer));
    assert_eq!(n.get_upper_bound(1), Err(Error::NullPointer));
    assert_eq!(n.into_vector::<i32>(VT_I4), Err(Error::NullPointer));
    assert_eq!(n.into_interface_vector(), Err(Error::NullPointer));
    assert!(n.get_array().is_none());
    assert!(n.fmt().is_none());
    assert!(n.is_null());
}

#[test]
fn parts_must_make_a_well_formed_buffer() {
    let one = || vec![Bound { lower: 0, count: 1 }];
    assert!(SafeArray::from_parts(0x1000, VT_I1 as u16, one(), vec![Cell::Bits(0xff)], true).is_ok());
    // A scalar must lie within the width of the tag.
    assert_eq!(SafeArray::from_parts(0x1000, VT_I1 as u16, one(), vec![Cell::Bits(0x100)], true), Err(Error::TypeError));
    assert_eq!(SafeArray::from_parts(0x1000, VT_I2 as u16, one(), vec![Cell::Bits(0x1_0000)], true), Err(Error::TypeError));
    assert_eq!(SafeArray::from_parts(0x1000, VT_I4 as u16, one(), vec![Cell::Bits(1 << 32)], true), Err(Error::TypeError));
    assert!(SafeArray::from_parts(0x1000, VT_I8 as u16, one(), vec![Cell::Bits(u64::MAX)], true).is_ok());
    // A cell must be of the tag's kind.
    assert_eq!(SafeArray::from_parts(0x1000, VT_I4 as u16, one(), vec![Cell::Text("x".into())], true), Err(Error::TypeError));
    assert_eq!(SafeArray::from_parts(0x1000, VT_BSTR as u16, one(), vec![Cell::Object(1)], true), Err(Error::TypeError));
    assert_eq!(SafeArray::from_parts(0x1000, VT_UNKNOWN as u16, one(), vec![Cell::Bits(1)], true), Err(Error::TypeError));
    assert!(fits(VT_BSTR, &Cell::Text("x".into())));
    assert!(fits(VT_DISPATCH, &Cell::Object(0)));
    assert!(!fits(VT_EMPTY, &Cell::Bits(0)));
    // As many cells as the dimensions span.
    assert_eq!(SafeArray::from_parts(0x1000, VT_I1 as u16, one(), vec![], true), Err(Error::TypeError));
    assert_eq!(SafeArray::from_parts(0x1000, VT_I1 as u16, one(), vec![Cell::Bits(0), Cell::Bits(0)], true), Err(Error::TypeError));
    let flat = vec![
        Bound { lower: 0, count: 5 },
        Bound { lower: 0, count: 0 },
        Bound { lower: 0, count: 0x8000_0000 },
    ];
    assert!(SafeArray::from_parts(0x1000, VT_I1 as u16, flat, vec![], true).is_ok());
    let huge = vec![Bound { lower: 0, count: 0x8000_0000 }; 4];
    assert_eq!(SafeArray::from_parts(0x1000, VT_I1 as u16, huge, vec![], true), Err(Error::TypeError));
    // At least one dimension, each with bounds that can be told.
    assert_eq!(SafeArray::from_parts(0x1000, VT_I1 as u16, vec![], vec![Cell::Bits(0)], true), Err(Error::TypeError));
    assert_eq!(
        SafeArray::from_parts(0x1000, VT_I1 as u16, vec![Bound { lower: i32::MAX, count: 2 }], vec![Cell::Bits(0), Cell::Bits(0)], true),
        Err(Error::TypeError)
    );
    assert_eq!(
        SafeArray::from_parts(0x1000, VT_I1 as u16, vec![Bound { lower: i32::MIN, count: 0 }], vec![], true),
        Err(Error::TypeError)
    );
    // An element tag of which an array can be made.
    assert_eq!(SafeArray::from_parts(0x1000, VT_VARIANT as u16, one(), vec![Cell::Bits(0)], true), Err(Error::TypeError));
    assert_eq!(SafeArray::from_parts(0x1000, 0xffff, one(), vec![Cell::Bits(0)], true), Err(Error::TypeError));
}

#[test]
fn interface_vectors() {
    let a = SafeArray::from_vector(VT_UNKNOWN, &vec![0x10usize, 0x20]).unwrap();
    let handles = a.into_interface_vector().unwrap();
    assert_eq!(handles.len(), 2);
    assert_eq!(handles[0].addr(), 0x10);
    assert_eq!(handles[1], Handle::new(0x20).unwrap());
    assert_eq!(a.get_interface(1).unwrap().addr(), 0x20);
    assert_eq!(a.get_interface(2), Err(Error::ExternalError(DISP_E_BADINDEX)));
    let d = SafeArray::from_vector(VT_DISPATCH, &vec![0x30usize]).unwrap();
    assert_eq!(d.into_interface_vector().unwrap()[0].addr(), 0x30);
    // A null handle among them.
    let n = SafeArray::from_vector(VT_DISPATCH, &vec![0x30usize, 0, 0x40]).unwrap();
    assert_eq!(n.into_interface_vector(), Err(Error::NullPointer));
    assert_eq!(n.get_interface(0).unwrap().addr(), 0x30);
    assert_eq!(n.get_interface(1), Err(Error::NullPointer));
    // Neither of the two handle tags.
    let s = SafeArray::from_string_vector(&vec!["x".to_string()]).unwrap();
    assert_eq!(s.into_interface_vector(), Err(Error::TypeError));
    let e = SafeArray::from_vector::<usize>(VT_UNKNOWN, &vec![]).unwrap();
    assert_eq!(e.into_interface_vector(), Ok(vec![]));
    assert!(e.fmt().is_none());
}

#[test]
fn string_vectors() {
    let src = vec!["one".to_string(), "".to_string(), "three, four".to_string()];
    let a = SafeArray::from_string_vector(&src).unwrap();
    assert_eq!(a.get_var_type(), Ok(VT_BSTR));
    assert_eq!(a.into_string_vector(), Ok(src));
    assert_eq!(show(&a), "[one, , three, four]");
}

#[test]
fn lists_of_every_listable_tag() {
    assert_eq!(show(&SafeArray::from_vector(VT_I1, &vec![-128i8, 0, 127]).unwrap()), "[-128, 0, 127]");
    assert_eq!(show(&SafeArray::from_vector(VT_I2, &vec![-1i16]).unwrap()), "[-1]");
    assert_eq!(show(&SafeArray::from_vector(VT_I4, &vec![i32::MIN, 5]).unwrap()), "[-2147483648, 5]");
    assert_eq!(show(&SafeArray::from_vector(VT_INT, &vec![-7i32]).unwrap()), "[-7]");
    assert_eq!(show(&SafeArray::from_vector(VT_I8, &vec![i64::MIN]).unwrap()), "[-9223372036854775808]");
    assert_eq!(show(&SafeArray::from_vector(VT_UI1, &vec![255u8]).unwrap()), "[255]");
    assert_eq!(show(&SafeArray::from_vector(VT_UI2, &vec![65535u16]).unwrap()), "[65535]");
    assert_eq!(show(&SafeArray::from_vector(VT_UI4, &vec![u32::MAX]).unwrap()), "[4294967295]");
    assert_eq!(show(&SafeArray::from_vector(VT_UINT, &vec![3u32, 4]).unwrap()), "[3, 4]");
    assert_eq!(show(&SafeArray::from_vector(VT_UI8, &vec![u64::MAX]).unwrap()), "[18446744073709551615]");
    let r4 = vec![1.5f32.to_bits(), (-2.0f32).to_bits()];
    assert_eq!(show(&SafeArray::from_vector(VT_R4, &r4).unwrap()), "[1.5, -2]");
    let r8 = vec![0.1f64.to_bits(), 1e21f64.to_bits()];
    assert_eq!(show(&SafeArray::from_vector(VT_R8, &r8).unwrap()), format!("[{}, {}]", 0.1f64, 1e21f64));
    // Tags that have no list.
    assert!(SafeArray::from_vector(VT_CY, &vec![1i64]).unwrap().fmt().is_none());
    assert!(SafeArray::from_vector(VT_DATE, &vec![1u64]).unwrap().fmt().is_none());
    assert!(SafeArray::from_vector(VT_ERROR, &vec![1i32]).unwrap().fmt().is_none());
    assert!(SafeArray::from_vector(VT_DISPATCH, &vec![1usize]).unwrap().fmt().is_none());
}

#[test]
fn a_duplicate_has_the_same_elements_and_flag() {
    let owned = SafeArray::from_vector(VT_I4, &vec![1i32, 2]).unwrap();
    let mut copy = owned.clone();
    assert!(copy.is_owned());
    assert_eq!(copy, owned);
    // The copy is deep: writing to it leaves the source as it was.
    copy.put_element(0, 9i32).unwrap();
    assert_eq!(copy.into_vector::<i32>(VT_I4), Ok(vec![9, 2]));
    assert_eq!(owned.into_vector::<i32>(VT_I4), Ok(vec![1, 2]));
    let view = owned.borrowed();
    assert!(!view.is_owned());
    let again = view.clone();
    assert!(!again.is_owned());
    assert_eq!(again, view);
    assert_eq!(again.into_vector::<i32>(VT_I4), Ok(vec![1, 2]));
    assert!(SafeArray::null(true).clone().is_null());
    assert!(SafeArray::null(true).clone().is_owned());
    assert!(!SafeArray::null(false).clone().is_owned());
}

#[test]
fn a_duplicate_lies_in_the_same_buffer_or_in_another() {
    let cells = || vec![Cell::Bits(1), Cell::Bits(2)];
    let one = || vec![Bound { lower: 0, count: 2 }];
    // An owned array at an address of the runtime: the duplicate is a deep copy,
    // in a buffer of its own.
    let owned = SafeArray::from_parts(0x5000, VT_UI1 as u16, one(), cells(), true).unwrap();
    assert_eq!(owned.get_address(), 0x5000);
    let copy = owned.clone();
    assert!(copy.is_owned());
    assert_ne!(copy.get_address(), owned.get_address());
    assert_eq!(copy.get_address(), 0);
    assert_eq!(copy.into_vector::<u8>(VT_UI1), Ok(vec![1, 2]));
    assert_ne!(copy, owned);
    // An array that is not owned: the duplicate is the same buffer, not owned.
    let shared = SafeArray::from_parts(0x5000, VT_UI1 as u16, one(), cells(), false).unwrap();
    let again = shared.clone();
    assert!(!again.is_owned());
    assert_eq!(again.get_address(), 0x5000);
    assert_eq!(again, shared);
    // A view is the same buffer.
    let view = owned.borrowed();
    assert_eq!(view.get_address(), 0x5000);
    assert!(!view.is_owned());
    assert_eq!(view, shared);
    // A holder that takes the array over holds the same buffer.
    let taken = shared.clone().taken_over();
    assert!(taken.is_owned());
    assert_eq!(taken, owned);
    // An array that the library made lies in no buffer of the runtime until it
    // is placed in one.
    let made = SafeArray::from_vector(VT_UI1, &vec![1u8, 2]).unwrap();
    assert_eq!(made.get_address(), 0);
    let placed = made.placed_at(0x5000);
    assert_eq!(placed, owned);
    assert_eq!(SafeArray::null(true).get_address(), 0);
    assert!(SafeArray::null(true).placed_at(0x10).is_null());
    assert_eq!(SafeArray::null(true).placed_at(0x10).get_address(), 0);
    // A write leaves the array in its buffer.
    let mut written = shared.clone();
    written.put_element(1, 7u8).unwrap();
    assert_eq!(written.get_address(), 0x5000);
}

#[test]
fn cells_of_values() {
    assert_eq!((-1i8).to_cell(), Cell::Bits(0xff));
    assert_eq!((-1i16).to_cell(), Cell::Bits(0xffff));
    assert_eq!((-1i32).to_cell(), Cell::Bits(0xffff_ffff));
    assert_eq!((-1i64).to_cell(), Cell::Bits(u64::MAX));
    assert_eq!(7u8.to_cell(), Cell::Bits(7));
    assert_eq!(7usize.to_cell(), Cell::Object(7));
    assert_eq!(String::from("s").to_cell(), Cell::Text("s".into()));
    assert_eq!(<i8 as Element>::from_cell(&Cell::Bits(0x80)), -128);
    assert_eq!(<i16 as Element>::from_cell(&Cell::Bits(0x8000)), i16::MIN);
    assert_eq!(<i32 as Element>::from_cell(&Cell::Bits(0x8000_0000)), i32::MIN);
    assert_eq!(<i64 as Element>::from_cell(&Cell::Bits(1 << 63)), i64::MIN);
    assert_eq!(<u16 as Element>::from_cell(&Cell::Bits(0x1_2345)), 0x2345);
    assert_eq!(<u32 as Element>::from_cell(&Cell::Bits(9)), 9);
    assert_eq!(<u64 as Element>::from_cell(&Cell::Bits(9)), 9);
    assert_eq!(<u8 as Element>::from_cell(&Cell::Text("x".into())), 0);
    assert_eq!(<String as Element>::from_cell(&Cell::Bits(1)), "");
    assert_eq!(<usize as Element>::from_cell(&Cell::Bits(1)), 0);
    assert!(<i8 as Element>::accepts(VT_UI1) && !<i8 as Element>::accepts(VT_I2));
    assert!(<i16 as Element>::accepts(VT_BOOL) && <u16 as Element>::accepts(VT_I2));
    assert!(<u32 as Element>::accepts(VT_R4) && <i32 as Element>::accepts(VT_UINT));
    assert!(<u64 as Element>::accepts(VT_R8) && <i64 as Element>::accepts(VT_UI8));
    assert!(<String as Element>::accepts(VT_BSTR) && !<String as Element>::accepts(VT_LPWSTR));
    assert!(<usize as Element>::accepts(VT_UNKNOWN) && !<usize as Element>::accepts(VT_I8));
}

#[test]
fn vectors_become_arrays_under_the_tag_of_their_type() {
    fn check<T: Element + Clone + PartialEq + std::fmt::Debug>(vt: i32, items: Vec<T>) {
        assert_eq!(T::default_tag(), vt);
        assert_eq!(T::expected(vt), vt);
        assert_eq!(T::expected(VT_EMPTY), vt);
        let by_ref = SafeArray::try_from(&items).unwrap();
        assert_eq!(by_ref.get_var_type(), Ok(vt));
        assert_eq!(Vec::<T>::try_from(&by_ref).unwrap(), items);
        let by_value: SafeArray = items.clone().try_into().unwrap();
        assert_eq!(by_value, by_ref);
        let back: Vec<T> = by_value.try_into().unwrap();
        assert_eq!(back, items);
    }
    check::<i8>(VT_I1, vec![-1, 0, 1]);
    check::<i16>(VT_I2, vec![-1, 0, 1]);
    check::<i32>(VT_I4, vec![-1, 0, 1]);
    check::<i64>(VT_I8, vec![-1, 0, 1]);
    check::<u8>(VT_UI1, vec![0, 1]);
    check::<u16>(VT_UI2, vec![0, 1]);
    check::<u32>(VT_UI4, vec![0, 1]);
    check::<u64>(VT_UI8, vec![0, 1]);
    check::<String>(VT_BSTR, vec!["a".to_string(), "b".to_string()]);
    check::<usize>(VT_UNKNOWN, vec![0x10, 0x20]);
    assert_eq!(<i32 as Element>::expected(VT_INT), VT_INT);
    assert_eq!(<u32 as Element>::expected(VT_UINT), VT_UINT);
    assert_eq!(<usize as Element>::expected(VT_DISPATCH), VT_DISPATCH);
    assert_eq!(<i32 as Element>::expected(VT_UINT), VT_I4);
    // An array of another element tag is not read as the type.
    let bytes = SafeArray::try_from(vec![1u8, 2]).unwrap();
    assert_eq!(Vec::<i8>::try_from(&bytes), Err(Error::TypeError));
    assert_eq!(Vec::<u16>::try_from(&bytes), Err(Error::TypeError));
    assert_eq!(Vec::<String>::try_from(bytes), Err(Error::TypeError));
    assert_eq!(Vec::<u8>::try_from(SafeArray::null(false)), Err(Error::NullPointer));
    let reals = SafeArray::from_vector(VT_R4, &vec![1.0f32.to_bits()]).unwrap();
    assert_eq!(Vec::<u32>::try_from(&reals), Err(Error::TypeError));
    assert_eq!(reals.into_vector::<u32>(VT_R4), Ok(vec![1.0f32.to_bits()]));
}

#[test]
fn storage_order_varies_the_first_dimension_fastest() {
    let bounds = vec![Bound { lower: 1, count: 2 }, Bound { lower: -3, count: 3 }];
    let expected = [[1, -3], [2, -3], [1, -2], [2, -2], [1, -1], [2, -1]];
    for (position, indices) in expected.iter().enumerate() {
        assert_eq!(indices_at(&bounds, position), Some(indices.to_vec()));
    }
    assert_eq!(indices_at(&bounds, 6), None);
    assert_eq!(indices_at(&bounds, usize::MAX), None);
    let cells: Vec<Cell> = (0..6).map(|i| Cell::Bits(i)).collect();
    let a = SafeArray::from_parts(0x1000, VT_I4 as u16, bounds, cells, true).unwrap();
    assert_eq!(a.indices_at(0), Some(vec![1, -3]));
    assert_eq!(a.indices_at(5), Some(vec![2, -1]));
    assert_eq!(a.indices_at(6), None);
    assert_eq!(SafeArray::null(true).indices_at(0), None);
    // One dimension: the index is the lower bound and the position.
    let line = vec![Bound { lower: 10, count: 4 }];
    assert_eq!(indices_at(&line, 3), Some(vec![13]));
    assert_eq!(indices_at(&line, 4), None);
    // No dimension spans no element, and neither does an empty one.
    assert_eq!(indices_at(&vec![], 0), Some(vec![]));
    assert_eq!(indices_at(&vec![], 1), None);
    assert_eq!(indices_at(&vec![Bound { lower: 0, count: 0 }], 0), None);
    // Bounds that cannot be told.
    assert_eq!(indices_at(&vec![Bound { lower: i32::MAX, count: 2 }], 0), None);
    let three = vec![
        Bound { lower: 0, count: 2 },
        Bound { lower: 0, count: 3 },
        Bound { lower: 0, count: 4 },
    ];
    assert_eq!(indices_at(&three, 23), Some(vec![1, 2, 3]));
    assert_eq!(indices_at(&three, 7), Some(vec![1, 0, 1]));
}

#[test]
fn a_dimension_between_two_indices() {
    assert_eq!(Bound::between(0, 2), Some(Bound { lower: 0, count: 3 }));
    assert_eq!(Bound::between(-5, -5), Some(Bound { lower: -5, count: 1 }));
    assert_eq!(Bound::between(7, 6), Some(Bound { lower: 7, count: 0 }));
    assert_eq!(Bound::between(7, 5), None);
    assert_eq!(Bound::between(i32::MIN, i32::MAX), None);
    assert_eq!(
        Bound::between(i32::MIN + 1, i32::MAX),
        Some(Bound { lower: i32::MIN + 1, count: u32::MAX })
    );
    assert_eq!(Bound::between(i32::MIN, i32::MIN), Some(Bound { lower: i32::MIN, count: 1 }));
}

#[test]
fn dimensions_span_the_product_of_their_counts() {
    let b = |count: u32| Bound { lower: 0, count };
    assert_eq!(span(&vec![]), Some(1));
    assert_eq!(span(&vec![b(5)]), Some(5));
    assert_eq!(span(&vec![b(2), b(3), b(4)]), Some(24));
    assert_eq!(span(&vec![b(2), b(0), b(4)]), Some(0));
    assert_eq!(span(&vec![b(u32::MAX), b(u32::MAX), b(0)]), Some(0));
    assert_eq!(span(&vec![b(u32::MAX), b(u32::MAX), b(u32::MAX)]), None);
    let a = SafeArray::new_vector(VT_I2, 4).unwrap();
    assert_eq!(a.get_bounds(), Some(&vec![Bound { lower: 0, count: 4 }]));
    assert_eq!(SafeArray::null(true).get_bounds(), None);
}

#[test]
fn arrays_of_decimals() {
    let d = |lo64: u64| Decimal { scale: 2, sign: 0, hi32: 0, lo64 };
    let blank = SafeArray::new_vector(VT_DECIMAL, 2).unwrap();
    let zero = Decimal { scale: 0, sign: 0, hi32: 0, lo64: 0 };
    assert_eq!(blank.into_vector::<Decimal>(VT_DECIMAL), Ok(vec![zero, zero]));
    let a = SafeArray::from_vector(VT_DECIMAL, &vec![d(150), d(275)]).unwrap();
    assert_eq!(a.get_var_type(), Ok(VT_DECIMAL));
    assert_eq!(a.get_element::<Decimal>(1), Ok(d(275)));
    assert_eq!(a.into_vector::<Decimal>(VT_DECIMAL), Ok(vec![d(150), d(275)]));
    assert_eq!(Vec::<Decimal>::try_from(&a), Ok(vec![d(150), d(275)]));
    assert_eq!(SafeArray::try_from(vec![d(1)]).unwrap().get_var_type(), Ok(VT_DECIMAL));
    assert_eq!(a.get_element::<i64>(0), Err(Error::TypeError));
    assert_eq!(*a.get_array().unwrap(), vec![Cell::Decimal(d(150)), Cell::Decimal(d(275))]);
    assert!(a.fmt().is_none());
    assert!(fits(VT_DECIMAL, &Cell::Decimal(d(1))));
    assert!(!fits(VT_I8, &Cell::Decimal(d(1))));
    assert!(can_store(VT_DECIMAL) && can_store(VT_VARIANT));
}

#[test]
fn arrays_of_dynamic_values() {
    let mut a = SafeArray::new_vector(VT_VARIANT, 3).unwrap();
    assert_eq!(a.get_var_type(), Ok(VT_VARIANT));
    // A new array holds empty values.
    assert_eq!(a.get_variant(0), Ok(Variant::default()));
    assert_eq!(a.put_variant(0, &Variant::from(Value::I4(-7))), Ok(()));
    assert_eq!(a.put_variant(1, &Variant::from(Value::STRING("text".into()))), Ok(()));
    let inner = SafeArray::from_parts(
        0x9000,
        VT_UI1 as u16,
        vec![Bound { lower: 0, count: 2 }],
        vec![Cell::Bits(1), Cell::Bits(2)],
        true,
    )
    .unwrap();
    let holder = Variant::from(Value::SAFEARRAY(inner));
    assert_eq!(a.put_variant(2, &holder), Ok(()));
    assert_eq!(a.get_variant(0).unwrap().get_value().unwrap(), Value::I4(-7));
    assert_eq!(a.get_variant(1).unwrap().get_string().unwrap(), "text");
    // What is written and what is read is a deep copy: the array in it lies in
    // another buffer.
    let read = a.get_variant(2).unwrap();
    assert_eq!(read.get_array().unwrap().get_address(), 0);
    assert_eq!(read.get_array().unwrap().into_vector::<u8>(VT_UI1), Ok(vec![1, 2]));
    assert_eq!(holder.get_array().unwrap().get_address(), 0x9000);
    assert_eq!(a.get_variant(3), Err(Error::ExternalError(DISP_E_BADINDEX)));
    assert_eq!(a.put_variant(-1, &holder), Err(Error::ExternalError(DISP_E_BADINDEX)));
    assert_eq!(a.get_element::<i32>(0), Err(Error::TypeError));
    let ints = SafeArray::new_vector(VT_I4, 1).unwrap();
    assert_eq!(ints.get_variant(0), Err(Error::TypeError));
    assert_eq!(SafeArray::null(true).get_variant(0), Err(Error::NullPointer));
    let mut none = SafeArray::null(true);
    assert_eq!(none.put_variant(0, &holder), Err(Error::NullPointer));
    assert!(a.fmt().is_none());
    // The array is carried in a dynamic value and handed out as a view.
    let outer = Variant::from(Value::SAFEARRAY(a.clone()));
    let view = outer.get_array().unwrap();
    assert_eq!(view.get_variant(0).unwrap().get_value().unwrap(), Value::I4(-7));
    // Cells of dynamic values from parts.
    let cells = vec![Cell::Nested(Variant::from(Value::BOOL(true)))];
    let made =
        SafeArray::from_parts(0x10, VT_VARIANT as u16, vec![Bound { lower: 5, count: 1 }], cells, false)
            .unwrap();
    assert_eq!(made.get_variant(5).unwrap().get_value().unwrap(), Value::BOOL(true));
    assert_eq!(
        SafeArray::from_parts(
            0x10,
            VT_I4 as u16,
            vec![Bound { lower: 0, count: 1 }],
            vec![Cell::Nested(Variant::default())],
            true
        ),
        Err(Error::TypeError)
    );
}

#[test]
fn counted_references_of_a_value() {
    let handles = SafeArray::from_vector(VT_UNKNOWN, &vec![0x10usize, 0, 0x20, 0x10]).unwrap();
    assert_eq!(handles.references(), vec![0x10, 0x20, 0x10]);
    // A view holds none of its own: they are its owner's.
    assert_eq!(handles.borrowed().references(), Vec::<usize>::new());
    assert_eq!(SafeArray::null(true).references(), Vec::<usize>::new());
    let ints = SafeArray::from_vector(VT_I4, &vec![1i32]).unwrap();
    assert_eq!(ints.references(), Vec::<usize>::new());
    let object = Variant::new(VT_DISPATCH as u16, Payload::Object(0x30)).unwrap();
    assert_eq!(object.references(), vec![0x30]);
    let null = Variant::new(VT_DISPATCH as u16, Payload::Object(0)).unwrap();
    assert_eq!(null.references(), Vec::<usize>::new());
    assert_eq!(Variant::from(Value::I4(1)).references(), Vec::<usize>::new());
    let holder = Variant::from(Value::ARRAY(handles.clone()));
    assert_eq!(holder.references(), vec![0x10, 0x20, 0x10]);
    let nested = Variant::from(Value::VARIANT(holder.clone()));
    assert_eq!(nested.references(), vec![0x10, 0x20, 0x10]);
    // Through cells of dynamic values.
    let mut values = SafeArray::new_vector(VT_VARIANT, 3).unwrap();
    values.put_variant(0, &object).unwrap();
    values.put_variant(2, &holder).unwrap();
    assert_eq!(values.references(), vec![0x30, 0x10, 0x20, 0x10]);
    // A duplicate holds counted copies of the same.
    assert_eq!(values.clone().references(), values.references());
    assert_eq!(nested.clone().references(), nested.references());
    // What a dynamic value decomposes into.
    assert_eq!(object.get_value().unwrap().references(), vec![0x30]);
    assert_eq!(nested.get_value().unwrap().references(), vec![0x10, 0x20, 0x10]);
    assert_eq!(holder.get_value().unwrap().references(), Vec::<usize>::new());
    assert_eq!(Value::UNKNOWN(Handle::new(0x40).unwrap()).references(), vec![0x40]);
    assert_eq!(Value::SAFEARRAY(handles).references(), vec![0x10, 0x20, 0x10]);
    assert_eq!(Value::NULL.references(), Vec::<usize>::new());
}

#[test]
fn vectors_of_dynamic_values() {
    let values = vec![
        Variant::from(Value::I4(1)),
        Variant::from(Value::STRING("two".into())),
        Variant::from(Value::BOOL(true)),
    ];
    let a = SafeArray::from_variant_vector(&values).unwrap();
    assert!(a.is_owned());
    assert_eq!(a.get_var_type(), Ok(VT_VARIANT));
    assert_eq!(a.get_dim(), 1);
    assert_eq!(a.get_lower_bound(1), Ok(0));
    assert_eq!(a.get_upper_bound(1), Ok(2));
    assert_eq!(a.into_variant_vector(), Ok(values));
    assert_eq!(SafeArray::from_variant_vector(&vec![]).unwrap().into_variant_vector(), Ok(vec![]));
    let ints = SafeArray::new_vector(VT_I4, 1).unwrap();
    assert_eq!(ints.into_variant_vector(), Err(Error::TypeError));
    assert_eq!(SafeArray::null(true).into_variant_vector(), Err(Error::NullPointer));
    let cells: Vec<Cell> = (0..4).map(|_| Cell::Nested(Variant::default())).collect();
    let square = SafeArray::from_parts(
        0,
        VT_VARIANT as u16,
        vec![Bound { lower: 0, count: 2 }, Bound { lower: 0, count: 2 }],
        cells,
        true,
    )
    .unwrap();
    assert_eq!(square.into_variant_vector(), Err(Error::TypeError));
}

#[test]
fn a_write_through_a_view_is_seen_by_the_owner() {
    let cells = vec![Cell::Bits(1), Cell::Bits(2)];
    let bounds = vec![Bound { lower: 0, count: 2 }];
    let mut owner = SafeArray::from_parts(0x6000, VT_UI1 as u16, bounds, cells, true).unwrap();
    let mut view = owner.borrowed();
    view.put_element(1, 9u8).unwrap();
    // The owner holds what the buffer held when it was read, until it follows.
    assert_eq!(owner.get_element::<u8>(1), Ok(2));
    assert!(owner.follow(&view));
    assert_eq!(owner.get_element::<u8>(1), Ok(9));
    assert!(owner.is_owned());
    assert_eq!(owner.get_address(), 0x6000);
    // An array in another buffer is not followed.
    let mut other = SafeArray::from_vector(VT_UI1, &vec![5u8, 6]).unwrap();
    assert!(!other.follow(&view));
    assert_eq!(other.into_vector::<u8>(VT_UI1), Ok(vec![5, 6]));
    let mut copy = owner.clone();
    assert!(!copy.follow(&view));
    assert!(!view.follow(&SafeArray::null(true)));
    let mut null = SafeArray::null(false);
    assert!(!null.follow(&view));
    // A view follows its owner too, and stays a view.
    owner.put_element(0, 7u8).unwrap();
    assert!(view.follow(&owner));
    assert!(!view.is_owned());
    assert_eq!(view.into_vector::<u8>(VT_UI1), Ok(vec![7, 9]));
}
