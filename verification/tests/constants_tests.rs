use variants::vartype;
use windows::Win32::Foundation;
use windows::Win32::System::Ole;

#[test]
fn tags_are_those_of_the_runtime() {
    assert_eq!(vartype::VT_EMPTY, Ole::VT_EMPTY.0);
    assert_eq!(vartype::VT_NULL, Ole::VT_NULL.0);
    assert_eq!(vartype::VT_I2, Ole::VT_I2.0);
    assert_eq!(vartype::VT_I4, Ole::VT_I4.0);
    assert_eq!(vartype::VT_R4, Ole::VT_R4.0);
    assert_eq!(vartype::VT_R8, Ole::VT_R8.0);
    assert_eq!(vartype::VT_CY, Ole::VT_CY.0);
    assert_eq!(vartype::VT_DATE, Ole::VT_DATE.0);
    assert_eq!(vartype::VT_BSTR, Ole::VT_BSTR.0);
    assert_eq!(vartype::VT_DISPATCH, Ole::VT_DISPATCH.0);
    assert_eq!(vartype::VT_ERROR, Ole::VT_ERROR.0);
    assert_eq!(vartype::VT_BOOL, Ole::VT_BOOL.0);
    assert_eq!(vartype::VT_VARIANT, Ole::VT_VARIANT.0);
    assert_eq!(vartype::VT_UNKNOWN, Ole::VT_UNKNOWN.0);
    assert_eq!(vartype::VT_DECIMAL, Ole::VT_DECIMAL.0);
    assert_eq!(vartype::VT_I1, Ole::VT_I1.0);
    assert_eq!(vartype::VT_UI1, Ole::VT_UI1.0);
    assert_eq!(vartype::VT_UI2, Ole::VT_UI2.0);
    assert_eq!(vartype::VT_UI4, Ole::VT_UI4.0);
    assert_eq!(vartype::VT_I8, Ole::VT_I8.0);
    assert_eq!(vartype::VT_UI8, Ole::VT_UI8.0);
    assert_eq!(vartype::VT_INT, Ole::VT_INT.0);
    assert_eq!(vartype::VT_UINT, Ole::VT_UINT.0);
    assert_eq!(vartype::VT_VOID, Ole::VT_VOID.0);
    assert_eq!(vartype::VT_HRESULT, Ole::VT_HRESULT.0);
    assert_eq!(vartype::VT_SAFEARRAY, Ole::VT_SAFEARRAY.0);
    assert_eq!(vartype::VT_LPSTR, Ole::VT_LPSTR.0);
    assert_eq!(vartype::VT_LPWSTR, Ole::VT_LPWSTR.0);
    assert_eq!(vartype::VT_ARRAY, Ole::VT_ARRAY.0);
}

#[test]
fn bad_index_status_is_that_of_the_runtime() {
    assert_eq!(vartype::DISP_E_BADINDEX, Foundation::DISP_E_BADINDEX.0);
    assert_eq!(vartype::DISP_E_BADINDEX as u32, 0x8002_000b);
}

#[test]
fn booleans_of_the_runtime() {
    assert_eq!(vartype::VARIANT_TRUE, -1);
    assert_eq!(vartype::VARIANT_FALSE, 0);
    assert_eq!(vartype::VARIANT_TRUE as u16, 0xffff);
}

#[test]
fn tag_classes() {
    for vt in 0..=0xffffi32 {
        assert_eq!(
            vartype::is_null_tag(vt),
            vt == Ole::VT_EMPTY.0 || vt == Ole::VT_NULL.0 || vt == Ole::VT_VOID.0
        );
        assert_eq!(
            vartype::is_string_tag(vt),
            vt == Ole::VT_BSTR.0 || vt == Ole::VT_LPWSTR.0 || vt == Ole::VT_LPSTR.0
        );
        assert_eq!(vartype::is_array_tag(vt), vt == Ole::VT_SAFEARRAY.0 || vt == Ole::VT_ARRAY.0);
        assert_eq!(vartype::is_handle_tag(vt), vt == Ole::VT_UNKNOWN.0 || vt == Ole::VT_DISPATCH.0);
    }
    assert_eq!(vartype::width_of(vartype::VT_I1), Some(1));
    assert_eq!(vartype::width_of(vartype::VT_BOOL), Some(2));
    assert_eq!(vartype::width_of(vartype::VT_ERROR), Some(4));
    assert_eq!(vartype::width_of(vartype::VT_DATE), Some(8));
    assert_eq!(vartype::width_of(vartype::VT_BSTR), None);
    assert_eq!(vartype::tag_shape(vartype::VT_LPSTR), vartype::Shape::Text);
    assert_eq!(vartype::tag_shape(vartype::VT_UNKNOWN), vartype::Shape::Object);
    assert_eq!(vartype::tag_shape(vartype::VT_VARIANT), vartype::Shape::Nested);
    assert_eq!(vartype::tag_shape(vartype::VT_DECIMAL), vartype::Shape::Decimal);
    assert_eq!(vartype::tag_shape(vartype::VT_ARRAY), vartype::Shape::Array);
    assert_eq!(vartype::tag_shape(26), vartype::Shape::Scalar);
}
