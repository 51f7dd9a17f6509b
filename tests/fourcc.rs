use drm_fourcc::consts;
use drm_fourcc::{fourcc_string_form, DrmFormat, UnrecognizedFourcc};

#[test]
fn a_specific_var_has_correct_value() {
    assert_eq!(consts::DRM_FOURCC_AYUV, 1448433985);
}

#[test]
fn enum_member_casts_to_const() {
    assert_eq!(
        DrmFormat::Xrgb8888.as_u32(),
        consts::DRM_FOURCC_XRGB8888 as u32
    );
}

#[test]
fn enum_member_has_correct_string_format() {
    assert_eq!(DrmFormat::Xrgb8888.string_form(), "XR24");
}

#[test]
fn fourcc_string_form_handles_valid() {
    assert_eq!(fourcc_string_form(875713112).unwrap(), "XR24");
    assert_eq!(fourcc_string_form(828601953).unwrap(), "avc1");
    assert_eq!(fourcc_string_form(0x316376).unwrap(), "vc1 ");
}

#[test]
fn unrecognized_handles_valid_fourcc() {
    assert_eq!(
        UnrecognizedFourcc(828601953).display_string(),
        "UnrecognizedFourcc(\"avc1\", 828601953)"
    );
}

#[test]
fn unrecognized_handles_invalid_fourcc() {
    assert_eq!(
        UnrecognizedFourcc(0).display_string(),
        "UnrecognizedFourcc(0)"
    );
}

#[test]
fn can_clone_result() {
    let a = DrmFormat::try_from(0);
    let b = a;
    assert_eq!(a, b);
}
