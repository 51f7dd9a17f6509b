use drm_fourcc::consts;
use drm_fourcc::{fourcc_string_form, DrmFormat, UnrecognizedFourcc};

const SOME_FORMATS: [DrmFormat; 8] = [
    DrmFormat::Xrgb8888,
    DrmFormat::Bgr888,
    DrmFormat::Ayuv,
    DrmFormat::Nv12,
    DrmFormat::Yvu444,
    DrmFormat::Xvyu12_16161616,
    DrmFormat::Yuv420_8bit,
    DrmFormat::Abgr16161616f,
];

#[test]
fn round_trip_through_number() {
    for f in SOME_FORMATS {
        assert_eq!(DrmFormat::try_from(f.as_u32()), Ok(f));
        assert_eq!(DrmFormat::from_u32(f.as_u32()), Some(f));
    }
}

#[test]
fn every_listed_format_has_four_characters() {
    for f in SOME_FORMATS {
        assert_eq!(f.string_form().chars().count(), 4);
    }
}

#[test]
fn decode_is_total_at_the_extremes() {
    assert_eq!(DrmFormat::try_from(0), Err(UnrecognizedFourcc(0)));
    assert_eq!(DrmFormat::try_from(u32::MAX), Err(UnrecognizedFourcc(u32::MAX)));
    assert_eq!(DrmFormat::from_u32(0), None);
}

#[test]
fn zero_is_unrecognized_and_has_no_text() {
    let err = DrmFormat::try_from(0).unwrap_err();
    assert_eq!(err.0, 0);
    assert_eq!(fourcc_string_form(0), None);
    assert_eq!(err.string_form(), None);
}

#[test]
fn known_values_decode() {
    let xr24 = DrmFormat::try_from(875713112).unwrap();
    assert_eq!(xr24, DrmFormat::Xrgb8888);
    assert_eq!(xr24.string_form(), "XR24");
    let bg24 = DrmFormat::try_from(875710274).unwrap();
    assert_eq!(bg24, DrmFormat::Bgr888);
    assert_eq!(bg24.string_form(), "BG24");
    assert_eq!(DrmFormat::Ayuv.as_u32(), consts::DRM_FOURCC_AYUV);
}

#[test]
fn trailing_null_renders_as_space() {
    assert_eq!(fourcc_string_form(0x316376), Some("vc1 ".to_string()));
}

#[test]
fn invalid_bytes_have_no_text() {
    // a space among the first three bytes
    assert_eq!(fourcc_string_form(0x31637620), None);
    // a null among the first three bytes
    assert_eq!(fourcc_string_form(0x31006376), None);
    // a space as the last byte
    assert_eq!(fourcc_string_form(0x20316376), None);
    // a byte above ASCII, first and last
    assert_eq!(fourcc_string_form(0x316376ff), None);
    assert_eq!(fourcc_string_form(0xff316376), None);
    assert_eq!(fourcc_string_form(u32::MAX), None);
}

#[test]
fn unrecognized_string_forms() {
    assert_eq!(UnrecognizedFourcc(42).0, 42);
    assert_eq!(
        UnrecognizedFourcc(828601953).string_form(),
        Some("avc1".to_string())
    );
    assert_eq!(UnrecognizedFourcc(0).string_form(), None);
}

#[test]
fn unrecognized_display_numbers() {
    assert_eq!(
        UnrecognizedFourcc(u32::MAX).display_string(),
        "UnrecognizedFourcc(4294967295)"
    );
    assert_eq!(
        UnrecognizedFourcc(10).display_string(),
        "UnrecognizedFourcc(10)"
    );
    assert_eq!(
        UnrecognizedFourcc(0x316376).display_string(),
        "UnrecognizedFourcc(\"vc1 \", 3236726)"
    );
}

#[test]
fn format_display() {
    assert_eq!(DrmFormat::Xrgb8888.display_string(), "DrmFormat(\"XR24\")");
    assert_eq!(DrmFormat::Nv12.display_string(), "DrmFormat(\"NV12\")");
}

#[test]
fn decode_results_are_values() {
    let a = DrmFormat::try_from(875713112);
    let b = DrmFormat::try_from(875713112);
    assert_eq!(a, b);
    let c = a;
    assert_eq!(a, c);
    let e1 = DrmFormat::try_from(828601953);
    let e2 = e1.clone();
    assert_eq!(e1, e2);
}
