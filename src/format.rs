//! The closed set of recognised pixel formats and its numeric codec.
use vstd::prelude::*;

use crate::consts;
use crate::fourcc::{fourcc_string_form, fourcc_text, renderable};
use crate::text::push_char;
use crate::unrecognized::UnrecognizedFourcc;

verus! {

/// A pixel format that the Direct Rendering Manager recognises, named after
/// the layout of its components.
#[derive(Clone, Copy, Debug, PartialEq, Eq, Structural, Hash)]
#[allow(non_camel_case_types)]
pub enum DrmFormat {
    /// `XR12`
    Xrgb4444,
    /// `XB12`
    Xbgr4444,
    /// `RX12`
    Rgbx4444,
    /// `BX12`
    Bgrx4444,
    /// `AR12`
    Argb4444,
    /// `AB12`
    Abgr4444,
    /// `RA12`
    Rgba4444,
    /// `BA12`
    Bgra4444,
    /// `XR15`
    Xrgb1555,
    /// `XB15`
    Xbgr1555,
    /// `RX15`
    Rgbx5551,
    /// `BX15`
    Bgrx5551,
    /// `AR15`
    Argb1555,
    /// `AB15`
    Abgr1555,
    /// `RA15`
    Rgba5551,
    /// `BA15`
    Bgra5551,
    /// `RG16`
    Rgb565,
    /// `BG16`
    Bgr565,
    /// `RG24`
    Rgb888,
    /// `BG24`
    Bgr888,
    /// `XR24`
    Xrgb8888,
    /// `XB24`
    Xbgr8888,
    /// `RX24`
    Rgbx8888,
    /// `BX24`
    Bgrx8888,
    /// `AR24`
    Argb8888,
    /// `AB24`
    Abgr8888,
    /// `RA24`
    Rgba8888,
    /// `BA24`
    Bgra8888,
    /// `XR30`
    Xrgb2101010,
    /// `XB30`
    Xbgr2101010,
    /// `RX30`
    Rgbx1010102,
    /// `BX30`
    Bgrx1010102,
    /// `AR30`
    Argb2101010,
    /// `AB30`
    Abgr2101010,
    /// `RA30`
    Rgba1010102,
    /// `BA30`
    Bgra1010102,
    /// `XR4H`
    Xrgb16161616f,
    /// `XB4H`
    Xbgr16161616f,
    /// `AR4H`
    Argb16161616f,
    /// `AB4H`
    Abgr16161616f,
    /// `RG88`
    Rg88,
    /// `GR88`
    Gr88,
    /// `RG32`
    Rg1616,
    /// `GR32`
    Gr1616,
    /// `RGB8`
    Rgb332,
    /// `BGR8`
    Bgr233,
    /// `YUYV`
    Yuyv,
    /// `YVYU`
    Yvyu,
    /// `UYVY`
    Uyvy,
    /// `VYUY`
    Vyuy,
    /// `AYUV`
    Ayuv,
    /// `XYUV`
    Xyuv8888,
    /// `VU24`
    Vuy888,
    /// `VU30`
    Vuy101010,
    /// `Y210`
    Y210,
    /// `Y212`
    Y212,
    /// `Y216`
    Y216,
    /// `Y410`
    Y410,
    /// `Y412`
    Y412,
    /// `Y416`
    Y416,
    /// `XV30`
    Xvyu2101010,
    /// `XV36`
    Xvyu12_16161616,
    /// `XV48`
    Xvyu16161616,
    /// `Y0L0`
    Y0l0,
    /// `X0L0`
    X0l0,
    /// `Y0L2`
    Y0l2,
    /// `X0L2`
    X0l2,
    /// `YU08`
    Yuv420_8bit,
    /// `YU10`
    Yuv420_10bit,
    /// `XRA8`
    Xrgb8888_a8,
    /// `XBA8`
    Xbgr8888_a8,
    /// `RXA8`
    Rgbx8888_a8,
    /// `BXA8`
    Bgrx8888_a8,
    /// `R8A8`
    Rgb888_a8,
    /// `B8A8`
    Bgr888_a8,
    /// `R5A8`
    Rgb565_a8,
    /// `B5A8`
    Bgr565_a8,
    /// `NV12`
    Nv12,
    /// `NV21`
    Nv21,
    /// `NV16`
    Nv16,
    /// `NV61`
    Nv61,
    /// `NV24`
    Nv24,
    /// `NV42`
    Nv42,
    /// `P210`
    P210,
    /// `P010`
    P010,
    /// `P012`
    P012,
    /// `P016`
    P016,
    /// `YUV9`
    Yuv410,
    /// `YVU9`
    Yvu410,
    /// `YU11`
    Yuv411,
    /// `YV11`
    Yvu411,
    /// `YU12`
    Yuv420,
    /// `YV12`
    Yvu420,
    /// `YU16`
    Yuv422,
    /// `YV16`
    Yvu422,
    /// `YU24`
    Yuv444,
    /// `YV24`
    Yvu444,
}

impl DrmFormat {
    /// The numeric fourcc of the format.
    pub open spec fn value(self) -> u32 {
        match self {
            DrmFormat::Xrgb4444 => consts::DRM_FOURCC_XRGB4444,
            DrmFormat::Xbgr4444 => consts::DRM_FOURCC_XBGR4444,
            DrmFormat::Rgbx4444 => consts::DRM_FOURCC_RGBX4444,
            DrmFormat::Bgrx4444 => consts::DRM_FOURCC_BGRX4444,
            DrmFormat::Argb4444 => consts::DRM_FOURCC_ARGB4444,
            DrmFormat::Abgr4444 => consts::DRM_FOURCC_ABGR4444,
            DrmFormat::Rgba4444 => consts::DRM_FOURCC_RGBA4444,
            DrmFormat::Bgra4444 => consts::DRM_FOURCC_BGRA4444,
            DrmFormat::Xrgb1555 => consts::DRM_FOURCC_XRGB1555,
            DrmFormat::Xbgr1555 => consts::DRM_FOURCC_XBGR1555,
            DrmFormat::Rgbx5551 => consts::DRM_FOURCC_RGBX5551,
            DrmFormat::Bgrx5551 => consts::DRM_FOURCC_BGRX5551,
            DrmFormat::Argb1555 => consts::DRM_FOURCC_ARGB1555,
            DrmFormat::Abgr1555 => consts::DRM_FOURCC_ABGR1555,
            DrmFormat::Rgba5551 => consts::DRM_FOURCC_RGBA5551,
            DrmFormat::Bgra5551 => consts::DRM_FOURCC_BGRA5551,
            DrmFormat::Rgb565 => consts::DRM_FOURCC_RGB565,
            DrmFormat::Bgr565 => consts::DRM_FOURCC_BGR565,
            DrmFormat::Rgb888 => consts::DRM_FOURCC_RGB888,
            DrmFormat::Bgr888 => consts::DRM_FOURCC_BGR888,
            DrmFormat::Xrgb8888 => consts::DRM_FOURCC_XRGB8888,
            DrmFormat::Xbgr8888 => consts::DRM_FOURCC_XBGR8888,
            DrmFormat::Rgbx8888 => consts::DRM_FOURCC_RGBX8888,
            DrmFormat::Bgrx8888 => consts::DRM_FOURCC_BGRX8888,
            DrmFormat::Argb8888 => consts::DRM_FOURCC_ARGB8888,
            DrmFormat::Abgr8888 => consts::DRM_FOURCC_ABGR8888,
            DrmFormat::Rgba8888 => consts::DRM_FOURCC_RGBA8888,
            DrmFormat::Bgra8888 => consts::DRM_FOURCC_BGRA8888,
            DrmFormat::Xrgb2101010 => consts::DRM_FOURCC_XRGB2101010,
            DrmFormat::Xbgr2101010 => consts::DRM_FOURCC_XBGR2101010,
            DrmFormat::Rgbx1010102 => consts::DRM_FOURCC_RGBX1010102,
            DrmFormat::Bgrx1010102 => consts::DRM_FOURCC_BGRX1010102,
            DrmFormat::Argb2101010 => consts::DRM_FOURCC_ARGB2101010,
            DrmFormat::Abgr2101010 => consts::DRM_FOURCC_ABGR2101010,
            DrmFormat::Rgba1010102 => consts::DRM_FOURCC_RGBA1010102,
            DrmFormat::Bgra1010102 => consts::DRM_FOURCC_BGRA1010102,
            DrmFormat::Xrgb16161616f => consts::DRM_FOURCC_XRGB16161616F,
            DrmFormat::Xbgr16161616f => consts::DRM_FOURCC_XBGR16161616F,
            DrmFormat::Argb16161616f => consts::DRM_FOURCC_ARGB16161616F,
            DrmFormat::Abgr16161616f => consts::DRM_FOURCC_ABGR16161616F,
            DrmFormat::Rg88 => consts::DRM_FOURCC_RG88,
            DrmFormat::Gr88 => consts::DRM_FOURCC_GR88,
            DrmFormat::Rg1616 => consts::DRM_FOURCC_RG1616,
            DrmFormat::Gr1616 => consts::DRM_FOURCC_GR1616,
            DrmFormat::Rgb332 => consts::DRM_FOURCC_RGB332,
            DrmFormat::Bgr233 => consts::DRM_FOURCC_BGR233,
            DrmFormat::Yuyv => consts::DRM_FOURCC_YUYV,
            DrmFormat::Yvyu => consts::DRM_FOURCC_YVYU,
            DrmFormat::Uyvy => consts::DRM_FOURCC_UYVY,
            DrmFormat::Vyuy => consts::DRM_FOURCC_VYUY,
            DrmFormat::Ayuv => consts::DRM_FOURCC_AYUV,
            DrmFormat::Xyuv8888 => consts::DRM_FOURCC_XYUV8888,
            DrmFormat::Vuy888 => consts::DRM_FOURCC_VUY888,
            DrmFormat::Vuy101010 => consts::DRM_FOURCC_VUY101010,
            DrmFormat::Y210 => consts::DRM_FOURCC_Y210,
            DrmFormat::Y212 => consts::DRM_FOURCC_Y212,
            DrmFormat::Y216 => consts::DRM_FOURCC_Y216,
            DrmFormat::Y410 => consts::DRM_FOURCC_Y410,
            DrmFormat::Y412 => consts::DRM_FOURCC_Y412,
            DrmFormat::Y416 => consts::DRM_FOURCC_Y416,
            DrmFormat::Xvyu2101010 => consts::DRM_FOURCC_XVYU2101010,
            DrmFormat::Xvyu12_16161616 => consts::DRM_FOURCC_XVYU12_16161616,
            DrmFormat::Xvyu16161616 => consts::DRM_FOURCC_XVYU16161616,
            DrmFormat::Y0l0 => consts::DRM_FOURCC_Y0L0,
            DrmFormat::X0l0 => consts::DRM_FOURCC_X0L0,
            DrmFormat::Y0l2 => consts::DRM_FOURCC_Y0L2,
            DrmFormat::X0l2 => consts::DRM_FOURCC_X0L2,
            DrmFormat::Yuv420_8bit => consts::DRM_FOURCC_YUV420_8BIT,
            DrmFormat::Yuv420_10bit => consts::DRM_FOURCC_YUV420_10BIT,
            DrmFormat::Xrgb8888_a8 => consts::DRM_FOURCC_XRGB8888_A8,
            DrmFormat::Xbgr8888_a8 => consts::DRM_FOURCC_XBGR8888_A8,
            DrmFormat::Rgbx8888_a8 => consts::DRM_FOURCC_RGBX8888_A8,
            DrmFormat::Bgrx8888_a8 => consts::DRM_FOURCC_BGRX8888_A8,
            DrmFormat::Rgb888_a8 => consts::DRM_FOURCC_RGB888_A8,
            DrmFormat::Bgr888_a8 => consts::DRM_FOURCC_BGR888_A8,
            DrmFormat::Rgb565_a8 => consts::DRM_FOURCC_RGB565_A8,
            DrmFormat::Bgr565_a8 => consts::DRM_FOURCC_BGR565_A8,
            DrmFormat::Nv12 => consts::DRM_FOURCC_NV12,
            DrmFormat::Nv21 => consts::DRM_FOURCC_NV21,
            DrmFormat::Nv16 => consts::DRM_FOURCC_NV16,
            DrmFormat::Nv61 => consts::DRM_FOURCC_NV61,
            DrmFormat::Nv24 => consts::DRM_FOURCC_NV24,
            DrmFormat::Nv42 => consts::DRM_FOURCC_NV42,
            DrmFormat::P210 => consts::DRM_FOURCC_P210,
            DrmFormat::P010 => consts::DRM_FOURCC_P010,
            DrmFormat::P012 => consts::DRM_FOURCC_P012,
            DrmFormat::P016 => consts::DRM_FOURCC_P016,
            DrmFormat::Yuv410 => consts::DRM_FOURCC_YUV410,
            DrmFormat::Yvu410 => consts::DRM_FOURCC_YVU410,
            DrmFormat::Yuv411 => consts::DRM_FOURCC_YUV411,
            DrmFormat::Yvu411 => consts::DRM_FOURCC_YVU411,
            DrmFormat::Yuv420 => consts::DRM_FOURCC_YUV420,
            DrmFormat::Yvu420 => consts::DRM_FOURCC_YVU420,
            DrmFormat::Yuv422 => consts::DRM_FOURCC_YUV422,
            DrmFormat::Yvu422 => consts::DRM_FOURCC_YVU422,
            DrmFormat::Yuv444 => consts::DRM_FOURCC_YUV444,
            DrmFormat::Yvu444 => consts::DRM_FOURCC_YVU444,
        }
    }

    /// The numeric fourcc of the format.
    pub fn as_u32(&self) -> (r: u32)
        ensures
            r == self.value(),
    {
        match self {
            DrmFormat::Xrgb4444 => consts::DRM_FOURCC_XRGB4444,
            DrmFormat::Xbgr4444 => consts::DRM_FOURCC_XBGR4444,
            DrmFormat::Rgbx4444 => consts::DRM_FOURCC_RGBX4444,
            DrmFormat::Bgrx4444 => consts::DRM_FOURCC_BGRX4444,
            DrmFormat::Argb4444 => consts::DRM_FOURCC_ARGB4444,
            DrmFormat::Abgr4444 => consts::DRM_FOURCC_ABGR4444,
            DrmFormat::Rgba4444 => consts::DRM_FOURCC_RGBA4444,
            DrmFormat::Bgra4444 => consts::DRM_FOURCC_BGRA4444,
            DrmFormat::Xrgb1555 => consts::DRM_FOURCC_XRGB1555,
            DrmFormat::Xbgr1555 => consts::DRM_FOURCC_XBGR1555,
            DrmFormat::Rgbx5551 => consts::DRM_FOURCC_RGBX5551,
            DrmFormat::Bgrx5551 => consts::DRM_FOURCC_BGRX5551,
            DrmFormat::Argb1555 => consts::DRM_FOURCC_ARGB1555,
            DrmFormat::Abgr1555 => consts::DRM_FOURCC_ABGR1555,
            DrmFormat::Rgba5551 => consts::DRM_FOURCC_RGBA5551,
            DrmFormat::Bgra5551 => consts::DRM_FOURCC_BGRA5551,
            DrmFormat::Rgb565 => consts::DRM_FOURCC_RGB565,
            DrmFormat::Bgr565 => consts::DRM_FOURCC_BGR565,
            DrmFormat::Rgb888 => consts::DRM_FOURCC_RGB888,
            DrmFormat::Bgr888 => consts::DRM_FOURCC_BGR888,
            DrmFormat::Xrgb8888 => consts::DRM_FOURCC_XRGB8888,
            DrmFormat::Xbgr8888 => consts::DRM_FOURCC_XBGR8888,
            DrmFormat::Rgbx8888 => consts::DRM_FOURCC_RGBX8888,
            DrmFormat::Bgrx8888 => consts::DRM_FOURCC_BGRX8888,
            DrmFormat::Argb8888 => consts::DRM_FOURCC_ARGB8888,
            DrmFormat::Abgr8888 => consts::DRM_FOURCC_ABGR8888,
            DrmFormat::Rgba8888 => consts::DRM_FOURCC_RGBA8888,
            DrmFormat::Bgra8888 => consts::DRM_FOURCC_BGRA8888,
            DrmFormat::Xrgb2101010 => consts::DRM_FOURCC_XRGB2101010,
            DrmFormat::Xbgr2101010 => consts::DRM_FOURCC_XBGR2101010,
            DrmFormat::Rgbx1010102 => consts::DRM_FOURCC_RGBX1010102,
            DrmFormat::Bgrx1010102 => consts::DRM_FOURCC_BGRX1010102,
            DrmFormat::Argb2101010 => consts::DRM_FOURCC_ARGB2101010,
            DrmFormat::Abgr2101010 => consts::DRM_FOURCC_ABGR2101010,
            DrmFormat::Rgba1010102 => consts::DRM_FOURCC_RGBA1010102,
            DrmFormat::Bgra1010102 => consts::DRM_FOURCC_BGRA1010102,
            DrmFormat::Xrgb16161616f => consts::DRM_FOURCC_XRGB16161616F,
            DrmFormat::Xbgr16161616f => consts::DRM_FOURCC_XBGR16161616F,
            DrmFormat::Argb16161616f => consts::DRM_FOURCC_ARGB16161616F,
            DrmFormat::Abgr16161616f => consts::DRM_FOURCC_ABGR16161616F,
            DrmFormat::Rg88 => consts::DRM_FOURCC_RG88,
            DrmFormat::Gr88 => consts::DRM_FOURCC_GR88,
            DrmFormat::Rg1616 => consts::DRM_FOURCC_RG1616,
            DrmFormat::Gr1616 => consts::DRM_FOURCC_GR1616,
            DrmFormat::Rgb332 => consts::DRM_FOURCC_RGB332,
            DrmFormat::Bgr233 => consts::DRM_FOURCC_BGR233,
            DrmFormat::Yuyv => consts::DRM_FOURCC_YUYV,
            DrmFormat::Yvyu => consts::DRM_FOURCC_YVYU,
            DrmFormat::Uyvy => consts::DRM_FOURCC_UYVY,
            DrmFormat::Vyuy => consts::DRM_FOURCC_VYUY,
            DrmFormat::Ayuv => consts::DRM_FOURCC_AYUV,
            DrmFormat::Xyuv8888 => consts::DRM_FOURCC_XYUV8888,
            DrmFormat::Vuy888 => consts::DRM_FOURCC_VUY888,
            DrmFormat::Vuy101010 => consts::DRM_FOURCC_VUY101010,
            DrmFormat::Y210 => consts::DRM_FOURCC_Y210,
            DrmFormat::Y212 => consts::DRM_FOURCC_Y212,
            DrmFormat::Y216 => consts::DRM_FOURCC_Y216,
            DrmFormat::Y410 => consts::DRM_FOURCC_Y410,
            DrmFormat::Y412 => consts::DRM_FOURCC_Y412,
            DrmFormat::Y416 => consts::DRM_FOURCC_Y416,
            DrmFormat::Xvyu2101010 => consts::DRM_FOURCC_XVYU2101010,
            DrmFormat::Xvyu12_16161616 => consts::DRM_FOURCC_XVYU12_16161616,
            DrmFormat::Xvyu16161616 => consts::DRM_FOURCC_XVYU16161616,
            DrmFormat::Y0l0 => consts::DRM_FOURCC_Y0L0,
            DrmFormat::X0l0 => consts::DRM_FOURCC_X0L0,
            DrmFormat::Y0l2 => consts::DRM_FOURCC_Y0L2,
            DrmFormat::X0l2 => consts::DRM_FOURCC_X0L2,
            DrmFormat::Yuv420_8bit => consts::DRM_FOURCC_YUV420_8BIT,
            DrmFormat::Yuv420_10bit => consts::DRM_FOURCC_YUV420_10BIT,
            DrmFormat::Xrgb8888_a8 => consts::DRM_FOURCC_XRGB8888_A8,
            DrmFormat::Xbgr8888_a8 => consts::DRM_FOURCC_XBGR8888_A8,
            DrmFormat::Rgbx8888_a8 => consts::DRM_FOURCC_RGBX8888_A8,
            DrmFormat::Bgrx8888_a8 => consts::DRM_FOURCC_BGRX8888_A8,
            DrmFormat::Rgb888_a8 => consts::DRM_FOURCC_RGB888_A8,
            DrmFormat::Bgr888_a8 => consts::DRM_FOURCC_BGR888_A8,
            DrmFormat::Rgb565_a8 => consts::DRM_FOURCC_RGB565_A8,
            DrmFormat::Bgr565_a8 => consts::DRM_FOURCC_BGR565_A8,
            DrmFormat::Nv12 => consts::DRM_FOURCC_NV12,
            DrmFormat::Nv21 => consts::DRM_FOURCC_NV21,
            DrmFormat::Nv16 => consts::DRM_FOURCC_NV16,
            DrmFormat::Nv61 => consts::DRM_FOURCC_NV61,
            DrmFormat::Nv24 => consts::DRM_FOURCC_NV24,
            DrmFormat::Nv42 => consts::DRM_FOURCC_NV42,
            DrmFormat::P210 => consts::DRM_FOURCC_P210,
            DrmFormat::P010 => consts::DRM_FOURCC_P010,
            DrmFormat::P012 => consts::DRM_FOURCC_P012,
            DrmFormat::P016 => consts::DRM_FOURCC_P016,
            DrmFormat::Yuv410 => consts::DRM_FOURCC_YUV410,
            DrmFormat::Yvu410 => consts::DRM_FOURCC_YVU410,
            DrmFormat::Yuv411 => consts::DRM_FOURCC_YUV411,
            DrmFormat::Yvu411 => consts::DRM_FOURCC_YVU411,
            DrmFormat::Yuv420 => consts::DRM_FOURCC_YUV420,
            DrmFormat::Yvu420 => consts::DRM_FOURCC_YVU420,
            DrmFormat::Yuv422 => consts::DRM_FOURCC_YUV422,
            DrmFormat::Yvu422 => consts::DRM_FOURCC_YVU422,
            DrmFormat::Yuv444 => consts::DRM_FOURCC_YUV444,
            DrmFormat::Yvu444 => consts::DRM_FOURCC_YVU444,
        }
    }

    /// The format whose numeric fourcc is `value`, if any.
    pub fn from_u32(value: u32) -> (r: Option<DrmFormat>)
        ensures
            match r {
                Some(f) => f.value() == value,
                None => !recognized(value),
            },
    {
        match value {
            consts::DRM_FOURCC_XRGB4444 => Some(DrmFormat::Xrgb4444),
            consts::DRM_FOURCC_XBGR4444 => Some(DrmFormat::Xbgr4444),
            consts::DRM_FOURCC_RGBX4444 => Some(DrmFormat::Rgbx4444),
            consts::DRM_FOURCC_BGRX4444 => Some(DrmFormat::Bgrx4444),
            consts::DRM_FOURCC_ARGB4444 => Some(DrmFormat::Argb4444),
            consts::DRM_FOURCC_ABGR4444 => Some(DrmFormat::Abgr4444),
            consts::DRM_FOURCC_RGBA4444 => Some(DrmFormat::Rgba4444),
            consts::DRM_FOURCC_BGRA4444 => Some(DrmFormat::Bgra4444),
            consts::DRM_FOURCC_XRGB1555 => Some(DrmFormat::Xrgb1555),
            consts::DRM_FOURCC_XBGR1555 => Some(DrmFormat::Xbgr1555),
            consts::DRM_FOURCC_RGBX5551 => Some(DrmFormat::Rgbx5551),
            consts::DRM_FOURCC_BGRX5551 => Some(DrmFormat::Bgrx5551),
            consts::DRM_FOURCC_ARGB1555 => Some(DrmFormat::Argb1555),
            consts::DRM_FOURCC_ABGR1555 => Some(DrmFormat::Abgr1555),
            consts::DRM_FOURCC_RGBA5551 => Some(DrmFormat::Rgba5551),
            consts::DRM_FOURCC_BGRA5551 => Some(DrmFormat::Bgra5551),
            consts::DRM_FOURCC_RGB565 => Some(DrmFormat::Rgb565),
            consts::DRM_FOURCC_BGR565 => Some(DrmFormat::Bgr565),
            consts::DRM_FOURCC_RGB888 => Some(DrmFormat::Rgb888),
            consts::DRM_FOURCC_BGR888 => Some(DrmFormat::Bgr888),
            consts::DRM_FOURCC_XRGB8888 => Some(DrmFormat::Xrgb8888),
            consts::DRM_FOURCC_XBGR8888 => Some(DrmFormat::Xbgr8888),
            consts::DRM_FOURCC_RGBX8888 => Some(DrmFormat::Rgbx8888),
            consts::DRM_FOURCC_BGRX8888 => Some(DrmFormat::Bgrx8888),
            consts::DRM_FOURCC_ARGB8888 => Some(DrmFormat::Argb8888),
            consts::DRM_FOURCC_ABGR8888 => Some(DrmFormat::Abgr8888),
            consts::DRM_FOURCC_RGBA8888 => Some(DrmFormat::Rgba8888),
            consts::DRM_FOURCC_BGRA8888 => Some(DrmFormat::Bgra8888),
            consts::DRM_FOURCC_XRGB2101010 => Some(DrmFormat::Xrgb2101010),
            consts::DRM_FOURCC_XBGR2101010 => Some(DrmFormat::Xbgr2101010),
            consts::DRM_FOURCC_RGBX1010102 => Some(DrmFormat::Rgbx1010102),
            consts::DRM_FOURCC_BGRX1010102 => Some(DrmFormat::Bgrx1010102),
            consts::DRM_FOURCC_ARGB2101010 => Some(DrmFormat::Argb2101010),
            consts::DRM_FOURCC_ABGR2101010 => Some(DrmFormat::Abgr2101010),
            consts::DRM_FOURCC_RGBA1010102 => Some(DrmFormat::Rgba1010102),
            consts::DRM_FOURCC_BGRA1010102 => Some(DrmFormat::Bgra1010102),
            consts::DRM_FOURCC_XRGB16161616F => Some(DrmFormat::Xrgb16161616f),
            consts::DRM_FOURCC_XBGR16161616F => Some(DrmFormat::Xbgr16161616f),
            consts::DRM_FOURCC_ARGB16161616F => Some(DrmFormat::Argb16161616f),
            consts::DRM_FOURCC_ABGR16161616F => Some(DrmFormat::Abgr16161616f),
            consts::DRM_FOURCC_RG88 => Some(DrmFormat::Rg88),
            consts::DRM_FOURCC_GR88 => Some(DrmFormat::Gr88),
            consts::DRM_FOURCC_RG1616 => Some(DrmFormat::Rg1616),
            consts::DRM_FOURCC_GR1616 => Some(DrmFormat::Gr1616),
            consts::DRM_FOURCC_RGB332 => Some(DrmFormat::Rgb332),
            consts::DRM_FOURCC_BGR233 => Some(DrmFormat::Bgr233),
            consts::DRM_FOURCC_YUYV => Some(DrmFormat::Yuyv),
            consts::DRM_FOURCC_YVYU => Some(DrmFormat::Yvyu),
            consts::DRM_FOURCC_UYVY => Some(DrmFormat::Uyvy),
            consts::DRM_FOURCC_VYUY => Some(DrmFormat::Vyuy),
            consts::DRM_FOURCC_AYUV => Some(DrmFormat::Ayuv),
            consts::DRM_FOURCC_XYUV8888 => Some(DrmFormat::Xyuv8888),
            consts::DRM_FOURCC_VUY888 => Some(DrmFormat::Vuy888),
            consts::DRM_FOURCC_VUY101010 => Some(DrmFormat::Vuy101010),
            consts::DRM_FOURCC_Y210 => Some(DrmFormat::Y210),
            consts::DRM_FOURCC_Y212 => Some(DrmFormat::Y212),
            consts::DRM_FOURCC_Y216 => Some(DrmFormat::Y216),
            consts::DRM_FOURCC_Y410 => Some(DrmFormat::Y410),
            consts::DRM_FOURCC_Y412 => Some(DrmFormat::Y412),
            consts::DRM_FOURCC_Y416 => Some(DrmFormat::Y416),
            consts::DRM_FOURCC_XVYU2101010 => Some(DrmFormat::Xvyu2101010),
            consts::DRM_FOURCC_XVYU12_16161616 => Some(DrmFormat::Xvyu12_16161616),
            consts::DRM_FOURCC_XVYU16161616 => Some(DrmFormat::Xvyu16161616),
            consts::DRM_FOURCC_Y0L0 => Some(DrmFormat::Y0l0),
            consts::DRM_FOURCC_X0L0 => Some(DrmFormat::X0l0),
            consts::DRM_FOURCC_Y0L2 => Some(DrmFormat::Y0l2),
            consts::DRM_FOURCC_X0L2 => Some(DrmFormat::X0l2),
            consts::DRM_FOURCC_YUV420_8BIT => Some(DrmFormat::Yuv420_8bit),
            consts::DRM_FOURCC_YUV420_10BIT => Some(DrmFormat::Yuv420_10bit),
            consts::DRM_FOURCC_XRGB8888_A8 => Some(DrmFormat::Xrgb8888_a8),
            consts::DRM_FOURCC_XBGR8888_A8 => Some(DrmFormat::Xbgr8888_a8),
            consts::DRM_FOURCC_RGBX8888_A8 => Some(DrmFormat::Rgbx8888_a8),
            consts::DRM_FOURCC_BGRX8888_A8 => Some(DrmFormat::Bgrx8888_a8),
            consts::DRM_FOURCC_RGB888_A8 => Some(DrmFormat::Rgb888_a8),
            consts::DRM_FOURCC_BGR888_A8 => Some(DrmFormat::Bgr888_a8),
            consts::DRM_FOURCC_RGB565_A8 => Some(DrmFormat::Rgb565_a8),
            consts::DRM_FOURCC_BGR565_A8 => Some(DrmFormat::Bgr565_a8),
            consts::DRM_FOURCC_NV12 => Some(DrmFormat::Nv12),
            consts::DRM_FOURCC_NV21 => Some(DrmFormat::Nv21),
            consts::DRM_FOURCC_NV16 => Some(DrmFormat::Nv16),
            consts::DRM_FOURCC_NV61 => Some(DrmFormat::Nv61),
            consts::DRM_FOURCC_NV24 => Some(DrmFormat::Nv24),
            consts::DRM_FOURCC_NV42 => Some(DrmFormat::Nv42),
            consts::DRM_FOURCC_P210 => Some(DrmFormat::P210),
            consts::DRM_FOURCC_P010 => Some(DrmFormat::P010),
            consts::DRM_FOURCC_P012 => Some(DrmFormat::P012),
            consts::DRM_FOURCC_P016 => Some(DrmFormat::P016),
            consts::DRM_FOURCC_YUV410 => Some(DrmFormat::Yuv410),
            consts::DRM_FOURCC_YVU410 => Some(DrmFormat::Yvu410),
            consts::DRM_FOURCC_YUV411 => Some(DrmFormat::Yuv411),
            consts::DRM_FOURCC_YVU411 => Some(DrmFormat::Yvu411),
            consts::DRM_FOURCC_YUV420 => Some(DrmFormat::Yuv420),
            consts::DRM_FOURCC_YVU420 => Some(DrmFormat::Yvu420),
            consts::DRM_FOURCC_YUV422 => Some(DrmFormat::Yuv422),
            consts::DRM_FOURCC_YVU422 => Some(DrmFormat::Yvu422),
            consts::DRM_FOURCC_YUV444 => Some(DrmFormat::Yuv444),
            consts::DRM_FOURCC_YVU444 => Some(DrmFormat::Yvu444),
            _ => None,
        }
    }

    /// The textual form of the format's fourcc, such as `XR24`.
    pub fn string_form(&self) -> (r: String)
        ensures
            r@ == fourcc_text(self.value()),
    {
        proof {
            lemma_format_renderable(*self);
        }
        fourcc_string_form(self.as_u32()).unwrap()
    }

    /// The diagnostic text, such as `DrmFormat("XR24")`.
    pub fn display_string(&self) -> (r: String)
        ensures
            r@ == "DrmFormat("@ + seq!['"'] + fourcc_text(self.value()) + seq!['"', ')'],
    {
        let mut out = String::from_str("DrmFormat(");
        push_char(&mut out, '"');
        let s = self.string_form();
        out.append(s.as_str());
        push_char(&mut out, '"');
        push_char(&mut out, ')');
        assert(out@ =~= "DrmFormat("@ + seq!['"'] + fourcc_text(self.value()) + seq!['"', ')']);
        out
    }
}

/// The outcome of converting `v`: the format it names, or `v` itself as an
/// error.
pub open spec fn spec_decode(v: u32) -> Result<DrmFormat, UnrecognizedFourcc> {
    if recognized(v) {
        Ok(choose|f: DrmFormat| f.value() == v)
    } else {
        Err(UnrecognizedFourcc(v))
    }
}

impl TryFrom<u32> for DrmFormat {
    type Error = UnrecognizedFourcc;

    /// The format whose fourcc is `value`, or `value` as an error.
    fn try_from(value: u32) -> (r: Result<DrmFormat, UnrecognizedFourcc>) {
        match DrmFormat::from_u32(value) {
            Some(f) => {
                proof {
                    lemma_value_injective(f, choose|g: DrmFormat| g.value() == value);
                }
                Ok(f)
            },
            None => Err(UnrecognizedFourcc(value)),
        }
    }
}

impl vstd::std_specs::convert::TryFromSpecImpl<u32> for DrmFormat {
    open spec fn obeys_try_from_spec() -> bool {
        true
    }

    open spec fn try_from_spec(v: u32) -> Result<DrmFormat, UnrecognizedFourcc> {
        spec_decode(v)
    }
}

/// Whether some format has the numeric fourcc `v`.
pub open spec fn recognized(v: u32) -> bool {
    exists|f: DrmFormat| f.value() == v
}

/// Every format has a textual form.
pub proof fn lemma_format_renderable(f: DrmFormat)
    ensures
        renderable(f.value()),
{
    match f {
        DrmFormat::Xrgb4444 => {},
        DrmFormat::Xbgr4444 => {},
        DrmFormat::Rgbx4444 => {},
        DrmFormat::Bgrx4444 => {},
        DrmFormat::Argb4444 => {},
        DrmFormat::Abgr4444 => {},
        DrmFormat::Rgba4444 => {},
        DrmFormat::Bgra4444 => {},
        DrmFormat::Xrgb1555 => {},
        DrmFormat::Xbgr1555 => {},
        DrmFormat::Rgbx5551 => {},
        DrmFormat::Bgrx5551 => {},
        DrmFormat::Argb1555 => {},
        DrmFormat::Abgr1555 => {},
        DrmFormat::Rgba5551 => {},
        DrmFormat::Bgra5551 => {},
        DrmFormat::Rgb565 => {},
        DrmFormat::Bgr565 => {},
        DrmFormat::Rgb888 => {},
        DrmFormat::Bgr888 => {},
        DrmFormat::Xrgb8888 => {},
        DrmFormat::Xbgr8888 => {},
        DrmFormat::Rgbx8888 => {},
        DrmFormat::Bgrx8888 => {},
        DrmFormat::Argb8888 => {},
        DrmFormat::Abgr8888 => {},
        DrmFormat::Rgba8888 => {},
        DrmFormat::Bgra8888 => {},
        DrmFormat::Xrgb2101010 => {},
        DrmFormat::Xbgr2101010 => {},
        DrmFormat::Rgbx1010102 => {},
        DrmFormat::Bgrx1010102 => {},
        DrmFormat::Argb2101010 => {},
        DrmFormat::Abgr2101010 => {},
        DrmFormat::Rgba1010102 => {},
        DrmFormat::Bgra1010102 => {},
        DrmFormat::Xrgb16161616f => {},
        DrmFormat::Xbgr16161616f => {},
        DrmFormat::Argb16161616f => {},
        DrmFormat::Abgr16161616f => {},
        DrmFormat::Rg88 => {},
        DrmFormat::Gr88 => {},
        DrmFormat::Rg1616 => {},
        DrmFormat::Gr1616 => {},
        DrmFormat::Rgb332 => {},
        DrmFormat::Bgr233 => {},
        DrmFormat::Yuyv => {},
        DrmFormat::Yvyu => {},
        DrmFormat::Uyvy => {},
        DrmFormat::Vyuy => {},
        DrmFormat::Ayuv => {},
        DrmFormat::Xyuv8888 => {},
        DrmFormat::Vuy888 => {},
        DrmFormat::Vuy101010 => {},
        DrmFormat::Y210 => {},
        DrmFormat::Y212 => {},
        DrmFormat::Y216 => {},
        DrmFormat::Y410 => {},
        DrmFormat::Y412 => {},
        DrmFormat::Y416 => {},
        DrmFormat::Xvyu2101010 => {},
        DrmFormat::Xvyu12_16161616 => {},
        DrmFormat::Xvyu16161616 => {},
        DrmFormat::Y0l0 => {},
        DrmFormat::X0l0 => {},
        DrmFormat::Y0l2 => {},
        DrmFormat::X0l2 => {},
        DrmFormat::Yuv420_8bit => {},
        DrmFormat::Yuv420_10bit => {},
        DrmFormat::Xrgb8888_a8 => {},
        DrmFormat::Xbgr8888_a8 => {},
        DrmFormat::Rgbx8888_a8 => {},
        DrmFormat::Bgrx8888_a8 => {},
        DrmFormat::Rgb888_a8 => {},
        DrmFormat::Bgr888_a8 => {},
        DrmFormat::Rgb565_a8 => {},
        DrmFormat::Bgr565_a8 => {},
        DrmFormat::Nv12 => {},
        DrmFormat::Nv21 => {},
        DrmFormat::Nv16 => {},
        DrmFormat::Nv61 => {},
        DrmFormat::Nv24 => {},
        DrmFormat::Nv42 => {},
        DrmFormat::P210 => {},
        DrmFormat::P010 => {},
        DrmFormat::P012 => {},
        DrmFormat::P016 => {},
        DrmFormat::Yuv410 => {},
        DrmFormat::Yvu410 => {},
        DrmFormat::Yuv411 => {},
        DrmFormat::Yvu411 => {},
        DrmFormat::Yuv420 => {},
        DrmFormat::Yvu420 => {},
        DrmFormat::Yuv422 => {},
        DrmFormat::Yvu422 => {},
        DrmFormat::Yuv444 => {},
        DrmFormat::Yvu444 => {},
    }
}

/// No two formats share a numeric fourcc.
pub proof fn lemma_value_injective(f: DrmFormat, g: DrmFormat)
    ensures
        f.value() == g.value() ==> f == g,
{
}

/// Converting a format's fourcc back gives the format itself.
pub proof fn lemma_round_trip(f: DrmFormat)
    ensures
        spec_decode(f.value()) == Ok::<DrmFormat, UnrecognizedFourcc>(f),
{
    lemma_value_injective(f, choose|g: DrmFormat| g.value() == f.value());
}

/// A recognised number converts to the format whose fourcc it is.
pub proof fn lemma_decode_recognized(v: u32)
    requires
        recognized(v),
    ensures
        spec_decode(v) matches Ok(f) && f.value() == v,
{
}

} // verus!
