//! The numeric fourcc of every recognised pixel format.
//!
//! Each value packs four ASCII characters in little-endian order: `XR24`
//! is `0x34325258`.
use vstd::prelude::*;

verus! {

/// `XR12`
pub const DRM_FOURCC_XRGB4444: u32 = 842093144;

/// `XB12`
pub const DRM_FOURCC_XBGR4444: u32 = 842089048;

/// `RX12`
pub const DRM_FOURCC_RGBX4444: u32 = 842094674;

/// `BX12`
pub const DRM_FOURCC_BGRX4444: u32 = 842094658;

/// `AR12`
pub const DRM_FOURCC_ARGB4444: u32 = 842093121;

/// `AB12`
pub const DRM_FOURCC_ABGR4444: u32 = 842089025;

/// `RA12`
pub const DRM_FOURCC_RGBA4444: u32 = 842088786;

/// `BA12`
pub const DRM_FOURCC_BGRA4444: u32 = 842088770;

/// `XR15`
pub const DRM_FOURCC_XRGB1555: u32 = 892424792;

/// `XB15`
pub const DRM_FOURCC_XBGR1555: u32 = 892420696;

/// `RX15`
pub const DRM_FOURCC_RGBX5551: u32 = 892426322;

/// `BX15`
pub const DRM_FOURCC_BGRX5551: u32 = 892426306;

/// `AR15`
pub const DRM_FOURCC_ARGB1555: u32 = 892424769;

/// `AB15`
pub const DRM_FOURCC_ABGR1555: u32 = 892420673;

/// `RA15`
pub const DRM_FOURCC_RGBA5551: u32 = 892420434;

/// `BA15`
pub const DRM_FOURCC_BGRA5551: u32 = 892420418;

/// `RG16`
pub const DRM_FOURCC_RGB565: u32 = 909199186;

/// `BG16`
pub const DRM_FOURCC_BGR565: u32 = 909199170;

/// `RG24`
pub const DRM_FOURCC_RGB888: u32 = 875710290;

/// `BG24`
pub const DRM_FOURCC_BGR888: u32 = 875710274;

/// `XR24`
pub const DRM_FOURCC_XRGB8888: u32 = 875713112;

/// `XB24`
pub const DRM_FOURCC_XBGR8888: u32 = 875709016;

/// `RX24`
pub const DRM_FOURCC_RGBX8888: u32 = 875714642;

/// `BX24`
pub const DRM_FOURCC_BGRX8888: u32 = 875714626;

/// `AR24`
pub const DRM_FOURCC_ARGB8888: u32 = 875713089;

/// `AB24`
pub const DRM_FOURCC_ABGR8888: u32 = 875708993;

/// `RA24`
pub const DRM_FOURCC_RGBA8888: u32 = 875708754;

/// `BA24`
pub const DRM_FOURCC_BGRA8888: u32 = 875708738;

/// `XR30`
pub const DRM_FOURCC_XRGB2101010: u32 = 808669784;

/// `XB30`
pub const DRM_FOURCC_XBGR2101010: u32 = 808665688;

/// `RX30`
pub const DRM_FOURCC_RGBX1010102: u32 = 808671314;

/// `BX30`
pub const DRM_FOURCC_BGRX1010102: u32 = 808671298;

/// `AR30`
pub const DRM_FOURCC_ARGB2101010: u32 = 808669761;

/// `AB30`
pub const DRM_FOURCC_ABGR2101010: u32 = 808665665;

/// `RA30`
pub const DRM_FOURCC_RGBA1010102: u32 = 808665426;

/// `BA30`
pub const DRM_FOURCC_BGRA1010102: u32 = 808665410;

/// `XR4H`
pub const DRM_FOURCC_XRGB16161616F: u32 = 1211388504;

/// `XB4H`
pub const DRM_FOURCC_XBGR16161616F: u32 = 1211384408;

/// `AR4H`
pub const DRM_FOURCC_ARGB16161616F: u32 = 1211388481;

/// `AB4H`
pub const DRM_FOURCC_ABGR16161616F: u32 = 1211384385;

/// `RG88`
pub const DRM_FOURCC_RG88: u32 = 943212370;

/// `GR88`
pub const DRM_FOURCC_GR88: u32 = 943215175;

/// `RG32`
pub const DRM_FOURCC_RG1616: u32 = 842221394;

/// `GR32`
pub const DRM_FOURCC_GR1616: u32 = 842224199;

/// `RGB8`
pub const DRM_FOURCC_RGB332: u32 = 943867730;

/// `BGR8`
pub const DRM_FOURCC_BGR233: u32 = 944916290;

/// `YUYV`
pub const DRM_FOURCC_YUYV: u32 = 1448695129;

/// `YVYU`
pub const DRM_FOURCC_YVYU: u32 = 1431918169;

/// `UYVY`
pub const DRM_FOURCC_UYVY: u32 = 1498831189;

/// `VYUY`
pub const DRM_FOURCC_VYUY: u32 = 1498765654;

/// `AYUV`
pub const DRM_FOURCC_AYUV: u32 = 1448433985;

/// `XYUV`
pub const DRM_FOURCC_XYUV8888: u32 = 1448434008;

/// `VU24`
pub const DRM_FOURCC_VUY888: u32 = 875713878;

/// `VU30`
pub const DRM_FOURCC_VUY101010: u32 = 808670550;

/// `Y210`
pub const DRM_FOURCC_Y210: u32 = 808530521;

/// `Y212`
pub const DRM_FOURCC_Y212: u32 = 842084953;

/// `Y216`
pub const DRM_FOURCC_Y216: u32 = 909193817;

/// `Y410`
pub const DRM_FOURCC_Y410: u32 = 808531033;

/// `Y412`
pub const DRM_FOURCC_Y412: u32 = 842085465;

/// `Y416`
pub const DRM_FOURCC_Y416: u32 = 909194329;

/// `XV30`
pub const DRM_FOURCC_XVYU2101010: u32 = 808670808;

/// `XV36`
pub const DRM_FOURCC_XVYU12_16161616: u32 = 909334104;

/// `XV48`
pub const DRM_FOURCC_XVYU16161616: u32 = 942954072;

/// `Y0L0`
pub const DRM_FOURCC_Y0L0: u32 = 810299481;

/// `X0L0`
pub const DRM_FOURCC_X0L0: u32 = 810299480;

/// `Y0L2`
pub const DRM_FOURCC_Y0L2: u32 = 843853913;

/// `X0L2`
pub const DRM_FOURCC_X0L2: u32 = 843853912;

/// `YU08`
pub const DRM_FOURCC_YUV420_8BIT: u32 = 942691673;

/// `YU10`
pub const DRM_FOURCC_YUV420_10BIT: u32 = 808539481;

/// `XRA8`
pub const DRM_FOURCC_XRGB8888_A8: u32 = 943805016;

/// `XBA8`
pub const DRM_FOURCC_XBGR8888_A8: u32 = 943800920;

/// `RXA8`
pub const DRM_FOURCC_RGBX8888_A8: u32 = 943806546;

/// `BXA8`
pub const DRM_FOURCC_BGRX8888_A8: u32 = 943806530;

/// `R8A8`
pub const DRM_FOURCC_RGB888_A8: u32 = 943798354;

/// `B8A8`
pub const DRM_FOURCC_BGR888_A8: u32 = 943798338;

/// `R5A8`
pub const DRM_FOURCC_RGB565_A8: u32 = 943797586;

/// `B5A8`
pub const DRM_FOURCC_BGR565_A8: u32 = 943797570;

/// `NV12`
pub const DRM_FOURCC_NV12: u32 = 842094158;

/// `NV21`
pub const DRM_FOURCC_NV21: u32 = 825382478;

/// `NV16`
pub const DRM_FOURCC_NV16: u32 = 909203022;

/// `NV61`
pub const DRM_FOURCC_NV61: u32 = 825644622;

/// `NV24`
pub const DRM_FOURCC_NV24: u32 = 875714126;

/// `NV42`
pub const DRM_FOURCC_NV42: u32 = 842290766;

/// `P210`
pub const DRM_FOURCC_P210: u32 = 808530512;

/// `P010`
pub const DRM_FOURCC_P010: u32 = 808530000;

/// `P012`
pub const DRM_FOURCC_P012: u32 = 842084432;

/// `P016`
pub const DRM_FOURCC_P016: u32 = 909193296;

/// `YUV9`
pub const DRM_FOURCC_YUV410: u32 = 961959257;

/// `YVU9`
pub const DRM_FOURCC_YVU410: u32 = 961893977;

/// `YU11`
pub const DRM_FOURCC_YUV411: u32 = 825316697;

/// `YV11`
pub const DRM_FOURCC_YVU411: u32 = 825316953;

/// `YU12`
pub const DRM_FOURCC_YUV420: u32 = 842093913;

/// `YV12`
pub const DRM_FOURCC_YVU420: u32 = 842094169;

/// `YU16`
pub const DRM_FOURCC_YUV422: u32 = 909202777;

/// `YV16`
pub const DRM_FOURCC_YVU422: u32 = 909203033;

/// `YU24`
pub const DRM_FOURCC_YUV444: u32 = 875713881;

/// `YV24`
pub const DRM_FOURCC_YVU444: u32 = 875714137;

} // verus!
