//! Pixel formats of the Linux Direct Rendering Manager, named by their fourcc.
//!
//! A fourcc is four bytes of ASCII packed into a `u32` in little-endian
//! order. [`DrmFormat`] lists the recognised formats; converting a `u32`
//! that names none of them yields an [`UnrecognizedFourcc`].
use vstd::prelude::*;

pub mod consts;
pub mod format;
pub mod fourcc;
pub mod text;
pub mod unrecognized;

pub use format::DrmFormat;
pub use fourcc::fourcc_string_form;
pub use unrecognized::UnrecognizedFourcc;
