//! SDI capture and playout over Blackmagic DeckLink cards: the decisions.
//!
//! A small C shim over the DeckLink SDK delivers frames and takes them. This
//! library is what stands between its calls and the caller: it reads device
//! names and hardware status, decides what an open, a read or a write comes
//! to, and converts frames. It makes none of the shim's calls: every function
//! takes the shim's answer as plain values, so its contract covers every
//! answer the shim can give.
pub mod capture;
pub mod device;
pub mod enumeration;
pub mod error;
pub mod frame;
pub mod opening;
pub mod playout;
pub mod ports;
pub mod shim;
pub mod status;
pub mod text;

pub use crate::capture::{DecklinkCapture, DecklinkCaptureConfig, ReadStep};
pub use crate::device::{model_name, parse_sdi_channel, DecklinkDeviceInfo};
pub use crate::enumeration::{api_available, enumerate_devices};
pub use crate::error::Error;
pub use crate::frame::{CapturedAudio, CapturedFrame, CapturedVideo, DecklinkPixelFormat};
pub use crate::opening::{CaptureOpening, OpenStep};
pub use crate::playout::{AudioWrite, DecklinkPlayout, DecklinkPlayoutConfig, VideoWrite};
pub use crate::ports::resolve_physical_ports;
pub use crate::shim::{
    OpenRequest, RawDeviceName, RawDeviceStatus, RawFrame, RawPlayoutInfo, ShimConstants,
};
pub use crate::status::{device_status, fourcc_to_string, tri_to_bool, DeviceStatus};
