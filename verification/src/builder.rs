//! Builder wiring a capture session to its GPU device and, optionally, an
//! initial capture target.

use vstd::prelude::*;
use crate::session::{CaptureTarget, DeviceHandle, WgcCaptureProvider};

verus! {

#[derive(Debug, Clone, Copy, PartialEq, Eq, Structural)]
pub enum BuilderError {
    /// `build` was called before any device was supplied.
    MissingDevice,
}

/// Identifier the builder hands out for the platform's default GPU device.
pub const DEFAULT_DEVICE_ID: u64 = 0;

pub struct WindowsCaptureProviderBuilder {
    pub device: Option<DeviceHandle>,
    pub capture_item: Option<CaptureTarget>,
}

impl WindowsCaptureProviderBuilder {
    pub fn new() -> (b: WindowsCaptureProviderBuilder)
        ensures
            b.device is None,
            b.capture_item is None,
    {
        WindowsCaptureProviderBuilder { device: None, capture_item: None }
    }

    /// Uses a caller-supplied device.
    pub fn with_device(self, device: DeviceHandle) -> (b: WindowsCaptureProviderBuilder)
        ensures
            b.device == Some(device),
            b.capture_item == self.capture_item,
    {
        WindowsCaptureProviderBuilder { device: Some(device), capture_item: self.capture_item }
    }

    /// Uses the platform's default hardware device.
    pub fn with_default_device(self) -> (r: Result<WindowsCaptureProviderBuilder, BuilderError>)
        ensures
            r matches Ok(b) && b.device == Some(DeviceHandle { id: DEFAULT_DEVICE_ID })
                && b.capture_item == self.capture_item,
    {
        Ok(
            WindowsCaptureProviderBuilder {
                device: Some(DeviceHandle { id: DEFAULT_DEVICE_ID }),
                capture_item: self.capture_item,
            },
        )
    }

    /// Uses the default capture-item configuration: none preselected; the
    /// target is chosen after the session is built.
    pub fn with_default_capture_item(self) -> (r: Result<
        WindowsCaptureProviderBuilder,
        BuilderError,
    >)
        ensures
            r matches Ok(b) && b.capture_item is None && b.device == self.device,
    {
        Ok(WindowsCaptureProviderBuilder { device: self.device, capture_item: None })
    }

    /// Builds the provider. Fails exactly when no device was supplied;
    /// otherwise the session starts uninitialized, or configured with the
    /// builder's capture item when one was set.
    pub fn build(self) -> (r: Result<WgcCaptureProvider, BuilderError>)
        ensures
            self.device is None ==> r == Err::<WgcCaptureProvider, BuilderError>(
                BuilderError::MissingDevice,
            ),
            self.device matches Some(d) ==> {
                &&& r is Ok
                &&& r.unwrap().wf()
                &&& r.unwrap().device == d
                &&& r.unwrap().capture_item == self.capture_item
                &&& r.unwrap().state == (if self.capture_item is Some {
                    crate::session::CaptureSessionState::Configured
                } else {
                    crate::session::CaptureSessionState::Uninitialized
                })
                &&& r.unwrap().staging.slots@.len() == 0
                &&& r.unwrap().staging.frame_count == 0
                &&& r.unwrap().streams@.len() == 0
            },
    {
        match self.device {
            None => Err(BuilderError::MissingDevice),
            Some(device) => {
                let mut provider = WgcCaptureProvider::new(device);
                match self.capture_item {
                    Some(item) => {
                        let set = provider.set_capture_item(item);
                        proof {
                            assert(set is Ok);
                        }
                        Ok(provider)
                    },
                    None => Ok(provider),
                }
            },
        }
    }
}

} // verus!
