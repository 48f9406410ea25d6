use vstd::prelude::*;

use crate::error::Error;
use crate::runtime::Runtime;
use crate::HMD_SYSTEM_ID;

verus! {

/// Vendor id the simulated device reports.
pub const SIMULATED_VENDOR_ID: u32 = 0x079c98d4;

/// Largest swapchain image edge the simulated device supports.
pub const MAX_SWAPCHAIN_IMAGE_EDGE: u32 = 1024;

/// Composition layers the simulated device supports per frame.
pub const MAX_COMPOSITION_LAYERS: u32 = 16;

/// What the simulated head-mounted display reports about itself.
#[derive(Debug, PartialEq, Eq)]
pub struct SystemProperties {
    pub system_id: u64,
    pub vendor_id: u32,
    pub system_name: String,
    pub max_swapchain_image_height: u32,
    pub max_swapchain_image_width: u32,
    pub max_layer_count: u32,
    pub orientation_tracking: bool,
    pub position_tracking: bool,
}

impl Runtime {
    /// The properties of the simulated head-mounted display.
    pub fn get_system_properties(&self, instance_h: u64, system_id: u64) -> (r: Result<
        SystemProperties,
        Error,
    >)
        ensures
            system_id != HMD_SYSTEM_ID ==> r == Err::<SystemProperties, Error>(Error::Validation),
            system_id == HMD_SYSTEM_ID && !self.instances@.dom().contains(instance_h) ==> r
                == Err::<SystemProperties, Error>(Error::InstanceLost),
            system_id == HMD_SYSTEM_ID && self.instances@.dom().contains(instance_h) ==> match r {
                Ok(p) => {
                    &&& p.system_id == HMD_SYSTEM_ID
                    &&& p.vendor_id == SIMULATED_VENDOR_ID
                    &&& p.system_name@ == "openxr-device-simulator"@
                    &&& p.max_swapchain_image_height == MAX_SWAPCHAIN_IMAGE_EDGE
                    &&& p.max_swapchain_image_width == MAX_SWAPCHAIN_IMAGE_EDGE
                    &&& p.max_layer_count == MAX_COMPOSITION_LAYERS
                    &&& p.orientation_tracking
                    &&& p.position_tracking
                },
                Err(_) => false,
            },
    {
        if system_id != HMD_SYSTEM_ID {
            return Err(Error::Validation);
        }
        if !self.instances.contains(instance_h) {
            return Err(Error::InstanceLost);
        }
        Ok(
            SystemProperties {
                system_id: HMD_SYSTEM_ID,
                vendor_id: SIMULATED_VENDOR_ID,
                system_name: "openxr-device-simulator".to_owned(),
                max_swapchain_image_height: MAX_SWAPCHAIN_IMAGE_EDGE,
                max_swapchain_image_width: MAX_SWAPCHAIN_IMAGE_EDGE,
                max_layer_count: MAX_COMPOSITION_LAYERS,
                orientation_tracking: true,
                position_tracking: true,
            },
        )
    }
}

} // verus!
