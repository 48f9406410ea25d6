use vstd::prelude::*;

use crate::error::Error;
use crate::instance::InstanceProperties;
use crate::runtime::{Enumerated, Runtime};
use crate::utils::{decimal_bytes, spec_decimal};
use vstd::string::{StrSliceExecFns, StringSliceAdditionalSpecFns};

verus! {

/// The one loader interface version this runtime speaks.
pub const RUNTIME_INTERFACE_VERSION: u32 = 1;

/// Spec version of the one extension the runtime offers.
pub const VULKAN_ENABLE_SPEC_VERSION: u32 = 10;

/// One extension the runtime offers to its host.
#[derive(Debug, PartialEq, Eq)]
pub struct ExtensionProperty {
    pub extension_name: String,
    pub extension_version: u32,
}

/// Negotiates the loader interface: the runtime speaks exactly interface
/// version 1, so negotiation succeeds if and only if the loader's
/// accepted range covers it.
pub fn negotiate_loader_interface(min_interface_version: u32, max_interface_version: u32) -> (r:
    Result<u32, Error>)
    ensures
        min_interface_version > RUNTIME_INTERFACE_VERSION || max_interface_version
            < RUNTIME_INTERFACE_VERSION ==> r == Err::<u32, Error>(Error::InitializationFailed),
        min_interface_version <= RUNTIME_INTERFACE_VERSION && max_interface_version
            >= RUNTIME_INTERFACE_VERSION ==> r == Ok::<u32, Error>(RUNTIME_INTERFACE_VERSION),
{
    if min_interface_version > RUNTIME_INTERFACE_VERSION || max_interface_version
        < RUNTIME_INTERFACE_VERSION {
        return Err(Error::InitializationFailed);
    }
    Ok(RUNTIME_INTERFACE_VERSION)
}

impl Runtime {
    /// Enumerates the one extension the runtime offers, by the two-call
    /// idiom; this call needs no instance.
    pub fn enumerate_extension_properties(&self, capacity: u32) -> (r: Result<
        Enumerated<ExtensionProperty>,
        Error,
    >)
        ensures
            capacity == 0 ==> r == Ok::<Enumerated<ExtensionProperty>, Error>(Enumerated::Count(1)),
            capacity != 0 && capacity != 1 ==> r == Err::<Enumerated<ExtensionProperty>, Error>(
                Error::SizeInsufficient,
            ),
            capacity == 1 ==> match r {
                Ok(Enumerated::Items(items)) => {
                    &&& items@.len() == 1
                    &&& items@[0].extension_name@ == "XR_KHR_vulkan_enable"@
                    &&& items@[0].extension_version == VULKAN_ENABLE_SPEC_VERSION
                },
                _ => false,
            },
    {
        if capacity == 0 {
            return Ok(Enumerated::Count(1));
        }
        if capacity != 1 {
            return Err(Error::SizeInsufficient);
        }
        let mut items: Vec<ExtensionProperty> = Vec::new();
        items.push(
            ExtensionProperty {
                extension_name: "XR_KHR_vulkan_enable".to_owned(),
                extension_version: VULKAN_ENABLE_SPEC_VERSION,
            },
        );
        Ok(Enumerated::Items(items))
    }

    /// The runtime name and version the instance reports.
    pub fn get_instance_properties(&self, instance_h: u64) -> (r: Result<InstanceProperties, Error>)
        ensures
            !self.instances@.dom().contains(instance_h) ==> r == Err::<InstanceProperties, Error>(
                Error::InstanceLost,
            ),
            self.instances@.dom().contains(instance_h) ==> match r {
                Ok(p) => {
                    &&& p.runtime_name@ == "openxr-device-simulator"@
                    &&& p.runtime_version_major == 0
                    &&& p.runtime_version_minor == 0
                    &&& p.runtime_version_patch == 1
                },
                Err(_) => false,
            },
    {
        let instance = match self.instances.get(instance_h) {
            None => {
                return Err(Error::InstanceLost);
            },
            Some(instance) => instance,
        };
        Ok(instance.get_properties())
    }

    /// Renders a protocol status code as the generic human-readable
    /// name the simulator gives every code: the success or failure
    /// prefix followed by the code's decimal value.
    pub fn result_to_string(&self, instance_h: u64, code: i64) -> (r: Result<Vec<u8>, Error>)
        ensures
            !self.instances@.dom().contains(instance_h) ==> r == Err::<Vec<u8>, Error>(
                Error::InstanceLost,
            ),
            self.instances@.dom().contains(instance_h) ==> match r {
                Ok(out) => {
                    &&& (code >= 0 ==> out@ =~= "XR_UNKNOWN_SUCCESS_".spec_bytes() + spec_decimal(
                        code as int,
                    ))
                    &&& (code < 0 ==> out@ =~= "XR_UNKNOWN_FAILURE_".spec_bytes() + seq![45u8]
                        + spec_decimal(-(code as int)))
                },
                Err(_) => false,
            },
    {
        if !self.instances.contains(instance_h) {
            return Err(Error::InstanceLost);
        }
        if code >= 0 {
            let mut out = "XR_UNKNOWN_SUCCESS_".as_bytes_vec();
            let mut digits = decimal_bytes(code as u64);
            out.append(&mut digits);
            Ok(out)
        } else {
            let magnitude = ((-(code + 1)) as u64) + 1;
            proof {
                assert(magnitude == -(code as int));
            }
            let mut out = "XR_UNKNOWN_FAILURE_".as_bytes_vec();
            out.push(45u8);
            let mut digits = decimal_bytes(magnitude);
            out.append(&mut digits);
            Ok(out)
        }
    }

    /// Renders a structure-type tag as the generic human-readable name
    /// the simulator gives every tag: a fixed prefix followed by the
    /// tag's decimal value.
    pub fn structure_type_to_string(&self, instance_h: u64, structure_type: i32) -> (r: Result<
        Vec<u8>,
        Error,
    >)
        ensures
            !self.instances@.dom().contains(instance_h) ==> r == Err::<Vec<u8>, Error>(
                Error::InstanceLost,
            ),
            self.instances@.dom().contains(instance_h) ==> match r {
                Ok(out) => {
                    &&& (structure_type >= 0 ==> out@ =~= "XR_UNKNOWN_STRUCTURE_TYPE_".spec_bytes()
                        + spec_decimal(structure_type as int))
                    &&& (structure_type < 0 ==> out@ =~= "XR_UNKNOWN_STRUCTURE_TYPE_".spec_bytes()
                        + seq![45u8] + spec_decimal(-(structure_type as int)))
                },
                Err(_) => false,
            },
    {
        if !self.instances.contains(instance_h) {
            return Err(Error::InstanceLost);
        }
        let mut out = "XR_UNKNOWN_STRUCTURE_TYPE_".as_bytes_vec();
        if structure_type >= 0 {
            let mut digits = decimal_bytes(structure_type as u64);
            out.append(&mut digits);
        } else {
            let magnitude = ((-(structure_type + 1)) as u64) + 1;
            proof {
                assert(magnitude == -(structure_type as int));
            }
            out.push(45u8);
            let mut digits = decimal_bytes(magnitude);
            out.append(&mut digits);
        }
        Ok(out)
    }

    /// Creating an instance out of an existing instance is always
    /// refused by the simulator.
    pub fn create_from_instance(&self, instance_h: u64) -> (r: Result<(), Error>)
        ensures
            !self.instances@.dom().contains(instance_h) ==> r == Err::<(), Error>(
                Error::InstanceLost,
            ),
            self.instances@.dom().contains(instance_h) ==> r == Err::<(), Error>(
                Error::RuntimeUnavailable,
            ),
    {
        let instance = match self.instances.get(instance_h) {
            None => {
                return Err(Error::InstanceLost);
            },
            Some(instance) => instance,
        };
        instance.create()
    }
}

} // verus!
