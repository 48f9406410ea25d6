use vstd::prelude::*;
use vstd::string::{is_ascii, StrSliceExecFns, StringSliceAdditionalSpecFns};

use crate::error::Error;
use crate::runtime::{Enumerated, Runtime};
use crate::utils::{spec_ext_list_encode, spec_ext_list_len, ExtList, Version};
use crate::HMD_SYSTEM_ID;

verus! {

/// The queue-capability bit marking a graphics-capable queue family.
pub const QUEUE_GRAPHICS_BIT: u64 = 1;

/// The graphics API versions the runtime accepts from its host.
#[derive(Clone, Copy, Debug, PartialEq, Eq, Structural)]
pub struct GraphicsRequirements {
    pub min_api_version: Version,
    pub max_api_version: Version,
}

/// One physical graphics device as reported to the selection logic: its
/// raw handle and the capability flags of each of its queue families.
#[derive(Debug)]
pub struct DeviceInfo {
    pub handle: u64,
    pub queue_family_flags: Vec<u64>,
}

/// Whether a device offers at least one graphics-capable queue family.
pub open spec fn spec_device_has_graphics_queue(d: DeviceInfo) -> bool {
    exists|i: int|
        0 <= i < d.queue_family_flags@.len() && #[trigger] d.queue_family_flags@[i]
            & QUEUE_GRAPHICS_BIT != 0
}

/// Whether a device offers at least one graphics-capable queue family.
fn device_has_graphics_queue(d: &DeviceInfo) -> (r: bool)
    ensures
        r == spec_device_has_graphics_queue(*d),
{
    let n = d.queue_family_flags.len();
    let mut i: usize = 0;
    while i < n
        invariant
            n == d.queue_family_flags@.len(),
            0 <= i <= n,
            forall|j: int| 0 <= j < i ==> #[trigger] d.queue_family_flags@[j] & QUEUE_GRAPHICS_BIT
                == 0,
        decreases n - i,
    {
        if d.queue_family_flags[i] & QUEUE_GRAPHICS_BIT != 0 {
            return true;
        }
        i = i + 1;
    }
    false
}

/// Picks the graphics device the runtime hands to its host: the last
/// enumerated device with a graphics-capable queue family, or none when
/// no device qualifies.
pub fn select_graphics_device(devices: &Vec<DeviceInfo>) -> (r: Option<u64>)
    ensures
        match r {
            Some(handle) => exists|i: int|
                {
                    &&& 0 <= i < devices@.len()
                    &&& #[trigger] spec_device_has_graphics_queue(devices@[i])
                    &&& devices@[i].handle == handle
                    &&& forall|j: int| i < j < devices@.len() ==> !spec_device_has_graphics_queue(
                        #[trigger] devices@[j],
                    )
                },
            None => forall|i: int| 0 <= i < devices@.len() ==> !spec_device_has_graphics_queue(
                #[trigger] devices@[i],
            ),
        },
{
    let n = devices.len();
    let mut found: Option<u64> = None;
    let ghost mut found_at: int = -1;
    let mut i: usize = 0;
    while i < n
        invariant
            n == devices@.len(),
            0 <= i <= n,
            match found {
                Some(handle) => {
                    &&& 0 <= found_at < i
                    &&& spec_device_has_graphics_queue(devices@[found_at])
                    &&& devices@[found_at].handle == handle
                    &&& forall|j: int| found_at < j < i ==> !spec_device_has_graphics_queue(
                        #[trigger] devices@[j],
                    )
                },
                None => forall|j: int| 0 <= j < i ==> !spec_device_has_graphics_queue(
                    #[trigger] devices@[j],
                ),
            },
        decreases n - i,
    {
        if device_has_graphics_queue(&devices[i]) {
            found = Some(devices[i].handle);
            proof {
                found_at = i as int;
            }
        }
        i = i + 1;
    }
    found
}

impl Runtime {
    /// The graphics API versions the simulated device works with.
    pub fn get_graphics_requirements(&self, instance_h: u64, system_id: u64) -> (r: Result<
        GraphicsRequirements,
        Error,
    >)
        ensures
            system_id != HMD_SYSTEM_ID ==> r == Err::<GraphicsRequirements, Error>(
                Error::Validation,
            ),
            system_id == HMD_SYSTEM_ID && !self.instances@.dom().contains(instance_h) ==> r
                == Err::<GraphicsRequirements, Error>(Error::InstanceLost),
            system_id == HMD_SYSTEM_ID && self.instances@.dom().contains(instance_h) ==> r == Ok::<
                GraphicsRequirements,
                Error,
            >(
                GraphicsRequirements {
                    min_api_version: Version { major: 1, minor: 0, patch: 0 },
                    max_api_version: Version { major: 1, minor: 3, patch: 0 },
                },
            ),
    {
        if system_id != HMD_SYSTEM_ID {
            return Err(Error::Validation);
        }
        if !self.instances.contains(instance_h) {
            return Err(Error::InstanceLost);
        }
        Ok(
            GraphicsRequirements {
                min_api_version: Version { major: 1, minor: 0, patch: 0 },
                max_api_version: Version { major: 1, minor: 3, patch: 0 },
            },
        )
    }

    /// The graphics-instance extensions the host must enable, by the
    /// two-call idiom, as one space-separated NUL-terminated buffer.
    pub fn get_instance_extensions(&self, instance_h: u64, system_id: u64, capacity: u32) -> (r:
        Result<Enumerated<u8>, Error>)
        ensures
            system_id != HMD_SYSTEM_ID ==> r == Err::<Enumerated<u8>, Error>(Error::Validation),
            system_id == HMD_SYSTEM_ID && !self.instances@.dom().contains(instance_h) ==> r
                == Err::<Enumerated<u8>, Error>(Error::InstanceLost),
            system_id == HMD_SYSTEM_ID && self.instances@.dom().contains(instance_h) ==> {
                let names = spec_instance_extension_names();
                let needed = spec_ext_list_len(names, 0);
                &&& (capacity == 0 ==> r == Ok::<Enumerated<u8>, Error>(
                    Enumerated::Count(needed as u32),
                ))
                &&& (capacity != 0 && capacity != needed ==> r == Err::<Enumerated<u8>, Error>(
                    Error::SizeInsufficient,
                ))
                &&& (capacity != 0 && capacity == needed ==> match r {
                    Ok(Enumerated::Items(items)) => items@ =~= spec_ext_list_encode(names, 0),
                    _ => false,
                })
            },
    {
        if system_id != HMD_SYSTEM_ID {
            return Err(Error::Validation);
        }
        if !self.instances.contains(instance_h) {
            return Err(Error::InstanceLost);
        }
        let mut names: Vec<Vec<u8>> = Vec::new();
        names.push("VK_KHR_surface".as_bytes_vec());
        names.push("VK_KHR_wayland_surface".as_bytes_vec());
        let exts = ExtList::new(names);
        proof {
            assert(exts.exts_seq() =~~= spec_instance_extension_names());
            lemma_extension_list_lens();
        }
        let needed = exts.len();
        if capacity == 0 {
            return Ok(Enumerated::Count(needed as u32));
        }
        if capacity as usize != needed {
            return Err(Error::SizeInsufficient);
        }
        Ok(Enumerated::Items(exts.encode()))
    }

    /// The graphics-device extensions the host must enable, by the
    /// two-call idiom, as one NUL-terminated buffer.
    pub fn get_device_extensions(&self, instance_h: u64, system_id: u64, capacity: u32) -> (r:
        Result<Enumerated<u8>, Error>)
        ensures
            system_id != HMD_SYSTEM_ID ==> r == Err::<Enumerated<u8>, Error>(Error::Validation),
            system_id == HMD_SYSTEM_ID && !self.instances@.dom().contains(instance_h) ==> r
                == Err::<Enumerated<u8>, Error>(Error::InstanceLost),
            system_id == HMD_SYSTEM_ID && self.instances@.dom().contains(instance_h) ==> {
                let names = spec_device_extension_names();
                let needed = spec_ext_list_len(names, 0);
                &&& (capacity == 0 ==> r == Ok::<Enumerated<u8>, Error>(
                    Enumerated::Count(needed as u32),
                ))
                &&& (capacity != 0 && capacity != needed ==> r == Err::<Enumerated<u8>, Error>(
                    Error::SizeInsufficient,
                ))
                &&& (capacity != 0 && capacity == needed ==> match r {
                    Ok(Enumerated::Items(items)) => items@ =~= spec_ext_list_encode(names, 0),
                    _ => false,
                })
            },
    {
        if system_id != HMD_SYSTEM_ID {
            return Err(Error::Validation);
        }
        if !self.instances.contains(instance_h) {
            return Err(Error::InstanceLost);
        }
        let mut names: Vec<Vec<u8>> = Vec::new();
        names.push("VK_KHR_swapchain".as_bytes_vec());
        let exts = ExtList::new(names);
        proof {
            assert(exts.exts_seq() =~~= spec_device_extension_names());
            lemma_extension_list_lens();
        }
        let needed = exts.len();
        if capacity == 0 {
            return Ok(Enumerated::Count(needed as u32));
        }
        if capacity as usize != needed {
            return Err(Error::SizeInsufficient);
        }
        Ok(Enumerated::Items(exts.encode()))
    }
}

/// The graphics-instance extension names the runtime reports.
pub open spec fn spec_instance_extension_names() -> Seq<Seq<u8>> {
    seq!["VK_KHR_surface".spec_bytes(), "VK_KHR_wayland_surface".spec_bytes()]
}

/// The graphics-device extension names the runtime reports.
pub open spec fn spec_device_extension_names() -> Seq<Seq<u8>> {
    seq!["VK_KHR_swapchain".spec_bytes()]
}

/// The encoded extension buffers are small enough for any capacity word.
proof fn lemma_extension_list_lens()
    ensures
        spec_ext_list_len(spec_instance_extension_names(), 0) <= usize::MAX,
        spec_ext_list_len(spec_device_extension_names(), 0) <= usize::MAX,
        spec_ext_list_len(spec_instance_extension_names(), 0) <= u32::MAX,
        spec_ext_list_len(spec_device_extension_names(), 0) <= u32::MAX,
{
    broadcast use vstd::string::is_ascii_spec_bytes;

    assert("VK_KHR_surface"@.len() == 14 && "VK_KHR_wayland_surface"@.len() == 22
        && "VK_KHR_swapchain"@.len() == 16) by {
        reveal_strlit("VK_KHR_surface");
        reveal_strlit("VK_KHR_wayland_surface");
        reveal_strlit("VK_KHR_swapchain");
    }
    assert(is_ascii("VK_KHR_surface") && is_ascii("VK_KHR_wayland_surface") && is_ascii(
        "VK_KHR_swapchain",
    )) by {
        reveal_strlit("VK_KHR_surface");
        reveal_strlit("VK_KHR_wayland_surface");
        reveal_strlit("VK_KHR_swapchain");
    }
    assert("VK_KHR_surface".spec_bytes().len() == 14);
    assert("VK_KHR_wayland_surface".spec_bytes().len() == 22);
    assert("VK_KHR_swapchain".spec_bytes().len() == 16);
    let inames = spec_instance_extension_names();
    let dnames = spec_device_extension_names();
    assert(spec_ext_list_len(inames, 2) == 0);
    assert(spec_ext_list_len(inames, 1) == 23);
    assert(spec_ext_list_len(inames, 0) == 38);
    assert(spec_ext_list_len(dnames, 1) == 0);
    assert(spec_ext_list_len(dnames, 0) == 17);
}

} // verus!
