use vstd::prelude::*;
use vstd::string::StrSliceExecFns;
use vstd::utf8::encode_utf8;

use crate::error::Error;
use crate::runtime::{Enumerated, Runtime};

verus! {

impl Runtime {
    /// Interns a path string with the instance and returns its fresh id.
    /// The table is monotonic: ids come from the shared counter and an
    /// interned path is never forgotten while the instance lives.
    pub fn string_to_path(&mut self, instance_h: u64, path: String) -> (r: Result<u64, Error>)
        requires
            old(self).wf(),
        ensures
            final(self).wf(),
            !old(self).instances@.dom().contains(instance_h) ==> r == Err::<u64, Error>(
                Error::InstanceLost,
            ) && *final(self) == *old(self),
            old(self).instances@.dom().contains(instance_h) && old(self).next_handle == u64::MAX
                ==> r == Err::<u64, Error>(Error::RuntimeFailure) && *final(self) == *old(self),
            old(self).instances@.dom().contains(instance_h) && old(self).next_handle < u64::MAX
                ==> {
                let h = old(self).next_handle;
                &&& r == Ok::<u64, Error>(h)
                &&& !old(self).instances@[instance_h].paths@.dom().contains(h)
                &&& final(self).next_handle == h + 1
                &&& final(self).instances@.dom() == old(self).instances@.dom()
                &&& final(self).instances@[instance_h].paths@ == old(
                    self,
                ).instances@[instance_h].paths@.insert(h, path)
                &&& final(self).instances@[instance_h].state == old(
                    self,
                ).instances@[instance_h].state
                &&& final(self).instances@[instance_h].action_set_ids@ == old(
                    self,
                ).instances@[instance_h].action_set_ids@
                &&& final(self).instances@[instance_h].interaction_profile_bindings@ == old(
                    self,
                ).instances@[instance_h].interaction_profile_bindings@
                &&& forall|k: u64| k != instance_h && #[trigger] old(
                    self,
                ).instances@.dom().contains(k) ==> final(self).instances@[k] == old(
                    self,
                ).instances@[k]
                &&& final(self).queues@ == old(self).queues@
                &&& final(self).sessions@ == old(self).sessions@
                &&& final(self).swapchains@ == old(self).swapchains@
                &&& final(self).spaces@ == old(self).spaces@
                &&& final(self).action_sets@ == old(self).action_sets@
                &&& final(self).actions@ == old(self).actions@
            },
    {
        if !self.instances.contains(instance_h) {
            return Err(Error::InstanceLost);
        }
        if self.next_handle == u64::MAX {
            return Err(Error::RuntimeFailure);
        }
        let h = self.next_handle;
        self.next_handle = h + 1;
        let extracted = self.instances.extract(instance_h);
        let mut instance = match extracted {
            None => {
                proof {
                    assert(false);
                }
                return Err(Error::RuntimeFailure);
            },
            Some(instance) => instance,
        };
        instance.register_path(h, path);
        self.instances.insert(instance_h, instance);
        proof {
            assert(final(self).instances@.dom() =~= old(self).instances@.dom());
        }
        Ok(h)
    }

    /// Reads an interned path back by the two-call idiom, as its encoded
    /// bytes followed by one NUL terminator.
    pub fn path_to_string(&self, instance_h: u64, path_h: u64, capacity: u32) -> (r: Result<
        Enumerated<u8>,
        Error,
    >)
        ensures
            !self.instances@.dom().contains(instance_h) ==> r == Err::<Enumerated<u8>, Error>(
                Error::InstanceLost,
            ),
            self.instances@.dom().contains(instance_h) && !self.instances@[
                instance_h
            ].paths@.dom().contains(path_h) ==> r == Err::<Enumerated<u8>, Error>(
                Error::PathInvalid,
            ),
            self.instances@.dom().contains(instance_h) && self.instances@[
                instance_h
            ].paths@.dom().contains(path_h) ==> {
                let bytes = encode_utf8(self.instances@[instance_h].paths@[path_h]@);
                &&& (bytes.len() + 1 > u32::MAX ==> r == Err::<Enumerated<u8>, Error>(
                    Error::RuntimeFailure,
                ))
                &&& (bytes.len() + 1 <= u32::MAX && capacity == 0 ==> r == Ok::<
                    Enumerated<u8>,
                    Error,
                >(Enumerated::Count((bytes.len() + 1) as u32)))
                &&& (bytes.len() + 1 <= u32::MAX && capacity != 0 && capacity != bytes.len() + 1
                    ==> r == Err::<Enumerated<u8>, Error>(Error::SizeInsufficient))
                &&& (bytes.len() + 1 <= u32::MAX && capacity != 0 && capacity == bytes.len() + 1
                    ==> match r {
                    Ok(Enumerated::Items(items)) => items@ =~= bytes + seq![0u8],
                    _ => false,
                })
            },
    {
        let instance = match self.instances.get(instance_h) {
            None => {
                return Err(Error::InstanceLost);
            },
            Some(instance) => instance,
        };
        let path = match instance.get_path_string(path_h) {
            Err(_) => {
                return Err(Error::PathInvalid);
            },
            Ok(path) => path,
        };
        let mut items = path.as_str().as_bytes_vec();
        let byte_len = items.len();
        if byte_len >= u32::MAX as usize {
            return Err(Error::RuntimeFailure);
        }
        let needed = (byte_len + 1) as u32;
        if capacity == 0 {
            return Ok(Enumerated::Count(needed));
        }
        if capacity != needed {
            return Err(Error::SizeInsufficient);
        }
        items.push(0u8);
        Ok(Enumerated::Items(items))
    }
}

} // verus!
