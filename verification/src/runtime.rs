use vstd::prelude::*;

use crate::error::Error;
use crate::event::{spec_encoded_event, spec_state_event, Event, EventQueue, QueueItem};
use crate::frame::{FrameBeginOutcome, FrameState, SessionFrame, PREDICTED_DISPLAY_LEAD_NANOS};
use crate::instance::{InstanceState, SimulatedInstance};
use crate::registry::Registry;
use crate::session::{
    spec_attach_outcome_holds, spec_session_core_unchanged, spec_with_running, spec_with_state,
    GraphicsBinding, SessionState, SimulatedSession,
};
use crate::spaces::{
    reference_space_types, spec_reference_space_types, ReferenceSpaceType, SimulatedActionSpace,
    SimulatedReferenceSpace, SimulatedSpace, SimulatedSpaceType, SpaceLocation,
    SPACE_LOCATION_FLAGS_ALL,
};
use crate::utils::Pose;
use crate::input::{SimulatedAction, SimulatedActionSet};
use crate::swapchain::{
    format_supported, required_image_count, spec_format_supported, spec_supported_formats,
    spec_swapchain_image_count, supported_formats, OffscreenImage, SimulatedSwapchain,
    SwapchainCreateInfo,
};
use crate::utils::MyTime;
use crate::HMD_SYSTEM_ID;

verus! {

/// The device form factors a caller can ask for.
#[derive(Clone, Copy, Debug, PartialEq, Eq, Structural)]
pub enum FormFactor {
    HeadMountedDisplay,
    HandheldDisplay,
}

/// The view configurations a caller can ask for; only primary stereo is
/// supported.
#[derive(Clone, Copy, Debug, PartialEq, Eq, Structural)]
pub enum ViewConfigurationType {
    PrimaryMono,
    PrimaryStereo,
}

/// The kinds of composition layer a frame end can carry; only projection
/// layers are supported.
#[derive(Clone, Copy, Debug, PartialEq, Eq, Structural)]
pub enum CompositionLayerKind {
    Projection,
    Other,
}

/// Whether every handle in `dom` was drawn from a counter now at `bound`.
pub open spec fn spec_dom_bounded<T>(m: Map<u64, T>, bound: u64) -> bool {
    forall|h: u64| #[trigger] m.dom().contains(h) ==> 1 <= h < bound
}

/// Whether two resource families share no live handle.
pub open spec fn spec_doms_disjoint<A, B>(a: Map<u64, A>, b: Map<u64, B>) -> bool {
    forall|h: u64| !(#[trigger] a.dom().contains(h) && #[trigger] b.dom().contains(h))
}

/// Whether every id in `s` was drawn from a counter now at `bound`.
pub open spec fn spec_ids_bounded(s: Set<u64>, bound: u64) -> bool {
    forall|x: u64| #[trigger] s.contains(x) ==> x < bound
}

/// The whole runtime: one registry per resource family, the per-instance
/// event queues, and the one counter every family draws its handles from.
///
/// The counter starts at 1 and never decrements, so no two live objects
/// ever share a handle, handles are never reused, and 0 stays reserved
/// as the null handle. Event queues are keyed by their owning instance's
/// handle and deliberately outlive it.
pub struct Runtime {
    pub next_handle: u64,
    pub instances: Registry<SimulatedInstance>,
    pub queues: Registry<EventQueue>,
    pub sessions: Registry<SimulatedSession>,
    pub swapchains: Registry<SimulatedSwapchain>,
    pub spaces: Registry<SimulatedSpace>,
    pub action_sets: Registry<SimulatedActionSet>,
    pub actions: Registry<SimulatedAction>,
}

impl Runtime {
    /// Everything the runtime keeps true between calls: all handles come
    /// from the counter; the six handle families are pairwise disjoint;
    /// every instance has its event queue and every session can reach the
    /// queue of the instance that owns it; every swapchain's rotation
    /// collections partition its image indices; and ids a session
    /// attached as swapchains come from the counter too.
    pub open spec fn wf(self) -> bool {
        &&& 1 <= self.next_handle
        &&& spec_dom_bounded(self.instances@, self.next_handle)
        &&& spec_dom_bounded(self.sessions@, self.next_handle)
        &&& spec_dom_bounded(self.swapchains@, self.next_handle)
        &&& spec_dom_bounded(self.spaces@, self.next_handle)
        &&& spec_dom_bounded(self.action_sets@, self.next_handle)
        &&& spec_dom_bounded(self.actions@, self.next_handle)
        &&& spec_doms_disjoint(self.instances@, self.sessions@)
        &&& spec_doms_disjoint(self.instances@, self.swapchains@)
        &&& spec_doms_disjoint(self.instances@, self.spaces@)
        &&& spec_doms_disjoint(self.instances@, self.action_sets@)
        &&& spec_doms_disjoint(self.instances@, self.actions@)
        &&& spec_doms_disjoint(self.sessions@, self.swapchains@)
        &&& spec_doms_disjoint(self.sessions@, self.spaces@)
        &&& spec_doms_disjoint(self.sessions@, self.action_sets@)
        &&& spec_doms_disjoint(self.sessions@, self.actions@)
        &&& spec_doms_disjoint(self.swapchains@, self.spaces@)
        &&& spec_doms_disjoint(self.swapchains@, self.action_sets@)
        &&& spec_doms_disjoint(self.swapchains@, self.actions@)
        &&& spec_doms_disjoint(self.spaces@, self.action_sets@)
        &&& spec_doms_disjoint(self.spaces@, self.actions@)
        &&& spec_doms_disjoint(self.action_sets@, self.actions@)
        &&& forall|h: u64| #[trigger] self.instances@.dom().contains(h)
            ==> self.queues@.dom().contains(h)
        &&& forall|h: u64| #[trigger] self.sessions@.dom().contains(h)
            ==> self.queues@.dom().contains(self.sessions@[h].instance_id)
        &&& forall|h: u64| #[trigger] self.swapchains@.dom().contains(h)
            ==> self.swapchains@[h].rotation_wf()
        &&& forall|h: u64| #[trigger] self.sessions@.dom().contains(h) ==> spec_ids_bounded(
            self.sessions@[h].swapchain_ids@,
            self.next_handle,
        )
        &&& forall|h: u64| #[trigger] self.instances@.dom().contains(h) ==> spec_ids_bounded(
            self.instances@[h].paths@.dom(),
            self.next_handle,
        )
    }

    /// A runtime with no objects and its handle counter at 1.
    pub fn new() -> (r: Self)
        ensures
            r.wf(),
            r.next_handle == 1,
            r.instances@ == Map::<u64, SimulatedInstance>::empty(),
            r.queues@ == Map::<u64, EventQueue>::empty(),
            r.sessions@ == Map::<u64, SimulatedSession>::empty(),
            r.swapchains@ == Map::<u64, SimulatedSwapchain>::empty(),
            r.spaces@ == Map::<u64, SimulatedSpace>::empty(),
            r.action_sets@ == Map::<u64, SimulatedActionSet>::empty(),
            r.actions@ == Map::<u64, SimulatedAction>::empty(),
    {
        Runtime {
            next_handle: 1,
            instances: Registry::new(),
            queues: Registry::new(),
            sessions: Registry::new(),
            swapchains: Registry::new(),
            spaces: Registry::new(),
            action_sets: Registry::new(),
            actions: Registry::new(),
        }
    }

    /// Handle uniqueness: under the runtime invariant, a live handle
    /// belongs to exactly one resource family, so no two live objects of
    /// any families share a handle; and every handle a future create
    /// returns is at least the counter, so a destroyed object's handle is
    /// never issued again.
    pub proof fn lemma_handle_uniqueness(self, h: u64)
        requires
            self.wf(),
        ensures
            !(self.instances@.dom().contains(h) && self.sessions@.dom().contains(h)),
            !(self.instances@.dom().contains(h) && self.swapchains@.dom().contains(h)),
            !(self.instances@.dom().contains(h) && self.spaces@.dom().contains(h)),
            !(self.instances@.dom().contains(h) && self.action_sets@.dom().contains(h)),
            !(self.instances@.dom().contains(h) && self.actions@.dom().contains(h)),
            !(self.sessions@.dom().contains(h) && self.swapchains@.dom().contains(h)),
            !(self.sessions@.dom().contains(h) && self.spaces@.dom().contains(h)),
            !(self.sessions@.dom().contains(h) && self.action_sets@.dom().contains(h)),
            !(self.sessions@.dom().contains(h) && self.actions@.dom().contains(h)),
            !(self.swapchains@.dom().contains(h) && self.spaces@.dom().contains(h)),
            !(self.swapchains@.dom().contains(h) && self.action_sets@.dom().contains(h)),
            !(self.swapchains@.dom().contains(h) && self.actions@.dom().contains(h)),
            !(self.spaces@.dom().contains(h) && self.action_sets@.dom().contains(h)),
            !(self.spaces@.dom().contains(h) && self.actions@.dom().contains(h)),
            !(self.action_sets@.dom().contains(h) && self.actions@.dom().contains(h)),
            self.instances@.dom().contains(h) || self.sessions@.dom().contains(h)
                || self.swapchains@.dom().contains(h) || self.spaces@.dom().contains(h)
                || self.action_sets@.dom().contains(h) || self.actions@.dom().contains(h) ==> 1
                <= h < self.next_handle,
    {
    }

    /// Creates a runtime instance together with its event queue and
    /// returns its handle. Fails only when the handle counter is spent.
    pub fn create_instance(&mut self) -> (r: Result<u64, Error>)
        requires
            old(self).wf(),
        ensures
            final(self).wf(),
            old(self).next_handle == u64::MAX ==> {
                &&& r == Err::<u64, Error>(Error::RuntimeFailure)
                &&& *final(self) == *old(self)
            },
            old(self).next_handle < u64::MAX ==> {
                let h = old(self).next_handle;
                &&& r == Ok::<u64, Error>(h)
                &&& !old(self).instances@.dom().contains(h)
                &&& final(self).next_handle == h + 1
                &&& final(self).instances@.dom() == old(self).instances@.dom().insert(h)
                &&& final(self).instances@[h].id == h
                &&& final(self).instances@[h].state
                    == crate::instance::InstanceState::Created
                &&& final(self).instances@[h].session_id.is_none()
                &&& final(self).instances@[h].paths@ == Map::<u64, String>::empty()
                &&& forall|k: u64| k != h && #[trigger] old(self).instances@.dom().contains(k)
                    ==> final(self).instances@[k] == old(self).instances@[k]
                &&& final(self).queues@.dom() == old(self).queues@.dom().insert(h)
                &&& final(self).queues@[h]@ == Seq::<crate::event::EventRecord>::empty()
                &&& final(self).sessions@ == old(self).sessions@
                &&& final(self).swapchains@ == old(self).swapchains@
                &&& final(self).spaces@ == old(self).spaces@
                &&& final(self).action_sets@ == old(self).action_sets@
                &&& final(self).actions@ == old(self).actions@
            },
    {
        if self.next_handle == u64::MAX {
            return Err(Error::RuntimeFailure);
        }
        let h = self.next_handle;
        self.next_handle = self.next_handle + 1;
        self.create_queue(h);
        self.instances.insert(h, SimulatedInstance::new(h));
        Ok(h)
    }

    /// Makes an empty event queue for `queue_id`, replacing any queue
    /// already there.
    pub fn create_queue(&mut self, queue_id: u64)
        requires
            old(self).wf(),
        ensures
            final(self).wf(),
            final(self).queues@.dom() == old(self).queues@.dom().insert(queue_id),
            final(self).queues@[queue_id]@ == Seq::<crate::event::EventRecord>::empty(),
            forall|k: u64| k != queue_id && #[trigger] old(self).queues@.dom().contains(k)
                ==> final(self).queues@[k] == old(self).queues@[k],
            final(self).next_handle == old(self).next_handle,
            final(self).instances@ == old(self).instances@,
            final(self).sessions@ == old(self).sessions@,
            final(self).swapchains@ == old(self).swapchains@,
            final(self).spaces@ == old(self).spaces@,
            final(self).action_sets@ == old(self).action_sets@,
            final(self).actions@ == old(self).actions@,
    {
        let queue = EventQueue::new();
        self.queues.insert(queue_id, queue);
    }

    /// Destroys the instance named by `h`; a null handle is refused, a
    /// stale one is tolerated. The instance's event queue is not
    /// destroyed with it, and dependent objects stay until destroyed by
    /// their own calls.
    pub fn destroy_instance(&mut self, h: u64) -> (r: Result<(), Error>)
        requires
            old(self).wf(),
        ensures
            final(self).wf(),
            h == 0 ==> r == Err::<(), Error>(Error::HandleInvalid) && *final(self) == *old(self),
            h != 0 ==> {
                &&& r == Ok::<(), Error>(())
                &&& final(self).instances@ == old(self).instances@.remove(h)
                &&& final(self).next_handle == old(self).next_handle
                &&& final(self).queues@ == old(self).queues@
                &&& final(self).sessions@ == old(self).sessions@
                &&& final(self).swapchains@ == old(self).swapchains@
                &&& final(self).spaces@ == old(self).spaces@
                &&& final(self).action_sets@ == old(self).action_sets@
                &&& final(self).actions@ == old(self).actions@
            },
    {
        if h == 0 {
            return Err(Error::HandleInvalid);
        }
        self.instances.remove(h);
        Ok(())
    }

    /// Serializes `event` onto the queue `queue_id`; an unknown queue is
    /// a missing-object failure.
    pub fn schedule_event(&mut self, queue_id: u64, event: &Event) -> (r: Result<(), Error>)
        requires
            old(self).wf(),
        ensures
            final(self).wf(),
            !old(self).queues@.dom().contains(queue_id) ==> {
                &&& r == Err::<(), Error>(Error::ObjectDoesNotExist)
                &&& *final(self) == *old(self)
            },
            old(self).queues@.dom().contains(queue_id) ==> {
                &&& r == Ok::<(), Error>(())
                &&& final(self).queues@.dom() == old(self).queues@.dom()
                &&& final(self).queues@[queue_id]@ == old(self).queues@[queue_id]@.push(
                    spec_encoded_event(*event),
                )
                &&& forall|k: u64| k != queue_id && #[trigger] old(self).queues@.dom().contains(k)
                    ==> final(self).queues@[k] == old(self).queues@[k]
                &&& final(self).next_handle == old(self).next_handle
                &&& final(self).instances@ == old(self).instances@
                &&& final(self).sessions@ == old(self).sessions@
                &&& final(self).swapchains@ == old(self).swapchains@
                &&& final(self).spaces@ == old(self).spaces@
                &&& final(self).action_sets@ == old(self).action_sets@
                &&& final(self).actions@ == old(self).actions@
            },
    {
        if !self.queues.contains(queue_id) {
            return Err(Error::ObjectDoesNotExist);
        }
        let extracted = self.queues.extract(queue_id);
        match extracted {
            None => Err(Error::RuntimeFailure),
            Some(mut queue) => {
                queue.schedule(event);
                self.queues.insert(queue_id, queue);
                proof {
                    assert(final(self).queues@.dom() =~= old(self).queues@.dom());
                }
                Ok(())
            },
        }
    }

    /// Pops the oldest record from the instance's queue; no waiting
    /// record is the distinct no-event outcome `None`. An unknown
    /// instance handle reports the instance lost.
    pub fn poll(&mut self, instance_h: u64) -> (r: Result<Option<QueueItem>, Error>)
        requires
            old(self).wf(),
        ensures
            final(self).wf(),
            !old(self).instances@.dom().contains(instance_h) ==> {
                &&& r == Err::<Option<QueueItem>, Error>(Error::InstanceLost)
                &&& *final(self) == *old(self)
            },
            old(self).instances@.dom().contains(instance_h) ==> {
                &&& final(self).queues@.dom() == old(self).queues@.dom()
                &&& forall|k: u64| k != instance_h && #[trigger] old(self).queues@.dom().contains(
                    k,
                ) ==> final(self).queues@[k] == old(self).queues@[k]
                &&& final(self).next_handle == old(self).next_handle
                &&& final(self).instances@ == old(self).instances@
                &&& final(self).sessions@ == old(self).sessions@
                &&& final(self).swapchains@ == old(self).swapchains@
                &&& final(self).spaces@ == old(self).spaces@
                &&& final(self).action_sets@ == old(self).action_sets@
                &&& final(self).actions@ == old(self).actions@
                &&& match r {
                    Ok(Some(item)) => {
                        &&& old(self).queues@[instance_h]@.len() > 0
                        &&& item@ == old(self).queues@[instance_h]@[0]
                        &&& final(self).queues@[instance_h]@ == old(self).queues@[instance_h]@.drop_first()
                    },
                    Ok(None) => {
                        &&& old(self).queues@[instance_h]@.len() == 0
                        &&& final(self).queues@[instance_h]@ == old(self).queues@[instance_h]@
                    },
                    Err(_) => false,
                }
            },
    {
        if !self.instances.contains(instance_h) {
            return Err(Error::InstanceLost);
        }
        let extracted = self.queues.extract(instance_h);
        match extracted {
            None => {
                proof {
                    assert(old(self).instances@.dom().contains(instance_h));
                    assert(old(self).queues@.dom().contains(instance_h));
                }
                Err(Error::RuntimeFailure)
            },
            Some(mut queue) => {
                let item = queue.poll();
                self.queues.insert(instance_h, queue);
                proof {
                    assert(final(self).queues@.dom() =~= old(self).queues@.dom());
                }
                Ok(item)
            },
        }
    }
}

impl Runtime {
    /// Everything but the session and queue tables is as it was.
    pub open spec fn spec_non_session_families_unchanged(before: Self, after: Self) -> bool {
        &&& after.next_handle == before.next_handle
        &&& after.instances@ == before.instances@
        &&& after.swapchains@ == before.swapchains@
        &&& after.spaces@ == before.spaces@
        &&& after.action_sets@ == before.action_sets@
        &&& after.actions@ == before.actions@
    }

    /// Every session but `session_h` is as it was.
    pub open spec fn spec_other_sessions_unchanged(before: Self, after: Self, session_h: u64) -> bool {
        &&& after.sessions@.dom() == before.sessions@.dom()
        &&& forall|k: u64| k != session_h && #[trigger] before.sessions@.dom().contains(k)
            ==> after.sessions@[k] == before.sessions@[k]
    }

    /// Every queue but `queue_id` is as it was.
    pub open spec fn spec_other_queues_unchanged(before: Self, after: Self, queue_id: u64) -> bool {
        &&& after.queues@.dom() == before.queues@.dom()
        &&& forall|k: u64| k != queue_id && #[trigger] before.queues@.dom().contains(k)
            ==> after.queues@[k] == before.queues@[k]
    }

    /// The simulated system id, if the caller asks for the one form
    /// factor the simulator provides.
    pub fn get_system(&self, instance_h: u64, form_factor: FormFactor) -> (r: Result<u64, Error>)
        ensures
            !self.instances@.dom().contains(instance_h) ==> r == Err::<u64, Error>(
                Error::InstanceLost,
            ),
            self.instances@.dom().contains(instance_h) && form_factor
                == FormFactor::HeadMountedDisplay ==> r == Ok::<u64, Error>(HMD_SYSTEM_ID),
            self.instances@.dom().contains(instance_h) && form_factor
                != FormFactor::HeadMountedDisplay ==> r == Err::<u64, Error>(
                Error::FormFactorUnsupported,
            ),
    {
        if !self.instances.contains(instance_h) {
            return Err(Error::InstanceLost);
        }
        if matches!(form_factor, FormFactor::HeadMountedDisplay) {
            Ok(HMD_SYSTEM_ID)
        } else {
            Err(Error::FormFactorUnsupported)
        }
    }

    /// Creates the session of an instance: checks the system id against
    /// the simulated display, demands a graphics binding, registers the
    /// session under a fresh handle and schedules the initial Idle
    /// state-change record.
    pub fn create_session(
        &mut self,
        instance_h: u64,
        system_id: u64,
        graphics_binding: Option<GraphicsBinding>,
        now: MyTime,
    ) -> (r: Result<u64, Error>)
        requires
            old(self).wf(),
        ensures
            final(self).wf(),
            system_id != HMD_SYSTEM_ID ==> r == Err::<u64, Error>(Error::SystemInvalid) && *final(self) == *old(self),
            system_id == HMD_SYSTEM_ID && !old(self).instances@.dom().contains(instance_h) ==> r
                == Err::<u64, Error>(Error::InstanceLost) && *final(self) == *old(self),
            system_id == HMD_SYSTEM_ID && old(self).instances@.dom().contains(instance_h)
                && graphics_binding.is_none() ==> r == Err::<u64, Error>(
                Error::GraphicsDeviceInvalid,
            ) && *final(self) == *old(self),
            system_id == HMD_SYSTEM_ID && old(self).instances@.dom().contains(instance_h)
                && graphics_binding.is_some() && old(self).instances@[instance_h].state
                != InstanceState::Created ==> r == Err::<u64, Error>(Error::InstanceStateInvalid)
                && *final(self) == *old(self),
            system_id == HMD_SYSTEM_ID && old(self).instances@.dom().contains(instance_h)
                && graphics_binding.is_some() && old(self).instances@[instance_h].state
                == InstanceState::Created && old(self).next_handle == u64::MAX ==> r == Err::<
                u64,
                Error,
            >(Error::RuntimeFailure) && *final(self) == *old(self),
            system_id == HMD_SYSTEM_ID && old(self).instances@.dom().contains(instance_h)
                && graphics_binding.is_some() && old(self).instances@[instance_h].state
                == InstanceState::Created && old(self).next_handle < u64::MAX ==> {
                let h = old(self).next_handle;
                let sess = final(self).sessions@[h];
                &&& r == Ok::<u64, Error>(h)
                &&& !old(self).sessions@.dom().contains(h)
                &&& final(self).next_handle == h + 1
                &&& final(self).sessions@.dom() == old(self).sessions@.dom().insert(h)
                &&& sess.instance_id == instance_h
                &&& sess.id == h
                &&& sess.graphics_binding == graphics_binding->0
                &&& sess.state == SessionState::Idle
                &&& !sess.is_running
                &&& sess.space_ids@.is_empty()
                &&& sess.action_set_ids@.is_empty()
                &&& sess.swapchain_ids@.is_empty()
                &&& sess.frame == (SessionFrame {
                    waiting_begin: false,
                    is_waited: false,
                    is_began: false,
                })
                &&& Self::spec_other_sessions_unchanged_except_new(*old(self), *final(self), h)
                &&& Self::spec_other_queues_unchanged(*old(self), *final(self), instance_h)
                &&& final(self).queues@[instance_h]@ == old(self).queues@[instance_h]@.push(
                    spec_encoded_event(spec_state_event(h, SessionState::Idle, now)),
                )
                &&& final(self).instances@.dom() == old(self).instances@.dom()
                &&& final(self).instances@[instance_h].state == InstanceState::SessionCreated
                &&& final(self).instances@[instance_h].session_id == Some(h)
                &&& final(self).instances@[instance_h].id == old(self).instances@[instance_h].id
                &&& final(self).instances@[instance_h].paths@ == old(self).instances@[instance_h].paths@
                &&& final(self).instances@[instance_h].action_set_ids@ == old(self).instances@[instance_h].action_set_ids@
                &&& final(self).instances@[instance_h].interaction_profile_bindings@ == old(self).instances@[instance_h].interaction_profile_bindings@
                &&& forall|k: u64|
                    k != instance_h && #[trigger] old(self).instances@.dom().contains(k) ==> final(self).instances@[k] == old(self).instances@[k]
                &&& final(self).swapchains@ == old(self).swapchains@
                &&& final(self).spaces@ == old(self).spaces@
                &&& final(self).action_sets@ == old(self).action_sets@
                &&& final(self).actions@ == old(self).actions@
            },
    {
        if system_id != HMD_SYSTEM_ID {
            return Err(Error::SystemInvalid);
        }
        if !self.instances.contains(instance_h) {
            return Err(Error::InstanceLost);
        }
        let binding = match graphics_binding {
            None => {
                return Err(Error::GraphicsDeviceInvalid);
            },
            Some(b) => b,
        };
        let state_is_fresh = match self.instances.get(instance_h) {
            Some(instance) => matches!(instance.state, InstanceState::Created),
            None => false,
        };
        if !state_is_fresh {
            return Err(Error::InstanceStateInvalid);
        }
        if self.next_handle == u64::MAX {
            return Err(Error::RuntimeFailure);
        }
        let h = self.next_handle;
        self.next_handle = h + 1;
        let extracted_instance = self.instances.extract(instance_h);
        let extracted_queue = self.queues.extract(instance_h);
        match (extracted_instance, extracted_queue) {
            (Some(mut instance), Some(mut queue)) => {
                let session = SimulatedSession::new(instance_h, h, binding, &mut queue, now);
                self.queues.insert(instance_h, queue);
                self.sessions.insert(h, session);
                let set_result = instance.set_session(h);
                proof {
                    assert(set_result is Ok);
                }
                self.instances.insert(instance_h, instance);
                proof {
                    assert(final(self).instances@.dom() =~= old(self).instances@.dom());
                    assert(final(self).queues@.dom() =~= old(self).queues@.dom());
                }
                Ok(h)
            },
            _ => {
                proof {
                    assert(old(self).queues@.dom().contains(instance_h));
                    assert(false);
                }
                Err(Error::RuntimeFailure)
            },
        }
    }

    /// Every session but the freshly created `new_h` is as it was.
    pub open spec fn spec_other_sessions_unchanged_except_new(
        before: Self,
        after: Self,
        new_h: u64,
    ) -> bool {
        forall|k: u64| k != new_h && #[trigger] before.sessions@.dom().contains(k)
            ==> after.sessions@[k] == before.sessions@[k]
    }

    /// Destroys the session named by `h`; a null handle is refused, a
    /// stale one is tolerated.
    pub fn destroy_session(&mut self, h: u64) -> (r: Result<(), Error>)
        requires
            old(self).wf(),
        ensures
            final(self).wf(),
            h == 0 ==> r == Err::<(), Error>(Error::HandleInvalid) && *final(self) == *old(self),
            h != 0 ==> {
                &&& r == Ok::<(), Error>(())
                &&& final(self).sessions@ == old(self).sessions@.remove(h)
                &&& final(self).next_handle == old(self).next_handle
                &&& final(self).instances@ == old(self).instances@
                &&& final(self).queues@ == old(self).queues@
                &&& final(self).swapchains@ == old(self).swapchains@
                &&& final(self).spaces@ == old(self).spaces@
                &&& final(self).action_sets@ == old(self).action_sets@
                &&& final(self).actions@ == old(self).actions@
            },
    {
        if h == 0 {
            return Err(Error::HandleInvalid);
        }
        self.sessions.remove(h);
        Ok(())
    }

    /// Begins the session's running phase; only the primary stereo view
    /// configuration is accepted.
    pub fn begin_session(&mut self, session_h: u64, view_configuration: ViewConfigurationType) -> (r:
        Result<(), Error>)
        requires
            old(self).wf(),
        ensures
            final(self).wf(),
            view_configuration != ViewConfigurationType::PrimaryStereo ==> r == Err::<(), Error>(
                Error::ViewConfigurationTypeUnsupported,
            ) && *final(self) == *old(self),
            view_configuration == ViewConfigurationType::PrimaryStereo && !old(self).sessions@.dom().contains(session_h) ==> r == Err::<(), Error>(Error::SessionLost)
                && *final(self) == *old(self),
            view_configuration == ViewConfigurationType::PrimaryStereo && old(self).sessions@.dom().contains(session_h) ==> {
                let sess = old(self).sessions@[session_h];
                &&& Self::spec_non_session_families_unchanged(*old(self), *final(self))
                &&& final(self).queues@ == old(self).queues@
                &&& Self::spec_other_sessions_unchanged(*old(self), *final(self), session_h)
                &&& (sess.is_running ==> r == Err::<(), Error>(Error::SessionRunning) && final(self).sessions@[session_h] == sess)
                &&& (!sess.is_running && sess.state != SessionState::Ready ==> r == Err::<
                    (),
                    Error,
                >(Error::SessionNotReady) && final(self).sessions@[session_h] == sess)
                &&& (!sess.is_running && sess.state == SessionState::Ready ==> r == Ok::<
                    (),
                    Error,
                >(()) && final(self).sessions@[session_h] == spec_with_running(sess, true))
            },
    {
        if !matches!(view_configuration, ViewConfigurationType::PrimaryStereo) {
            return Err(Error::ViewConfigurationTypeUnsupported);
        }
        if !self.sessions.contains(session_h) {
            return Err(Error::SessionLost);
        }
        let extracted = self.sessions.extract(session_h);
        match extracted {
            None => {
                proof {
                    assert(false);
                }
                Err(Error::RuntimeFailure)
            },
            Some(mut session) => {
                let result = session.begin();
                self.sessions.insert(session_h, session);
                proof {
                    assert(final(self).sessions@.dom() =~= old(self).sessions@.dom());
                }
                result
            },
        }
    }

    /// Asks a running session to stop; the Stopping state-change record
    /// goes on the owning instance's queue.
    pub fn request_exit(&mut self, session_h: u64, now: MyTime) -> (r: Result<(), Error>)
        requires
            old(self).wf(),
        ensures
            final(self).wf(),
            !old(self).sessions@.dom().contains(session_h) ==> r == Err::<(), Error>(
                Error::SessionLost,
            ) && *final(self) == *old(self),
            old(self).sessions@.dom().contains(session_h) ==> {
                let sess = old(self).sessions@[session_h];
                let qid = sess.instance_id;
                &&& Self::spec_non_session_families_unchanged(*old(self), *final(self))
                &&& Self::spec_other_sessions_unchanged(*old(self), *final(self), session_h)
                &&& Self::spec_other_queues_unchanged(*old(self), *final(self), qid)
                &&& (!sess.is_running ==> r == Err::<(), Error>(Error::SessionNotRunning) && final(self).sessions@[session_h] == sess && final(self).queues@[qid]@ == old(self).queues@[qid]@)
                &&& (sess.is_running ==> r == Ok::<(), Error>(()) && final(self).sessions@[session_h] == spec_with_state(sess, SessionState::Stopping) && final(self).queues@[qid]@ == old(self).queues@[qid]@.push(
                    spec_encoded_event(spec_state_event(sess.id, SessionState::Stopping, now)),
                ))
            },
    {
        if !self.sessions.contains(session_h) {
            return Err(Error::SessionLost);
        }
        let extracted = self.sessions.extract(session_h);
        match extracted {
            None => {
                proof {
                    assert(false);
                }
                Err(Error::RuntimeFailure)
            },
            Some(mut session) => {
                let qid = session.instance_id;
                let extracted_queue = self.queues.extract(qid);
                match extracted_queue {
                    None => {
                        proof {
                            assert(old(self).queues@.dom().contains(qid));
                            assert(false);
                        }
                        Err(Error::RuntimeFailure)
                    },
                    Some(mut queue) => {
                        let result = session.request_exit(&mut queue, now);
                        self.queues.insert(qid, queue);
                        self.sessions.insert(session_h, session);
                        proof {
                            assert(final(self).sessions@.dom() =~= old(self).sessions@.dom());
                            assert(final(self).queues@.dom() =~= old(self).queues@.dom());
                        }
                        result
                    },
                }
            },
        }
    }

    /// Ends a stopping session, returning it to Idle; the Idle
    /// state-change record goes on the owning instance's queue.
    pub fn end_session(&mut self, session_h: u64, now: MyTime) -> (r: Result<(), Error>)
        requires
            old(self).wf(),
        ensures
            final(self).wf(),
            !old(self).sessions@.dom().contains(session_h) ==> r == Err::<(), Error>(
                Error::SessionLost,
            ) && *final(self) == *old(self),
            old(self).sessions@.dom().contains(session_h) ==> {
                let sess = old(self).sessions@[session_h];
                let qid = sess.instance_id;
                &&& Self::spec_non_session_families_unchanged(*old(self), *final(self))
                &&& Self::spec_other_sessions_unchanged(*old(self), *final(self), session_h)
                &&& Self::spec_other_queues_unchanged(*old(self), *final(self), qid)
                &&& (!sess.is_running ==> r == Err::<(), Error>(Error::SessionNotRunning) && final(self).sessions@[session_h] == sess && final(self).queues@[qid]@ == old(self).queues@[qid]@)
                &&& (sess.is_running && sess.state != SessionState::Stopping ==> r == Err::<
                    (),
                    Error,
                >(Error::SessionNotStopping) && final(self).sessions@[session_h] == sess && final(self).queues@[qid]@ == old(self).queues@[qid]@)
                &&& (sess.is_running && sess.state == SessionState::Stopping ==> r == Ok::<
                    (),
                    Error,
                >(()) && final(self).sessions@[session_h] == spec_with_state(
                    spec_with_running(sess, false),
                    SessionState::Idle,
                ) && final(self).queues@[qid]@ == old(self).queues@[qid]@.push(
                    spec_encoded_event(spec_state_event(sess.id, SessionState::Idle, now)),
                ))
            },
    {
        if !self.sessions.contains(session_h) {
            return Err(Error::SessionLost);
        }
        let extracted = self.sessions.extract(session_h);
        match extracted {
            None => {
                proof {
                    assert(false);
                }
                Err(Error::RuntimeFailure)
            },
            Some(mut session) => {
                let qid = session.instance_id;
                let extracted_queue = self.queues.extract(qid);
                match extracted_queue {
                    None => {
                        proof {
                            assert(old(self).queues@.dom().contains(qid));
                            assert(false);
                        }
                        Err(Error::RuntimeFailure)
                    },
                    Some(mut queue) => {
                        let result = session.end(&mut queue, now);
                        self.queues.insert(qid, queue);
                        self.sessions.insert(session_h, session);
                        proof {
                            assert(final(self).sessions@.dom() =~= old(self).sessions@.dom());
                            assert(final(self).queues@.dom() =~= old(self).queues@.dom());
                        }
                        result
                    },
                }
            },
        }
    }

    /// Completes a frame wait: demands a running session, advances a
    /// Ready session into the Focused running phase, predicts the next
    /// display time from `now` and arms the begin gate. The cooperative
    /// blocking on the begin gate happens outside the library.
    pub fn wait_frame(&mut self, session_h: u64, now: MyTime) -> (r: Result<FrameState, Error>)
        requires
            old(self).wf(),
            now.0 + PREDICTED_DISPLAY_LEAD_NANOS <= i64::MAX,
        ensures
            final(self).wf(),
            !old(self).sessions@.dom().contains(session_h) ==> r == Err::<FrameState, Error>(
                Error::SessionLost,
            ) && *final(self) == *old(self),
            old(self).sessions@.dom().contains(session_h) ==> {
                let sess = old(self).sessions@[session_h];
                &&& Self::spec_non_session_families_unchanged(*old(self), *final(self))
                &&& final(self).queues@ == old(self).queues@
                &&& Self::spec_other_sessions_unchanged(*old(self), *final(self), session_h)
                &&& (!sess.is_running ==> r == Err::<FrameState, Error>(Error::SessionNotRunning)
                    && final(self).sessions@[session_h] == sess)
                &&& (sess.is_running ==> {
                    let synced = if sess.state == SessionState::Ready {
                        spec_with_state(sess, SessionState::Focused)
                    } else {
                        sess
                    };
                    &&& r == Ok::<FrameState, Error>(
                        FrameState {
                            predicted_display_time: MyTime(
                                (now.0 + PREDICTED_DISPLAY_LEAD_NANOS) as i64,
                            ),
                            predicted_display_period:
                                crate::frame::PREDICTED_DISPLAY_PERIOD_NANOS,
                            should_render: true,
                        },
                    )
                    &&& final(self).sessions@[session_h] == (SimulatedSession {
                        frame: SessionFrame {
                            waiting_begin: true,
                            is_waited: true,
                            is_began: sess.frame.is_began,
                        },
                        ..synced
                    })
                })
            },
    {
        if !self.sessions.contains(session_h) {
            return Err(Error::SessionLost);
        }
        let extracted = self.sessions.extract(session_h);
        match extracted {
            None => {
                proof {
                    assert(false);
                }
                Err(Error::RuntimeFailure)
            },
            Some(mut session) => {
                if !session.is_running {
                    self.sessions.insert(session_h, session);
                    proof {
                        assert(final(self).sessions@.dom() =~= old(self).sessions@.dom());
                        assert(final(self).sessions@ =~= old(self).sessions@);
                    }
                    return Err(Error::SessionNotRunning);
                }
                session.synchronize();
                let frame_state = session.frame.wait(now);
                self.sessions.insert(session_h, session);
                proof {
                    assert(final(self).sessions@.dom() =~= old(self).sessions@.dom());
                }
                Ok(frame_state)
            },
        }
    }

    /// Begins a frame on a running session, tolerating a double begin by
    /// reporting the frame discarded.
    pub fn begin_frame(&mut self, session_h: u64) -> (r: Result<FrameBeginOutcome, Error>)
        requires
            old(self).wf(),
        ensures
            final(self).wf(),
            !old(self).sessions@.dom().contains(session_h) ==> r == Err::<
                FrameBeginOutcome,
                Error,
            >(Error::SessionLost) && *final(self) == *old(self),
            old(self).sessions@.dom().contains(session_h) ==> {
                let sess = old(self).sessions@[session_h];
                &&& Self::spec_non_session_families_unchanged(*old(self), *final(self))
                &&& final(self).queues@ == old(self).queues@
                &&& Self::spec_other_sessions_unchanged(*old(self), *final(self), session_h)
                &&& (!sess.is_running ==> r == Err::<FrameBeginOutcome, Error>(
                    Error::SessionNotRunning,
                ) && final(self).sessions@[session_h] == sess)
                &&& (sess.is_running && sess.frame.is_began ==> r == Ok::<
                    FrameBeginOutcome,
                    Error,
                >(FrameBeginOutcome::Discarded) && final(self).sessions@[session_h]
                    == (SimulatedSession {
                    frame: SessionFrame { waiting_begin: false, is_waited: false, is_began: true },
                    ..sess
                }))
                &&& (sess.is_running && !sess.frame.is_began && !sess.frame.is_waited ==> r
                    == Err::<FrameBeginOutcome, Error>(Error::CallOrderInvalid) && final(self).sessions@[session_h] == sess)
                &&& (sess.is_running && !sess.frame.is_began && sess.frame.is_waited ==> r == Ok::<
                    FrameBeginOutcome,
                    Error,
                >(FrameBeginOutcome::Success) && final(self).sessions@[session_h]
                    == (SimulatedSession {
                    frame: SessionFrame { waiting_begin: false, is_waited: false, is_began: true },
                    ..sess
                }))
            },
    {
        if !self.sessions.contains(session_h) {
            return Err(Error::SessionLost);
        }
        let extracted = self.sessions.extract(session_h);
        match extracted {
            None => {
                proof {
                    assert(false);
                }
                Err(Error::RuntimeFailure)
            },
            Some(mut session) => {
                if !session.is_running {
                    self.sessions.insert(session_h, session);
                    proof {
                        assert(final(self).sessions@ =~= old(self).sessions@);
                        assert(final(self).sessions@.dom() =~= old(self).sessions@.dom());
                    }
                    return Err(Error::SessionNotRunning);
                }
                let result = session.frame.begin();
                self.sessions.insert(session_h, session);
                proof {
                    assert(final(self).sessions@.dom() =~= old(self).sessions@.dom());
                }
                result
            },
        }
    }

    /// Ends the outstanding frame of a running session, validating that
    /// every supplied composition layer is a projection layer.
    pub fn end_frame(&mut self, session_h: u64, layers: &Vec<CompositionLayerKind>) -> (r: Result<
        (),
        Error,
    >)
        requires
            old(self).wf(),
        ensures
            final(self).wf(),
            !old(self).sessions@.dom().contains(session_h) ==> r == Err::<(), Error>(
                Error::SessionLost,
            ) && *final(self) == *old(self),
            old(self).sessions@.dom().contains(session_h) ==> {
                let sess = old(self).sessions@[session_h];
                &&& Self::spec_non_session_families_unchanged(*old(self), *final(self))
                &&& final(self).queues@ == old(self).queues@
                &&& Self::spec_other_sessions_unchanged(*old(self), *final(self), session_h)
                &&& (!sess.is_running ==> r == Err::<(), Error>(Error::SessionNotRunning) && final(self).sessions@[session_h] == sess)
                &&& (sess.is_running && !sess.frame.is_began ==> r == Err::<(), Error>(
                    Error::CallOrderInvalid,
                ) && final(self).sessions@[session_h] == sess)
                &&& (sess.is_running && sess.frame.is_began && !(forall|i: int|
                    0 <= i < layers@.len() ==> layers@[i] == CompositionLayerKind::Projection)
                    ==> r == Err::<(), Error>(Error::RuntimeFailure) && final(self).sessions@[session_h] == sess)
                &&& (sess.is_running && sess.frame.is_began && (forall|i: int|
                    0 <= i < layers@.len() ==> layers@[i] == CompositionLayerKind::Projection)
                    ==> r == Ok::<(), Error>(()) && final(self).sessions@[session_h]
                    == (SimulatedSession {
                    frame: SessionFrame {
                        waiting_begin: sess.frame.waiting_begin,
                        is_waited: sess.frame.is_waited,
                        is_began: false,
                    },
                    ..sess
                }))
            },
    {
        if !self.sessions.contains(session_h) {
            return Err(Error::SessionLost);
        }
        let (session_running, session_began) = match self.sessions.get(session_h) {
            Some(session) => (session.is_running, session.frame.can_end()),
            None => (false, false),
        };
        if !session_running {
            return Err(Error::SessionNotRunning);
        }
        if !session_began {
            return Err(Error::CallOrderInvalid);
        }
        if !layers_all_projection(layers) {
            return Err(Error::RuntimeFailure);
        }
        let extracted = self.sessions.extract(session_h);
        match extracted {
            None => {
                proof {
                    assert(false);
                }
                Err(Error::RuntimeFailure)
            },
            Some(mut session) => {
                session.frame.end();
                self.sessions.insert(session_h, session);
                proof {
                    assert(final(self).sessions@.dom() =~= old(self).sessions@.dom());
                }
                Ok(())
            },
        }
    }
}

/// The outcome of a two-call enumeration: the required count when the
/// caller passed zero capacity, or the items when it passed the exact
/// capacity.
#[derive(Debug, PartialEq, Eq)]
pub enum Enumerated<T> {
    Count(u32),
    Items(Vec<T>),
}

/// Whether `ids` can all be attached in one call: no id twice, and none
/// already in `attached`.
pub open spec fn spec_ids_fresh(attached: Set<u64>, ids: Seq<u64>) -> bool {
    &&& forall|a: int, b: int| 0 <= a < b < ids.len() ==> ids[a] != ids[b]
    &&& forall|a: int| 0 <= a < ids.len() ==> !attached.contains(#[trigger] ids[a])
}

/// Whether every id in `ids` is new to `session`: no id listed twice and
/// none already attached.
fn ids_fresh_for(session: &SimulatedSession, ids: &Vec<u64>) -> (r: bool)
    ensures
        r == spec_ids_fresh(session.action_set_ids@, ids@),
{
    let n = ids.len();
    let mut i: usize = 0;
    while i < n
        invariant
            n == ids@.len(),
            0 <= i <= n,
            forall|a: int| 0 <= a < i ==> !session.action_set_ids@.contains(#[trigger] ids@[a]),
            forall|a: int, b: int| 0 <= a < b < i ==> ids@[a] != ids@[b],
        decreases n - i,
    {
        if session.has_attached_action_set(ids[i]) {
            return false;
        }
        let mut j: usize = 0;
        while j < i
            invariant
                n == ids@.len(),
                0 <= j <= i < n,
                forall|a: int| 0 <= a < i ==> !session.action_set_ids@.contains(
                    #[trigger] ids@[a],
                ),
                forall|a: int, b: int| 0 <= a < b < i ==> ids@[a] != ids@[b],
                !session.action_set_ids@.contains(ids@[i as int]),
                forall|a: int| 0 <= a < j ==> ids@[a] != ids@[i as int],
            decreases i - j,
        {
            if ids[j] == ids[i] {
                return false;
            }
            j = j + 1;
        }
        i = i + 1;
    }
    true
}

impl Runtime {
    /// Attaches action sets to a session in one atomic call: the whole
    /// list is validated first, and a set met twice, in the list or
    /// among the already attached, fails the call with nothing attached
    /// and nothing scheduled. On success readiness is recomputed, so the
    /// Idle-to-Ready transition schedules its one record.
    pub fn attach_action_sets(&mut self, session_h: u64, ids: &Vec<u64>, now: MyTime) -> (r: Result<
        (),
        Error,
    >)
        requires
            old(self).wf(),
        ensures
            final(self).wf(),
            ids@.len() == 0 ==> r == Err::<(), Error>(Error::Validation) && *final(self) == *old(self),
            ids@.len() > 0 && !old(self).sessions@.dom().contains(session_h) ==> r == Err::<
                (),
                Error,
            >(Error::SessionLost) && *final(self) == *old(self),
            ids@.len() > 0 && old(self).sessions@.dom().contains(session_h) && !spec_ids_fresh(
                old(self).sessions@[session_h].action_set_ids@,
                ids@,
            ) ==> r == Err::<(), Error>(Error::ActionSetsAlreadyAttached) && *final(self) == *old(
                self,
            ),
            ids@.len() > 0 && old(self).sessions@.dom().contains(session_h) && spec_ids_fresh(
                old(self).sessions@[session_h].action_set_ids@,
                ids@,
            ) ==> {
                let sess = old(self).sessions@[session_h];
                let qid = sess.instance_id;
                let new_sess = final(self).sessions@[session_h];
                &&& r == Ok::<(), Error>(())
                &&& Self::spec_non_session_families_unchanged(*old(self), *final(self))
                &&& Self::spec_other_sessions_unchanged(*old(self), *final(self), session_h)
                &&& Self::spec_other_queues_unchanged(*old(self), *final(self), qid)
                &&& spec_session_core_unchanged(sess, new_sess)
                &&& new_sess.space_ids@ == sess.space_ids@
                &&& new_sess.swapchain_ids@ == sess.swapchain_ids@
                &&& (forall|x: u64|
                    new_sess.action_set_ids@.contains(x) <==> sess.action_set_ids@.contains(x)
                        || ids@.contains(x))
                &&& (sess.state != SessionState::Idle ==> new_sess.state == sess.state && final(self).queues@[qid]@ == old(self).queues@[qid]@)
                &&& (sess.state == SessionState::Idle && (sess.space_ids@.is_empty()
                    || sess.swapchain_ids@.is_empty()) ==> new_sess.state == SessionState::Idle
                    && final(self).queues@[qid]@ == old(self).queues@[qid]@)
                &&& (sess.state == SessionState::Idle && !sess.space_ids@.is_empty()
                    && !sess.swapchain_ids@.is_empty() ==> new_sess.state == SessionState::Ready
                    && final(self).queues@[qid]@ == old(self).queues@[qid]@.push(
                    spec_encoded_event(spec_state_event(sess.id, SessionState::Ready, now)),
                ))
            },
    {
        if ids.len() == 0 {
            return Err(Error::Validation);
        }
        if !self.sessions.contains(session_h) {
            return Err(Error::SessionLost);
        }
        let all_fresh = match self.sessions.get(session_h) {
            Some(session) => ids_fresh_for(session, ids),
            None => false,
        };
        if !all_fresh {
            return Err(Error::ActionSetsAlreadyAttached);
        }
        let extracted = self.sessions.extract(session_h);
        let mut session = match extracted {
            None => {
                proof {
                    assert(false);
                }
                return Err(Error::RuntimeFailure);
            },
            Some(s) => s,
        };
        let qid = session.instance_id;
        let extracted_queue = self.queues.extract(qid);
        let mut queue = match extracted_queue {
            None => {
                proof {
                    assert(old(self).queues@.dom().contains(qid));
                    assert(false);
                }
                return Err(Error::RuntimeFailure);
            },
            Some(q) => q,
        };
        let ghost sess0 = old(self).sessions@[session_h];
        let ghost q0 = old(self).queues@[qid]@;
        let n = ids.len();
        let mut i: usize = 0;
        while i < n
            invariant
                old(self).wf(),
                old(self).sessions@.dom().contains(session_h),
                sess0 == old(self).sessions@[session_h],
                spec_ids_fresh(sess0.action_set_ids@, ids@),
                qid == sess0.instance_id,
                old(self).queues@.dom().contains(qid),
                q0 == old(self).queues@[qid]@,
                n == ids@.len(),
                0 <= i <= n,
                self.next_handle == old(self).next_handle,
                self.instances@ == old(self).instances@,
                self.swapchains@ == old(self).swapchains@,
                self.spaces@ == old(self).spaces@,
                self.action_sets@ == old(self).action_sets@,
                self.actions@ == old(self).actions@,
                self.sessions@ == old(self).sessions@.remove(session_h),
                self.queues@ == old(self).queues@.remove(qid),
                spec_session_core_unchanged(sess0, session),
                session.space_ids@ == sess0.space_ids@,
                session.swapchain_ids@ == sess0.swapchain_ids@,
                forall|x: u64|
                    session.action_set_ids@.contains(x) <==> sess0.action_set_ids@.contains(x)
                        || ids@.take(i as int).contains(x),
                sess0.state != SessionState::Idle ==> session.state == sess0.state && queue@ == q0,
                sess0.state == SessionState::Idle && (sess0.space_ids@.is_empty()
                    || sess0.swapchain_ids@.is_empty()) ==> session.state == SessionState::Idle
                    && queue@ == q0,
                sess0.state == SessionState::Idle && !sess0.space_ids@.is_empty()
                    && !sess0.swapchain_ids@.is_empty() ==> {
                    ||| (i == 0 && session.state == SessionState::Idle && queue@ == q0)
                    ||| (session.state == SessionState::Ready && queue@ == q0.push(
                        spec_encoded_event(spec_state_event(sess0.id, SessionState::Ready, now)),
                    ))
                },
            decreases n - i,
        {
            let id = ids[i];
            proof {
                assert(!sess0.action_set_ids@.contains(ids@[i as int]));
                assert(!ids@.take(i as int).contains(ids@[i as int])) by {
                    if ids@.take(i as int).contains(ids@[i as int]) {
                        let w = choose|w: int|
                            0 <= w < i && ids@.take(i as int)[w] == ids@[i as int];
                        assert(ids@[w] == ids@[i as int]);
                    }
                }
                assert(!session.action_set_ids@.contains(ids@[i as int]));
            }
            let attach_result = session.attach_action_set(id, &mut queue, now);
            proof {
                assert(attach_result is Ok);
                assert(ids@.take(i + 1) =~= ids@.take(i as int).push(ids@[i as int]));
                assert forall|x: u64| ids@.take(i + 1).contains(x) <==> (ids@.take(
                    i as int,
                ).contains(x) || x == ids@[i as int]) by {
                    vstd::seq_lib::lemma_seq_contains_after_push(
                        ids@.take(i as int),
                        ids@[i as int],
                        x,
                    );
                }
                if sess0.state == SessionState::Idle && !sess0.space_ids@.is_empty()
                    && !sess0.swapchain_ids@.is_empty() {
                    assert(session.action_set_ids@.contains(ids@[i as int]));
                    assert(!session.action_set_ids@.is_empty());
                    assert(session.ready_inputs_present());
                }
            }
            i = i + 1;
        }
        proof {
            assert(ids@.take(n as int) =~= ids@);
        }
        self.queues.insert(qid, queue);
        self.sessions.insert(session_h, session);
        proof {
            assert(self.sessions@.dom() =~= old(self).sessions@.dom());
            assert(self.queues@.dom() =~= old(self).queues@.dom());
        }
        Ok(())
    }
}

/// Whether every supplied composition layer is a projection layer.
fn layers_all_projection(layers: &Vec<CompositionLayerKind>) -> (r: bool)
    ensures
        r == (forall|i: int|
            0 <= i < layers@.len() ==> layers@[i] == CompositionLayerKind::Projection),
{
    let n = layers.len();
    let mut i: usize = 0;
    while i < n
        invariant
            n == layers@.len(),
            0 <= i <= n,
            forall|j: int| 0 <= j < i ==> layers@[j] == CompositionLayerKind::Projection,
        decreases n - i,
    {
        if !matches!(layers[i], CompositionLayerKind::Projection) {
            return false;
        }
        i = i + 1;
    }
    true
}

impl Runtime {
    /// Registers a space under a fresh handle and attaches it to its
    /// session, which recomputes readiness.
    pub fn create_space(&mut self, session_h: u64, space: SimulatedSpaceType, now: MyTime) -> (r:
        Result<u64, Error>)
        requires
            old(self).wf(),
        ensures
            final(self).wf(),
            !old(self).sessions@.dom().contains(session_h) ==> r == Err::<u64, Error>(
                Error::SessionLost,
            ) && *final(self) == *old(self),
            old(self).sessions@.dom().contains(session_h) && old(self).next_handle == u64::MAX
                ==> r == Err::<u64, Error>(Error::RuntimeFailure) && *final(self) == *old(self),
            old(self).sessions@.dom().contains(session_h) && old(self).next_handle < u64::MAX
                ==> {
                let h = old(self).next_handle;
                let sess = old(self).sessions@[session_h];
                let qid = sess.instance_id;
                let new_sess = final(self).sessions@[session_h];
                &&& r == Ok::<u64, Error>(h)
                &&& final(self).next_handle == h + 1
                &&& final(self).spaces@.dom() == old(self).spaces@.dom().insert(h)
                &&& final(self).spaces@[h] == (SimulatedSpace { session_id: session_h, id: h, space })
                &&& forall|k: u64| k != h && #[trigger] old(self).spaces@.dom().contains(k)
                    ==> final(self).spaces@[k] == old(self).spaces@[k]
                &&& Self::spec_other_sessions_unchanged(*old(self), *final(self), session_h)
                &&& Self::spec_other_queues_unchanged(*old(self), *final(self), qid)
                &&& new_sess.space_ids@ == sess.space_ids@.insert(
                    h,
                    crate::spaces::spec_session_space_kind(space),
                )
                &&& new_sess.action_set_ids@ == sess.action_set_ids@
                &&& new_sess.swapchain_ids@ == sess.swapchain_ids@
                &&& spec_attach_outcome_holds(
                    sess,
                    new_sess,
                    old(self).queues@[qid]@,
                    final(self).queues@[qid]@,
                    now,
                )
                &&& final(self).instances@ == old(self).instances@
                &&& final(self).swapchains@ == old(self).swapchains@
                &&& final(self).action_sets@ == old(self).action_sets@
                &&& final(self).actions@ == old(self).actions@
            },
    {
        if !self.sessions.contains(session_h) {
            return Err(Error::SessionLost);
        }
        if self.next_handle == u64::MAX {
            return Err(Error::RuntimeFailure);
        }
        let h = self.next_handle;
        self.next_handle = h + 1;
        let record = SimulatedSpace::new(session_h, h, space);
        let kind = record.session_space_kind();
        let extracted = self.sessions.extract(session_h);
        let mut session = match extracted {
            None => {
                proof {
                    assert(false);
                }
                return Err(Error::RuntimeFailure);
            },
            Some(s) => s,
        };
        let qid = session.instance_id;
        let extracted_queue = self.queues.extract(qid);
        let mut queue = match extracted_queue {
            None => {
                proof {
                    assert(old(self).queues@.dom().contains(qid));
                    assert(false);
                }
                return Err(Error::RuntimeFailure);
            },
            Some(q) => q,
        };
        session.set_space(kind, h, &mut queue, now);
        self.queues.insert(qid, queue);
        self.sessions.insert(session_h, session);
        self.spaces.insert(h, record);
        proof {
            assert(final(self).sessions@.dom() =~= old(self).sessions@.dom());
            assert(final(self).queues@.dom() =~= old(self).queues@.dom());
        }
        Ok(h)
    }

    /// Creates a reference space fixed at `pose`.
    pub fn create_reference_space(&mut self, session_h: u64, pose: Pose, now: MyTime) -> (r: Result<
        u64,
        Error,
    >)
        requires
            old(self).wf(),
        ensures
            final(self).wf(),
            !old(self).sessions@.dom().contains(session_h) ==> r == Err::<u64, Error>(
                Error::SessionLost,
            ) && *final(self) == *old(self),
            old(self).sessions@.dom().contains(session_h) && old(self).next_handle == u64::MAX
                ==> r == Err::<u64, Error>(Error::RuntimeFailure) && *final(self) == *old(self),
            old(self).sessions@.dom().contains(session_h) && old(self).next_handle < u64::MAX
                ==> {
                let h = old(self).next_handle;
                &&& r == Ok::<u64, Error>(h)
                &&& final(self).spaces@[h] == (SimulatedSpace {
                    session_id: session_h,
                    id: h,
                    space: SimulatedSpaceType::Reference(SimulatedReferenceSpace { pose }),
                })
            },
    {
        self.create_space(
            session_h,
            SimulatedSpaceType::Reference(SimulatedReferenceSpace { pose }),
            now,
        )
    }

    /// Creates a space derived from an action's tracked pose.
    pub fn create_action_space(
        &mut self,
        session_h: u64,
        action: u64,
        subaction_path: u64,
        pose: Pose,
        now: MyTime,
    ) -> (r: Result<u64, Error>)
        requires
            old(self).wf(),
        ensures
            final(self).wf(),
            !old(self).sessions@.dom().contains(session_h) ==> r == Err::<u64, Error>(
                Error::SessionLost,
            ) && *final(self) == *old(self),
            old(self).sessions@.dom().contains(session_h) && old(self).next_handle == u64::MAX
                ==> r == Err::<u64, Error>(Error::RuntimeFailure) && *final(self) == *old(self),
            old(self).sessions@.dom().contains(session_h) && old(self).next_handle < u64::MAX
                ==> {
                let h = old(self).next_handle;
                &&& r == Ok::<u64, Error>(h)
                &&& final(self).spaces@[h] == (SimulatedSpace {
                    session_id: session_h,
                    id: h,
                    space: SimulatedSpaceType::Action(
                        SimulatedActionSpace { action, subaction_path, pose },
                    ),
                })
            },
    {
        self.create_space(
            session_h,
            SimulatedSpaceType::Action(SimulatedActionSpace { action, subaction_path, pose }),
            now,
        )
    }

    /// Destroys the space named by `h`; a null handle is refused, a stale
    /// one is tolerated.
    pub fn destroy_space(&mut self, h: u64) -> (r: Result<(), Error>)
        requires
            old(self).wf(),
        ensures
            final(self).wf(),
            h == 0 ==> r == Err::<(), Error>(Error::HandleInvalid) && *final(self) == *old(self),
            h != 0 ==> {
                &&& r == Ok::<(), Error>(())
                &&& final(self).spaces@ == old(self).spaces@.remove(h)
                &&& final(self).next_handle == old(self).next_handle
                &&& final(self).instances@ == old(self).instances@
                &&& final(self).queues@ == old(self).queues@
                &&& final(self).sessions@ == old(self).sessions@
                &&& final(self).swapchains@ == old(self).swapchains@
                &&& final(self).action_sets@ == old(self).action_sets@
                &&& final(self).actions@ == old(self).actions@
            },
    {
        if h == 0 {
            return Err(Error::HandleInvalid);
        }
        self.spaces.remove(h);
        Ok(())
    }

    /// Locates `space_h` against `base_space_h`: both must be live, and
    /// the result claims fully tracked flags with the pose the located
    /// space was created at.
    pub fn locate(&self, space_h: u64, base_space_h: u64, _time: MyTime) -> (r: Result<
        SpaceLocation,
        Error,
    >)
        ensures
            !self.spaces@.dom().contains(space_h) ==> r == Err::<SpaceLocation, Error>(
                Error::ObjectDoesNotExist,
            ),
            self.spaces@.dom().contains(space_h) && !self.spaces@.dom().contains(base_space_h)
                ==> r == Err::<SpaceLocation, Error>(Error::ObjectDoesNotExist),
            self.spaces@.dom().contains(space_h) && self.spaces@.dom().contains(base_space_h)
                ==> r == Ok::<SpaceLocation, Error>(
                SpaceLocation {
                    location_flags: SPACE_LOCATION_FLAGS_ALL,
                    pose: crate::spaces::spec_space_pose(self.spaces@[space_h].space),
                },
            ),
    {
        let space = match self.spaces.get(space_h) {
            None => {
                return Err(Error::ObjectDoesNotExist);
            },
            Some(s) => s,
        };
        if !self.spaces.contains(base_space_h) {
            return Err(Error::ObjectDoesNotExist);
        }
        Ok(SpaceLocation { location_flags: SPACE_LOCATION_FLAGS_ALL, pose: space.pose() })
    }

    /// Locating many spaces in one call is a deliberately unimplemented
    /// stub.
    pub fn locate_spaces(&self, session_h: u64) -> (r: Result<(), Error>)
        ensures
            !self.sessions@.dom().contains(session_h) ==> r == Err::<(), Error>(Error::SessionLost),
            self.sessions@.dom().contains(session_h) ==> r == Err::<(), Error>(Error::Unsupported),
    {
        if !self.sessions.contains(session_h) {
            return Err(Error::SessionLost);
        }
        Err(Error::Unsupported)
    }

    /// Reference space bounds are never available in the simulator.
    pub fn get_bounds_rect(&self, session_h: u64, _reference_space_type: ReferenceSpaceType) -> (r:
        Result<(), Error>)
        ensures
            !self.sessions@.dom().contains(session_h) ==> r == Err::<(), Error>(Error::SessionLost),
            self.sessions@.dom().contains(session_h) ==> r == Err::<(), Error>(
                Error::SpaceBoundsUnavailable,
            ),
    {
        if !self.sessions.contains(session_h) {
            return Err(Error::SessionLost);
        }
        Err(Error::SpaceBoundsUnavailable)
    }

    /// Enumerates the three supported reference space kinds by the
    /// two-call idiom.
    pub fn enumerate_reference_spaces(&self, session_h: u64, capacity: u32) -> (r: Result<
        Enumerated<ReferenceSpaceType>,
        Error,
    >)
        ensures
            !self.sessions@.dom().contains(session_h) ==> r == Err::<
                Enumerated<ReferenceSpaceType>,
                Error,
            >(Error::SessionLost),
            self.sessions@.dom().contains(session_h) && capacity == 0 ==> r == Ok::<
                Enumerated<ReferenceSpaceType>,
                Error,
            >(Enumerated::Count(3)),
            self.sessions@.dom().contains(session_h) && capacity != 0 && capacity != 3 ==> r
                == Err::<Enumerated<ReferenceSpaceType>, Error>(Error::SizeInsufficient),
            self.sessions@.dom().contains(session_h) && capacity == 3 ==> match r {
                Ok(Enumerated::Items(items)) => items@ =~= spec_reference_space_types(),
                _ => false,
            },
    {
        if !self.sessions.contains(session_h) {
            return Err(Error::SessionLost);
        }
        if capacity == 0 {
            return Ok(Enumerated::Count(3));
        }
        if capacity != 3 {
            return Err(Error::SizeInsufficient);
        }
        Ok(Enumerated::Items(reference_space_types()))
    }

    /// Enumerates the supported swapchain formats by the two-call idiom.
    pub fn enumerate_formats(&self, session_h: u64, capacity: u32) -> (r: Result<
        Enumerated<i64>,
        Error,
    >)
        ensures
            !self.sessions@.dom().contains(session_h) ==> r == Err::<Enumerated<i64>, Error>(
                Error::SessionLost,
            ),
            self.sessions@.dom().contains(session_h) && capacity == 0 ==> r == Ok::<
                Enumerated<i64>,
                Error,
            >(Enumerated::Count(10)),
            self.sessions@.dom().contains(session_h) && capacity != 0 && capacity != 10 ==> r
                == Err::<Enumerated<i64>, Error>(Error::SizeInsufficient),
            self.sessions@.dom().contains(session_h) && capacity == 10 ==> match r {
                Ok(Enumerated::Items(items)) => items@ =~= spec_supported_formats(),
                _ => false,
            },
    {
        if !self.sessions.contains(session_h) {
            return Err(Error::SessionLost);
        }
        if capacity == 0 {
            return Ok(Enumerated::Count(10));
        }
        if capacity != 10 {
            return Err(Error::SizeInsufficient);
        }
        Ok(Enumerated::Items(supported_formats()))
    }

    /// Creates a swapchain over pre-allocated native images, registers it
    /// under a fresh handle, attaches it to its session and recomputes
    /// readiness. An unsupported format is rejected before anything is
    /// consumed, so no native image is ever requested for it.
    pub fn create_swapchain(
        &mut self,
        session_h: u64,
        create_info: &SwapchainCreateInfo,
        images: Vec<OffscreenImage>,
        now: MyTime,
    ) -> (r: Result<u64, Error>)
        requires
            old(self).wf(),
        ensures
            final(self).wf(),
            !old(self).sessions@.dom().contains(session_h) ==> r == Err::<u64, Error>(
                Error::SessionLost,
            ) && *final(self) == *old(self),
            old(self).sessions@.dom().contains(session_h) && !spec_format_supported(
                create_info.format,
            ) ==> r == Err::<u64, Error>(Error::SwapchainFormatUnsupported) && *final(self)
                == *old(self),
            old(self).sessions@.dom().contains(session_h) && spec_format_supported(
                create_info.format,
            ) && images@.len() != spec_swapchain_image_count(create_info.create_flags) ==> r
                == Err::<u64, Error>(Error::Validation) && *final(self) == *old(self),
            old(self).sessions@.dom().contains(session_h) && spec_format_supported(
                create_info.format,
            ) && images@.len() == spec_swapchain_image_count(create_info.create_flags) && old(self).next_handle == u64::MAX ==> r == Err::<u64, Error>(Error::RuntimeFailure) && *final(self) == *old(self),
            old(self).sessions@.dom().contains(session_h) && spec_format_supported(
                create_info.format,
            ) && images@.len() == spec_swapchain_image_count(create_info.create_flags) && old(self).next_handle < u64::MAX ==> {
                let h = old(self).next_handle;
                let sess = old(self).sessions@[session_h];
                let qid = sess.instance_id;
                let sc = final(self).swapchains@[h];
                let new_sess = final(self).sessions@[session_h];
                &&& r == Ok::<u64, Error>(h)
                &&& final(self).next_handle == h + 1
                &&& final(self).swapchains@.dom() == old(self).swapchains@.dom().insert(h)
                &&& sc.session_id == session_h
                &&& sc.id == h
                &&& sc.format == create_info.format
                &&& sc.create_flags == create_info.create_flags
                &&& sc.usage_flags == create_info.usage_flags
                &&& sc.width == create_info.width
                &&& sc.height == create_info.height
                &&& sc.images@ == images@
                &&& sc.available_images@ == crate::swapchain::spec_full_ring(images@.len() as int)
                &&& sc.acquired_images@ == Seq::<usize>::empty()
                &&& sc.waited_images@ == Seq::<usize>::empty()
                &&& sc.released_images@ == Seq::<usize>::empty()
                &&& forall|k: u64| k != h && #[trigger] old(self).swapchains@.dom().contains(k)
                    ==> final(self).swapchains@[k] == old(self).swapchains@[k]
                &&& Self::spec_other_sessions_unchanged(*old(self), *final(self), session_h)
                &&& Self::spec_other_queues_unchanged(*old(self), *final(self), qid)
                &&& new_sess.swapchain_ids@ == sess.swapchain_ids@.insert(h)
                &&& new_sess.space_ids@ == sess.space_ids@
                &&& new_sess.action_set_ids@ == sess.action_set_ids@
                &&& spec_attach_outcome_holds(
                    sess,
                    new_sess,
                    old(self).queues@[qid]@,
                    final(self).queues@[qid]@,
                    now,
                )
                &&& final(self).instances@ == old(self).instances@
                &&& final(self).spaces@ == old(self).spaces@
                &&& final(self).action_sets@ == old(self).action_sets@
                &&& final(self).actions@ == old(self).actions@
            },
    {
        if !self.sessions.contains(session_h) {
            return Err(Error::SessionLost);
        }
        if !format_supported(create_info.format) {
            return Err(Error::SwapchainFormatUnsupported);
        }
        let required = required_image_count(create_info.create_flags);
        if images.len() != required {
            return Err(Error::Validation);
        }
        if self.next_handle == u64::MAX {
            return Err(Error::RuntimeFailure);
        }
        let h = self.next_handle;
        self.next_handle = h + 1;
        let created = SimulatedSwapchain::new(session_h, h, create_info, images);
        let swapchain = match created {
            Err(_) => {
                proof {
                    assert(false);
                }
                return Err(Error::RuntimeFailure);
            },
            Ok(sc) => sc,
        };
        let extracted = self.sessions.extract(session_h);
        let mut session = match extracted {
            None => {
                proof {
                    assert(false);
                }
                return Err(Error::RuntimeFailure);
            },
            Some(s) => s,
        };
        let qid = session.instance_id;
        let extracted_queue = self.queues.extract(qid);
        let mut queue = match extracted_queue {
            None => {
                proof {
                    assert(old(self).queues@.dom().contains(qid));
                    assert(false);
                }
                return Err(Error::RuntimeFailure);
            },
            Some(q) => q,
        };
        let attach_result = session.add_swapchain(h, &mut queue, now);
        proof {
            assert(attach_result is Ok);
        }
        self.queues.insert(qid, queue);
        self.sessions.insert(session_h, session);
        self.swapchains.insert(h, swapchain);
        proof {
            assert(final(self).sessions@.dom() =~= old(self).sessions@.dom());
            assert(final(self).queues@.dom() =~= old(self).queues@.dom());
        }
        Ok(h)
    }

    /// How many native images the caller must allocate before creating a
    /// swapchain with `create_info`; an unsupported format is rejected
    /// here, before any image is allocated.
    pub fn swapchain_image_requirements(&self, session_h: u64, create_info: &SwapchainCreateInfo) -> (r:
        Result<usize, Error>)
        ensures
            !self.sessions@.dom().contains(session_h) ==> r == Err::<usize, Error>(
                Error::SessionLost,
            ),
            self.sessions@.dom().contains(session_h) && !spec_format_supported(create_info.format)
                ==> r == Err::<usize, Error>(Error::SwapchainFormatUnsupported),
            self.sessions@.dom().contains(session_h) && spec_format_supported(create_info.format)
                ==> r == Ok::<usize, Error>(
                spec_swapchain_image_count(create_info.create_flags) as usize,
            ),
    {
        if !self.sessions.contains(session_h) {
            return Err(Error::SessionLost);
        }
        if !format_supported(create_info.format) {
            return Err(Error::SwapchainFormatUnsupported);
        }
        Ok(required_image_count(create_info.create_flags))
    }

    /// Enumerates the native image handles backing a swapchain by the
    /// two-call idiom.
    pub fn enumerate_images(&self, swapchain_h: u64, capacity: u32) -> (r: Result<
        Enumerated<u64>,
        Error,
    >)
        requires
            self.wf(),
        ensures
            !self.swapchains@.dom().contains(swapchain_h) ==> r == Err::<Enumerated<u64>, Error>(
                Error::ObjectDoesNotExist,
            ),
            self.swapchains@.dom().contains(swapchain_h) ==> {
                let sc = self.swapchains@[swapchain_h];
                &&& (capacity == 0 ==> r == Ok::<Enumerated<u64>, Error>(
                    Enumerated::Count(sc.images@.len() as u32),
                ))
                &&& (capacity != 0 && capacity != sc.images@.len() ==> r == Err::<
                    Enumerated<u64>,
                    Error,
                >(Error::SizeInsufficient))
                &&& (capacity != 0 && capacity == sc.images@.len() ==> match r {
                    Ok(Enumerated::Items(items)) => items@ =~= Seq::new(
                        sc.images@.len(),
                        |i: int| sc.images@[i].image,
                    ),
                    _ => false,
                })
            },
    {
        let swapchain = match self.swapchains.get(swapchain_h) {
            None => {
                return Err(Error::ObjectDoesNotExist);
            },
            Some(sc) => sc,
        };
        let n = swapchain.images.len();
        if capacity == 0 {
            proof {
                assert(self.swapchains@[swapchain_h].rotation_wf());
            }
            return Ok(Enumerated::Count(n as u32));
        }
        if capacity as usize != n {
            return Err(Error::SizeInsufficient);
        }
        let mut items: Vec<u64> = Vec::new();
        let mut i: usize = 0;
        while i < n
            invariant
                n == swapchain.images@.len(),
                0 <= i <= n,
                items@ =~= Seq::new(i as nat, |j: int| swapchain.images@[j].image),
            decreases n - i,
        {
            items.push(swapchain.images[i].image);
            i = i + 1;
        }
        Ok(Enumerated::Items(items))
    }

    /// Acquires the next available image of a swapchain and returns its
    /// index; an empty available collection is a call-order failure.
    pub fn acquire_image(&mut self, swapchain_h: u64) -> (r: Result<usize, Error>)
        requires
            old(self).wf(),
        ensures
            final(self).wf(),
            !old(self).swapchains@.dom().contains(swapchain_h) ==> r == Err::<usize, Error>(
                Error::ObjectDoesNotExist,
            ) && *final(self) == *old(self),
            old(self).swapchains@.dom().contains(swapchain_h) ==> {
                let sc = old(self).swapchains@[swapchain_h];
                let new_sc = final(self).swapchains@[swapchain_h];
                &&& Self::spec_non_swapchain_families_unchanged(*old(self), *final(self))
                &&& final(self).swapchains@.dom() == old(self).swapchains@.dom()
                &&& forall|k: u64| k != swapchain_h && #[trigger] old(self).swapchains@.dom().contains(k) ==> final(self).swapchains@[k] == old(self).swapchains@[k]
                &&& SimulatedSwapchain::spec_config_unchanged(sc, new_sc)
                &&& (sc.available_images@.len() == 0 ==> {
                    &&& r == Err::<usize, Error>(Error::CallOrderInvalid)
                    &&& new_sc.available_images@ == sc.available_images@
                    &&& new_sc.acquired_images@ == sc.acquired_images@
                    &&& new_sc.waited_images@ == sc.waited_images@
                    &&& new_sc.released_images@ == sc.released_images@
                })
                &&& (sc.available_images@.len() > 0 ==> {
                    &&& r == Ok::<usize, Error>(sc.available_images@[0])
                    &&& new_sc.available_images@ == sc.available_images@.drop_first()
                    &&& new_sc.acquired_images@ == sc.acquired_images@.push(
                        sc.available_images@[0],
                    )
                    &&& new_sc.waited_images@ == sc.waited_images@
                    &&& new_sc.released_images@ == sc.released_images@
                })
            },
    {
        if !self.swapchains.contains(swapchain_h) {
            return Err(Error::ObjectDoesNotExist);
        }
        let extracted = self.swapchains.extract(swapchain_h);
        match extracted {
            None => {
                proof {
                    assert(false);
                }
                Err(Error::RuntimeFailure)
            },
            Some(mut swapchain) => {
                let result = swapchain.acquire_image();
                self.swapchains.insert(swapchain_h, swapchain);
                proof {
                    assert(final(self).swapchains@.dom() =~= old(self).swapchains@.dom());
                }
                result
            },
        }
    }

    /// Waits for the oldest acquired image of a swapchain; an empty
    /// acquired collection is a call-order failure.
    pub fn wait_image(&mut self, swapchain_h: u64) -> (r: Result<(), Error>)
        requires
            old(self).wf(),
        ensures
            final(self).wf(),
            !old(self).swapchains@.dom().contains(swapchain_h) ==> r == Err::<(), Error>(
                Error::ObjectDoesNotExist,
            ) && *final(self) == *old(self),
            old(self).swapchains@.dom().contains(swapchain_h) ==> {
                let sc = old(self).swapchains@[swapchain_h];
                let new_sc = final(self).swapchains@[swapchain_h];
                &&& Self::spec_non_swapchain_families_unchanged(*old(self), *final(self))
                &&& final(self).swapchains@.dom() == old(self).swapchains@.dom()
                &&& forall|k: u64| k != swapchain_h && #[trigger] old(self).swapchains@.dom().contains(k) ==> final(self).swapchains@[k] == old(self).swapchains@[k]
                &&& SimulatedSwapchain::spec_config_unchanged(sc, new_sc)
                &&& (sc.acquired_images@.len() == 0 ==> {
                    &&& r == Err::<(), Error>(Error::CallOrderInvalid)
                    &&& new_sc.available_images@ == sc.available_images@
                    &&& new_sc.acquired_images@ == sc.acquired_images@
                    &&& new_sc.waited_images@ == sc.waited_images@
                    &&& new_sc.released_images@ == sc.released_images@
                })
                &&& (sc.acquired_images@.len() > 0 ==> {
                    &&& r == Ok::<(), Error>(())
                    &&& new_sc.available_images@ == sc.available_images@
                    &&& new_sc.acquired_images@ == sc.acquired_images@.drop_first()
                    &&& new_sc.waited_images@ == seq![sc.acquired_images@[0]]
                        + sc.waited_images@
                    &&& new_sc.released_images@ == sc.released_images@
                })
            },
    {
        if !self.swapchains.contains(swapchain_h) {
            return Err(Error::ObjectDoesNotExist);
        }
        let extracted = self.swapchains.extract(swapchain_h);
        match extracted {
            None => {
                proof {
                    assert(false);
                }
                Err(Error::RuntimeFailure)
            },
            Some(mut swapchain) => {
                let result = swapchain.wait_image();
                self.swapchains.insert(swapchain_h, swapchain);
                proof {
                    assert(final(self).swapchains@.dom() =~= old(self).swapchains@.dom());
                }
                result
            },
        }
    }

    /// Releases the most recently waited image of a swapchain; an empty
    /// waited collection is a call-order failure.
    pub fn release_image(&mut self, swapchain_h: u64) -> (r: Result<(), Error>)
        requires
            old(self).wf(),
        ensures
            final(self).wf(),
            !old(self).swapchains@.dom().contains(swapchain_h) ==> r == Err::<(), Error>(
                Error::ObjectDoesNotExist,
            ) && *final(self) == *old(self),
            old(self).swapchains@.dom().contains(swapchain_h) ==> {
                let sc = old(self).swapchains@[swapchain_h];
                let new_sc = final(self).swapchains@[swapchain_h];
                &&& Self::spec_non_swapchain_families_unchanged(*old(self), *final(self))
                &&& final(self).swapchains@.dom() == old(self).swapchains@.dom()
                &&& forall|k: u64| k != swapchain_h && #[trigger] old(self).swapchains@.dom().contains(k) ==> final(self).swapchains@[k] == old(self).swapchains@[k]
                &&& SimulatedSwapchain::spec_config_unchanged(sc, new_sc)
                &&& (sc.waited_images@.len() == 0 ==> {
                    &&& r == Err::<(), Error>(Error::CallOrderInvalid)
                    &&& new_sc.available_images@ == sc.available_images@
                    &&& new_sc.acquired_images@ == sc.acquired_images@
                    &&& new_sc.waited_images@ == sc.waited_images@
                    &&& new_sc.released_images@ == sc.released_images@
                })
                &&& (sc.waited_images@.len() > 0 ==> {
                    &&& r == Ok::<(), Error>(())
                    &&& new_sc.available_images@ == sc.available_images@
                    &&& new_sc.acquired_images@ == sc.acquired_images@
                    &&& new_sc.waited_images@ == sc.waited_images@.drop_first()
                    &&& new_sc.released_images@ == sc.released_images@.push(sc.waited_images@[0])
                })
            },
    {
        if !self.swapchains.contains(swapchain_h) {
            return Err(Error::ObjectDoesNotExist);
        }
        let extracted = self.swapchains.extract(swapchain_h);
        match extracted {
            None => {
                proof {
                    assert(false);
                }
                Err(Error::RuntimeFailure)
            },
            Some(mut swapchain) => {
                let result = swapchain.release_image();
                self.swapchains.insert(swapchain_h, swapchain);
                proof {
                    assert(final(self).swapchains@.dom() =~= old(self).swapchains@.dom());
                }
                result
            },
        }
    }

    /// Destroys the swapchain named by `h` and hands its record back so
    /// the caller can tear down the native images it carries, view
    /// first, then memory, then image. A null handle is refused, a stale
    /// one is tolerated.
    pub fn destroy_swapchain(&mut self, h: u64) -> (r: Result<Option<SimulatedSwapchain>, Error>)
        requires
            old(self).wf(),
        ensures
            final(self).wf(),
            h == 0 ==> r == Err::<Option<SimulatedSwapchain>, Error>(Error::HandleInvalid)
                && *final(self) == *old(self),
            h != 0 ==> {
                &&& final(self).swapchains@ == old(self).swapchains@.remove(h)
                &&& final(self).next_handle == old(self).next_handle
                &&& final(self).instances@ == old(self).instances@
                &&& final(self).queues@ == old(self).queues@
                &&& final(self).sessions@ == old(self).sessions@
                &&& final(self).spaces@ == old(self).spaces@
                &&& final(self).action_sets@ == old(self).action_sets@
                &&& final(self).actions@ == old(self).actions@
                &&& match r {
                    Ok(Some(sc)) => old(self).swapchains@.dom().contains(h) && sc == old(self).swapchains@[h],
                    Ok(None) => !old(self).swapchains@.dom().contains(h),
                    Err(_) => false,
                }
            },
    {
        if h == 0 {
            return Err(Error::HandleInvalid);
        }
        Ok(self.swapchains.extract(h))
    }

    /// Everything but the swapchain table is as it was.
    pub open spec fn spec_non_swapchain_families_unchanged(before: Self, after: Self) -> bool {
        &&& after.next_handle == before.next_handle
        &&& after.instances@ == before.instances@
        &&& after.queues@ == before.queues@
        &&& after.sessions@ == before.sessions@
        &&& after.spaces@ == before.spaces@
        &&& after.action_sets@ == before.action_sets@
        &&& after.actions@ == before.actions@
    }
}

} // verus!
