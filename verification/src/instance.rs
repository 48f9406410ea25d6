use std::collections::{HashMap, HashSet};
use vstd::prelude::*;

use crate::error::Error;

verus! {

broadcast use vstd::std_specs::hash::group_hash_axioms;

/// How far an instance has come in its life: freshly created, with a
/// session, or with action sets on top of the session.
#[derive(Clone, Copy, Debug, PartialEq, Eq, Structural)]
pub enum InstanceState {
    Created,
    SessionCreated,
    ActionSetCreated,
}

/// One suggested binding of an action to an input path.
#[derive(Clone, Copy, Debug, PartialEq, Eq, Structural)]
pub struct ActionBinding {
    pub action: u64,
    pub binding: u64,
}

impl ActionBinding {
    /// A binding of action `action` to path `binding`.
    pub fn new(action: u64, binding: u64) -> (r: Self)
        ensures
            r == (ActionBinding { action, binding }),
    {
        ActionBinding { action, binding }
    }
}

/// The properties an instance reports about the runtime.
#[derive(Debug)]
pub struct InstanceProperties {
    pub runtime_name: String,
    pub runtime_version_major: u16,
    pub runtime_version_minor: u16,
    pub runtime_version_patch: u32,
}

/// The top-level runtime context: owns the path interning table, the ids
/// of the session and action sets created under it, and the suggested
/// interaction-profile bindings.
#[derive(Debug)]
pub struct SimulatedInstance {
    pub id: u64,
    pub state: InstanceState,
    pub session_id: Option<u64>,
    pub action_set_ids: HashSet<u64>,
    pub paths: HashMap<u64, String>,
    pub interaction_profile_bindings: HashMap<u64, Vec<ActionBinding>>,
}

impl SimulatedInstance {
    /// A fresh instance with id `id` and nothing registered yet.
    pub fn new(id: u64) -> (r: Self)
        ensures
            r.id == id,
            r.state == InstanceState::Created,
            r.session_id.is_none(),
            r.action_set_ids@ == Set::<u64>::empty(),
            r.paths@ == Map::<u64, String>::empty(),
            r.interaction_profile_bindings@ == Map::<u64, Vec<ActionBinding>>::empty(),
    {
        SimulatedInstance {
            id,
            state: InstanceState::Created,
            session_id: None,
            action_set_ids: HashSet::new(),
            paths: HashMap::new(),
            interaction_profile_bindings: HashMap::new(),
        }
    }

    /// Creating a second instance from an existing one is always refused.
    pub fn create(&self) -> (r: Result<(), Error>)
        ensures
            r == Err::<(), Error>(Error::RuntimeUnavailable),
    {
        Err(Error::RuntimeUnavailable)
    }

    /// The runtime's name and version.
    pub fn get_properties(&self) -> (r: InstanceProperties)
        ensures
            r.runtime_name@ == "openxr-device-simulator"@,
            r.runtime_version_major == 0,
            r.runtime_version_minor == 0,
            r.runtime_version_patch == 1,
    {
        InstanceProperties {
            runtime_name: "openxr-device-simulator".to_owned(),
            runtime_version_major: 0,
            runtime_version_minor: 0,
            runtime_version_patch: 1,
        }
    }

    /// Interns `path` under the fresh id `new_id` the caller allocated.
    pub fn register_path(&mut self, new_id: u64, path: String)
        ensures
            *final(self) == (SimulatedInstance {
                paths: final(self).paths,
                ..*old(self)
            }),
            final(self).paths@ == old(self).paths@.insert(new_id, path),
    {
        self.paths.insert(new_id, path);
    }

    /// The string interned under `path_id`, or a path failure.
    pub fn get_path_string(&self, path_id: u64) -> (r: Result<&String, Error>)
        ensures
            self.paths@.dom().contains(path_id) ==> r is Ok && r->Ok_0 == self.paths@[path_id],
            !self.paths@.dom().contains(path_id) ==> r == Err::<&String, Error>(Error::PathInvalid),
    {
        match self.paths.get(&path_id) {
            Some(path) => Ok(path),
            None => Err(Error::PathInvalid),
        }
    }

    /// Records the one session created under this instance; only a fresh
    /// instance may take a session.
    pub fn set_session(&mut self, session_id: u64) -> (r: Result<(), Error>)
        ensures
            old(self).state == InstanceState::Created ==> {
                &&& r == Ok::<(), Error>(())
                &&& *final(self) == (SimulatedInstance {
                    state: InstanceState::SessionCreated,
                    session_id: Some(session_id),
                    ..*old(self)
                })
            },
            old(self).state != InstanceState::Created ==> {
                &&& r == Err::<(), Error>(Error::InstanceStateInvalid)
                &&& *final(self) == *old(self)
            },
    {
        if matches!(self.state, InstanceState::Created) {
            self.session_id = Some(session_id);
            self.state = InstanceState::SessionCreated;
            Ok(())
        } else {
            Err(Error::InstanceStateInvalid)
        }
    }

    /// Records an action set created under this instance; the session
    /// must already exist.
    pub fn add_action_set(&mut self, action_set_id: u64) -> (r: Result<(), Error>)
        ensures
            old(self).state == InstanceState::SessionCreated ==> {
                &&& r == Ok::<(), Error>(())
                &&& *final(self) == (SimulatedInstance {
                    action_set_ids: final(self).action_set_ids,
                    ..*old(self)
                })
                &&& final(self).action_set_ids@ == old(self).action_set_ids@.insert(action_set_id)
            },
            old(self).state != InstanceState::SessionCreated ==> {
                &&& r == Err::<(), Error>(Error::InstanceStateInvalid)
                &&& *final(self) == *old(self)
            },
    {
        if matches!(self.state, InstanceState::SessionCreated) {
            self.action_set_ids.insert(action_set_id);
            Ok(())
        } else {
            Err(Error::InstanceStateInvalid)
        }
    }

    /// Stores the suggested bindings for one interaction profile,
    /// replacing any earlier suggestion for the same profile.
    pub fn set_interaction_profile_bindings(
        &mut self,
        interaction_profile: u64,
        bindings: Vec<ActionBinding>,
    ) -> (r: Result<(), Error>)
        ensures
            r == Ok::<(), Error>(()),
            *final(self) == (SimulatedInstance {
                interaction_profile_bindings: final(self).interaction_profile_bindings,
                ..*old(self)
            }),
            final(self).interaction_profile_bindings@ == old(
                self,
            ).interaction_profile_bindings@.insert(interaction_profile, bindings),
    {
        self.interaction_profile_bindings.insert(interaction_profile, bindings);
        Ok(())
    }
}

} // verus!
