use std::collections::HashMap;
use vstd::prelude::*;

use crate::error::Error;
use crate::runtime::Runtime;
use crate::utils::{
    create_identity_pose, spec_identity_pose, spec_starts_with, str_starts_with, Pose,
};

verus! {

broadcast use vstd::std_specs::hash::group_hash_axioms;

/// The kind of value an action carries. An unrecognized protocol code is
/// kept as it came.
#[derive(Clone, Copy, Debug, PartialEq, Eq, Structural)]
pub enum ActionType {
    BooleanInput,
    FloatInput,
    Vector2fInput,
    PoseInput,
    VibrationOutput,
    Unknown(i32),
}

/// The current value of one action, per kind. Scalar components are
/// carried as the raw bit patterns of the caller's 32-bit floats.
#[derive(Clone, Copy, Debug, PartialEq, Eq, Structural)]
pub enum SimulatedActionValue {
    Boolean(bool),
    Float(u32),
    Vector2f(u32, u32),
    Pose(Pose),
    Vibration(u32),
    Unknown(i32),
}

impl Default for SimulatedActionValue {
    /// The value of an action of unknown kind.
    fn default() -> (r: Self)
        ensures
            r == SimulatedActionValue::Unknown(0),
    {
        SimulatedActionValue::Unknown(0)
    }
}

/// An action's value together with its activity and change tracking.
#[derive(Clone, Copy, Debug, PartialEq, Eq, Structural)]
pub struct SimulatedActionCurrentValue {
    pub current: SimulatedActionValue,
    pub changed_since_last_sync: bool,
    pub last_change_time: u64,
    pub is_active: bool,
}

/// Bit pattern of the 32-bit float 0.0.
pub const FLOAT_ZERO_BITS: u32 = 0;

/// The value an action of kind `t` starts with.
pub open spec fn spec_initial_action_value(t: ActionType) -> SimulatedActionValue {
    match t {
        ActionType::BooleanInput => SimulatedActionValue::Boolean(false),
        ActionType::FloatInput => SimulatedActionValue::Float(FLOAT_ZERO_BITS),
        ActionType::Vector2fInput => SimulatedActionValue::Vector2f(
            FLOAT_ZERO_BITS,
            FLOAT_ZERO_BITS,
        ),
        ActionType::PoseInput => SimulatedActionValue::Pose(spec_identity_pose()),
        ActionType::VibrationOutput => SimulatedActionValue::Vibration(FLOAT_ZERO_BITS),
        ActionType::Unknown(raw) => SimulatedActionValue::Unknown(raw),
    }
}

/// The tracked value an action of kind `t` starts with: the initial
/// value, inactive and unchanged.
pub open spec fn spec_initial_current_value(t: ActionType) -> SimulatedActionCurrentValue {
    SimulatedActionCurrentValue {
        current: spec_initial_action_value(t),
        changed_since_last_sync: false,
        last_change_time: 0,
        is_active: false,
    }
}

/// The tracked value an action of kind `t` starts with.
pub fn initial_current_value(t: &ActionType) -> (r: SimulatedActionCurrentValue)
    ensures
        r == spec_initial_current_value(*t),
{
    let current = match t {
        ActionType::BooleanInput => SimulatedActionValue::Boolean(false),
        ActionType::FloatInput => SimulatedActionValue::Float(FLOAT_ZERO_BITS),
        ActionType::Vector2fInput => SimulatedActionValue::Vector2f(
            FLOAT_ZERO_BITS,
            FLOAT_ZERO_BITS,
        ),
        ActionType::PoseInput => SimulatedActionValue::Pose(create_identity_pose()),
        ActionType::VibrationOutput => SimulatedActionValue::Vibration(FLOAT_ZERO_BITS),
        ActionType::Unknown(raw) => SimulatedActionValue::Unknown(*raw),
    };
    SimulatedActionCurrentValue {
        current,
        changed_since_last_sync: false,
        last_change_time: 0,
        is_active: false,
    }
}

/// A named group of actions created under one instance.
#[derive(Debug)]
pub struct SimulatedActionSet {
    pub instance_id: u64,
    pub id: u64,
    pub name: String,
    pub localized_name: String,
    pub priority: u32,
    pub actions: Vec<u64>,
}

impl SimulatedActionSet {
    /// A fresh action set with no actions yet.
    pub fn new(instance_id: u64, id: u64, name: String, localized_name: String, priority: u32) -> (r:
        Self)
        ensures
            r.instance_id == instance_id,
            r.id == id,
            r.name == name,
            r.localized_name == localized_name,
            r.priority == priority,
            r.actions@ =~= Seq::<u64>::empty(),
    {
        SimulatedActionSet { instance_id, id, name, localized_name, priority, actions: Vec::new() }
    }

    /// Records an action created under this set.
    pub fn add_action(&mut self, action_id: u64) -> (r: Result<(), Error>)
        ensures
            r == Ok::<(), Error>(()),
            *final(self) == (SimulatedActionSet {
                actions: final(self).actions,
                ..*old(self)
            }),
            final(self).actions@ == old(self).actions@.push(action_id),
    {
        self.actions.push(action_id);
        Ok(())
    }
}

/// The per-path value table an action of kind `t` starts with: one entry
/// per subaction path, each at the kind's initial value, inserted in order.
pub open spec fn spec_subaction_map(paths: Seq<u64>, t: ActionType) -> Map<
    u64,
    SimulatedActionCurrentValue,
>
    decreases paths.len(),
{
    if paths.len() == 0 {
        Map::empty()
    } else {
        spec_subaction_map(paths.drop_last(), t).insert(paths.last(), spec_initial_current_value(t))
    }
}

/// One named control bound to physical input, with one tracked value per
/// subaction path, or a single value under path 0 when no subaction
/// paths were named.
#[derive(Debug)]
pub struct SimulatedAction {
    pub action_set_id: u64,
    pub id: u64,
    pub name: String,
    pub localized_name: String,
    pub subaction_values: HashMap<u64, SimulatedActionCurrentValue>,
}

impl SimulatedAction {
    /// A fresh action of kind `action_type` over `subaction_paths`.
    pub fn new(
        action_set_id: u64,
        id: u64,
        name: String,
        localized_name: String,
        action_type: ActionType,
        subaction_paths: Vec<u64>,
    ) -> (r: Self)
        ensures
            r.action_set_id == action_set_id,
            r.id == id,
            r.name == name,
            r.localized_name == localized_name,
            subaction_paths@.len() == 0 ==> r.subaction_values@ == Map::<
                u64,
                SimulatedActionCurrentValue,
            >::empty().insert(0, spec_initial_current_value(action_type)),
            subaction_paths@.len() > 0 ==> r.subaction_values@ == spec_subaction_map(
                subaction_paths@,
                action_type,
            ),
    {
        let mut subaction_values: HashMap<u64, SimulatedActionCurrentValue> = HashMap::new();
        if subaction_paths.len() == 0 {
            subaction_values.insert(0, initial_current_value(&action_type));
        } else {
            let n = subaction_paths.len();
            let mut i: usize = 0;
            while i < n
                invariant
                    n == subaction_paths.len(),
                    0 <= i <= n,
                    subaction_values@ == spec_subaction_map(
                        subaction_paths@.take(i as int),
                        action_type,
                    ),
                decreases n - i,
            {
                let path = subaction_paths[i];
                subaction_values.insert(path, initial_current_value(&action_type));
                proof {
                    assert(subaction_paths@.take(i + 1).drop_last() =~= subaction_paths@.take(
                        i as int,
                    ));
                    assert(subaction_paths@.take(i + 1).last() == subaction_paths@[i as int]);
                }
                i = i + 1;
            }
            proof {
                assert(subaction_paths@.take(n as int) =~= subaction_paths@);
            }
        }
        SimulatedAction { action_set_id, id, name, localized_name, subaction_values }
    }

    /// The tracked value under `path`, or a path failure if this action
    /// has no entry for it.
    pub fn subaction_value(&self, path: u64) -> (r: Result<&SimulatedActionCurrentValue, Error>)
        ensures
            self.subaction_values@.dom().contains(path) ==> r is Ok && r->Ok_0
                == self.subaction_values@[path],
            !self.subaction_values@.dom().contains(path) ==> r == Err::<
                &SimulatedActionCurrentValue,
                Error,
            >(Error::PathInvalid),
    {
        match self.subaction_values.get(&path) {
            Some(value) => Ok(value),
            None => Err(Error::PathInvalid),
        }
    }
}

/// The top-level user paths under which subaction paths are accepted.
pub open spec fn spec_path_supported(p: Seq<char>) -> bool {
    ||| spec_starts_with(p, "/user/head"@)
    ||| spec_starts_with(p, "/user/hand/left"@)
    ||| spec_starts_with(p, "/user/hand/right"@)
    ||| spec_starts_with(p, "/user/gamepad"@)
}

/// Whether `p` lies under one of the supported top-level user paths.
pub fn path_supported(p: &str) -> (r: bool)
    ensures
        r == spec_path_supported(p@),
{
    str_starts_with(p, "/user/head") || str_starts_with(p, "/user/hand/left") || str_starts_with(
        p,
        "/user/hand/right",
    ) || str_starts_with(p, "/user/gamepad")
}

/// What the caller gets back when reading a boolean action.
#[derive(Clone, Copy, Debug, PartialEq, Eq, Structural)]
pub struct ActionStateBoolean {
    pub current_state: bool,
    pub changed_since_last_sync: bool,
    pub is_active: bool,
}

/// What the caller gets back when reading a scalar action; the value is
/// the raw bit pattern of the caller's 32-bit float.
#[derive(Clone, Copy, Debug, PartialEq, Eq, Structural)]
pub struct ActionStateFloat {
    pub current_state: u32,
    pub changed_since_last_sync: bool,
    pub is_active: bool,
}

/// What the caller gets back when reading a two-component action.
#[derive(Clone, Copy, Debug, PartialEq, Eq, Structural)]
pub struct ActionStateVector2f {
    pub x: u32,
    pub y: u32,
    pub changed_since_last_sync: bool,
    pub is_active: bool,
}

/// What the caller gets back when reading a pose action.
#[derive(Clone, Copy, Debug, PartialEq, Eq, Structural)]
pub struct ActionStatePose {
    pub is_active: bool,
}

/// How an action synchronization concluded: performed, or skipped
/// because the session is not focused.
#[derive(Clone, Copy, Debug, PartialEq, Eq, Structural)]
pub enum SyncOutcome {
    Synced,
    NotFocused,
}

impl Runtime {
    /// The failure a subaction path earns, if any: the null path is
    /// always accepted; otherwise the path must be interned with the
    /// instance and lie under a supported top-level user path.
    pub open spec fn spec_path_check(self, instance_id: u64, path_id: u64) -> Result<(), Error> {
        if path_id == 0 {
            Ok(())
        } else if !self.instances@.dom().contains(instance_id) {
            Err(Error::InstanceLost)
        } else if !self.instances@[instance_id].paths@.dom().contains(path_id) {
            Err(Error::PathInvalid)
        } else if !spec_path_supported(self.instances@[instance_id].paths@[path_id]@) {
            Err(Error::PathUnsupported)
        } else {
            Ok(())
        }
    }

    /// Checks a subaction path against the instance's path table and the
    /// supported top-level user paths.
    pub fn check_path_is_valid(&self, instance_id: u64, path_id: u64) -> (r: Result<(), Error>)
        ensures
            r == self.spec_path_check(instance_id, path_id),
    {
        if path_id == 0 {
            return Ok(());
        }
        let instance = match self.instances.get(instance_id) {
            None => {
                return Err(Error::InstanceLost);
            },
            Some(instance) => instance,
        };
        let path = match instance.get_path_string(path_id) {
            Err(_) => {
                return Err(Error::PathInvalid);
            },
            Ok(path) => path,
        };
        if !path_supported(path.as_str()) {
            return Err(Error::PathUnsupported);
        }
        Ok(())
    }

    /// The checks every action-state read makes before touching the
    /// value: the action and session must be live, the action's set must
    /// be attached to the session, the subaction path must be acceptable
    /// and the action must have a value under it.
    pub open spec fn spec_action_read_check(
        self,
        session_h: u64,
        action_h: u64,
        subaction_path: u64,
    ) -> Result<SimulatedActionCurrentValue, Error> {
        if !self.actions@.dom().contains(action_h) {
            Err(Error::ObjectDoesNotExist)
        } else if !self.sessions@.dom().contains(session_h) {
            Err(Error::SessionLost)
        } else if !self.sessions@[session_h].action_set_ids@.contains(
            self.actions@[action_h].action_set_id,
        ) {
            Err(Error::ActionSetNotAttached)
        } else if self.spec_path_check(
            self.sessions@[session_h].instance_id,
            subaction_path,
        ) is Err {
            Err(self.spec_path_check(self.sessions@[session_h].instance_id, subaction_path)->Err_0)
        } else if !self.actions@[action_h].subaction_values@.dom().contains(subaction_path) {
            Err(Error::PathInvalid)
        } else {
            Ok(self.actions@[action_h].subaction_values@[subaction_path])
        }
    }

    /// Runs the action-state read checks and hands back the tracked
    /// value under the subaction path.
    fn action_read(&self, session_h: u64, action_h: u64, subaction_path: u64) -> (r: Result<
        SimulatedActionCurrentValue,
        Error,
    >)
        ensures
            r == self.spec_action_read_check(session_h, action_h, subaction_path),
    {
        let action = match self.actions.get(action_h) {
            None => {
                return Err(Error::ObjectDoesNotExist);
            },
            Some(action) => action,
        };
        let session = match self.sessions.get(session_h) {
            None => {
                return Err(Error::SessionLost);
            },
            Some(session) => session,
        };
        if !session.has_attached_action_set(action.action_set_id) {
            return Err(Error::ActionSetNotAttached);
        }
        match self.check_path_is_valid(session.instance_id, subaction_path) {
            Err(e) => {
                return Err(e);
            },
            Ok(()) => (),
        }
        match action.subaction_value(subaction_path) {
            Err(e) => Err(e),
            Ok(value) => Ok(*value),
        }
    }

    /// Reads a boolean action's state; a value of another kind is a type
    /// mismatch.
    pub fn get_boolean(&self, session_h: u64, action_h: u64, subaction_path: u64) -> (r: Result<
        ActionStateBoolean,
        Error,
    >)
        ensures
            ({
                let check = self.spec_action_read_check(session_h, action_h, subaction_path);
                &&& (check is Err ==> r == Err::<ActionStateBoolean, Error>(check->Err_0))
                &&& (check is Ok && !(check->Ok_0.current is Boolean) ==> r == Err::<
                    ActionStateBoolean,
                    Error,
                >(Error::ActionTypeMismatch))
                &&& (check is Ok && check->Ok_0.current is Boolean ==> r == Ok::<
                    ActionStateBoolean,
                    Error,
                >(
                    ActionStateBoolean {
                        current_state: check->Ok_0.current->Boolean_0,
                        changed_since_last_sync: check->Ok_0.changed_since_last_sync,
                        is_active: check->Ok_0.is_active,
                    },
                ))
            }),
    {
        let value = match self.action_read(session_h, action_h, subaction_path) {
            Err(e) => {
                return Err(e);
            },
            Ok(value) => value,
        };
        match value.current {
            SimulatedActionValue::Boolean(b) => Ok(
                ActionStateBoolean {
                    current_state: b,
                    changed_since_last_sync: value.changed_since_last_sync,
                    is_active: value.is_active,
                },
            ),
            _ => Err(Error::ActionTypeMismatch),
        }
    }

    /// Reads a scalar action's state; a value of another kind is a type
    /// mismatch.
    pub fn get_float(&self, session_h: u64, action_h: u64, subaction_path: u64) -> (r: Result<
        ActionStateFloat,
        Error,
    >)
        ensures
            ({
                let check = self.spec_action_read_check(session_h, action_h, subaction_path);
                &&& (check is Err ==> r == Err::<ActionStateFloat, Error>(check->Err_0))
                &&& (check is Ok && !(check->Ok_0.current is Float) ==> r == Err::<
                    ActionStateFloat,
                    Error,
                >(Error::ActionTypeMismatch))
                &&& (check is Ok && check->Ok_0.current is Float ==> r == Ok::<
                    ActionStateFloat,
                    Error,
                >(
                    ActionStateFloat {
                        current_state: check->Ok_0.current->Float_0,
                        changed_since_last_sync: check->Ok_0.changed_since_last_sync,
                        is_active: check->Ok_0.is_active,
                    },
                ))
            }),
    {
        let value = match self.action_read(session_h, action_h, subaction_path) {
            Err(e) => {
                return Err(e);
            },
            Ok(value) => value,
        };
        match value.current {
            SimulatedActionValue::Float(bits) => Ok(
                ActionStateFloat {
                    current_state: bits,
                    changed_since_last_sync: value.changed_since_last_sync,
                    is_active: value.is_active,
                },
            ),
            _ => Err(Error::ActionTypeMismatch),
        }
    }

    /// Reads a two-component action's state; a value of another kind is
    /// a type mismatch.
    pub fn get_vector2f(&self, session_h: u64, action_h: u64, subaction_path: u64) -> (r: Result<
        ActionStateVector2f,
        Error,
    >)
        ensures
            ({
                let check = self.spec_action_read_check(session_h, action_h, subaction_path);
                &&& (check is Err ==> r == Err::<ActionStateVector2f, Error>(check->Err_0))
                &&& (check is Ok && !(check->Ok_0.current is Vector2f) ==> r == Err::<
                    ActionStateVector2f,
                    Error,
                >(Error::ActionTypeMismatch))
                &&& (check is Ok && check->Ok_0.current is Vector2f ==> r == Ok::<
                    ActionStateVector2f,
                    Error,
                >(
                    ActionStateVector2f {
                        x: check->Ok_0.current->Vector2f_0,
                        y: check->Ok_0.current->Vector2f_1,
                        changed_since_last_sync: check->Ok_0.changed_since_last_sync,
                        is_active: check->Ok_0.is_active,
                    },
                ))
            }),
    {
        let value = match self.action_read(session_h, action_h, subaction_path) {
            Err(e) => {
                return Err(e);
            },
            Ok(value) => value,
        };
        match value.current {
            SimulatedActionValue::Vector2f(x, y) => Ok(
                ActionStateVector2f {
                    x,
                    y,
                    changed_since_last_sync: value.changed_since_last_sync,
                    is_active: value.is_active,
                },
            ),
            _ => Err(Error::ActionTypeMismatch),
        }
    }

    /// Reads a pose action's activity; a value of another kind is a type
    /// mismatch.
    pub fn get_pose(&self, session_h: u64, action_h: u64, subaction_path: u64) -> (r: Result<
        ActionStatePose,
        Error,
    >)
        ensures
            ({
                let check = self.spec_action_read_check(session_h, action_h, subaction_path);
                &&& (check is Err ==> r == Err::<ActionStatePose, Error>(check->Err_0))
                &&& (check is Ok && !(check->Ok_0.current is Pose) ==> r == Err::<
                    ActionStatePose,
                    Error,
                >(Error::ActionTypeMismatch))
                &&& (check is Ok && check->Ok_0.current is Pose ==> r == Ok::<
                    ActionStatePose,
                    Error,
                >(ActionStatePose { is_active: check->Ok_0.is_active }))
            }),
    {
        let value = match self.action_read(session_h, action_h, subaction_path) {
            Err(e) => {
                return Err(e);
            },
            Ok(value) => value,
        };
        match value.current {
            SimulatedActionValue::Pose(_) => Ok(ActionStatePose { is_active: value.is_active }),
            _ => Err(Error::ActionTypeMismatch),
        }
    }

    /// Synchronizes action state: skipped with a distinct outcome unless
    /// the session is focused, and every named action set must be
    /// attached to the session.
    pub fn sync_actions(&self, session_h: u64, active_action_sets: &Vec<u64>) -> (r: Result<
        SyncOutcome,
        Error,
    >)
        ensures
            !self.sessions@.dom().contains(session_h) ==> r == Err::<SyncOutcome, Error>(
                Error::SessionLost,
            ),
            self.sessions@.dom().contains(session_h) && self.sessions@[session_h].state
                != crate::session::SessionState::Focused ==> r == Ok::<SyncOutcome, Error>(
                SyncOutcome::NotFocused,
            ),
            self.sessions@.dom().contains(session_h) && self.sessions@[session_h].state
                == crate::session::SessionState::Focused ==> {
                let sess = self.sessions@[session_h];
                &&& (r == Ok::<SyncOutcome, Error>(SyncOutcome::Synced) <==> forall|i: int|
                    0 <= i < active_action_sets@.len() ==> sess.action_set_ids@.contains(
                        #[trigger] active_action_sets@[i],
                    ))
                &&& (r is Err ==> r == Err::<SyncOutcome, Error>(Error::ActionSetNotAttached))
            },
    {
        let session = match self.sessions.get(session_h) {
            None => {
                return Err(Error::SessionLost);
            },
            Some(session) => session,
        };
        if !session.is_focused() {
            return Ok(SyncOutcome::NotFocused);
        }
        let n = active_action_sets.len();
        let mut i: usize = 0;
        while i < n
            invariant
                n == active_action_sets@.len(),
                0 <= i <= n,
                self.sessions@.dom().contains(session_h),
                session == self.sessions@[session_h],
                session.state == crate::session::SessionState::Focused,
                forall|j: int| 0 <= j < i ==> session.action_set_ids@.contains(
                    #[trigger] active_action_sets@[j],
                ),
            decreases n - i,
        {
            if !session.has_attached_action_set(active_action_sets[i]) {
                return Err(Error::ActionSetNotAttached);
            }
            i = i + 1;
        }
        Ok(SyncOutcome::Synced)
    }

    /// Creates an action set under an instance that already has its
    /// session, registers it under a fresh handle and records it with
    /// the instance.
    pub fn create_action_set(
        &mut self,
        instance_h: u64,
        name: String,
        localized_name: String,
        priority: u32,
    ) -> (r: Result<u64, Error>)
        requires
            old(self).wf(),
        ensures
            final(self).wf(),
            !old(self).instances@.dom().contains(instance_h) ==> r == Err::<u64, Error>(
                Error::InstanceLost,
            ) && *final(self) == *old(self),
            old(self).instances@.dom().contains(instance_h) && old(self).instances@[instance_h].state != crate::instance::InstanceState::SessionCreated ==> r
                == Err::<u64, Error>(Error::InstanceStateInvalid) && *final(self) == *old(self),
            old(self).instances@.dom().contains(instance_h) && old(self).instances@[instance_h].state == crate::instance::InstanceState::SessionCreated && old(self).next_handle == u64::MAX ==> r == Err::<u64, Error>(Error::RuntimeFailure) && *final(self) == *old(self),
            old(self).instances@.dom().contains(instance_h) && old(self).instances@[instance_h].state == crate::instance::InstanceState::SessionCreated && old(self).next_handle < u64::MAX ==> {
                let h = old(self).next_handle;
                let set = final(self).action_sets@[h];
                &&& r == Ok::<u64, Error>(h)
                &&& final(self).next_handle == h + 1
                &&& final(self).action_sets@.dom() == old(self).action_sets@.dom().insert(h)
                &&& set.instance_id == instance_h
                &&& set.id == h
                &&& set.name == name
                &&& set.localized_name == localized_name
                &&& set.priority == priority
                &&& set.actions@ == Seq::<u64>::empty()
                &&& forall|k: u64| k != h && #[trigger] old(self).action_sets@.dom().contains(k)
                    ==> final(self).action_sets@[k] == old(self).action_sets@[k]
                &&& final(self).instances@.dom() == old(self).instances@.dom()
                &&& final(self).instances@[instance_h].action_set_ids@ == old(self).instances@[instance_h].action_set_ids@.insert(h)
                &&& final(self).instances@[instance_h].state == old(self).instances@[instance_h].state
                &&& final(self).instances@[instance_h].paths@ == old(self).instances@[instance_h].paths@
                &&& forall|k: u64| k != instance_h && #[trigger] old(self).instances@.dom().contains(k) ==> final(self).instances@[k] == old(self).instances@[k]
                &&& final(self).queues@ == old(self).queues@
                &&& final(self).sessions@ == old(self).sessions@
                &&& final(self).swapchains@ == old(self).swapchains@
                &&& final(self).spaces@ == old(self).spaces@
                &&& final(self).actions@ == old(self).actions@
            },
    {
        if !self.instances.contains(instance_h) {
            return Err(Error::InstanceLost);
        }
        let state_ok = match self.instances.get(instance_h) {
            Some(instance) => matches!(
                instance.state,
                crate::instance::InstanceState::SessionCreated
            ),
            None => false,
        };
        if !state_ok {
            return Err(Error::InstanceStateInvalid);
        }
        if self.next_handle == u64::MAX {
            return Err(Error::RuntimeFailure);
        }
        let h = self.next_handle;
        self.next_handle = h + 1;
        let extracted = self.instances.extract(instance_h);
        let mut instance = match extracted {
            None => {
                proof {
                    assert(false);
                }
                return Err(Error::RuntimeFailure);
            },
            Some(instance) => instance,
        };
        let set = SimulatedActionSet::new(instance_h, h, name, localized_name, priority);
        self.action_sets.insert(h, set);
        let add_result = instance.add_action_set(h);
        proof {
            assert(add_result is Ok);
        }
        self.instances.insert(instance_h, instance);
        proof {
            assert(final(self).instances@.dom() =~= old(self).instances@.dom());
        }
        Ok(h)
    }

    /// Destroys the action set named by `h`; a null handle is refused, a
    /// stale one is tolerated.
    pub fn destroy_action_set(&mut self, h: u64) -> (r: Result<(), Error>)
        requires
            old(self).wf(),
        ensures
            final(self).wf(),
            h == 0 ==> r == Err::<(), Error>(Error::HandleInvalid) && *final(self) == *old(self),
            h != 0 ==> {
                &&& r == Ok::<(), Error>(())
                &&& final(self).action_sets@ == old(self).action_sets@.remove(h)
                &&& final(self).next_handle == old(self).next_handle
                &&& final(self).instances@ == old(self).instances@
                &&& final(self).queues@ == old(self).queues@
                &&& final(self).sessions@ == old(self).sessions@
                &&& final(self).swapchains@ == old(self).swapchains@
                &&& final(self).spaces@ == old(self).spaces@
                &&& final(self).actions@ == old(self).actions@
            },
    {
        if h == 0 {
            return Err(Error::HandleInvalid);
        }
        self.action_sets.remove(h);
        Ok(())
    }

    /// Creates an action under an action set, registers it under a fresh
    /// handle and records it with its set.
    pub fn create_action(
        &mut self,
        action_set_h: u64,
        name: String,
        localized_name: String,
        action_type: ActionType,
        subaction_paths: Vec<u64>,
    ) -> (r: Result<u64, Error>)
        requires
            old(self).wf(),
        ensures
            final(self).wf(),
            !old(self).action_sets@.dom().contains(action_set_h) ==> r == Err::<u64, Error>(
                Error::ObjectDoesNotExist,
            ) && *final(self) == *old(self),
            old(self).action_sets@.dom().contains(action_set_h) && old(self).next_handle
                == u64::MAX ==> r == Err::<u64, Error>(Error::RuntimeFailure) && *final(self)
                == *old(self),
            old(self).action_sets@.dom().contains(action_set_h) && old(self).next_handle
                < u64::MAX ==> {
                let h = old(self).next_handle;
                let act = final(self).actions@[h];
                &&& r == Ok::<u64, Error>(h)
                &&& final(self).next_handle == h + 1
                &&& final(self).actions@.dom() == old(self).actions@.dom().insert(h)
                &&& act.action_set_id == action_set_h
                &&& act.id == h
                &&& act.name == name
                &&& act.localized_name == localized_name
                &&& (subaction_paths@.len() == 0 ==> act.subaction_values@ == Map::<
                    u64,
                    SimulatedActionCurrentValue,
                >::empty().insert(0, spec_initial_current_value(action_type)))
                &&& (subaction_paths@.len() > 0 ==> act.subaction_values@ == spec_subaction_map(
                    subaction_paths@,
                    action_type,
                ))
                &&& forall|k: u64| k != h && #[trigger] old(self).actions@.dom().contains(k)
                    ==> final(self).actions@[k] == old(self).actions@[k]
                &&& final(self).action_sets@.dom() == old(self).action_sets@.dom()
                &&& final(self).action_sets@[action_set_h].actions@ == old(self).action_sets@[action_set_h].actions@.push(h)
                &&& forall|k: u64| k != action_set_h && #[trigger] old(self).action_sets@.dom().contains(k) ==> final(self).action_sets@[k] == old(self).action_sets@[k]
                &&& final(self).instances@ == old(self).instances@
                &&& final(self).queues@ == old(self).queues@
                &&& final(self).sessions@ == old(self).sessions@
                &&& final(self).swapchains@ == old(self).swapchains@
                &&& final(self).spaces@ == old(self).spaces@
            },
    {
        if !self.action_sets.contains(action_set_h) {
            return Err(Error::ObjectDoesNotExist);
        }
        if self.next_handle == u64::MAX {
            return Err(Error::RuntimeFailure);
        }
        let h = self.next_handle;
        self.next_handle = h + 1;
        let extracted = self.action_sets.extract(action_set_h);
        let mut set = match extracted {
            None => {
                proof {
                    assert(false);
                }
                return Err(Error::RuntimeFailure);
            },
            Some(set) => set,
        };
        let action = SimulatedAction::new(
            action_set_h,
            h,
            name,
            localized_name,
            action_type,
            subaction_paths,
        );
        self.actions.insert(h, action);
        let _ = set.add_action(h);
        self.action_sets.insert(action_set_h, set);
        proof {
            assert(final(self).action_sets@.dom() =~= old(self).action_sets@.dom());
        }
        Ok(h)
    }

    /// Destroys the action named by `h`; a null handle is refused, a
    /// stale one is tolerated.
    pub fn destroy_action(&mut self, h: u64) -> (r: Result<(), Error>)
        requires
            old(self).wf(),
        ensures
            final(self).wf(),
            h == 0 ==> r == Err::<(), Error>(Error::HandleInvalid) && *final(self) == *old(self),
            h != 0 ==> {
                &&& r == Ok::<(), Error>(())
                &&& final(self).actions@ == old(self).actions@.remove(h)
                &&& final(self).next_handle == old(self).next_handle
                &&& final(self).instances@ == old(self).instances@
                &&& final(self).queues@ == old(self).queues@
                &&& final(self).sessions@ == old(self).sessions@
                &&& final(self).swapchains@ == old(self).swapchains@
                &&& final(self).spaces@ == old(self).spaces@
                &&& final(self).action_sets@ == old(self).action_sets@
            },
    {
        if h == 0 {
            return Err(Error::HandleInvalid);
        }
        self.actions.remove(h);
        Ok(())
    }

    /// Stores suggested bindings for an interaction profile; an empty
    /// suggestion is a validation failure.
    pub fn suggest(
        &mut self,
        instance_h: u64,
        interaction_profile: u64,
        bindings: Vec<crate::instance::ActionBinding>,
    ) -> (r: Result<(), Error>)
        requires
            old(self).wf(),
        ensures
            final(self).wf(),
            !old(self).instances@.dom().contains(instance_h) ==> r == Err::<(), Error>(
                Error::InstanceLost,
            ) && *final(self) == *old(self),
            old(self).instances@.dom().contains(instance_h) && bindings@.len() == 0 ==> r
                == Err::<(), Error>(Error::Validation) && *final(self) == *old(self),
            old(self).instances@.dom().contains(instance_h) && bindings@.len() > 0 ==> {
                &&& r == Ok::<(), Error>(())
                &&& final(self).instances@.dom() == old(self).instances@.dom()
                &&& final(self).instances@[instance_h].interaction_profile_bindings@ == old(self).instances@[instance_h].interaction_profile_bindings@.insert(
                    interaction_profile,
                    bindings,
                )
                &&& final(self).instances@[instance_h].state == old(self).instances@[instance_h].state
                &&& final(self).instances@[instance_h].paths@ == old(self).instances@[instance_h].paths@
                &&& final(self).instances@[instance_h].action_set_ids@ == old(self).instances@[instance_h].action_set_ids@
                &&& forall|k: u64| k != instance_h && #[trigger] old(self).instances@.dom().contains(k) ==> final(self).instances@[k] == old(self).instances@[k]
                &&& final(self).next_handle == old(self).next_handle
                &&& final(self).queues@ == old(self).queues@
                &&& final(self).sessions@ == old(self).sessions@
                &&& final(self).swapchains@ == old(self).swapchains@
                &&& final(self).spaces@ == old(self).spaces@
                &&& final(self).action_sets@ == old(self).action_sets@
                &&& final(self).actions@ == old(self).actions@
            },
    {
        if !self.instances.contains(instance_h) {
            return Err(Error::InstanceLost);
        }
        if bindings.len() == 0 {
            return Err(Error::Validation);
        }
        let extracted = self.instances.extract(instance_h);
        let mut instance = match extracted {
            None => {
                proof {
                    assert(false);
                }
                return Err(Error::RuntimeFailure);
            },
            Some(instance) => instance,
        };
        let _ = instance.set_interaction_profile_bindings(interaction_profile, bindings);
        self.instances.insert(instance_h, instance);
        proof {
            assert(final(self).instances@.dom() =~= old(self).instances@.dom());
        }
        Ok(())
    }

    /// Reading the current interaction profile is a deliberately
    /// unimplemented stub.
    pub fn get_current(&self, session_h: u64) -> (r: Result<(), Error>)
        ensures
            !self.sessions@.dom().contains(session_h) ==> r == Err::<(), Error>(Error::SessionLost),
            self.sessions@.dom().contains(session_h) ==> r == Err::<(), Error>(Error::Unsupported),
    {
        if !self.sessions.contains(session_h) {
            return Err(Error::SessionLost);
        }
        Err(Error::Unsupported)
    }

    /// Haptic feedback is a deliberately unimplemented stub.
    pub fn apply_feedback(&self, session_h: u64) -> (r: Result<(), Error>)
        ensures
            !self.sessions@.dom().contains(session_h) ==> r == Err::<(), Error>(Error::SessionLost),
            self.sessions@.dom().contains(session_h) ==> r == Err::<(), Error>(Error::Unsupported),
    {
        if !self.sessions.contains(session_h) {
            return Err(Error::SessionLost);
        }
        Err(Error::Unsupported)
    }

    /// Stopping haptic feedback is a deliberately unimplemented stub.
    pub fn stop_feedback(&self, session_h: u64) -> (r: Result<(), Error>)
        ensures
            !self.sessions@.dom().contains(session_h) ==> r == Err::<(), Error>(Error::SessionLost),
            self.sessions@.dom().contains(session_h) ==> r == Err::<(), Error>(Error::Unsupported),
    {
        if !self.sessions.contains(session_h) {
            return Err(Error::SessionLost);
        }
        Err(Error::Unsupported)
    }

    /// Enumerating an action's bound sources is a deliberately
    /// unimplemented stub.
    pub fn enumerate_bound_sources(&self, session_h: u64) -> (r: Result<(), Error>)
        ensures
            !self.sessions@.dom().contains(session_h) ==> r == Err::<(), Error>(Error::SessionLost),
            self.sessions@.dom().contains(session_h) ==> r == Err::<(), Error>(Error::Unsupported),
    {
        if !self.sessions.contains(session_h) {
            return Err(Error::SessionLost);
        }
        Err(Error::Unsupported)
    }

    /// Localizing an input source's name is a deliberately unimplemented
    /// stub.
    pub fn get_input_source_localized_name(&self, session_h: u64) -> (r: Result<(), Error>)
        ensures
            !self.sessions@.dom().contains(session_h) ==> r == Err::<(), Error>(Error::SessionLost),
            self.sessions@.dom().contains(session_h) ==> r == Err::<(), Error>(Error::Unsupported),
    {
        if !self.sessions.contains(session_h) {
            return Err(Error::SessionLost);
        }
        Err(Error::Unsupported)
    }
}

} // verus!
