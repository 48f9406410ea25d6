use vstd::prelude::*;

use crate::session::SimulatedSessionSpace;
use crate::utils::Pose;

verus! {

/// The reference space kinds the simulator offers, in enumeration order.
#[derive(Clone, Copy, Debug, PartialEq, Eq, Structural)]
pub enum ReferenceSpaceType {
    View,
    Local,
    LocalFloor,
}

/// A reference space: a fixed coordinate frame at a caller-chosen pose.
#[derive(Clone, Copy, Debug, PartialEq, Eq, Structural)]
pub struct SimulatedReferenceSpace {
    pub pose: Pose,
}

/// A space derived from an action's tracked pose.
#[derive(Clone, Copy, Debug, PartialEq, Eq, Structural)]
pub struct SimulatedActionSpace {
    pub action: u64,
    pub subaction_path: u64,
    pub pose: Pose,
}

/// Either kind of space a session can own.
#[derive(Clone, Copy, Debug, PartialEq, Eq, Structural)]
pub enum SimulatedSpaceType {
    Reference(SimulatedReferenceSpace),
    Action(SimulatedActionSpace),
}

/// One space registered with the runtime.
#[derive(Clone, Copy, Debug, PartialEq, Eq, Structural)]
pub struct SimulatedSpace {
    pub session_id: u64,
    pub id: u64,
    pub space: SimulatedSpaceType,
}

/// The pose a space was created at.
pub open spec fn spec_space_pose(space: SimulatedSpaceType) -> Pose {
    match space {
        SimulatedSpaceType::Reference(r) => r.pose,
        SimulatedSpaceType::Action(a) => a.pose,
    }
}

/// Which session attachment family a space belongs to.
pub open spec fn spec_session_space_kind(space: SimulatedSpaceType) -> SimulatedSessionSpace {
    match space {
        SimulatedSpaceType::Reference(_) => SimulatedSessionSpace::Reference,
        SimulatedSpaceType::Action(_) => SimulatedSessionSpace::Action,
    }
}

/// Location flags claiming valid and tracked orientation and position.
pub const SPACE_LOCATION_FLAGS_ALL: u64 = 0b1111;

/// Where a space was found: the tracking flags and the pose.
#[derive(Clone, Copy, Debug, PartialEq, Eq, Structural)]
pub struct SpaceLocation {
    pub location_flags: u64,
    pub pose: Pose,
}

impl SimulatedSpace {
    /// A space record for session `session_id` under handle `id`.
    pub fn new(session_id: u64, id: u64, space: SimulatedSpaceType) -> (r: Self)
        ensures
            r == (SimulatedSpace { session_id, id, space }),
    {
        SimulatedSpace { session_id, id, space }
    }

    /// The pose this space was created at.
    pub fn pose(&self) -> (r: Pose)
        ensures
            r == spec_space_pose(self.space),
    {
        match &self.space {
            SimulatedSpaceType::Reference(reference_space) => reference_space.pose,
            SimulatedSpaceType::Action(action_space) => action_space.pose,
        }
    }

    /// Which session attachment family this space belongs to.
    pub fn session_space_kind(&self) -> (r: SimulatedSessionSpace)
        ensures
            r == spec_session_space_kind(self.space),
    {
        match &self.space {
            SimulatedSpaceType::Reference(_) => SimulatedSessionSpace::Reference,
            SimulatedSpaceType::Action(_) => SimulatedSessionSpace::Action,
        }
    }
}

/// The reference space kinds, in the order they are enumerated.
pub open spec fn spec_reference_space_types() -> Seq<ReferenceSpaceType> {
    seq![ReferenceSpaceType::View, ReferenceSpaceType::Local, ReferenceSpaceType::LocalFloor]
}

/// The reference space kinds as a value, for enumeration.
pub fn reference_space_types() -> (r: Vec<ReferenceSpaceType>)
    ensures
        r@ =~= spec_reference_space_types(),
{
    let mut v: Vec<ReferenceSpaceType> = Vec::new();
    v.push(ReferenceSpaceType::View);
    v.push(ReferenceSpaceType::Local);
    v.push(ReferenceSpaceType::LocalFloor);
    v
}

} // verus!
