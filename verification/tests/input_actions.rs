use openxr_device_simulator::error::Error;
use openxr_device_simulator::input::{ActionStateBoolean, ActionType, SyncOutcome};
use openxr_device_simulator::instance::ActionBinding;
use openxr_device_simulator::runtime::{Runtime, ViewConfigurationType};
use openxr_device_simulator::session::GraphicsBinding;
use openxr_device_simulator::swapchain::{OffscreenImage, SwapchainCreateInfo};
use openxr_device_simulator::utils::{create_identity_pose, MyTime};
use openxr_device_simulator::HMD_SYSTEM_ID;

fn binding() -> GraphicsBinding {
    GraphicsBinding {
        instance: 1,
        physical_device: 2,
        device: 3,
        queue_family_index: 0,
        queue_index: 0,
    }
}

struct Setup {
    rt: Runtime,
    instance: u64,
    session: u64,
    action_set: u64,
}

fn setup() -> Setup {
    let mut rt = Runtime::new();
    let instance = rt.create_instance().unwrap();
    let session = rt.create_session(instance, HMD_SYSTEM_ID, Some(binding()), MyTime(1)).unwrap();
    rt.create_reference_space(session, create_identity_pose(), MyTime(2)).unwrap();
    let info = SwapchainCreateInfo {
        create_flags: 2,
        usage_flags: 0,
        format: 23,
        sample_count: 1,
        width: 8,
        height: 8,
        face_count: 1,
        array_size: 1,
        mip_count: 1,
    };
    let image = OffscreenImage {
        width: 8,
        height: 8,
        format: 23,
        image: 1,
        image_memory: 1,
        image_view: 1,
    };
    rt.create_swapchain(session, &info, vec![image], MyTime(3)).unwrap();
    let action_set = rt
        .create_action_set(instance, "gameplay".to_string(), "Gameplay".to_string(), 0)
        .unwrap();
    Setup { rt, instance, session, action_set }
}

#[test]
fn action_set_creation_needs_a_session_first() {
    let mut rt = Runtime::new();
    let instance = rt.create_instance().unwrap();
    assert_eq!(
        rt.create_action_set(instance, "a".to_string(), "A".to_string(), 0),
        Err(Error::InstanceStateInvalid)
    );
    assert_eq!(
        rt.create_action_set(9999, "a".to_string(), "A".to_string(), 0),
        Err(Error::InstanceLost)
    );
}

#[test]
fn boolean_action_reads_its_initial_state() {
    let mut s = setup();
    let action = s
        .rt
        .create_action(
            s.action_set,
            "press".to_string(),
            "Press".to_string(),
            ActionType::BooleanInput,
            vec![],
        )
        .unwrap();

    // Reading before the set is attached is refused.
    assert_eq!(
        s.rt.get_boolean(s.session, action, 0),
        Err(Error::ActionSetNotAttached)
    );
    s.rt.attach_action_sets(s.session, &vec![s.action_set], MyTime(4)).unwrap();

    // A boolean action starts out false, inactive and unchanged.
    assert_eq!(
        s.rt.get_boolean(s.session, action, 0),
        Ok(ActionStateBoolean {
            current_state: false,
            changed_since_last_sync: false,
            is_active: false,
        })
    );
    // Reading it as another kind is a type mismatch.
    assert_eq!(s.rt.get_float(s.session, action, 0), Err(Error::ActionTypeMismatch));
    assert_eq!(s.rt.get_vector2f(s.session, action, 0), Err(Error::ActionTypeMismatch));
    assert_eq!(s.rt.get_pose(s.session, action, 0), Err(Error::ActionTypeMismatch));
    // An unknown action handle is a missing object.
    assert_eq!(s.rt.get_boolean(s.session, 9999, 0), Err(Error::ObjectDoesNotExist));
}

#[test]
fn subaction_paths_are_checked() {
    let mut s = setup();
    let left = s.rt.string_to_path(s.instance, "/user/hand/left".to_string()).unwrap();
    let elsewhere = s.rt.string_to_path(s.instance, "/somewhere/else".to_string()).unwrap();
    let action = s
        .rt
        .create_action(
            s.action_set,
            "grab".to_string(),
            "Grab".to_string(),
            ActionType::FloatInput,
            vec![left],
        )
        .unwrap();
    s.rt.attach_action_sets(s.session, &vec![s.action_set], MyTime(4)).unwrap();

    // The registered supported path reads fine.
    let state = s.rt.get_float(s.session, action, left).unwrap();
    assert_eq!(state.current_state, 0);
    assert!(!state.is_active);

    // A registered path outside the supported user trees is refused.
    assert_eq!(
        s.rt.get_float(s.session, action, elsewhere),
        Err(Error::PathUnsupported)
    );
    // An unregistered path id is invalid.
    assert_eq!(s.rt.get_float(s.session, action, 9999), Err(Error::PathInvalid));
    // The null path is accepted but this action has no value under it.
    assert_eq!(s.rt.get_float(s.session, action, 0), Err(Error::PathInvalid));
}

#[test]
fn vector_action_reads_its_initial_state() {
    let mut s = setup();
    let action = s
        .rt
        .create_action(
            s.action_set,
            "stick".to_string(),
            "Stick".to_string(),
            ActionType::Vector2fInput,
            vec![],
        )
        .unwrap();
    s.rt.attach_action_sets(s.session, &vec![s.action_set], MyTime(4)).unwrap();
    let state = s.rt.get_vector2f(s.session, action, 0).unwrap();
    // Both components start at the bit pattern of 0.0.
    assert_eq!((state.x, state.y), (0, 0));
    assert!(!state.changed_since_last_sync);
    assert!(!state.is_active);
    assert_eq!(s.rt.get_boolean(s.session, action, 0), Err(Error::ActionTypeMismatch));
}

#[test]
fn pose_actions_report_only_activity() {
    let mut s = setup();
    let action = s
        .rt
        .create_action(
            s.action_set,
            "aim".to_string(),
            "Aim".to_string(),
            ActionType::PoseInput,
            vec![],
        )
        .unwrap();
    s.rt.attach_action_sets(s.session, &vec![s.action_set], MyTime(4)).unwrap();
    let state = s.rt.get_pose(s.session, action, 0).unwrap();
    assert!(!state.is_active);
}

#[test]
fn sync_actions_gates_on_focus() {
    let mut s = setup();
    s.rt.attach_action_sets(s.session, &vec![s.action_set], MyTime(4)).unwrap();

    // Before the session reaches the focused running phase every sync is
    // skipped with a distinct outcome.
    assert_eq!(
        s.rt.sync_actions(s.session, &vec![s.action_set]),
        Ok(SyncOutcome::NotFocused)
    );

    s.rt.begin_session(s.session, ViewConfigurationType::PrimaryStereo).unwrap();
    s.rt.wait_frame(s.session, MyTime(5)).unwrap();

    // Focused now: attached sets synchronize, unattached ones are refused.
    assert_eq!(
        s.rt.sync_actions(s.session, &vec![s.action_set]),
        Ok(SyncOutcome::Synced)
    );
    let stray = s
        .rt
        .create_action_set(s.instance, "other".to_string(), "Other".to_string(), 0)
        .unwrap();
    assert_eq!(
        s.rt.sync_actions(s.session, &vec![s.action_set, stray]),
        Err(Error::ActionSetNotAttached)
    );
    assert_eq!(s.rt.sync_actions(9999, &vec![]), Err(Error::SessionLost));
}

#[test]
fn suggestions_are_stored_per_profile() {
    let mut s = setup();
    assert_eq!(s.rt.suggest(s.instance, 77, vec![]), Err(Error::Validation));
    s.rt.suggest(s.instance, 77, vec![ActionBinding::new(5, 6)]).unwrap();
    assert_eq!(
        s.rt.suggest(9999, 77, vec![ActionBinding::new(5, 6)]),
        Err(Error::InstanceLost)
    );
}

#[test]
fn input_stubs_answer_unsupported() {
    let s = setup();
    assert_eq!(s.rt.get_current(s.session), Err(Error::Unsupported));
    assert_eq!(s.rt.apply_feedback(s.session), Err(Error::Unsupported));
    assert_eq!(s.rt.stop_feedback(s.session), Err(Error::Unsupported));
    assert_eq!(s.rt.enumerate_bound_sources(s.session), Err(Error::Unsupported));
    assert_eq!(
        s.rt.get_input_source_localized_name(s.session),
        Err(Error::Unsupported)
    );
    assert_eq!(s.rt.get_current(9999), Err(Error::SessionLost));
}

#[test]
fn actions_can_be_destroyed() {
    let mut s = setup();
    let action = s
        .rt
        .create_action(
            s.action_set,
            "press".to_string(),
            "Press".to_string(),
            ActionType::BooleanInput,
            vec![],
        )
        .unwrap();
    s.rt.attach_action_sets(s.session, &vec![s.action_set], MyTime(4)).unwrap();
    assert_eq!(s.rt.destroy_action(0), Err(Error::HandleInvalid));
    s.rt.destroy_action(action).unwrap();
    assert_eq!(s.rt.get_boolean(s.session, action, 0), Err(Error::ObjectDoesNotExist));
    assert_eq!(s.rt.destroy_action_set(0), Err(Error::HandleInvalid));
    s.rt.destroy_action_set(s.action_set).unwrap();
    assert_eq!(
        s.rt.create_action(
            s.action_set,
            "x".to_string(),
            "X".to_string(),
            ActionType::BooleanInput,
            vec![],
        ),
        Err(Error::ObjectDoesNotExist)
    );
}
