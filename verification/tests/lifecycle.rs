use openxr_device_simulator::error::Error;
use openxr_device_simulator::frame::FrameBeginOutcome;
use openxr_device_simulator::runtime::{
    CompositionLayerKind, FormFactor, Runtime, ViewConfigurationType,
};
use openxr_device_simulator::session::GraphicsBinding;
use openxr_device_simulator::swapchain::{OffscreenImage, SwapchainCreateInfo};
use openxr_device_simulator::utils::{create_identity_pose, MyTime};
use openxr_device_simulator::HMD_SYSTEM_ID;

fn binding() -> GraphicsBinding {
    GraphicsBinding {
        instance: 0x1000,
        physical_device: 0x2000,
        device: 0x3000,
        queue_family_index: 0,
        queue_index: 0,
    }
}

fn rgba_info() -> SwapchainCreateInfo {
    SwapchainCreateInfo {
        create_flags: 0,
        usage_flags: 0,
        format: 43,
        sample_count: 1,
        width: 1024,
        height: 1024,
        face_count: 1,
        array_size: 1,
        mip_count: 1,
    }
}

fn images(n: usize) -> Vec<OffscreenImage> {
    let mut v = Vec::new();
    for i in 0..n {
        v.push(OffscreenImage {
            width: 1024,
            height: 1024,
            format: 43,
            image: 0x100 + i as u64,
            image_memory: 0x200 + i as u64,
            image_view: 0x300 + i as u64,
        });
    }
    v
}

/// Drains the queue, returning the state codes of all queued records.
fn drain_state_codes(rt: &mut Runtime, instance: u64) -> Vec<i32> {
    let mut codes = Vec::new();
    loop {
        match rt.poll(instance).unwrap() {
            None => return codes,
            Some(item) => {
                assert_eq!(item.ty, 18);
                let mut state_bytes = [0u8; 4];
                state_bytes.copy_from_slice(&item.buf[8..12]);
                codes.push(i32::from_le_bytes(state_bytes));
            }
        }
    }
}

#[test]
fn full_session_bring_up() {
    let mut rt = Runtime::new();
    let instance = rt.create_instance().unwrap();
    let system = rt.get_system(instance, FormFactor::HeadMountedDisplay).unwrap();
    assert_eq!(system, HMD_SYSTEM_ID);

    // A mismatched system id is rejected before anything is created.
    assert_eq!(
        rt.create_session(instance, system + 1, Some(binding()), MyTime(1)),
        Err(Error::SystemInvalid)
    );
    // A missing graphics binding is rejected too.
    assert_eq!(
        rt.create_session(instance, system, None, MyTime(1)),
        Err(Error::GraphicsDeviceInvalid)
    );

    let session = rt.create_session(instance, system, Some(binding()), MyTime(1)).unwrap();
    // Creation queued exactly the initial Idle record.
    assert_eq!(drain_state_codes(&mut rt, instance), vec![1]);

    // Attach one reference space, one swapchain, one action set.
    rt.create_reference_space(session, create_identity_pose(), MyTime(2)).unwrap();
    rt.create_swapchain(session, &rgba_info(), images(3), MyTime(3)).unwrap();
    let action_set = rt
        .create_action_set(instance, "gameplay".to_string(), "Gameplay".to_string(), 0)
        .unwrap();
    rt.attach_action_sets(session, &vec![action_set], MyTime(4)).unwrap();

    // Exactly one further state-change record: Ready.
    assert_eq!(drain_state_codes(&mut rt, instance), vec![2]);

    // Session begin succeeds once the session is Ready.
    rt.begin_session(session, ViewConfigurationType::PrimaryStereo).unwrap();

    // One frame: wait then begin; a second begin without a wait is
    // tolerated but reports the frame discarded.
    rt.wait_frame(session, MyTime(10)).unwrap();
    assert_eq!(rt.begin_frame(session), Ok(FrameBeginOutcome::Success));
    assert_eq!(rt.begin_frame(session), Ok(FrameBeginOutcome::Discarded));
    rt.end_frame(session, &vec![CompositionLayerKind::Projection]).unwrap();

    // Request exit then end: two further records, Stopping then Idle.
    rt.request_exit(session, MyTime(20)).unwrap();
    rt.end_session(session, MyTime(21)).unwrap();
    assert_eq!(drain_state_codes(&mut rt, instance), vec![6, 1]);
}

#[test]
fn session_begin_errors() {
    let mut rt = Runtime::new();
    let instance = rt.create_instance().unwrap();
    let session = rt.create_session(instance, HMD_SYSTEM_ID, Some(binding()), MyTime(1)).unwrap();

    // Not Ready yet.
    assert_eq!(
        rt.begin_session(session, ViewConfigurationType::PrimaryStereo),
        Err(Error::SessionNotReady)
    );
    // Only primary stereo is supported.
    assert_eq!(
        rt.begin_session(session, ViewConfigurationType::PrimaryMono),
        Err(Error::ViewConfigurationTypeUnsupported)
    );

    rt.create_reference_space(session, create_identity_pose(), MyTime(2)).unwrap();
    rt.create_swapchain(session, &rgba_info(), images(3), MyTime(3)).unwrap();
    let action_set = rt
        .create_action_set(instance, "a".to_string(), "A".to_string(), 0)
        .unwrap();
    rt.attach_action_sets(session, &vec![action_set], MyTime(4)).unwrap();

    rt.begin_session(session, ViewConfigurationType::PrimaryStereo).unwrap();
    // A second begin reports the session already running.
    assert_eq!(
        rt.begin_session(session, ViewConfigurationType::PrimaryStereo),
        Err(Error::SessionRunning)
    );
}

#[test]
fn session_stop_errors() {
    let mut rt = Runtime::new();
    let instance = rt.create_instance().unwrap();
    let session = rt.create_session(instance, HMD_SYSTEM_ID, Some(binding()), MyTime(1)).unwrap();

    // Exit and end demand a running session.
    assert_eq!(rt.request_exit(session, MyTime(2)), Err(Error::SessionNotRunning));
    assert_eq!(rt.end_session(session, MyTime(2)), Err(Error::SessionNotRunning));

    rt.create_reference_space(session, create_identity_pose(), MyTime(2)).unwrap();
    rt.create_swapchain(session, &rgba_info(), images(3), MyTime(3)).unwrap();
    let action_set = rt
        .create_action_set(instance, "a".to_string(), "A".to_string(), 0)
        .unwrap();
    rt.attach_action_sets(session, &vec![action_set], MyTime(4)).unwrap();
    rt.begin_session(session, ViewConfigurationType::PrimaryStereo).unwrap();

    // End before request_exit: the session is not stopping.
    assert_eq!(rt.end_session(session, MyTime(5)), Err(Error::SessionNotStopping));

    rt.request_exit(session, MyTime(6)).unwrap();
    rt.end_session(session, MyTime(7)).unwrap();

    // Stale and unknown session handles report the session lost.
    assert_eq!(
        rt.begin_session(9999, ViewConfigurationType::PrimaryStereo),
        Err(Error::SessionLost)
    );
}

#[test]
fn readiness_never_regresses() {
    let mut rt = Runtime::new();
    let instance = rt.create_instance().unwrap();
    let session = rt.create_session(instance, HMD_SYSTEM_ID, Some(binding()), MyTime(1)).unwrap();

    rt.create_reference_space(session, create_identity_pose(), MyTime(2)).unwrap();
    rt.create_swapchain(session, &rgba_info(), images(3), MyTime(3)).unwrap();
    let action_set = rt
        .create_action_set(instance, "a".to_string(), "A".to_string(), 0)
        .unwrap();
    rt.attach_action_sets(session, &vec![action_set], MyTime(4)).unwrap();
    // Idle record, then exactly one Ready record.
    assert_eq!(drain_state_codes(&mut rt, instance), vec![1, 2]);

    // Attaching further resources after Ready schedules nothing more.
    rt.create_reference_space(session, create_identity_pose(), MyTime(5)).unwrap();
    rt.create_swapchain(session, &rgba_info(), images(3), MyTime(6)).unwrap();
    let second_set = rt
        .create_action_set(instance, "b".to_string(), "B".to_string(), 0)
        .unwrap();
    rt.attach_action_sets(session, &vec![second_set], MyTime(7)).unwrap();
    assert_eq!(drain_state_codes(&mut rt, instance), Vec::<i32>::new());
}

#[test]
fn attach_rejects_duplicates() {
    let mut rt = Runtime::new();
    let instance = rt.create_instance().unwrap();
    let session = rt.create_session(instance, HMD_SYSTEM_ID, Some(binding()), MyTime(1)).unwrap();
    let action_set = rt
        .create_action_set(instance, "a".to_string(), "A".to_string(), 0)
        .unwrap();

    // An empty attach list is a validation failure.
    assert_eq!(rt.attach_action_sets(session, &vec![], MyTime(2)), Err(Error::Validation));
    // The same set twice in one call is an already-attached failure, and
    // the failed call attaches nothing: the same set still attaches alone
    // afterwards.
    assert_eq!(
        rt.attach_action_sets(session, &vec![action_set, action_set], MyTime(2)),
        Err(Error::ActionSetsAlreadyAttached)
    );
    rt.attach_action_sets(session, &vec![action_set], MyTime(3)).unwrap();
    // Once attached, attaching the same set again fails, and that failure
    // does not block a later list of fresh sets.
    assert_eq!(
        rt.attach_action_sets(session, &vec![action_set], MyTime(4)),
        Err(Error::ActionSetsAlreadyAttached)
    );
    let second = rt
        .create_action_set(instance, "b".to_string(), "B".to_string(), 0)
        .unwrap();
    let third = rt
        .create_action_set(instance, "c".to_string(), "C".to_string(), 0)
        .unwrap();
    // A list mixing a fresh set with an attached one fails atomically too:
    // the fresh set is not attached by the failed call.
    assert_eq!(
        rt.attach_action_sets(session, &vec![second, action_set], MyTime(5)),
        Err(Error::ActionSetsAlreadyAttached)
    );
    rt.attach_action_sets(session, &vec![second, third], MyTime(6)).unwrap();
}

#[test]
fn instance_lifecycle() {
    let mut rt = Runtime::new();
    let instance = rt.create_instance().unwrap();

    // Only the head-mounted display form factor is simulated.
    assert_eq!(
        rt.get_system(instance, FormFactor::HandheldDisplay),
        Err(Error::FormFactorUnsupported)
    );
    assert_eq!(
        rt.get_system(9999, FormFactor::HeadMountedDisplay),
        Err(Error::InstanceLost)
    );

    // Creating an instance from an instance is refused.
    assert_eq!(rt.create_from_instance(instance), Err(Error::RuntimeUnavailable));

    // A session may only be created once per instance.
    let _ = rt.create_session(instance, HMD_SYSTEM_ID, Some(binding()), MyTime(1)).unwrap();
    assert_eq!(
        rt.create_session(instance, HMD_SYSTEM_ID, Some(binding()), MyTime(2)),
        Err(Error::InstanceStateInvalid)
    );

    // The null handle is refused; destroying twice is tolerated.
    assert_eq!(rt.destroy_instance(0), Err(Error::HandleInvalid));
    rt.destroy_instance(instance).unwrap();
    rt.destroy_instance(instance).unwrap();
    assert_eq!(
        rt.get_system(instance, FormFactor::HeadMountedDisplay),
        Err(Error::InstanceLost)
    );
}
