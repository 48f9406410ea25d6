use openxr_device_simulator::error::Error;
use openxr_device_simulator::frame::{FrameBeginOutcome, SessionFrame};
use openxr_device_simulator::runtime::{
    CompositionLayerKind, Runtime, ViewConfigurationType,
};
use openxr_device_simulator::session::GraphicsBinding;
use openxr_device_simulator::swapchain::{OffscreenImage, SwapchainCreateInfo};
use openxr_device_simulator::utils::{create_identity_pose, MyTime};
use openxr_device_simulator::HMD_SYSTEM_ID;

fn running_session() -> (Runtime, u64) {
    let mut rt = Runtime::new();
    let instance = rt.create_instance().unwrap();
    let session = rt
        .create_session(
            instance,
            HMD_SYSTEM_ID,
            Some(GraphicsBinding {
                instance: 1,
                physical_device: 2,
                device: 3,
                queue_family_index: 0,
                queue_index: 0,
            }),
            MyTime(1),
        )
        .unwrap();
    rt.create_reference_space(session, create_identity_pose(), MyTime(2)).unwrap();
    let info = SwapchainCreateInfo {
        create_flags: 0,
        usage_flags: 0,
        format: 37,
        sample_count: 1,
        width: 64,
        height: 64,
        face_count: 1,
        array_size: 1,
        mip_count: 1,
    };
    let imgs: Vec<OffscreenImage> = (0..3)
        .map(|i| OffscreenImage {
            width: 64,
            height: 64,
            format: 37,
            image: i,
            image_memory: i,
            image_view: i,
        })
        .collect();
    rt.create_swapchain(session, &info, imgs, MyTime(3)).unwrap();
    let set = rt
        .create_action_set(instance, "a".to_string(), "A".to_string(), 0)
        .unwrap();
    rt.attach_action_sets(session, &vec![set], MyTime(4)).unwrap();
    rt.begin_session(session, ViewConfigurationType::PrimaryStereo).unwrap();
    (rt, session)
}

#[test]
fn begin_without_wait_fails() {
    let (mut rt, session) = running_session();
    assert_eq!(rt.begin_frame(session), Err(Error::CallOrderInvalid));
}

#[test]
fn double_begin_is_discarded_not_failed() {
    let (mut rt, session) = running_session();
    rt.wait_frame(session, MyTime(10)).unwrap();
    assert_eq!(rt.begin_frame(session), Ok(FrameBeginOutcome::Success));
    assert_eq!(rt.begin_frame(session), Ok(FrameBeginOutcome::Discarded));
    // With a wait in between the outcome is the same while the begin is
    // still outstanding.
    rt.wait_frame(session, MyTime(11)).unwrap();
    assert_eq!(rt.begin_frame(session), Ok(FrameBeginOutcome::Discarded));
}

#[test]
fn end_without_begin_fails() {
    let (mut rt, session) = running_session();
    assert_eq!(
        rt.end_frame(session, &vec![CompositionLayerKind::Projection]),
        Err(Error::CallOrderInvalid)
    );
    rt.wait_frame(session, MyTime(10)).unwrap();
    assert_eq!(
        rt.end_frame(session, &vec![CompositionLayerKind::Projection]),
        Err(Error::CallOrderInvalid)
    );
}

#[test]
fn end_rejects_unsupported_layers() {
    let (mut rt, session) = running_session();
    rt.wait_frame(session, MyTime(10)).unwrap();
    rt.begin_frame(session).unwrap();
    assert_eq!(
        rt.end_frame(
            session,
            &vec![CompositionLayerKind::Projection, CompositionLayerKind::Other],
        ),
        Err(Error::RuntimeFailure)
    );
    // An empty layer list is fine, and a begin stays consumable once.
    rt.end_frame(session, &vec![]).unwrap();
    assert_eq!(rt.end_frame(session, &vec![]), Err(Error::CallOrderInvalid));
}

#[test]
fn wait_predicts_display_timing() {
    let (mut rt, session) = running_session();
    let state = rt.wait_frame(session, MyTime(1_000_000_000)).unwrap();
    // The predicted display time runs a fixed lead ahead of the clock,
    // with the fixed nominal display period.
    assert_eq!(state.predicted_display_time, MyTime(1_001_000_000));
    assert_eq!(state.predicted_display_period, 16_000_000);
    assert!(state.should_render);

    // Later clock readings predict strictly later display times.
    rt.begin_frame(session).unwrap();
    rt.end_frame(session, &vec![]).unwrap();
    let later = rt.wait_frame(session, MyTime(2_000_000_000)).unwrap();
    assert!(later.predicted_display_time.0 > state.predicted_display_time.0);
}

#[test]
fn frame_calls_demand_a_running_session() {
    let mut rt = Runtime::new();
    let instance = rt.create_instance().unwrap();
    let session = rt
        .create_session(
            instance,
            HMD_SYSTEM_ID,
            Some(GraphicsBinding {
                instance: 1,
                physical_device: 2,
                device: 3,
                queue_family_index: 0,
                queue_index: 0,
            }),
            MyTime(1),
        )
        .unwrap();
    assert_eq!(rt.wait_frame(session, MyTime(5)), Err(Error::SessionNotRunning));
    assert_eq!(rt.begin_frame(session), Err(Error::SessionNotRunning));
    assert_eq!(rt.end_frame(session, &vec![]), Err(Error::SessionNotRunning));
    assert_eq!(rt.wait_frame(9999, MyTime(5)), Err(Error::SessionLost));
}

#[test]
fn frame_state_machine_flags() {
    let mut frame = SessionFrame::new();
    assert!(!frame.can_end());
    assert_eq!(frame.begin(), Err(Error::CallOrderInvalid));

    let state = frame.wait(MyTime(100));
    assert_eq!(state.predicted_display_time, MyTime(1_000_100));
    assert!(frame.is_waited);
    assert!(frame.waiting_begin);

    assert_eq!(frame.begin(), Ok(FrameBeginOutcome::Success));
    assert!(!frame.is_waited);
    assert!(!frame.waiting_begin);
    assert!(frame.can_end());

    assert_eq!(frame.begin(), Ok(FrameBeginOutcome::Discarded));
    frame.end();
    assert!(!frame.can_end());
}
