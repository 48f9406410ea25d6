use openxr_device_simulator::error::Error;
use openxr_device_simulator::input::ActionType;
use openxr_device_simulator::runtime::{Enumerated, Runtime};
use openxr_device_simulator::session::GraphicsBinding;
use openxr_device_simulator::spaces::SpaceLocation;
use openxr_device_simulator::swapchain::{OffscreenImage, SwapchainCreateInfo};
use openxr_device_simulator::utils::{create_identity_pose, MyTime, Pose};
use openxr_device_simulator::HMD_SYSTEM_ID;

fn binding() -> GraphicsBinding {
    GraphicsBinding {
        instance: 1,
        physical_device: 2,
        device: 3,
        queue_family_index: 0,
        queue_index: 0,
    }
}

#[test]
fn handles_are_unique_and_never_reused() {
    let mut rt = Runtime::new();
    let mut handles = Vec::new();
    let instance = rt.create_instance().unwrap();
    handles.push(instance);
    let session = rt.create_session(instance, HMD_SYSTEM_ID, Some(binding()), MyTime(1)).unwrap();
    handles.push(session);
    let space = rt.create_reference_space(session, create_identity_pose(), MyTime(2)).unwrap();
    handles.push(space);
    let info = SwapchainCreateInfo {
        create_flags: 2,
        usage_flags: 0,
        format: 23,
        sample_count: 1,
        width: 8,
        height: 8,
        face_count: 1,
        array_size: 1,
        mip_count: 1,
    };
    let image = OffscreenImage {
        width: 8,
        height: 8,
        format: 23,
        image: 1,
        image_memory: 1,
        image_view: 1,
    };
    let swapchain = rt.create_swapchain(session, &info, vec![image], MyTime(3)).unwrap();
    handles.push(swapchain);
    let action_set = rt
        .create_action_set(instance, "s".to_string(), "S".to_string(), 0)
        .unwrap();
    handles.push(action_set);
    let action = rt
        .create_action(
            action_set,
            "press".to_string(),
            "Press".to_string(),
            ActionType::BooleanInput,
            vec![],
        )
        .unwrap();
    handles.push(action);
    let path = rt.string_to_path(instance, "/user/head".to_string()).unwrap();
    handles.push(path);

    // No two live objects, of any family, share a handle, and 0 is never
    // issued.
    for (i, a) in handles.iter().enumerate() {
        assert_ne!(*a, 0);
        for b in handles.iter().skip(i + 1) {
            assert_ne!(*a, *b);
        }
    }

    // A destroyed object's handle is never issued again.
    rt.destroy_space(space).unwrap();
    let replacement = rt.create_reference_space(session, create_identity_pose(), MyTime(4)).unwrap();
    assert_ne!(replacement, space);
    assert!(!handles.contains(&replacement));
}

#[test]
fn paths_round_trip_with_the_two_call_idiom() {
    let mut rt = Runtime::new();
    let instance = rt.create_instance().unwrap();
    let path = rt.string_to_path(instance, "/user/hand/left".to_string()).unwrap();

    // Zero capacity reports byte length plus the NUL terminator.
    assert_eq!(rt.path_to_string(instance, path, 0), Ok(Enumerated::Count(16)));
    assert_eq!(rt.path_to_string(instance, path, 4), Err(Error::SizeInsufficient));
    assert_eq!(
        rt.path_to_string(instance, path, 16),
        Ok(Enumerated::Items(b"/user/hand/left\0".to_vec()))
    );

    assert_eq!(rt.path_to_string(instance, 9999, 0), Err(Error::PathInvalid));
    assert_eq!(rt.path_to_string(9999, path, 0), Err(Error::InstanceLost));
    assert_eq!(
        rt.string_to_path(9999, "/user/head".to_string()),
        Err(Error::InstanceLost)
    );
}

#[test]
fn spaces_locate_with_their_creation_pose() {
    let mut rt = Runtime::new();
    let instance = rt.create_instance().unwrap();
    let session = rt.create_session(instance, HMD_SYSTEM_ID, Some(binding()), MyTime(1)).unwrap();
    let pose = Pose {
        orientation_x: 0,
        orientation_y: 0,
        orientation_z: 0,
        orientation_w: 0x3F800000,
        position_x: 0x3F000000,
        position_y: 0,
        position_z: 0,
    };
    let space = rt.create_reference_space(session, pose, MyTime(2)).unwrap();
    let base = rt.create_action_space(session, 0, 0, create_identity_pose(), MyTime(3)).unwrap();

    assert_eq!(
        rt.locate(space, base, MyTime(4)),
        Ok(SpaceLocation { location_flags: 0b1111, pose })
    );
    assert_eq!(rt.locate(space, 9999, MyTime(4)), Err(Error::ObjectDoesNotExist));
    assert_eq!(rt.locate(9999, base, MyTime(4)), Err(Error::ObjectDoesNotExist));

    assert_eq!(rt.destroy_space(0), Err(Error::HandleInvalid));
    rt.destroy_space(space).unwrap();
    assert_eq!(rt.locate(space, base, MyTime(5)), Err(Error::ObjectDoesNotExist));

    // The remaining space query stubs answer deterministically.
    assert_eq!(rt.locate_spaces(session), Err(Error::Unsupported));
    assert_eq!(
        rt.get_bounds_rect(
            session,
            openxr_device_simulator::spaces::ReferenceSpaceType::Local,
        ),
        Err(Error::SpaceBoundsUnavailable)
    );
}

#[test]
fn status_codes_render_to_generic_names() {
    let mut rt = Runtime::new();
    let instance = rt.create_instance().unwrap();
    assert_eq!(
        rt.result_to_string(instance, 0),
        Ok(b"XR_UNKNOWN_SUCCESS_0".to_vec())
    );
    assert_eq!(
        rt.result_to_string(instance, 3),
        Ok(b"XR_UNKNOWN_SUCCESS_3".to_vec())
    );
    assert_eq!(
        rt.result_to_string(instance, -12),
        Ok(b"XR_UNKNOWN_FAILURE_-12".to_vec())
    );
    assert_eq!(
        rt.structure_type_to_string(instance, 42),
        Ok(b"XR_UNKNOWN_STRUCTURE_TYPE_42".to_vec())
    );
    assert_eq!(
        rt.structure_type_to_string(instance, -7),
        Ok(b"XR_UNKNOWN_STRUCTURE_TYPE_-7".to_vec())
    );
    assert_eq!(rt.result_to_string(9999, 0), Err(Error::InstanceLost));
}

#[test]
fn runtime_and_system_report_fixed_properties() {
    let mut rt = Runtime::new();
    let instance = rt.create_instance().unwrap();

    let props = rt.get_instance_properties(instance).unwrap();
    assert_eq!(props.runtime_name, "openxr-device-simulator");
    assert_eq!(
        (
            props.runtime_version_major,
            props.runtime_version_minor,
            props.runtime_version_patch,
        ),
        (0, 0, 1)
    );

    let sys = rt.get_system_properties(instance, HMD_SYSTEM_ID).unwrap();
    assert_eq!(sys.system_id, HMD_SYSTEM_ID);
    assert_eq!(sys.vendor_id, 0x079c98d4);
    assert_eq!(sys.system_name, "openxr-device-simulator");
    assert_eq!(sys.max_swapchain_image_width, 1024);
    assert_eq!(sys.max_swapchain_image_height, 1024);
    assert_eq!(sys.max_layer_count, 16);
    assert!(sys.orientation_tracking);
    assert!(sys.position_tracking);
    assert_eq!(
        rt.get_system_properties(instance, HMD_SYSTEM_ID + 1),
        Err(Error::Validation)
    );
}
