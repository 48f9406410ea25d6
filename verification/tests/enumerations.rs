use openxr_device_simulator::error::Error;
use openxr_device_simulator::loader::negotiate_loader_interface;
use openxr_device_simulator::runtime::{Enumerated, Runtime, ViewConfigurationType};
use openxr_device_simulator::session::GraphicsBinding;
use openxr_device_simulator::spaces::ReferenceSpaceType;
use openxr_device_simulator::utils::{create_identity_pose, ExtList, MyTime};
use openxr_device_simulator::view::EnvironmentBlendMode;
use openxr_device_simulator::vulkan::{select_graphics_device, DeviceInfo};
use openxr_device_simulator::HMD_SYSTEM_ID;

fn instance_and_session() -> (Runtime, u64, u64) {
    let mut rt = Runtime::new();
    let instance = rt.create_instance().unwrap();
    let session = rt
        .create_session(
            instance,
            HMD_SYSTEM_ID,
            Some(GraphicsBinding {
                instance: 1,
                physical_device: 2,
                device: 3,
                queue_family_index: 0,
                queue_index: 0,
            }),
            MyTime(1),
        )
        .unwrap();
    (rt, instance, session)
}

#[test]
fn loader_negotiation_covers_version_one() {
    assert_eq!(negotiate_loader_interface(1, 1), Ok(1));
    assert_eq!(negotiate_loader_interface(1, 3), Ok(1));
    assert_eq!(negotiate_loader_interface(0, 2), Ok(1));
    assert_eq!(negotiate_loader_interface(2, 3), Err(Error::InitializationFailed));
    assert_eq!(negotiate_loader_interface(1, 0), Err(Error::InitializationFailed));
}

#[test]
fn extension_properties_two_call() {
    let rt = Runtime::new();
    assert_eq!(rt.enumerate_extension_properties(0), Ok(Enumerated::Count(1)));
    assert!(matches!(
        rt.enumerate_extension_properties(3),
        Err(Error::SizeInsufficient)
    ));
    match rt.enumerate_extension_properties(1) {
        Ok(Enumerated::Items(items)) => {
            assert_eq!(items.len(), 1);
            assert_eq!(items[0].extension_name, "XR_KHR_vulkan_enable");
            assert_eq!(items[0].extension_version, 10);
        }
        other => panic!("unexpected outcome: {:?}", other),
    }
}

#[test]
fn reference_space_enumeration_two_call() {
    let (mut rt, _instance, session) = instance_and_session();
    rt.create_reference_space(session, create_identity_pose(), MyTime(2)).unwrap();
    assert_eq!(rt.enumerate_reference_spaces(session, 0), Ok(Enumerated::Count(3)));
    assert_eq!(
        rt.enumerate_reference_spaces(session, 2),
        Err(Error::SizeInsufficient)
    );
    assert_eq!(
        rt.enumerate_reference_spaces(session, 3),
        Ok(Enumerated::Items(vec![
            ReferenceSpaceType::View,
            ReferenceSpaceType::Local,
            ReferenceSpaceType::LocalFloor,
        ]))
    );
}

#[test]
fn view_configuration_enumeration() {
    let (rt, instance, _session) = instance_and_session();
    assert_eq!(
        rt.enumerate_configurations(instance, HMD_SYSTEM_ID, 0),
        Ok(Enumerated::Count(1))
    );
    assert_eq!(
        rt.enumerate_configurations(instance, HMD_SYSTEM_ID, 1),
        Ok(Enumerated::Items(vec![ViewConfigurationType::PrimaryStereo]))
    );
    assert_eq!(
        rt.enumerate_configurations(instance, HMD_SYSTEM_ID + 1, 0),
        Err(Error::Validation)
    );

    let props = rt
        .get_configuration_properties(
            instance,
            HMD_SYSTEM_ID,
            ViewConfigurationType::PrimaryStereo,
        )
        .unwrap();
    assert_eq!(props.view_configuration_type, ViewConfigurationType::PrimaryStereo);
    assert!(!props.fov_mutable);
    assert_eq!(
        rt.get_configuration_properties(
            instance,
            HMD_SYSTEM_ID,
            ViewConfigurationType::PrimaryMono,
        ),
        Err(Error::ViewConfigurationTypeUnsupported)
    );

    match rt
        .enumerate_configuration_views(
            instance,
            HMD_SYSTEM_ID,
            ViewConfigurationType::PrimaryStereo,
            2,
        )
        .unwrap()
    {
        Enumerated::Items(views) => {
            assert_eq!(views.len(), 2);
            assert_eq!(views[0].recommended_image_rect_width, 1024);
            assert_eq!(views[0].recommended_image_rect_height, 1024);
            assert_eq!(views[0].recommended_swapchain_sample_count, 1);
            assert_eq!(views[0], views[1]);
        }
        other => panic!("unexpected outcome: {:?}", other),
    }

    assert_eq!(
        rt.enumerate_blend_modes(
            instance,
            HMD_SYSTEM_ID,
            ViewConfigurationType::PrimaryStereo,
            1,
        ),
        Ok(Enumerated::Items(vec![EnvironmentBlendMode::Opaque]))
    );
}

#[test]
fn locate_views_demands_an_attached_space() {
    let (mut rt, _instance, session) = instance_and_session();
    let space = rt.create_reference_space(session, create_identity_pose(), MyTime(2)).unwrap();
    assert_eq!(
        rt.locate_views(session, ViewConfigurationType::PrimaryStereo, space, 2),
        Ok(0b1111)
    );
    assert_eq!(
        rt.locate_views(session, ViewConfigurationType::PrimaryStereo, space, 1),
        Err(Error::SizeInsufficient)
    );
    assert_eq!(
        rt.locate_views(session, ViewConfigurationType::PrimaryMono, space, 2),
        Err(Error::Validation)
    );
    assert_eq!(
        rt.locate_views(session, ViewConfigurationType::PrimaryStereo, 9999, 2),
        Err(Error::SessionLost)
    );
}

#[test]
fn graphics_queries_report_fixed_values() {
    let (rt, instance, _session) = instance_and_session();
    let req = rt.get_graphics_requirements(instance, HMD_SYSTEM_ID).unwrap();
    assert_eq!((req.min_api_version.major, req.min_api_version.minor), (1, 0));
    assert_eq!((req.max_api_version.major, req.max_api_version.minor), (1, 3));

    // The extension buffers are space-separated and NUL-terminated.
    let expected_instance = b"VK_KHR_surface VK_KHR_wayland_surface\0".to_vec();
    assert_eq!(
        rt.get_instance_extensions(instance, HMD_SYSTEM_ID, 0),
        Ok(Enumerated::Count(expected_instance.len() as u32))
    );
    assert_eq!(
        rt.get_instance_extensions(instance, HMD_SYSTEM_ID, expected_instance.len() as u32),
        Ok(Enumerated::Items(expected_instance))
    );
    let expected_device = b"VK_KHR_swapchain\0".to_vec();
    assert_eq!(
        rt.get_device_extensions(instance, HMD_SYSTEM_ID, expected_device.len() as u32),
        Ok(Enumerated::Items(expected_device))
    );
    assert_eq!(
        rt.get_device_extensions(instance, HMD_SYSTEM_ID, 5),
        Err(Error::SizeInsufficient)
    );
}

#[test]
fn ext_list_length_counts_names_and_separators() {
    let exts = ExtList::new(vec![b"abc".to_vec(), b"de".to_vec()]);
    // Three name bytes plus separator, two name bytes plus terminator.
    assert_eq!(exts.len(), 7);
    assert_eq!(exts.encode(), b"abc de\0".to_vec());
    let single = ExtList::new(vec![b"xyz".to_vec()]);
    assert_eq!(single.len(), 4);
    assert_eq!(single.encode(), b"xyz\0".to_vec());
}

#[test]
fn graphics_device_selection_takes_the_last_capable_device() {
    let devices = vec![
        DeviceInfo { handle: 100, queue_family_flags: vec![1] },
        DeviceInfo { handle: 200, queue_family_flags: vec![4, 1] },
        DeviceInfo { handle: 300, queue_family_flags: vec![4] },
    ];
    assert_eq!(select_graphics_device(&devices), Some(200));
    let none = vec![DeviceInfo { handle: 1, queue_family_flags: vec![2] }];
    assert_eq!(select_graphics_device(&none), None);
    assert_eq!(select_graphics_device(&Vec::new()), None);
}
