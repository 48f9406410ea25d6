use openxr_device_simulator::error::Error;
use openxr_device_simulator::runtime::{Enumerated, Runtime};
use openxr_device_simulator::session::GraphicsBinding;
use openxr_device_simulator::swapchain::{
    find_memory_type_index, format_supported, OffscreenImage, SwapchainCreateInfo,
};
use openxr_device_simulator::utils::MyTime;
use openxr_device_simulator::HMD_SYSTEM_ID;

fn binding() -> GraphicsBinding {
    GraphicsBinding {
        instance: 1,
        physical_device: 2,
        device: 3,
        queue_family_index: 0,
        queue_index: 0,
    }
}

fn info(format: i64, create_flags: u64) -> SwapchainCreateInfo {
    SwapchainCreateInfo {
        create_flags,
        usage_flags: 0,
        format,
        sample_count: 1,
        width: 64,
        height: 64,
        face_count: 1,
        array_size: 1,
        mip_count: 1,
    }
}

fn images(n: usize) -> Vec<OffscreenImage> {
    (0..n)
        .map(|i| OffscreenImage {
            width: 64,
            height: 64,
            format: 43,
            image: 10 + i as u64,
            image_memory: 20 + i as u64,
            image_view: 30 + i as u64,
        })
        .collect()
}

fn session_with_runtime() -> (Runtime, u64) {
    let mut rt = Runtime::new();
    let instance = rt.create_instance().unwrap();
    let session = rt
        .create_session(instance, HMD_SYSTEM_ID, Some(binding()), MyTime(1))
        .unwrap();
    (rt, session)
}

#[test]
fn rotation_moves_indices_in_order() {
    let (mut rt, session) = session_with_runtime();
    let n = rt.swapchain_image_requirements(session, &info(37, 0)).unwrap();
    assert_eq!(n, 3);
    let sc = rt.create_swapchain(session, &info(37, 0), images(n), MyTime(2)).unwrap();

    // Wait and release demand their source collections to be non-empty.
    assert_eq!(rt.wait_image(sc), Err(Error::CallOrderInvalid));
    assert_eq!(rt.release_image(sc), Err(Error::CallOrderInvalid));

    // Acquire hands out indices in ring order.
    assert_eq!(rt.acquire_image(sc), Ok(0));
    assert_eq!(rt.acquire_image(sc), Ok(1));
    assert_eq!(rt.acquire_image(sc), Ok(2));
    // The available collection is spent; nothing recycles automatically.
    assert_eq!(rt.acquire_image(sc), Err(Error::CallOrderInvalid));

    // Each image can be waited and released exactly once.
    rt.wait_image(sc).unwrap();
    rt.wait_image(sc).unwrap();
    rt.wait_image(sc).unwrap();
    assert_eq!(rt.wait_image(sc), Err(Error::CallOrderInvalid));
    rt.release_image(sc).unwrap();
    rt.release_image(sc).unwrap();
    rt.release_image(sc).unwrap();
    assert_eq!(rt.release_image(sc), Err(Error::CallOrderInvalid));

    // Released images never return to available.
    assert_eq!(rt.acquire_image(sc), Err(Error::CallOrderInvalid));
}

#[test]
fn static_swapchain_owns_one_image() {
    let (mut rt, session) = session_with_runtime();
    // Bit 1 of the creation flags asks for a single static image.
    let n = rt.swapchain_image_requirements(session, &info(23, 2)).unwrap();
    assert_eq!(n, 1);
    let sc = rt.create_swapchain(session, &info(23, 2), images(1), MyTime(2)).unwrap();
    assert_eq!(rt.acquire_image(sc), Ok(0));
    assert_eq!(rt.acquire_image(sc), Err(Error::CallOrderInvalid));
}

#[test]
fn unsupported_format_is_rejected_before_allocation() {
    let (mut rt, session) = session_with_runtime();
    // The image-requirements call a caller must make before allocating
    // native images already rejects the format, so nothing is allocated.
    assert_eq!(
        rt.swapchain_image_requirements(session, &info(999, 0)),
        Err(Error::SwapchainFormatUnsupported)
    );
    assert_eq!(
        rt.create_swapchain(session, &info(999, 0), Vec::new(), MyTime(2)),
        Err(Error::SwapchainFormatUnsupported)
    );
    // The failed creation consumed nothing: the next handle is the same
    // one the swapchain would have taken.
    let sc_good = rt.create_swapchain(session, &info(43, 0), images(3), MyTime(3)).unwrap();
    let sc_later = rt.create_swapchain(session, &info(43, 0), images(3), MyTime(4)).unwrap();
    assert_eq!(sc_later, sc_good + 1);
}

#[test]
fn enumerate_formats_two_call() {
    let (rt, session) = session_with_runtime();
    assert_eq!(rt.enumerate_formats(session, 0), Ok(Enumerated::Count(10)));
    assert_eq!(rt.enumerate_formats(session, 4), Err(Error::SizeInsufficient));
    let expected: Vec<i64> = vec![23, 24, 27, 28, 29, 37, 38, 41, 42, 43];
    assert_eq!(rt.enumerate_formats(session, 10), Ok(Enumerated::Items(expected.clone())));
    for f in expected {
        assert!(format_supported(f));
    }
    assert!(!format_supported(44));
    assert_eq!(rt.enumerate_formats(9999, 0), Err(Error::SessionLost));
}

#[test]
fn enumerate_images_two_call() {
    let (mut rt, session) = session_with_runtime();
    let sc = rt.create_swapchain(session, &info(37, 0), images(3), MyTime(2)).unwrap();
    assert_eq!(rt.enumerate_images(sc, 0), Ok(Enumerated::Count(3)));
    assert_eq!(rt.enumerate_images(sc, 2), Err(Error::SizeInsufficient));
    assert_eq!(rt.enumerate_images(sc, 3), Ok(Enumerated::Items(vec![10, 11, 12])));
    assert_eq!(rt.enumerate_images(9999, 0), Err(Error::ObjectDoesNotExist));
}

#[test]
fn destroyed_swapchain_hands_back_its_images() {
    let (mut rt, session) = session_with_runtime();
    let sc = rt.create_swapchain(session, &info(37, 0), images(3), MyTime(2)).unwrap();
    assert!(matches!(rt.destroy_swapchain(0), Err(Error::HandleInvalid)));
    let taken = rt.destroy_swapchain(sc).unwrap().expect("the swapchain was live");
    assert_eq!(taken.images.len(), 3);
    assert_eq!(taken.images[0].image, 10);
    // A second destroy finds nothing.
    assert!(rt.destroy_swapchain(sc).unwrap().is_none());
    assert_eq!(rt.acquire_image(sc), Err(Error::ObjectDoesNotExist));
}

#[test]
fn memory_type_selection_picks_first_match() {
    // Type 0 lacks the wanted flag, type 1 is masked out, type 2 matches.
    let flags: Vec<u64> = vec![0b0, 0b1, 0b1, 0b1];
    let mask: u32 = 0b1101;
    assert_eq!(find_memory_type_index(mask, &flags, 0b1), Some(2));
    assert_eq!(find_memory_type_index(0, &flags, 0b1), None);
    assert_eq!(find_memory_type_index(mask, &flags, 0b10), None);
}
