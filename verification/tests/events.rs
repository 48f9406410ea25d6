use openxr_device_simulator::error::Error;
use openxr_device_simulator::event::Event;
use openxr_device_simulator::runtime::Runtime;
use openxr_device_simulator::session::SessionState;
use openxr_device_simulator::utils::MyTime;

#[test]
fn events_are_delivered_in_fifo_order() {
    let mut rt = Runtime::new();
    let instance = rt.create_instance().unwrap();

    let states = [
        SessionState::Idle,
        SessionState::Ready,
        SessionState::Focused,
        SessionState::Stopping,
        SessionState::Idle,
    ];
    for (i, state) in states.iter().enumerate() {
        let event = Event::SessionStateChanged {
            session: 7,
            state: *state,
            time: MyTime(1000 + i as i64),
        };
        rt.schedule_event(instance, &event).unwrap();
    }

    // Polled back in exactly scheduling order, times included.
    let expected_codes = [1i32, 2, 5, 6, 1];
    for (i, code) in expected_codes.iter().enumerate() {
        let item = rt.poll(instance).unwrap().expect("a record must be waiting");
        assert_eq!(item.ty, 18);
        let mut state_bytes = [0u8; 4];
        state_bytes.copy_from_slice(&item.buf[8..12]);
        assert_eq!(i32::from_le_bytes(state_bytes), *code);
        let mut time_bytes = [0u8; 8];
        time_bytes.copy_from_slice(&item.buf[16..24]);
        assert_eq!(i64::from_le_bytes(time_bytes), 1000 + i as i64);
    }

    // One poll past the last record is the distinct no-event outcome.
    assert_eq!(rt.poll(instance).unwrap(), None);
}

#[test]
fn event_record_layout_is_bit_exact() {
    let mut rt = Runtime::new();
    let instance = rt.create_instance().unwrap();
    let event = Event::SessionStateChanged {
        session: 0x0123_4567_89ab_cdef,
        state: SessionState::Ready,
        time: MyTime(123_456_789),
    };
    rt.schedule_event(instance, &event).unwrap();

    let item = rt.poll(instance).unwrap().unwrap();
    assert_eq!(item.ty, 18);
    let mut expected = Vec::new();
    expected.extend_from_slice(&0x0123_4567_89ab_cdefu64.to_le_bytes());
    expected.extend_from_slice(&2u32.to_le_bytes());
    expected.extend_from_slice(&[0u8; 4]);
    expected.extend_from_slice(&123_456_789u64.to_le_bytes());
    assert_eq!(item.buf, expected);
}

#[test]
fn polling_and_scheduling_check_their_handles() {
    let mut rt = Runtime::new();
    assert_eq!(rt.poll(42), Err(Error::InstanceLost));
    let event = Event::SessionStateChanged {
        session: 1,
        state: SessionState::Idle,
        time: MyTime(0),
    };
    assert_eq!(rt.schedule_event(42, &event), Err(Error::ObjectDoesNotExist));
}

#[test]
fn queues_survive_instance_destruction() {
    let mut rt = Runtime::new();
    let instance = rt.create_instance().unwrap();
    let event = Event::SessionStateChanged {
        session: 3,
        state: SessionState::Stopping,
        time: MyTime(9),
    };
    rt.schedule_event(instance, &event).unwrap();
    rt.destroy_instance(instance).unwrap();
    // The queue outlives its instance; scheduling onto it still works,
    // only polling through the instance reports it lost.
    rt.schedule_event(instance, &event).unwrap();
    assert_eq!(rt.poll(instance), Err(Error::InstanceLost));
}
