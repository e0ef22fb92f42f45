use tradio::engine::Engine;
use tradio::player::{Device, Player, PlayerError};
use tradio::sim::SimHost;
use tradio::sink::PullEvent;

const PERIOD: u32 = 4;

fn host_with_devices() -> SimHost {
    SimHost::new(
        vec!["alpha".to_string(), "beta".to_string()],
        Some("alpha".to_string()),
        vec![1i16, 2, 3],
    )
}

fn device(id: &str) -> Device {
    Device::new(id.to_string(), false, false)
}

#[test]
fn volume_set_then_get_is_clamped() {
    let mut e = Engine::new_idle(host_with_devices(), PERIOD);
    assert_eq!(e.volume(), 100);
    e.set_volume(55);
    assert_eq!(e.volume(), 55);
    e.set_volume(105);
    assert_eq!(e.volume(), 100);
    e.set_volume(-5);
    assert_eq!(e.volume(), 0);
    e.set_volume(0);
    assert_eq!(e.volume(), 0);
    e.set_volume(100);
    assert_eq!(e.volume(), 100);
}

#[test]
fn pause_resume_round_trip() {
    let mut e = Engine::new_idle(host_with_devices(), PERIOD);
    assert!(!e.is_paused());
    e.pause();
    assert!(e.is_paused());
    e.resume();
    assert!(!e.is_paused());
}

#[test]
fn second_play_replaces_first() {
    let mut e = Engine::new_idle(host_with_devices(), PERIOD);
    e.play("url_a").unwrap();
    assert_eq!(e.queue_len(), 1);
    e.play("url_b").unwrap();
    // The queue holds exactly the second source, never both.
    assert_eq!(e.queue_len(), 1);
    // Drain its buffer: the samples come from the second session.
    for want in [1i16, 2, 3] {
        match e.pull() {
            PullEvent::Sample(s) => assert_eq!(s, want),
            _ => panic!("expected a sample"),
        }
    }
    // The session asked for its next packet is the second one opened.
    match e.pull() {
        PullEvent::NeedPacket(session) => assert_eq!(session, 2),
        _ => panic!("expected a packet request"),
    }
}

#[test]
fn play_failure_leaves_player_unchanged() {
    let mut host = host_with_devices();
    host.fail_source = true;
    let mut e = Engine::new_idle(host, PERIOD);
    e.set_volume(40);
    let r = e.play("url");
    assert!(matches!(r, Err(PlayerError::SourceUnavailable)));
    assert_eq!(e.queue_len(), 0);
    assert_eq!(e.volume(), 40);
}

#[test]
fn use_device_of_active_device_is_a_noop() {
    let mut e = Engine::new_idle(host_with_devices(), PERIOD);
    e.use_device(&device("alpha")).unwrap();
    let stream_before = e.active_stream_id().unwrap();
    // Binding the already-active device succeeds without opening a
    // new stream: the handle is the same instance.
    e.use_device(&device("alpha")).unwrap();
    assert_eq!(e.active_stream_id().unwrap(), stream_before);
    let active = e.active_device().unwrap();
    assert_eq!(active.id(), "alpha");
}

#[test]
fn use_device_unknown_id_fails_and_preserves_binding() {
    let mut e = Engine::new_idle(host_with_devices(), PERIOD);
    e.use_device(&device("alpha")).unwrap();
    let stream_before = e.active_stream_id().unwrap();
    let r = e.use_device(&device("gamma"));
    assert!(matches!(r, Err(PlayerError::DeviceNotFound)));
    assert_eq!(r.unwrap_err().message(), "device not found");
    assert_eq!(e.active_device().unwrap().id(), "alpha");
    assert_eq!(e.active_stream_id().unwrap(), stream_before);
}

#[test]
fn use_device_with_no_binding_yet() {
    let mut e = Engine::new_idle(host_with_devices(), PERIOD);
    assert!(e.active_device().is_none());
    assert!(e.active_stream_id().is_none());
    e.use_device(&device("beta")).unwrap();
    assert_eq!(e.active_device().unwrap().id(), "beta");
}

#[test]
fn output_failure_preserves_binding() {
    let mut host = host_with_devices();
    host.fail_output = true;
    let mut e = Engine::new_idle(host, PERIOD);
    let r = e.use_device(&device("beta"));
    assert!(matches!(r, Err(PlayerError::OutputFailed)));
    assert!(e.active_device().is_none());
}

#[test]
fn use_default_device_binds_the_default() {
    let mut e = Engine::new_idle(host_with_devices(), PERIOD);
    e.use_default_device().unwrap();
    assert_eq!(e.active_device().unwrap().id(), "alpha");
}

#[test]
fn use_default_device_without_default_fails() {
    let host = SimHost::new(vec!["alpha".to_string()], None, vec![]);
    let mut e = Engine::new_idle(host, PERIOD);
    assert!(matches!(e.use_default_device(), Err(PlayerError::DeviceNotFound)));
}

#[test]
fn stop_drains_queue_within_one_check_interval() {
    let mut e = Engine::new_idle(host_with_devices(), PERIOD);
    e.play("url").unwrap();
    assert_eq!(e.queue_len(), 1);
    e.stop();
    let mut pulls = 0u32;
    while e.queue_len() > 0 {
        let _ = e.pull();
        pulls += 1;
        assert!(pulls <= PERIOD, "stop was not observed within one interval");
    }
    assert_eq!(e.queue_len(), 0);
    assert!(!e.is_paused());
}

#[test]
fn device_switch_mid_playback_continues_the_stream() {
    let mut e = Engine::new_idle(host_with_devices(), PERIOD);
    e.use_device(&device("alpha")).unwrap();
    e.play("url").unwrap();
    let mut collected = Vec::new();
    for _ in 0..2 {
        match e.pull() {
            PullEvent::Sample(s) => collected.push(s),
            _ => panic!("expected a sample"),
        }
    }
    // Switch devices while the source is mid-buffer.
    e.use_device(&device("beta")).unwrap();
    assert_eq!(e.queue_len(), 1, "the switch must not terminate the source");
    match e.pull() {
        PullEvent::Sample(s) => collected.push(s),
        _ => panic!("expected a sample"),
    }
    // The same logical sequence, from where the old stream left off.
    assert_eq!(collected, vec![1i16, 2, 3]);
    match e.pull() {
        PullEvent::NeedPacket(session) => assert_eq!(session, 1),
        _ => panic!("expected a packet request"),
    }
}

#[test]
fn refill_resumes_and_none_ends_the_stream() {
    let mut e = Engine::new_idle(host_with_devices(), PERIOD);
    e.play("url").unwrap();
    for _ in 0..3 {
        match e.pull() {
            PullEvent::Sample(_) => {},
            _ => panic!("expected a sample"),
        }
    }
    assert!(matches!(e.pull(), PullEvent::NeedPacket(_)));
    assert!(e.head_needs_packet());
    e.refill(Some(vec![7i16, 8]));
    match e.pull() {
        PullEvent::Sample(s) => assert_eq!(s, 7),
        _ => panic!("expected a sample"),
    }
    match e.pull() {
        PullEvent::Sample(s) => assert_eq!(s, 8),
        _ => panic!("expected a sample"),
    }
    assert!(matches!(e.pull(), PullEvent::NeedPacket(_)));
    // A failed decode or the end of the stream ends the source.
    e.refill(None);
    assert!(matches!(e.pull(), PullEvent::SourceEnded));
    assert_eq!(e.queue_len(), 0);
    assert!(matches!(e.pull(), PullEvent::Idle));
}

#[test]
fn paused_sink_idles() {
    let mut e = Engine::new_idle(host_with_devices(), PERIOD);
    e.play("url").unwrap();
    e.pause();
    assert!(matches!(e.pull(), PullEvent::Idle));
    e.resume();
    assert!(matches!(e.pull(), PullEvent::Sample(1)));
}

#[test]
fn devices_marks_exactly_one_default_and_one_active() {
    let mut e = Engine::new_idle(host_with_devices(), PERIOD);
    let ds = e.devices().unwrap();
    assert_eq!(ds.len(), 2);
    assert_eq!(ds.iter().filter(|d| d.is_default()).count(), 1);
    assert!(ds[0].is_default() && ds[0].id() == "alpha");
    assert_eq!(ds.iter().filter(|d| d.is_active()).count(), 0);
    e.use_device(&device("beta")).unwrap();
    let ds = e.devices().unwrap();
    assert_eq!(ds.iter().filter(|d| d.is_active()).count(), 1);
    assert!(ds[1].is_active() && ds[1].id() == "beta");
    assert_eq!(ds.iter().filter(|d| d.is_default()).count(), 1);
}

#[test]
fn devices_equal_by_identifier() {
    let a = Device::new("alpha".to_string(), true, false);
    let b = Device::new("alpha".to_string(), false, true);
    let c = Device::new("beta".to_string(), true, false);
    assert!(a == b);
    assert!(a != c);
}
