use tradio::engine::Engine;
use tradio::facade::App;
use tradio::models::{Station, Tags};
use tradio::player::{Player, PlayerError};
use tradio::sim::SimHost;

fn engine() -> Engine<SimHost> {
    let host = SimHost::new(
        vec!["alpha".to_string(), "beta".to_string()],
        Some("alpha".to_string()),
        vec![1i16, 2, 3],
    );
    Engine::new_idle(host, 4)
}

fn station(url: &str) -> Station {
    Station {
        id: 0,
        provider: "radio-browser".to_string(),
        provider_id: "uuid".to_string(),
        name: "A Station".to_string(),
        url: url.to_string(),
        codec: "MP3".to_string(),
        bitrate: 128,
        tags: Tags::from(vec![]),
        country: "NL".to_string(),
    }
}

#[test]
fn new_app_remembers_the_active_device() {
    let app = App::new(engine()).unwrap();
    assert!(app.active_device.is_none());
    assert_eq!(app.current_device_name(), "NONE");

    let mut e = engine();
    e.use_default_device().unwrap();
    let app = App::new(e).unwrap();
    assert_eq!(app.active_device.as_ref().unwrap().id(), "alpha");
    assert_eq!(app.current_device_name(), "alpha");
}

#[test]
fn play_remembers_the_station_and_stop_forgets_it() {
    let mut app = App::new(engine()).unwrap();
    assert!(app.playing().is_none());
    app.play(station("http://radio.example/a")).unwrap();
    assert_eq!(app.playing().unwrap().url, "http://radio.example/a");
    app.stop();
    assert!(app.playing().is_none());
}

#[test]
fn play_failure_keeps_no_station() {
    let mut host = SimHost::new(vec![], None, vec![]);
    host.fail_source = true;
    let mut app = App::new(Engine::new_idle(host, 4)).unwrap();
    let r = app.play(station("unreachable"));
    assert!(matches!(r, Err(PlayerError::SourceUnavailable)));
    assert!(app.playing().is_none());
}

#[test]
fn volume_steps_saturate() {
    let mut app = App::new(engine()).unwrap();
    assert_eq!(app.volume(), 100);
    app.volume_up();
    assert_eq!(app.volume(), 100);
    app.volume_down();
    assert_eq!(app.volume(), 95);
    for _ in 0..30 {
        app.volume_down();
    }
    assert_eq!(app.volume(), 0);
    app.volume_down();
    assert_eq!(app.volume(), 0);
    app.volume_up();
    assert_eq!(app.volume(), 5);
}

#[test]
fn pause_and_resume_through_the_facade() {
    let mut app = App::new(engine()).unwrap();
    assert!(!app.is_paused());
    app.pause();
    assert!(app.is_paused());
    app.resume();
    assert!(!app.is_paused());
}

#[test]
fn facade_device_switching() {
    let mut app = App::new(engine()).unwrap();
    let ds = app.devices().unwrap();
    assert_eq!(ds.len(), 2);
    app.use_device(&ds[1]).unwrap();
    assert_eq!(app.player.active_device().unwrap().id(), "beta");
    let missing = tradio::player::Device::new("gamma".to_string(), false, false);
    assert!(matches!(app.use_device(&missing), Err(PlayerError::DeviceNotFound)));
    assert_eq!(app.player.active_device().unwrap().id(), "beta");
}

#[test]
fn stations_compare_by_fields() {
    let a = station("same");
    let b = station("same");
    let c = station("other");
    assert_eq!(a, b);
    assert_ne!(a, c);
    let mut d = station("same");
    d.tags = Tags::from("x,y");
    assert_ne!(a, d);
}

#[test]
fn error_messages() {
    assert_eq!(PlayerError::SourceUnavailable.message(), "source unavailable");
    assert_eq!(PlayerError::DeviceNotFound.message(), "device not found");
    assert_eq!(PlayerError::OutputFailed.message(), "output failed");
}
