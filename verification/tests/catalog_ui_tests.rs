use tradio::catalog::{codec_supported, filter_supported, search_query, station_from_catalog};
use tradio::engine::Engine;
use tradio::models::{OrderBy, Station, StationsFilter, Tags};
use tradio::player::Player;
use tradio::sim::SimHost;
use tradio::ui::{ActiveLayout, Playbar};

#[test]
fn test_search_url() {
    let test_data = [
        (
            StationsFilter { order_by: None, limit: None, offset: None },
            "hidebroken=true",
        ),
        (
            StationsFilter { order_by: Some(OrderBy::CreatedAt), limit: None, offset: None },
            "hidebroken=true&order=",
        ),
        (
            StationsFilter { order_by: None, limit: Some(10), offset: None },
            "hidebroken=true&limit=10",
        ),
        (
            StationsFilter { order_by: None, limit: None, offset: Some(20) },
            "hidebroken=true&offset=20",
        ),
    ];

    for (filter, want) in test_data {
        assert_eq!(search_query(&filter), want);
    }
}

#[test]
fn search_query_combines_parameters() {
    let filter = StationsFilter {
        order_by: Some(OrderBy::CreatedAt),
        limit: Some(10),
        offset: Some(20),
    };
    assert_eq!(search_query(&filter), "hidebroken=true&limit=10&offset=20&order=");
}

fn station(codec: &str) -> Station {
    Station {
        id: 0,
        provider: "radio-browser".to_string(),
        provider_id: "uuid".to_string(),
        name: "name".to_string(),
        url: "url".to_string(),
        codec: codec.to_string(),
        bitrate: 128,
        tags: Tags::from(vec![]),
        country: "country".to_string(),
    }
}

#[test]
fn only_decodable_codecs_pass_the_filter() {
    assert!(codec_supported(&"MP3".to_string()));
    assert!(codec_supported(&"FLAC".to_string()));
    assert!(!codec_supported(&"AAC".to_string()));
    assert!(!codec_supported(&"mp3".to_string()));
    let kept = filter_supported(vec![station("MP3"), station("AAC"), station("FLAC")]);
    assert_eq!(kept.len(), 2);
    assert_eq!(kept[0].codec, "MP3");
    assert_eq!(kept[1].codec, "FLAC");
}

#[test]
fn catalog_station_fields() {
    let s = station_from_catalog(
        "uuid-1".to_string(),
        "Radio One".to_string(),
        "http://radio.example/one".to_string(),
        "MP3".to_string(),
        192,
        "rock, pop".to_string(),
        "NL".to_string(),
    );
    assert_eq!(s.id, 0);
    assert_eq!(s.provider, "radio-browser");
    assert_eq!(s.provider_id, "uuid-1");
    assert_eq!(s.name, "Radio One");
    assert_eq!(s.url, "http://radio.example/one");
    assert_eq!(s.codec, "MP3");
    assert_eq!(s.bitrate, 192);
    assert_eq!(s.tags.len(), 2);
    assert_eq!(s.tags.tag(0), "rock");
    assert_eq!(s.tags.tag(1), "pop");
    assert_eq!(s.country, "NL");
}

#[test]
fn layouts_compare() {
    assert!(ActiveLayout::Library == ActiveLayout::Library);
    assert!(ActiveLayout::Library != ActiveLayout::Devices);
}

fn engine() -> Engine<SimHost> {
    let host = SimHost::new(
        vec!["alpha".to_string()],
        Some("alpha".to_string()),
        vec![1i16, 2, 3],
    );
    Engine::new_idle(host, 4)
}

#[test]
fn playbar_title_idle() {
    let e = engine();
    let bar = Playbar::new(&e);
    assert_eq!(bar.get_title(), "Paused  (NONE | Volume: 100%)");
}

#[test]
fn playbar_title_playing() {
    let mut e = engine();
    e.use_default_device().unwrap();
    e.play("url").unwrap();
    e.set_volume(5);
    let mut bar = Playbar::new(&e);
    let s = station("MP3");
    let mut s = s;
    s.name = "  My Station  ".to_string();
    bar.set_station(Some(&s));
    assert_eq!(bar.get_title(), "Playing (alpha | Volume:  5%)");
    e.pause();
    bar.set_player_settings(&e);
    assert_eq!(bar.get_title(), "Paused  (alpha | Volume:  5%)");
    bar.set_station(None);
    e.resume();
    e.set_volume(42);
    bar.set_player_settings(&e);
    assert_eq!(bar.get_title(), "Paused  (alpha | Volume: 42%)");
}

struct MemStorage {
    stations: Vec<Station>,
}

impl tradio::storage::Storage for MemStorage {
    fn create(&mut self, station: &Station) -> Result<i64, tradio::models::ServiceError> {
        self.stations.push(station.clone());
        Ok(self.stations.len() as i64)
    }

    fn search(&self, _filter: &StationsFilter) -> Result<Vec<Station>, tradio::models::ServiceError> {
        Ok(self.stations.clone())
    }

    fn update(&mut self, _station: &Station) -> Result<(), tradio::models::ServiceError> {
        Ok(())
    }

    fn delete(&mut self, _station_id: i64) -> Result<(), tradio::models::ServiceError> {
        Ok(())
    }
}

struct FakeCatalog;

impl tradio::catalog::Client for FakeCatalog {
    fn name(&self) -> String {
        "radio-browser".to_string()
    }

    fn search(&self, _filter: &StationsFilter) -> Result<Vec<Station>, tradio::models::ServiceError> {
        Ok(vec![station("FLAC")])
    }
}

#[test]
fn datasource_names_and_search() {
    let storage = MemStorage { stations: vec![station("MP3"), station("FLAC")] };
    let ds: tradio::ui::Datasource<MemStorage, FakeCatalog> =
        tradio::ui::Datasource::Storage(storage);
    assert_eq!(ds.name(), "📁 storage");
    assert_eq!(ds.search(&StationsFilter::default()).unwrap().len(), 2);

    let ds: tradio::ui::Datasource<MemStorage, FakeCatalog> =
        tradio::ui::Datasource::Client(FakeCatalog);
    assert_eq!(ds.name(), "🌐 radio-browser");
    assert_eq!(ds.search(&StationsFilter::default()).unwrap().len(), 1);
}
