use weather_station::config::{PwsWeatherConfig, ServerConfig};
use weather_station::schedule::{nanos_until_next_poll, pws_status_is_failure, PwsSchedule};
use weather_station::station::{Lightning, Wetness};

#[test]
fn poll_waits_until_next_five_seconds() {
    assert_eq!(nanos_until_next_poll(0), 5_000_000_000);
    assert_eq!(nanos_until_next_poll(5_000_000_000), 5_000_000_000);
    assert_eq!(nanos_until_next_poll(1_700_000_003_250_000_000), 1_750_000_000);
    assert_eq!(nanos_until_next_poll(4_999_999_999), 1);
}

#[test]
fn failure_statuses() {
    assert!(!pws_status_is_failure(200));
    assert!(!pws_status_is_failure(302));
    assert!(!pws_status_is_failure(399));
    assert!(pws_status_is_failure(400));
    assert!(pws_status_is_failure(404));
    assert!(pws_status_is_failure(500));
    assert!(pws_status_is_failure(599));
    assert!(!pws_status_is_failure(600));
}

#[test]
fn pws_is_updated_at_most_once_a_minute() {
    let mut s = PwsSchedule::new();
    let t0: u128 = 1_700_000_000_000_000_000;
    assert!(s.is_due(t0));
    s.record_outcome(Some(200), t0);
    assert_eq!(s.last_update_nanos(), t0);
    assert!(!s.is_due(t0 + 5_000_000_000));
    assert!(!s.is_due(t0 + 60_000_000_000));
    assert!(s.is_due(t0 + 60_000_000_001));
}

#[test]
fn failed_pws_updates_are_retried() {
    let mut s = PwsSchedule::new();
    let t0: u128 = 1_700_000_000_000_000_000;
    s.record_outcome(Some(503), t0);
    assert_eq!(s.last_update_nanos(), 0);
    assert!(s.is_due(t0 + 5_000_000_000));
    s.record_outcome(None, t0 + 5_000_000_000);
    assert_eq!(s.last_update_nanos(), 0);
    s.record_outcome(Some(401), t0 + 10_000_000_000);
    assert!(s.is_due(t0 + 10_000_000_000));
}

fn config() -> ServerConfig {
    ServerConfig {
        influx_url: "http://localhost:8086".to_string(),
        influx_db: "weather".to_string(),
        target_url: "192.168.1.50".to_string(),
        pws_weather: PwsWeatherConfig { id: "STATION1".to_string(), password: "pw".to_string() },
    }
}

#[test]
fn station_url() {
    assert_eq!(config().station_data_url().unwrap(), "http://192.168.1.50/data");
}

#[test]
fn station_url_is_normalized_by_parsing() {
    let mut c = config();
    c.target_url = "Weather.LOCAL:80".to_string();
    assert_eq!(c.station_data_url().unwrap(), "http://weather.local/data");
    c.target_url = "bad host name".to_string();
    assert_eq!(c.station_data_url(), None);
}

#[test]
fn pws_update_url_encodes_the_query() {
    let url = config().pws_weather.update_url(0, "70.7", "29.92", "48.25", "0.3").unwrap();
    assert_eq!(
        url,
        "https://pwsupdate.pwsweather.com/api/v1/submitwx?ID=STATION1&PASSWORD=pw\
         &softwaretype=CustomClient0.0.0&action=updateraw&dateutc=1970-01-01+00%3A00%3A00\
         &tempf=70.7&baromin=29.92&humidity=48.25&UV=0.3"
    );
    let later = config().pws_weather.update_url(1_704_164_645, "a b", "1", "2", "3").unwrap();
    assert!(later.contains("dateutc=2024-01-02+03%3A04%3A05&tempf=a+b&"));
    assert_eq!(config().pws_weather.update_url(i64::MAX, "1", "2", "3", "4"), None);
}

#[test]
fn pws_query_lists_fields_in_order() {
    let q = config().pws_weather.update_query("2024-01-02 03:04:05", "70.7", "29.92", "48.25", "0.3");
    let q: Vec<(&str, &str)> = q.iter().map(|(k, v)| (k.as_str(), v.as_str())).collect();
    assert_eq!(
        q,
        vec![
            ("ID", "STATION1"),
            ("PASSWORD", "pw"),
            ("softwaretype", "CustomClient0.0.0"),
            ("action", "updateraw"),
            ("dateutc", "2024-01-02 03:04:05"),
            ("tempf", "70.7"),
            ("baromin", "29.92"),
            ("humidity", "48.25"),
            ("UV", "0.3"),
        ]
    );
}

#[test]
fn lightning_gauges_show_minus_one_without_strikes() {
    let none = Lightning { strikes: 0, closest_distance: None, average_distance: None, farthest_distance: None };
    assert_eq!(none.distance_gauges(), (-1, -1, -1));
    let some = Lightning { strikes: 3, closest_distance: Some(4), average_distance: Some(9), farthest_distance: Some(17) };
    assert_eq!(some.distance_gauges(), (4, 9, 17));
}

#[test]
fn wetness_gauge() {
    assert_eq!(Wetness { is_wet: true }.gauge_value(), 1);
    assert_eq!(Wetness { is_wet: false }.gauge_value(), 0);
}

#[test]
fn pws_run_of_passes_sends_once_a_minute_and_retries_failures() {
    let mut s = PwsSchedule::new();
    let t0: u128 = 1_700_000_000_000_000_000;
    let step: u128 = 5_000_000_000;
    let mut sent: Vec<u128> = Vec::new();
    for k in 0..40u128 {
        let now = t0 + k * step;
        if s.is_due(now) {
            sent.push(k);
            // The first two updates fail, every later one is accepted 1 s later.
            let answer = if sent.len() == 1 {
                Some(500)
            } else if sent.len() == 2 {
                None
            } else {
                Some(200)
            };
            s.record_outcome(answer, now + 1_000_000_000);
        }
    }
    // Passes 0 and 1 fail, pass 2 is accepted at 11 s; the next due pass is
    // the first more than 60 s later (pass 15 at 75 s), then pass 28 at 140 s.
    assert_eq!(sent, vec![0, 1, 2, 15, 28]);
}
