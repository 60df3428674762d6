use sonnen_exporter::handlers::{
    build_info_sample, failure_samples, index, metrics, metrics_page, status_samples, Gauge, Sample,
    SampleValue, Scrape,
};
use sonnen_exporter::json::{Json, JsonValue};
use sonnen_exporter::sonnen_reader::{Directions, Phases, Probes, SonnenReader, SonnenStatus};

fn phases(a: &str, b: &str, c: &str) -> Phases {
    Phases { l1: a.to_string(), l2: b.to_string(), l3: c.to_string() }
}

fn read_status() -> SonnenStatus {
    let mut s = SonnenStatus::new();
    s.online = true;
    s.consumption_watts = 512;
    s.inverter_ac_frequency = 50;
    s.grid_feed_in_watts = -120;
    s.discharge_watts = -300;
    s.production_watts = 1100;
    s.state_of_charge_percent = 87;
    s.inverter_ac_volts = 230;
    s.battery_volts = 52;
    s.current = Directions {
        production: Some(phases("1.1", "1.2", "1.3")),
        consumption: Some(phases("2.1", "2.2", "2.3")),
    };
    s.volts = Directions {
        production: Some(phases("230.1", "230.2", "230.3")),
        consumption: Some(phases("231.1", "231.2", "231.3")),
    };
    s
}

fn int_of(s: &Sample) -> Option<i64> {
    match s.value {
        SampleValue::Int(i) => Some(i),
        SampleValue::Reading(_) => None,
    }
}

fn reading_of(s: &Sample) -> Option<&str> {
    match &s.value {
        SampleValue::Int(_) => None,
        SampleValue::Reading(r) => Some(r.as_str()),
    }
}

fn fits(s: &Sample) -> bool {
    s.labels.len() == s.gauge.label_names().len() && (int_of(s).is_some() == s.gauge.is_int())
}

#[test]
fn landing_page_is_html() {
    let p = index();
    assert_eq!(p.content_type, "text/html");
    assert!(p.body.starts_with("<html>\n<head><title>Sonnen Exporter</title></head>"));
    assert!(p.body.contains("<p><a href=\"/metrics\">Metrics</a></p>"));
    assert!(p.body.ends_with("</body>\n"));
}

#[test]
fn metrics_page_is_text_exposition() {
    let p = metrics_page("sonnen_online{host=\"a\",sn=\"1\"} 1\n".to_string());
    assert_eq!(p.content_type, "text/plain; version=0.0.4");
    assert_eq!(p.body, "sonnen_online{host=\"a\",sn=\"1\"} 1\n");
}

#[test]
fn gauge_names_and_labels() {
    assert_eq!(Gauge::Online.name(), "sonnen_online");
    assert_eq!(Gauge::StateOfCharge.name(), "sonnen_state_of_charge_percent");
    assert_eq!(Gauge::GridFrequency.name(), "sonnen_frequency_grid");
    assert_eq!(Gauge::InverterAcFreq.name(), "sonnen_frequency_inverter");
    assert_eq!(Gauge::Online.help(), "Metric scraping successful");
    assert_eq!(Gauge::BuildInfo.label_names(), vec!["version", "revision", "rustversion"]);
    assert_eq!(Gauge::MeterVolts.label_names(), vec!["host", "sn", "direction", "phase"]);
    assert_eq!(Gauge::Temperature.label_names(), vec!["host", "sn", "probe"]);
    assert_eq!(Gauge::GridVoltage.label_names(), vec!["host", "sn", "phase"]);
    assert_eq!(Gauge::BatteryVolts.label_names(), vec!["host", "sn"]);
    assert!(Gauge::Online.is_int());
    assert!(!Gauge::MeterCurrent.is_int());
    assert!(!Gauge::BuildInfo.is_int());
}

#[test]
fn samples_of_a_read_battery() {
    let host = "garage".to_string();
    let sn = "42".to_string();
    let v = status_samples(&host, &sn, &read_status());
    // 9 counts, no temperature, 1 grid frequency, 3 grid voltages, 6 currents, 6 voltages
    assert_eq!(v.len(), 25);
    let gauges: Vec<Gauge> = v.iter().map(|s| s.gauge).collect();
    assert_eq!(gauges[0], Gauge::Online);
    assert_eq!(int_of(&v[0]), Some(1));
    assert_eq!(int_of(&v[1]), Some(512));
    assert_eq!(gauges[3], Gauge::FeedInWatts);
    assert_eq!(int_of(&v[3]), Some(-120));
    assert_eq!(int_of(&v[6]), Some(87));
    assert_eq!(int_of(&v[8]), Some(52));
    assert_eq!(gauges[9], Gauge::GridFrequency);
    assert_eq!(reading_of(&v[9]), Some("0"));
    assert_eq!(gauges[10], Gauge::GridVoltage);
    assert_eq!(v[12].labels, vec!["garage", "42", "3"]);
    assert_eq!(gauges[13], Gauge::MeterCurrent);
    assert_eq!(v[13].labels, vec!["garage", "42", "production", "1"]);
    assert_eq!(reading_of(&v[13]), Some("1.1"));
    assert_eq!(v[18].labels, vec!["garage", "42", "consumption", "3"]);
    assert_eq!(reading_of(&v[18]), Some("2.3"));
    assert_eq!(gauges[19], Gauge::MeterVolts);
    assert_eq!(reading_of(&v[24]), Some("231.3"));
    for s in &v {
        assert!(fits(s));
        assert_eq!(s.labels[0], "garage");
        assert_eq!(s.labels[1], "42");
    }
}

#[test]
fn temperatures_are_exported_per_probe() {
    let mut st = read_status();
    st.temperatures = Probes { bdc: Some("31.5".to_string()), hmi: None, pu: Some("35".to_string()) };
    let v = status_samples(&"h".to_string(), &"s".to_string(), &st);
    assert_eq!(v.len(), 27);
    assert_eq!(v[9].gauge, Gauge::Temperature);
    assert_eq!(v[9].labels, vec!["h", "s", "bdc"]);
    assert_eq!(reading_of(&v[9]), Some("31.5"));
    assert_eq!(v[10].labels, vec!["h", "s", "pu"]);
    assert!(v.iter().all(fits));
}

#[test]
fn fresh_status_samples_are_offline_zero() {
    let v = status_samples(&"".to_string(), &"".to_string(), &SonnenStatus::new());
    assert_eq!(v.len(), 13);
    assert_eq!(int_of(&v[0]), Some(0));
    assert!(v.iter().all(fits));
}

#[test]
fn failed_battery_is_reported_offline() {
    let v = failure_samples(&"garage".to_string(), &"42".to_string());
    assert_eq!(v.len(), 1);
    assert_eq!(v[0].gauge, Gauge::Online);
    assert_eq!(v[0].labels, vec!["garage", "42"]);
    assert_eq!(int_of(&v[0]), Some(0));
}

#[test]
fn build_info_defaults_to_empty_labels() {
    let b = build_info_sample("0.1.0", None, Some("1.31.0"));
    assert_eq!(b.gauge, Gauge::BuildInfo);
    assert_eq!(b.labels, vec!["0.1.0", "", "1.31.0"]);
    assert_eq!(reading_of(&b), Some("1"));
    assert!(fits(&b));
}

#[test]
fn metrics_cover_each_battery_then_build_info() {
    let scrapes = vec![
        Scrape { host: "a".to_string(), sn: "1".to_string(), status: Some(read_status()) },
        Scrape { host: "b".to_string(), sn: "2".to_string(), status: None },
    ];
    let v = metrics(&scrapes, "0.1.0", Some("abc"), None);
    assert_eq!(v.len(), 25 + 1 + 1);
    assert_eq!(v[0].labels, vec!["a", "1"]);
    assert_eq!(int_of(&v[0]), Some(1));
    assert_eq!(v[25].gauge, Gauge::Online);
    assert_eq!(v[25].labels, vec!["b", "2"]);
    assert_eq!(int_of(&v[25]), Some(0));
    assert_eq!(v[26].gauge, Gauge::BuildInfo);
    assert_eq!(v[26].labels, vec!["0.1.0", "abc", ""]);
    assert!(v.iter().all(fits));
    let none = metrics(&vec![], "0.1.0", None, None);
    assert_eq!(none.len(), 1);
    assert_eq!(none[0].gauge, Gauge::BuildInfo);
}

#[test]
fn battery_samples_set_distinct_series() {
    let mut st = read_status();
    st.temperatures = Probes {
        bdc: Some("31.5".to_string()),
        hmi: Some("29".to_string()),
        pu: Some("35".to_string()),
    };
    let v = status_samples(&"h".to_string(), &"s".to_string(), &st);
    assert_eq!(v.len(), 28);
    for i in 0..v.len() {
        for j in (i + 1)..v.len() {
            assert!(!(v[i].gauge == v[j].gauge && v[i].labels == v[j].labels), "{} {}", i, j);
        }
    }
}


fn num(text: &str, int: Option<i64>) -> Json {
    Json { value: JsonValue::Number(int), text: text.to_string() }
}

fn obj(entries: Vec<(&str, Json)>) -> Json {
    Json {
        value: JsonValue::Object(entries.into_iter().map(|(k, v)| (k.to_string(), v)).collect()),
        text: "{}".to_string(),
    }
}

#[test]
fn gauges_listed_once_each() {
    let all = Gauge::all();
    assert_eq!(all.len(), 15);
    assert_eq!(all.iter().filter(|g| g.is_int()).count(), 9);
    for i in 0..all.len() {
        for j in (i + 1)..all.len() {
            assert_ne!(all[i], all[j]);
        }
    }
}

#[test]
fn read_battery_exports_no_inverter_readings() {
    let counts = ["Consumption_W", "Fac", "GridFeedIn_W", "Pac_total_W", "Production_W", "RSOC", "Uac", "Ubat"];
    let main = obj(counts.iter().map(|k| (*k, num("7", Some(7)))).collect());
    let meter = |p: &str| {
        obj(["a_l1", "a_l2", "a_l3", "v_l1_n", "v_l2_n", "v_l3_n"]
            .iter()
            .map(|k| (*k, num(&format!("{}.5", p), None)))
            .collect())
    };
    let meters = obj(vec![("4_1", meter("1")), ("5_1", meter("2"))]);
    let mut r = SonnenReader::new("http://b");
    r.receive(&main);
    r.receive(&meters);
    let st = r.status();
    let scrapes = vec![
        Scrape { host: "a".to_string(), sn: "1".to_string(), status: Some(st) },
        Scrape { host: "b".to_string(), sn: "2".to_string(), status: None },
    ];
    for _call in 0..2 {
        let v = metrics(&scrapes, "0.1.0", None, None);
        for s in &v {
            assert_ne!(s.gauge, Gauge::Temperature);
            if s.gauge == Gauge::GridFrequency || s.gauge == Gauge::GridVoltage {
                assert_eq!(reading_of(s), Some("0"));
            }
            if let Some(t) = reading_of(s) {
                assert!(t.parse::<f64>().is_ok());
            }
        }
    }
}
