use sonnen_exporter::json::{
    check_numeric_member, decode, integer_string, member_index, Json, JsonValue,
};
use sonnen_exporter::sonnen_reader::{
    check_inverter_doc, check_meter_doc, check_status_doc, ReadPhase, SonnenReader, SonnenStatus,
};

fn int_json(i: i64) -> Json {
    Json { value: JsonValue::Number(Some(i)), text: i.to_string() }
}

fn float(text: &str) -> Json {
    Json { value: JsonValue::Number(None), text: text.to_string() }
}

fn string(s: &str) -> Json {
    Json { value: JsonValue::Str(s.to_string()), text: format!("\"{}\"", s) }
}

fn object(entries: Vec<(&str, Json)>) -> Json {
    let text = format!(
        "{{{}}}",
        entries.iter().map(|(k, v)| format!("\"{}\":{}", k, v.text)).collect::<Vec<_>>().join(",")
    );
    Json {
        value: JsonValue::Object(entries.into_iter().map(|(k, v)| (k.to_string(), v)).collect()),
        text,
    }
}

fn status_doc() -> Json {
    object(vec![
        ("Consumption_W", int_json(512)),
        ("Fac", int_json(50)),
        ("GridFeedIn_W", int_json(-120)),
        ("Pac_total_W", int_json(-300)),
        ("Production_W", int_json(1100)),
        ("RSOC", int_json(87)),
        ("Uac", int_json(230)),
        ("Ubat", int_json(52)),
        ("Timestamp", string("2019-05-01 12:00:00")),
    ])
}

fn meter(prefix: &str) -> Json {
    object(vec![
        ("a_l1", float(&format!("{}1.5", prefix))),
        ("a_l2", string(&format!("{}2.5", prefix))),
        ("a_l3", float(&format!("{}3.5", prefix))),
        ("v_l1_n", float("230.1")),
        ("v_l2_n", string("230.2")),
        ("v_l3_n", float("230.3")),
    ])
}

fn meter_doc() -> Json {
    object(vec![("4_1", meter("1")), ("5_1", meter("2"))])
}

#[test]
fn fresh_status_is_offline_and_zero() {
    let s = SonnenStatus::new();
    assert!(!s.online);
    assert_eq!(s.consumption_watts, 0);
    assert_eq!(s.battery_volts, 0);
    assert_eq!(s.grid_frequency, "0");
    assert_eq!(s.grid_voltage.l1, "0");
    assert_eq!(s.grid_voltage.l3, "0");
    assert!(s.temperatures.bdc.is_none());
    assert!(s.current.production.is_none() && s.volts.consumption.is_none());
}

#[test]
fn member_lookup_finds_first_match() {
    let entries = vec![
        ("a".to_string(), int_json(1)),
        ("b".to_string(), int_json(2)),
        ("a".to_string(), int_json(3)),
    ];
    assert_eq!(member_index(&entries, "a"), Some(0));
    assert_eq!(member_index(&entries, "b"), Some(1));
    assert_eq!(member_index(&entries, "c"), None);
}

#[test]
fn int_field_needs_an_object_and_an_integer() {
    let doc = status_doc();
    assert_eq!(doc.int_field("RSOC"), Some(87));
    assert_eq!(doc.int_field("GridFeedIn_W"), Some(-120));
    assert_eq!(doc.int_field("Missing"), None);
    assert_eq!(doc.int_field("Timestamp"), None);
    assert_eq!(int_json(5).int_field("RSOC"), None);
    let f = object(vec![("RSOC", float("87.0"))]);
    assert_eq!(f.int_field("RSOC"), None);
}

#[test]
fn reading_trims_quotes_of_the_text() {
    assert_eq!(string("230.2").reading(), "230.2");
    assert_eq!(float("1e3").reading(), "1e3");
}

#[test]
fn reader_asks_for_status_then_power_meter() {
    let mut r = SonnenReader::new("http://battery");
    assert_eq!(r.phase(), ReadPhase::MainStatus);
    assert_eq!(r.next_request(), Some("http://battery/api/v1/status".to_string()));
    let main = status_doc();
    assert!(r.accepts(&main));
    assert!(!r.accepts(&meter_doc()));
    r.receive(&main);
    assert_eq!(r.phase(), ReadPhase::PowerMeter);
    assert!(r.current_status().online);
    assert_eq!(r.current_status().consumption_watts, 512);
    assert_eq!(r.current_status().inverter_ac_frequency, 50);
    assert_eq!(r.current_status().grid_feed_in_watts, -120);
    assert_eq!(r.current_status().discharge_watts, -300);
    assert_eq!(r.current_status().production_watts, 1100);
    assert_eq!(r.current_status().state_of_charge_percent, 87);
    assert_eq!(r.current_status().inverter_ac_volts, 230);
    assert_eq!(r.current_status().battery_volts, 52);
    assert_eq!(r.next_request(), Some("http://battery/api/powermeter".to_string()));
    let m = meter_doc();
    assert!(r.accepts(&m));
    r.receive(&m);
    assert_eq!(r.phase(), ReadPhase::Done);
    assert_eq!(r.next_request(), None);
    assert!(!r.accepts(&m));
    let s = r.status();
    assert!(s.online);
    let prod = s.current.production.as_ref().unwrap();
    assert_eq!((prod.l1.as_str(), prod.l2.as_str(), prod.l3.as_str()), ("11.5", "12.5", "13.5"));
    let cons = s.current.consumption.as_ref().unwrap();
    assert_eq!((cons.l1.as_str(), cons.l2.as_str(), cons.l3.as_str()), ("21.5", "22.5", "23.5"));
    let vp = s.volts.production.as_ref().unwrap();
    assert_eq!((vp.l1.as_str(), vp.l2.as_str(), vp.l3.as_str()), ("230.1", "230.2", "230.3"));
    assert!(s.volts.consumption.is_some());
    assert_eq!(s.grid_frequency, "0");
    assert!(s.temperatures.hmi.is_none());
}

#[test]
fn fetch_url_appends_suffix() {
    let r = SonnenReader::new("http://10.0.0.2:8080");
    assert_eq!(r.fetch_url("/api/inverter"), "http://10.0.0.2:8080/api/inverter");
}

#[test]
fn status_doc_must_hold_every_count() {
    assert!(check_status_doc(&status_doc()));
    let missing = object(vec![("Consumption_W", int_json(1))]);
    assert!(!check_status_doc(&missing));
    assert!(!check_status_doc(&int_json(3)));
    assert!(!check_status_doc(&counts_with_fac(float("50.01"))));
    assert!(check_status_doc(&counts_with_fac(int_json(50))));
}

fn counts_with_fac(fac: Json) -> Json {
    object(vec![
        ("Consumption_W", int_json(512)),
        ("Fac", fac),
        ("GridFeedIn_W", int_json(-120)),
        ("Pac_total_W", int_json(-300)),
        ("Production_W", int_json(1100)),
        ("RSOC", int_json(87)),
        ("Uac", int_json(230)),
        ("Ubat", int_json(52)),
    ])
}

#[test]
fn meter_doc_must_hold_both_meters() {
    assert!(check_meter_doc(&meter_doc()));
    let only_prod = object(vec![("4_1", meter("1"))]);
    assert!(!check_meter_doc(&only_prod));
    let not_object = object(vec![("4_1", meter("1")), ("5_1", int_json(3))]);
    assert!(!check_meter_doc(&not_object));
    let short = object(vec![
        ("4_1", meter("1")),
        ("5_1", object(vec![("a_l1", float("1.0"))])),
    ]);
    assert!(!check_meter_doc(&short));
}

#[test]
fn inverter_doc_sets_temperatures_and_grid() {
    let doc = object(vec![(
        "status",
        object(vec![
            ("tempbdc", float("31.5")),
            ("temphmi", string("29.0")),
            ("temppu", float("35.25")),
            ("fac", float("49.98")),
            ("uac1", float("231.0")),
            ("uac2", float("232.0")),
            ("uac3", float("233.0")),
        ]),
    )]);
    assert!(check_inverter_doc(&doc));
    assert!(!check_inverter_doc(&status_doc()));
    let mut st = SonnenStatus::new();
    st.inverter(&doc);
    assert_eq!(st.temperatures.bdc.as_deref(), Some("31.5"));
    assert_eq!(st.temperatures.hmi.as_deref(), Some("29.0"));
    assert_eq!(st.temperatures.pu.as_deref(), Some("35.25"));
    assert_eq!(st.grid_frequency, "49.98");
    assert_eq!(st.grid_voltage.l2, "232.0");
    assert!(!st.online);
}


#[test]
fn integer_text_is_decimal_with_sign() {
    assert_eq!(integer_string(0), "0");
    assert_eq!(integer_string(-120), "-120");
    assert_eq!(integer_string(i64::MAX), "9223372036854775807");
    assert_eq!(integer_string(i64::MIN), "-9223372036854775808");
}

#[test]
fn text_must_fit_value() {
    assert!(int_json(-5).check_text_fits_value());
    assert!(float("230.5").check_text_fits_value());
    assert!(string("230.5").check_text_fits_value());
    assert!(status_doc().check_text_fits_value());
    assert!(Json { value: JsonValue::Null, text: "null".to_string() }.check_text_fits_value());
    assert!(Json { value: JsonValue::Bool(false), text: "false".to_string() }.check_text_fits_value());
    assert!(!Json { value: JsonValue::Number(Some(5)), text: "6".to_string() }.check_text_fits_value());
    assert!(!Json { value: JsonValue::Number(None), text: "abc".to_string() }.check_text_fits_value());
    assert!(!Json { value: JsonValue::Bool(true), text: "false".to_string() }.check_text_fits_value());
    assert!(!Json { value: JsonValue::Str("x".to_string()), text: "x".to_string() }.check_text_fits_value());
    assert!(!Json { value: JsonValue::Array(vec![]), text: "{}".to_string() }.check_text_fits_value());
}

#[test]
fn readings_must_read_as_numbers() {
    let entries = vec![
        ("a".to_string(), float("1.5")),
        ("b".to_string(), string("2.5")),
        ("c".to_string(), string("abc")),
        ("d".to_string(), Json { value: JsonValue::Bool(true), text: "true".to_string() }),
        ("e".to_string(), Json { value: JsonValue::Null, text: "null".to_string() }),
    ];
    assert!(check_numeric_member(&entries, "a"));
    assert!(check_numeric_member(&entries, "b"));
    assert!(!check_numeric_member(&entries, "c"));
    assert!(!check_numeric_member(&entries, "d"));
    assert!(!check_numeric_member(&entries, "e"));
    assert!(!check_numeric_member(&entries, "f"));
}

#[test]
fn meter_doc_with_non_numeric_reading_is_refused() {
    let bad_meter = object(vec![
        ("a_l1", float("1.5")),
        ("a_l2", string("abc")),
        ("a_l3", float("3.5")),
        ("v_l1_n", float("230.1")),
        ("v_l2_n", float("230.2")),
        ("v_l3_n", float("230.3")),
    ]);
    let doc = object(vec![("4_1", meter("1")), ("5_1", bad_meter)]);
    assert!(!check_meter_doc(&doc));
    let mut r = SonnenReader::new("http://b");
    r.receive(&status_doc());
    assert!(!r.accepts(&doc));
    assert!(r.accepts(&meter_doc()));
}

#[test]
fn inverter_doc_with_non_numeric_reading_is_refused() {
    let doc = object(vec![(
        "status",
        object(vec![
            ("tempbdc", float("31.5")),
            ("temphmi", Json { value: JsonValue::Bool(true), text: "true".to_string() }),
            ("temppu", float("35.25")),
            ("fac", float("49.98")),
            ("uac1", float("231.0")),
            ("uac2", float("232.0")),
            ("uac3", float("233.0")),
        ]),
    )]);
    assert!(!check_inverter_doc(&doc));
}


#[test]
fn decoding_models_the_document() {
    let doc = decode("{\"b\": \"2.5\", \"a\": [1, -2, 3.5e2], \"c\": null, \"d\": true}").unwrap();
    assert!(doc.check_text_fits_value());
    assert_eq!(doc.text, "{\"a\":[1,-2,350.0],\"b\":\"2.5\",\"c\":null,\"d\":true}");
    match &doc.value {
        JsonValue::Object(m) => {
            let keys: Vec<&str> = m.iter().map(|(k, _)| k.as_str()).collect();
            assert_eq!(keys, vec!["a", "b", "c", "d"]);
            match &m[0].1.value {
                JsonValue::Array(a) => {
                    assert_eq!(a.len(), 3);
                    assert_eq!(a[1].as_i64(), Some(-2));
                    assert_eq!(a[2].as_i64(), None);
                    assert_eq!(a[2].text, "350.0");
                }
                _ => panic!("not an array"),
            }
        }
        _ => panic!("not an object"),
    }
    assert_eq!(doc.field("b").unwrap().reading(), "2.5");
    assert_eq!(doc.int_field("a"), None);
}

#[test]
fn decoding_refuses_what_is_not_json() {
    assert!(decode("{\"a\": 1").is_err());
    assert!(decode("").is_err());
    assert!(!decode("nope").unwrap_err().message.is_empty());
    assert_eq!(decode("7").unwrap().as_i64(), Some(7));
}

#[test]
fn decoded_battery_documents_are_read() {
    let main = decode(
        "{\"Consumption_W\":512,\"Fac\":50,\"GridFeedIn_W\":-120,\"Pac_total_W\":-300,\
         \"Production_W\":1100,\"RSOC\":87,\"Uac\":230,\"Ubat\":52,\"Timestamp\":\"x\"}",
    )
    .unwrap();
    let meter = decode(
        "{\"4_1\":{\"a_l1\":1.5,\"a_l2\":\"2.5\",\"a_l3\":3,\"v_l1_n\":230.1,\"v_l2_n\":230.2,\"v_l3_n\":230.3},\
          \"5_1\":{\"a_l1\":0.5,\"a_l2\":0.0,\"a_l3\":1e3,\"v_l1_n\":229,\"v_l2_n\":229,\"v_l3_n\":229}}",
    )
    .unwrap();
    let mut r = SonnenReader::new("http://b");
    assert!(r.accepts(&main));
    r.receive(&main);
    assert!(r.accepts(&meter));
    r.receive(&meter);
    let s = r.status();
    assert_eq!(s.production_watts, 1100);
    let p = s.current.production.as_ref().unwrap();
    assert_eq!((p.l1.as_str(), p.l2.as_str(), p.l3.as_str()), ("1.5", "2.5", "3"));
    let c = s.current.consumption.as_ref().unwrap();
    assert_eq!(c.l3.parse::<f64>().unwrap(), 1000.0);
}
