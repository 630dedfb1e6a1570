use get_flight_data::atis::{get_atis, select_entry, split_atis_text, AtisReport};
use get_flight_data::dir_manager::{get_config_dir, get_dir, get_log_dir};
use get_flight_data::error::FetchError;
use get_flight_data::logic::{
    atis_display, atis_uri, flight_plan_uri, format_report, get_icao_from_json,
    get_metar_from_json, log_entry, metar_uri, trim_icao_str, update_data, WeatherReport,
};

const TWO_STATIONS: &str = r#"[{"callsign":"EDDF_D_ATIS","text_atis":["DEP INFO A","RWY 25C"]},{"callsign":"EDDF_A_ATIS","text_atis":["ARR INFO B"]}]"#;
const SWAPPED_STATIONS: &str = r#"[{"callsign":"EDDF_A_ATIS","text_atis":["ARR INFO B"]},{"callsign":"EDDF_D_ATIS","text_atis":["DEP INFO A"]}]"#;
const METAR: &str = r#"{"raw":"EDDB 251820Z AUTO 24010KT 9999 Q1005 NOSIG","flight_rules":"VFR"}"#;

fn lines(report: AtisReport) -> Vec<String> {
    match report {
        AtisReport::Lines(lines) => lines,
        AtisReport::Unavailable => panic!("expected ATIS lines"),
    }
}

#[test]
fn dirs_end_with_separator() {
    assert_eq!(get_dir("data"), "data/");
    assert_eq!(get_dir(""), "/");
    assert_eq!(get_log_dir(), "logs/");
    assert_eq!(get_config_dir(), "config/");
}

#[test]
fn trim_icao_removes_quotes() {
    assert_eq!(trim_icao_str(&"\"EDDB\"".to_string()), "EDDB");
    assert_eq!(trim_icao_str(&"\"EDD\"".to_string()), "");
    assert_eq!(trim_icao_str(&"null".to_string()), "");
}

#[test]
fn flight_plan_gives_airport_pair() {
    let answer = r#"{"origin":{"icao_code":"EDDB","name":"Berlin"},"destination":{"icao_code":"EHAM"}}"#;
    let (departure, arrival) = get_icao_from_json(answer).unwrap();
    assert_eq!(departure, "EDDB");
    assert_eq!(arrival, "EHAM");
}

#[test]
fn flight_plan_scenario() {
    let answer = "{\"origin\":{\"icao_code\":\"EDDB\"},\"destination\":{\"icao_code\":\"EHAM\"}}";
    let (departure, arrival) = get_icao_from_json(answer).unwrap();
    assert_eq!((departure.as_str(), arrival.as_str()), ("EDDB", "EHAM"));
}

#[test]
fn flight_plan_errors() {
    assert_eq!(get_icao_from_json("not json"), Err(FetchError::UpstreamFormat));
    assert_eq!(
        get_icao_from_json(r#"{"origin":{"icao_code":"EDDB"}}"#),
        Err(FetchError::UpstreamFormat)
    );
    assert_eq!(
        get_icao_from_json(r#"{"origin":{"icao_code":"ED"},"destination":{"icao_code":"EHAM"}}"#),
        Err(FetchError::UpstreamFormat)
    );
    assert_eq!(
        get_icao_from_json(r#"{"origin":{"icao_code":null},"destination":{"icao_code":"EHAM"}}"#),
        Err(FetchError::UpstreamFormat)
    );
}

#[test]
fn metar_fields_are_read() {
    let weather = get_metar_from_json(METAR).unwrap();
    assert_eq!(weather.raw, "EDDB 251820Z AUTO 24010KT 9999 Q1005 NOSIG");
    assert_eq!(weather.flight_rules, "VFR");
}

#[test]
fn metar_errors() {
    assert_eq!(get_metar_from_json("{").err(), Some(FetchError::UpstreamFormat));
    assert_eq!(
        get_metar_from_json(r#"{"raw":"EDDB 251820Z"}"#).err(),
        Some(FetchError::UpstreamFormat)
    );
}

#[test]
fn empty_answer_is_unavailable() {
    assert!(matches!(get_atis("[]", true), Ok(AtisReport::Unavailable)));
    assert!(matches!(get_atis("[]", false), Ok(AtisReport::Unavailable)));
}

#[test]
fn two_stations_picked_by_marker() {
    assert_eq!(lines(get_atis(TWO_STATIONS, true).unwrap()), vec!["DEP INFO A", "RWY 25C"]);
    assert_eq!(lines(get_atis(TWO_STATIONS, false).unwrap()), vec!["ARR INFO B"]);
    assert_eq!(lines(get_atis(SWAPPED_STATIONS, true).unwrap()), vec!["DEP INFO A"]);
    assert_eq!(lines(get_atis(SWAPPED_STATIONS, false).unwrap()), vec!["ARR INFO B"]);
}

#[test]
fn two_stations_without_marker_violate_protocol() {
    let answer = r#"[{"callsign":"EDDF_ATIS","text_atis":["A"]},{"callsign":"EDDF_A_ATIS","text_atis":["B"]}]"#;
    assert_eq!(get_atis(answer, true).err(), Some(FetchError::ProtocolViolation));
    let answer = r#"[{"callsign":"EDDF_ATIS","text_atis":["A"]},{"callsign":"EDDF_D_ATIS","text_atis":["B"]}]"#;
    assert_eq!(get_atis(answer, false).err(), Some(FetchError::ProtocolViolation));
}

#[test]
fn single_station_is_used_for_both() {
    let answer = r#"[{"callsign":"EDDB_ATIS","text_atis":["EDDB INFO C","QNH 1005"]}]"#;
    assert_eq!(lines(get_atis(answer, true).unwrap()), vec!["EDDB INFO C", "QNH 1005"]);
    assert_eq!(lines(get_atis(answer, false).unwrap()), vec!["EDDB INFO C", "QNH 1005"]);
}

#[test]
fn malformed_atis_answers() {
    assert_eq!(get_atis("[ ]", true).err(), Some(FetchError::UpstreamFormat));
    assert_eq!(get_atis("garbage", true).err(), Some(FetchError::UpstreamFormat));
    assert_eq!(
        get_atis(r#"[{"callsign":"EDDB_ATIS"}]"#, true).err(),
        Some(FetchError::UpstreamFormat)
    );
}

#[test]
fn atis_text_is_split_into_lines() {
    assert_eq!(split_atis_text(r#"["a","bc"]"#).unwrap(), vec!["a", "bc"]);
    assert_eq!(split_atis_text("[]").unwrap(), Vec::<String>::new());
    assert_eq!(split_atis_text("x"), None);
    assert_eq!(split_atis_text(r#"["a",]"#), None);
}

#[test]
fn entry_selection_order() {
    let d = Some("X_D_ATIS".to_string());
    let a = Some("X_A_ATIS".to_string());
    assert_eq!(select_entry(true, &d, &a), Ok(0));
    assert_eq!(select_entry(false, &d, &a), Ok(1));
    assert_eq!(select_entry(true, &None, &d), Ok(1));
    assert_eq!(select_entry(false, &d, &None), Err(FetchError::ProtocolViolation));
}

#[test]
fn report_template_is_filled_in_order() {
    let atis = AtisReport::Lines(vec!["Information ALPHA".to_string()]);
    let weather = WeatherReport {
        raw: "EDDB 251820Z ...".to_string(),
        flight_rules: "VFR".to_string(),
    };
    assert_eq!(
        format_report("EDDB", &atis, &weather),
        "ICAO: EDDB\n\nVatsim ATIS: Information ALPHA\nMETAR: EDDB 251820Z ...\nFlight rules: VFR"
    );
}

#[test]
fn atis_display_joins_lines() {
    assert_eq!(atis_display(&AtisReport::Unavailable), "No vatsim ATIS available");
    let atis = AtisReport::Lines(vec!["a".to_string(), "b".to_string(), "c".to_string()]);
    assert_eq!(atis_display(&atis), "a\nb\nc");
    assert_eq!(atis_display(&AtisReport::Lines(Vec::new())), "");
}

#[test]
fn update_data_builds_both_blocks() {
    let arr_metar = r#"{"raw":"EHAM 251825Z 27015KT CAVOK","flight_rules":"VFR"}"#;
    let (dep, arr) = update_data("EDDB", "EHAM", METAR, arr_metar, "[]", TWO_STATIONS).unwrap();
    assert_eq!(
        dep,
        "ICAO: EDDB\n\nVatsim ATIS: No vatsim ATIS available\nMETAR: EDDB 251820Z AUTO 24010KT 9999 Q1005 NOSIG\nFlight rules: VFR"
    );
    assert_eq!(
        arr,
        "ICAO: EHAM\n\nVatsim ATIS: ARR INFO B\nMETAR: EHAM 251825Z 27015KT CAVOK\nFlight rules: VFR"
    );
    assert_eq!(
        update_data("EDDB", "EHAM", "x", arr_metar, "[]", "[]"),
        Err(FetchError::UpstreamFormat)
    );
}

#[test]
fn queries_are_built() {
    assert_eq!(
        flight_plan_uri("pilot"),
        "https://www.simbrief.com/api/xml.fetcher.php?username=pilot&json=1"
    );
    assert_eq!(metar_uri("EDDB", "k3y"), "https://avwx.rest/api/metar/EDDB?token=k3y");
    assert_eq!(atis_uri("EHAM"), "https://api.t538.net/vatsim/atis/EHAM");
}

#[test]
fn log_entry_format() {
    assert_eq!(log_entry("[2024-01-02][03:04:05]", "Got METAR"), "[2024-01-02][03:04:05]: Got METAR");
}

#[test]
fn metar_members_must_be_strings() {
    assert_eq!(
        get_metar_from_json(r#"{"raw":null,"flight_rules":"VFR"}"#).err(),
        Some(FetchError::UpstreamFormat)
    );
    assert_eq!(
        get_metar_from_json(r#"{"raw":"EDDB 251820Z","flight_rules":12345}"#).err(),
        Some(FetchError::UpstreamFormat)
    );
    assert_eq!(
        update_data("EDDB", "EHAM", r#"{"raw":null,"flight_rules":"VFR"}"#, METAR, "[]", "[]"),
        Err(FetchError::UpstreamFormat)
    );
}

#[test]
fn metar_strings_are_decoded() {
    let weather = get_metar_from_json(r#"{"raw":"a\\b \"q\"","flight_rules":"VFR"}"#).unwrap();
    assert_eq!(weather.raw, "a\\b \"q\"");
    assert_eq!(weather.flight_rules, "VFR");
}

#[test]
fn icao_code_must_be_a_string() {
    assert_eq!(
        get_icao_from_json(r#"{"origin":{"icao_code":123456},"destination":{"icao_code":"EHAM"}}"#),
        Err(FetchError::UpstreamFormat)
    );
    assert_eq!(
        get_icao_from_json(r#"{"origin":{"icao_code":["EDDB"]},"destination":{"icao_code":"EHAM"}}"#),
        Err(FetchError::UpstreamFormat)
    );
}
