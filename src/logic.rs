use vstd::prelude::*;

use crate::atis::{atis_of, get_atis, AtisReport, NO_ATIS};
use crate::error::FetchError;
use crate::json::{json_member, json_string_member, member_text, string_member_value};

verus! {

/// Start of the flight-plan query, before the account name.
pub const FLIGHT_PLAN_ENDPOINT: &'static str = "https://www.simbrief.com/api/xml.fetcher.php?username=";

/// End of the flight-plan query, after the account name.
pub const FLIGHT_PLAN_SUFFIX: &'static str = "&json=1";

/// Start of the METAR query, before the airport code.
pub const METAR_ENDPOINT: &'static str = "https://avwx.rest/api/metar/";

/// Between the airport code and the key in the METAR query.
pub const TOKEN_PARAM: &'static str = "?token=";

/// Start of the ATIS query, before the airport code.
pub const ATIS_ENDPOINT: &'static str = "https://api.t538.net/vatsim/atis/";

/// Members of the flight plan that name the two airports, and of each airport
/// the member with its code.
pub const ORIGIN_FIELD: &'static str = "origin";

pub const DESTINATION_FIELD: &'static str = "destination";

pub const ICAO_FIELD: &'static str = "icao_code";

/// Members of the METAR answer that the report shows.
pub const RAW_FIELD: &'static str = "raw";

pub const RULES_FIELD: &'static str = "flight_rules";

/// Pieces of the report template.
pub const ICAO_LABEL: &'static str = "ICAO: ";

pub const ATIS_LABEL: &'static str = "\n\nVatsim ATIS: ";

pub const METAR_LABEL: &'static str = "\nMETAR: ";

pub const RULES_LABEL: &'static str = "\nFlight rules: ";

pub const NEWLINE: &'static str = "\n";

/// Between the time stamp and the message of a log record.
pub const LOG_SEPARATOR: &'static str = ": ";

/// The raw text and the flight-rules category of one METAR.
pub struct WeatherReport {
    pub raw: String,
    pub flight_rules: String,
}

impl View for WeatherReport {
    type V = (Seq<char>, Seq<char>);

    open spec fn view(&self) -> (Seq<char>, Seq<char>) {
        (self.raw@, self.flight_rules@)
    }
}

pub open spec fn flight_plan_uri_of(name: Seq<char>) -> Seq<char> {
    FLIGHT_PLAN_ENDPOINT@ + name + FLIGHT_PLAN_SUFFIX@
}

pub open spec fn metar_uri_of(icao: Seq<char>, key: Seq<char>) -> Seq<char> {
    METAR_ENDPOINT@ + icao + TOKEN_PARAM@ + key
}

pub open spec fn atis_uri_of(icao: Seq<char>) -> Seq<char> {
    ATIS_ENDPOINT@ + icao
}

/// An airport code as the flight plan renders it, without its quotes; empty
/// where the rendering is too short to hold a code.
pub open spec fn trimmed_icao(s: Seq<char>) -> Seq<char> {
    if s.len() > 5 {
        s.subrange(1, s.len() - 1)
    } else {
        Seq::empty()
    }
}

/// The code of the airport under member `side` of the flight plan `answer`:
/// the string member `icao_code` of that airport, of at least four characters.
pub open spec fn airport_code(answer: Seq<char>, side: Seq<char>) -> Option<Seq<char>> {
    match json_member(answer, side) {
        None => None,
        Some(airport) => match json_string_member(airport, ICAO_FIELD@) {
            None => None,
            Some(code) => if code.len() >= 4 {
                Some(code)
            } else {
                None
            },
        },
    }
}

/// The departure and arrival codes of the flight plan `answer`.
pub open spec fn airport_pair_of(answer: Seq<char>) -> Result<(Seq<char>, Seq<char>), FetchError> {
    match (airport_code(answer, ORIGIN_FIELD@), airport_code(answer, DESTINATION_FIELD@)) {
        (Some(departure), Some(arrival)) => Ok((departure, arrival)),
        _ => Err(FetchError::UpstreamFormat),
    }
}

/// The raw text and flight rules of the METAR answer `answer`.
pub open spec fn weather_of(answer: Seq<char>) -> Result<(Seq<char>, Seq<char>), FetchError> {
    match (json_string_member(answer, RAW_FIELD@), json_string_member(answer, RULES_FIELD@)) {
        (Some(raw), Some(rules)) => Ok((raw, rules)),
        _ => Err(FetchError::UpstreamFormat),
    }
}

/// Lines joined with a newline between each two.
pub open spec fn join_lines(lines: Seq<Seq<char>>) -> Seq<char>
    decreases lines.len(),
{
    if lines.len() == 0 {
        Seq::empty()
    } else if lines.len() == 1 {
        lines[0]
    } else {
        join_lines(lines.drop_last()) + NEWLINE@ + lines.last()
    }
}

/// The ATIS as the report shows it.
pub open spec fn atis_text(atis: Option<Seq<Seq<char>>>) -> Seq<char> {
    match atis {
        None => NO_ATIS@,
        Some(lines) => join_lines(lines),
    }
}

/// The report block of one airport.
pub open spec fn report_text(
    code: Seq<char>,
    atis: Option<Seq<Seq<char>>>,
    raw: Seq<char>,
    rules: Seq<char>,
) -> Seq<char> {
    ICAO_LABEL@ + code + ATIS_LABEL@ + atis_text(atis) + METAR_LABEL@ + raw + RULES_LABEL@ + rules
}

/// The report block of one airport, from the answers of the METAR and ATIS
/// services.
pub open spec fn block_of(
    code: Seq<char>,
    metar_answer: Seq<char>,
    atis_answer: Seq<char>,
    departure: bool,
) -> Result<Seq<char>, FetchError> {
    match weather_of(metar_answer) {
        Err(e) => Err(e),
        Ok(weather) => match atis_of(atis_answer, departure) {
            Err(e) => Err(e),
            Ok(atis) => Ok(report_text(code, atis, weather.0, weather.1)),
        },
    }
}

/// The query that fetches the flight plan of account `name`.
pub fn flight_plan_uri(name: &str) -> (r: String)
    ensures
        r@ == flight_plan_uri_of(name@),
{
    let mut uri = String::from_str(FLIGHT_PLAN_ENDPOINT);
    uri.append(name);
    uri.append(FLIGHT_PLAN_SUFFIX);
    uri
}

/// The query that fetches the METAR of airport `icao` with API key `key`.
pub fn metar_uri(icao: &str, key: &str) -> (r: String)
    ensures
        r@ == metar_uri_of(icao@, key@),
{
    let mut uri = String::from_str(METAR_ENDPOINT);
    uri.append(icao);
    uri.append(TOKEN_PARAM);
    uri.append(key);
    uri
}

/// The query that fetches the ATIS stations of airport `icao`.
pub fn atis_uri(icao: &str) -> (r: String)
    ensures
        r@ == atis_uri_of(icao@),
{
    let mut uri = String::from_str(ATIS_ENDPOINT);
    uri.append(icao);
    uri
}

/// Removes the quotes around an airport code written as a JSON string; gives
/// the empty string where the text has five characters or fewer.
pub fn trim_icao_str(s: &String) -> (r: String)
    ensures
        r@ == trimmed_icao(s@),
{
    let n = s.as_str().unicode_len();
    if n > 5 {
        String::from_str(s.as_str().substring_char(1, n - 1))
    } else {
        String::new()
    }
}

/// The code of the airport under member `side` of the flight plan `answer`.
fn airport_code_from_json(answer: &str, side: &str) -> (r: Option<String>)
    ensures
        match r {
            Some(code) => airport_code(answer@, side@) == Some(code@),
            None => airport_code(answer@, side@) is None,
        },
{
    let airport = match member_text(answer, side) {
        Some(airport) => airport,
        None => return None,
    };
    let code = match string_member_value(airport.as_str(), ICAO_FIELD) {
        Some(code) => code,
        None => return None,
    };
    if code.as_str().unicode_len() >= 4 {
        Some(code)
    } else {
        None
    }
}

/// The departure and arrival codes of the flight plan `answer`.
pub fn get_icao_from_json(answer: &str) -> (r: Result<(String, String), FetchError>)
    ensures
        match r {
            Ok((departure, arrival)) => airport_pair_of(answer@) == Ok::<
                (Seq<char>, Seq<char>),
                FetchError,
            >((departure@, arrival@)),
            Err(e) => airport_pair_of(answer@) == Err::<(Seq<char>, Seq<char>), FetchError>(e),
        },
{
    let departure = airport_code_from_json(answer, ORIGIN_FIELD);
    let arrival = airport_code_from_json(answer, DESTINATION_FIELD);
    match (departure, arrival) {
        (Some(departure), Some(arrival)) => Ok((departure, arrival)),
        _ => Err(FetchError::UpstreamFormat),
    }
}

/// The raw text and flight rules of the METAR answer `answer`.
pub fn get_metar_from_json(answer: &str) -> (r: Result<WeatherReport, FetchError>)
    ensures
        match r {
            Ok(weather) => weather_of(answer@) == Ok::<(Seq<char>, Seq<char>), FetchError>(
                weather@,
            ),
            Err(e) => weather_of(answer@) == Err::<(Seq<char>, Seq<char>), FetchError>(e),
        },
{
    let raw = string_member_value(answer, RAW_FIELD);
    let flight_rules = string_member_value(answer, RULES_FIELD);
    match (raw, flight_rules) {
        (Some(raw), Some(flight_rules)) => Ok(WeatherReport { raw, flight_rules }),
        _ => Err(FetchError::UpstreamFormat),
    }
}

/// The ATIS as the report shows it.
pub fn atis_display(atis: &AtisReport) -> (r: String)
    ensures
        r@ == atis_text(atis@),
{
    match atis {
        AtisReport::Unavailable => String::from_str(NO_ATIS),
        AtisReport::Lines(lines) => {
            let mut text = String::new();
            let mut k: usize = 0;
            while k < lines.len()
                invariant
                    k <= lines@.len(),
                    text@ == join_lines(lines@.map_values(|l: String| l@).take(k as int)),
                decreases lines@.len() - k,
            {
                let ghost views = lines@.map_values(|l: String| l@);
                proof {
                    assert(views.take(k + 1).drop_last() =~= views.take(k as int));
                    assert(views.take(k + 1).last() == lines@[k as int]@);
                }
                if k > 0 {
                    text.append(NEWLINE);
                }
                text.append(lines[k].as_str());
                proof {
                    if k == 0 {
                        assert(text@ =~= views.take(1)[0]);
                    } else {
                        assert(text@ =~= join_lines(views.take(k as int)) + NEWLINE@ + lines@[k as int]@);
                    }
                }
                k = k + 1;
            }
            proof {
                assert(lines@.map_values(|l: String| l@).take(k as int) =~= lines@.map_values(
                    |l: String| l@,
                ));
            }
            text
        },
    }
}

/// The report block of airport `code`.
pub fn format_report(code: &str, atis: &AtisReport, weather: &WeatherReport) -> (r: String)
    ensures
        r@ == report_text(code@, atis@, weather.raw@, weather.flight_rules@),
{
    let atis_lines = atis_display(atis);
    let mut text = String::from_str(ICAO_LABEL);
    text.append(code);
    text.append(ATIS_LABEL);
    text.append(atis_lines.as_str());
    text.append(METAR_LABEL);
    text.append(weather.raw.as_str());
    text.append(RULES_LABEL);
    text.append(weather.flight_rules.as_str());
    text
}

/// The report block of one airport, from the answers of the METAR and ATIS
/// services.
pub fn airport_block(code: &str, metar_answer: &str, atis_answer: &str, departure: bool) -> (r:
    Result<String, FetchError>)
    ensures
        match r {
            Ok(block) => block_of(code@, metar_answer@, atis_answer@, departure) == Ok::<
                Seq<char>,
                FetchError,
            >(block@),
            Err(e) => block_of(code@, metar_answer@, atis_answer@, departure) == Err::<
                Seq<char>,
                FetchError,
            >(e),
        },
{
    let weather = match get_metar_from_json(metar_answer) {
        Ok(weather) => weather,
        Err(e) => return Err(e),
    };
    let atis = match get_atis(atis_answer, departure) {
        Ok(atis) => atis,
        Err(e) => return Err(e),
    };
    Ok(format_report(code, &atis, &weather))
}

/// The departure and arrival blocks of the report, from the answers of the
/// METAR and ATIS services for the two airports.
pub fn update_data(
    departure_icao: &str,
    arrival_icao: &str,
    departure_metar: &str,
    arrival_metar: &str,
    departure_atis: &str,
    arrival_atis: &str,
) -> (r: Result<(String, String), FetchError>)
    ensures
        match (
            block_of(departure_icao@, departure_metar@, departure_atis@, true),
            block_of(arrival_icao@, arrival_metar@, arrival_atis@, false),
        ) {
            (Ok(d), Ok(a)) => r matches Ok((rd, ra)) && rd@ == d && ra@ == a,
            (Err(e), _) => r == Err::<(String, String), FetchError>(e),
            (Ok(_), Err(e)) => r == Err::<(String, String), FetchError>(e),
        },
{
    let departure = match airport_block(departure_icao, departure_metar, departure_atis, true) {
        Ok(block) => block,
        Err(e) => return Err(e),
    };
    let arrival = match airport_block(arrival_icao, arrival_metar, arrival_atis, false) {
        Ok(block) => block,
        Err(e) => return Err(e),
    };
    Ok((departure, arrival))
}

/// One record of the log: the time stamp, then the message.
pub fn log_entry(stamp: &str, message: &str) -> (r: String)
    ensures
        r@ == stamp@ + LOG_SEPARATOR@ + message@,
{
    let mut entry = String::from_str(stamp);
    entry.append(LOG_SEPARATOR);
    entry.append(message);
    entry
}

} // verus!
