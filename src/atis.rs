use vstd::prelude::*;

use crate::error::FetchError;
use crate::json::{element_text, json_element, json_member, member_text, text_view};
use crate::text::{
    contains, contains_text, same_text, split_at_commas, split_commas, strip_ends,
    strip_ends_text,
};

verus! {

/// The answer of the ATIS service when it knows no station for the airport.
pub const EMPTY_ANSWER: &'static str = "[]";

/// Part of the callsign of a departure ATIS station.
pub const DEPARTURE_MARKER: &'static str = "_D_ATIS";

/// Part of the callsign of an arrival ATIS station.
pub const ARRIVAL_MARKER: &'static str = "_A_ATIS";

/// Member of an ATIS entry that names the station.
pub const CALLSIGN_FIELD: &'static str = "callsign";

/// Member of an ATIS entry that holds the broadcast lines.
pub const TEXT_FIELD: &'static str = "text_atis";

/// What is shown where no ATIS is on the air.
pub const NO_ATIS: &'static str = "No vatsim ATIS available";

/// The ATIS of one airport: its lines, or the mark that none is on the air.
pub enum AtisReport {
    Unavailable,
    Lines(Vec<String>),
}

impl View for AtisReport {
    type V = Option<Seq<Seq<char>>>;

    open spec fn view(&self) -> Option<Seq<Seq<char>>> {
        match self {
            AtisReport::Unavailable => None,
            AtisReport::Lines(lines) => Some(lines@.map_values(|l: String| l@)),
        }
    }
}

/// The marker that the requested station's callsign carries.
pub open spec fn marker(departure: bool) -> Seq<char> {
    if departure {
        DEPARTURE_MARKER@
    } else {
        ARRIVAL_MARKER@
    }
}

/// Which of two entries, given their callsigns, is the requested station: the
/// first if it carries the marker, else the second if it does.
pub open spec fn pick_index(
    departure: bool,
    first: Option<Seq<char>>,
    second: Option<Seq<char>>,
) -> Option<nat> {
    if first is Some && contains(first->0, marker(departure)) {
        Some(0)
    } else if second is Some && contains(second->0, marker(departure)) {
        Some(1)
    } else {
        None
    }
}

/// Each piece without its surrounding quote characters; `None` where a piece
/// is too short to have them.
pub open spec fn unquote_all(pieces: Seq<Seq<char>>) -> Option<Seq<Seq<char>>> {
    if forall|k: int| 0 <= k < pieces.len() ==> #[trigger] pieces[k].len() >= 2 {
        Some(pieces.map_values(|p: Seq<char>| p.subrange(1, p.len() - 1)))
    } else {
        None
    }
}

/// The lines of an ATIS written as a JSON array of strings: the brackets go,
/// the rest is split at commas, and each piece loses its quotes.
pub open spec fn atis_lines(text: Seq<char>) -> Option<Seq<Seq<char>>> {
    match strip_ends(text) {
        None => None,
        Some(inner) => if inner.len() == 0 {
            Some(Seq::empty())
        } else {
            unquote_all(split_commas(inner))
        },
    }
}

/// The entry of the ATIS answer `answer` that holds the requested station.
pub open spec fn chosen_entry(answer: Seq<char>, departure: bool) -> Result<Seq<char>, FetchError> {
    match json_element(answer, 0) {
        None => Err(FetchError::UpstreamFormat),
        Some(first) => match json_element(answer, 1) {
            None => Ok(first),
            Some(second) => match pick_index(
                departure,
                json_member(first, CALLSIGN_FIELD@),
                json_member(second, CALLSIGN_FIELD@),
            ) {
                Some(i) => Ok(
                    if i == 0 {
                        first
                    } else {
                        second
                    },
                ),
                None => Err(FetchError::ProtocolViolation),
            },
        },
    }
}

/// The lines of the ATIS entry `entry`.
pub open spec fn entry_atis(entry: Seq<char>) -> Result<Option<Seq<Seq<char>>>, FetchError> {
    match json_member(entry, TEXT_FIELD@) {
        None => Err(FetchError::UpstreamFormat),
        Some(text) => match atis_lines(text) {
            None => Err(FetchError::UpstreamFormat),
            Some(lines) => Ok(Some(lines)),
        },
    }
}

/// The ATIS that the answer `answer` of the ATIS service gives for the
/// requested station: `None` for the empty answer, else the chosen entry's lines.
pub open spec fn atis_of(answer: Seq<char>, departure: bool) -> Result<
    Option<Seq<Seq<char>>>,
    FetchError,
> {
    if answer == EMPTY_ANSWER@ {
        Ok(None)
    } else {
        match chosen_entry(answer, departure) {
            Err(e) => Err(e),
            Ok(entry) => entry_atis(entry),
        }
    }
}

/// Picks, of two entries given by their callsigns, the one of the requested
/// station.
pub fn select_entry(departure: bool, first: &Option<String>, second: &Option<String>) -> (r:
    Result<usize, FetchError>)
    ensures
        match pick_index(departure, text_view(*first), text_view(*second)) {
            Some(i) => r == Ok::<usize, FetchError>(i as usize),
            None => r == Err::<usize, FetchError>(FetchError::ProtocolViolation),
        },
{
    let m = if departure {
        DEPARTURE_MARKER
    } else {
        ARRIVAL_MARKER
    };
    let first_matches = match first {
        Some(c) => contains_text(c.as_str(), m),
        None => false,
    };
    if first_matches {
        return Ok(0);
    }
    let second_matches = match second {
        Some(c) => contains_text(c.as_str(), m),
        None => false,
    };
    if second_matches {
        Ok(1)
    } else {
        Err(FetchError::ProtocolViolation)
    }
}

/// Splits an ATIS written as a JSON array of strings into its lines.
pub fn split_atis_text(text: &str) -> (r: Option<Vec<String>>)
    ensures
        match r {
            Some(lines) => atis_lines(text@) == Some(lines@.map_values(|l: String| l@)),
            None => atis_lines(text@) is None,
        },
{
    let inner = match strip_ends_text(text) {
        Some(inner) => inner,
        None => return None,
    };
    if inner.unicode_len() == 0 {
        let empty: Vec<String> = Vec::new();
        proof {
            assert(empty@.map_values(|l: String| l@) =~= Seq::<Seq<char>>::empty());
        }
        return Some(empty);
    }
    let pieces = split_at_commas(inner.as_str());
    let ghost spec_pieces = split_commas(inner@);
    let mut lines: Vec<String> = Vec::new();
    let mut k: usize = 0;
    while k < pieces.len()
        invariant
            strip_ends(text@) == Some(inner@),
            inner@.len() != 0,
            spec_pieces == split_commas(inner@),
            pieces@.len() == spec_pieces.len(),
            forall|j: int| 0 <= j < pieces@.len() ==> #[trigger] pieces@[j]@ == spec_pieces[j],
            k <= pieces@.len(),
            lines@.len() == k,
            forall|j: int|
                0 <= j < k ==> #[trigger] lines@[j]@ == spec_pieces[j].subrange(
                    1,
                    spec_pieces[j].len() - 1,
                ),
            forall|j: int| 0 <= j < k ==> #[trigger] spec_pieces[j].len() >= 2,
        decreases pieces@.len() - k,
    {
        match strip_ends_text(pieces[k].as_str()) {
            Some(line) => {
                lines.push(line);
            },
            None => {
                proof {
                    assert(!(spec_pieces[k as int].len() >= 2));
                    assert(unquote_all(spec_pieces) is None);
                    assert(atis_lines(text@) == unquote_all(spec_pieces));
                }
                return None;
            },
        }
        k = k + 1;
    }
    proof {
        assert(lines@.map_values(|l: String| l@) =~= spec_pieces.map_values(
            |p: Seq<char>| p.subrange(1, p.len() - 1),
        ));
    }
    Some(lines)
}

/// Finds the entry of the ATIS answer `answer` that holds the requested
/// station, as compact JSON text.
pub fn choose_entry(answer: &str, departure: bool) -> (r: Result<String, FetchError>)
    ensures
        match r {
            Ok(entry) => chosen_entry(answer@, departure) == Ok::<Seq<char>, FetchError>(entry@),
            Err(e) => chosen_entry(answer@, departure) == Err::<Seq<char>, FetchError>(e),
        },
{
    let first = match element_text(answer, 0) {
        Some(first) => first,
        None => return Err(FetchError::UpstreamFormat),
    };
    let second = match element_text(answer, 1) {
        Some(second) => second,
        None => return Ok(first),
    };
    let first_callsign = member_text(first.as_str(), CALLSIGN_FIELD);
    let second_callsign = member_text(second.as_str(), CALLSIGN_FIELD);
    match select_entry(departure, &first_callsign, &second_callsign) {
        Ok(i) => if i == 0 {
            Ok(first)
        } else {
            Ok(second)
        },
        Err(e) => Err(e),
    }
}

/// The ATIS for the departure (`departure`) or arrival station that the ATIS
/// service gave in `answer`.
pub fn get_atis(answer: &str, departure: bool) -> (r: Result<AtisReport, FetchError>)
    ensures
        match r {
            Ok(report) => atis_of(answer@, departure) == Ok::<
                Option<Seq<Seq<char>>>,
                FetchError,
            >(report@),
            Err(e) => atis_of(answer@, departure) == Err::<Option<Seq<Seq<char>>>, FetchError>(e),
        },
{
    if same_text(answer, EMPTY_ANSWER) {
        return Ok(AtisReport::Unavailable);
    }
    let entry = match choose_entry(answer, departure) {
        Ok(entry) => entry,
        Err(e) => return Err(e),
    };
    let text = match member_text(entry.as_str(), TEXT_FIELD) {
        Some(text) => text,
        None => return Err(FetchError::UpstreamFormat),
    };
    match split_atis_text(text.as_str()) {
        Some(lines) => Ok(AtisReport::Lines(lines)),
        None => Err(FetchError::UpstreamFormat),
    }
}

/// The empty answer gives the mark that no ATIS is on the air, for either
/// station.
pub proof fn lemma_empty_answer_unavailable(departure: bool)
    ensures
        atis_of(EMPTY_ANSWER@, departure) == Ok::<Option<Seq<Seq<char>>>, FetchError>(None),
{
}

/// Of two entries whose first callsign carries the departure marker and whose
/// second carries the arrival marker, the first is the departure ATIS and the
/// second the arrival ATIS. Left out: a first callsign that carries both.
pub proof fn lemma_two_entries_by_marker(
    answer: Seq<char>,
    first: Seq<char>,
    second: Seq<char>,
    first_callsign: Seq<char>,
    second_callsign: Seq<char>,
)
    requires
        answer != EMPTY_ANSWER@,
        json_element(answer, 0) == Some(first),
        json_element(answer, 1) == Some(second),
        json_member(first, CALLSIGN_FIELD@) == Some(first_callsign),
        json_member(second, CALLSIGN_FIELD@) == Some(second_callsign),
        contains(first_callsign, DEPARTURE_MARKER@),
        contains(second_callsign, ARRIVAL_MARKER@),
        !contains(first_callsign, ARRIVAL_MARKER@),
    ensures
        atis_of(answer, true) == entry_atis(first),
        atis_of(answer, false) == entry_atis(second),
{
}

/// Of two entries where neither callsign carries the requested marker, none
/// is chosen: the answer breaks the protocol.
pub proof fn lemma_no_marker_violates_protocol(
    answer: Seq<char>,
    departure: bool,
    first: Seq<char>,
    second: Seq<char>,
)
    requires
        answer != EMPTY_ANSWER@,
        json_element(answer, 0) == Some(first),
        json_element(answer, 1) == Some(second),
        !(json_member(first, CALLSIGN_FIELD@) matches Some(c) && contains(c, marker(departure))),
        !(json_member(second, CALLSIGN_FIELD@) matches Some(c) && contains(c, marker(departure))),
    ensures
        atis_of(answer, departure) == Err::<Option<Seq<Seq<char>>>, FetchError>(
            FetchError::ProtocolViolation,
        ),
{
}

} // verus!
