//! The data feed as the live VATSIM API renders it: facility and rating
//! fields carry numeric IDs where this crate's types write short codes.

use vstd::prelude::*;

use crate::text::{chars_eq_str, chars_of};
use crate::types::{ControllerRating, Facility, MilitaryRating, PilotRating};

verus! {

/// The data feed ID of a short code, for one of the fields that carry one:
/// `facility`, `rating`, `pilot_rating` and `military_rating`. An unknown
/// field or an unrecognized code has none.
pub open spec fn id_for_spec(field: Seq<char>, code: Seq<char>) -> Option<i8> {
    if field == "facility"@ {
        match Facility::parse_spec(code) {
            Ok(v) => Some(v.id()),
            Err(_) => None,
        }
    } else if field == "rating"@ {
        match ControllerRating::parse_spec(code) {
            Ok(v) => Some(v.id()),
            Err(_) => None,
        }
    } else if field == "pilot_rating"@ {
        match PilotRating::parse_spec(code) {
            Ok(v) => Some(v.id()),
            Err(_) => None,
        }
    } else if field == "military_rating"@ {
        match MilitaryRating::parse_spec(code) {
            Ok(v) => Some(v.id()),
            Err(_) => None,
        }
    } else {
        None
    }
}

/// Maps a short string code back to its data feed ID, for one known field.
///
/// Returns [`None`] for an unrecognized code, which leaves the string in place
/// rather than inventing an ID.
pub fn id_for(field: &str, code: &str) -> (r: Option<i8>)
    ensures
        r == id_for_spec(field@, code@),
{
    let f = chars_of(field);
    if chars_eq_str(&f, "facility") {
        match Facility::from_text(code) {
            Ok(v) => Some(v.as_id()),
            Err(_) => None,
        }
    } else if chars_eq_str(&f, "rating") {
        match ControllerRating::from_text(code) {
            Ok(v) => Some(v.as_id()),
            Err(_) => None,
        }
    } else if chars_eq_str(&f, "pilot_rating") {
        match PilotRating::from_text(code) {
            Ok(v) => Some(v.as_id()),
            Err(_) => None,
        }
    } else if chars_eq_str(&f, "military_rating") {
        match MilitaryRating::from_text(code) {
            Ok(v) => Some(v.as_id()),
            Err(_) => None,
        }
    } else {
        None
    }
}


/// The fields of the data feed that carry IDs, each with the collection it
/// belongs to: a controller's and an ATIS's `facility` and `rating`, and a
/// pilot's `pilot_rating` and `military_rating`.
pub open spec fn id_fields_spec() -> Seq<(Seq<char>, Seq<char>)> {
    seq![
        ("controllers"@, "facility"@),
        ("controllers"@, "rating"@),
        ("atis"@, "facility"@),
        ("atis"@, "rating"@),
        ("pilots"@, "pilot_rating"@),
        ("pilots"@, "military_rating"@),
    ]
}

/// The fields of the data feed that carry IDs, as (collection, field) pairs;
/// see [`id_fields_spec`].
pub fn id_fields() -> (r: Vec<(&'static str, &'static str)>)
    ensures
        r@.len() == id_fields_spec().len(),
        forall|i: int| 0 <= i < r@.len() ==> (#[trigger] r@[i].0@, r@[i].1@) == id_fields_spec()[i],
{
    let r = vec![
        ("controllers", "facility"),
        ("controllers", "rating"),
        ("atis", "facility"),
        ("atis", "rating"),
        ("pilots", "pilot_rating"),
        ("pilots", "military_rating"),
    ];
    r
}

/// Every code this crate writes for a facility or a rating maps to the ID of
/// the value it was written for, so rendering a feed with IDs leaves no code
/// in place.
pub proof fn lemma_written_codes_have_ids(
    f: Facility,
    c: ControllerRating,
    p: PilotRating,
    m: MilitaryRating,
)
    ensures
        id_for_spec("facility"@, f.code()) == Some(f.id()),
        id_for_spec("rating"@, c.code()) == Some(c.id()),
        id_for_spec("pilot_rating"@, p.code()) == Some(p.id()),
        id_for_spec("military_rating"@, m.code()) == Some(m.id()),
{
    Facility::lemma_code_parses(f);
    ControllerRating::lemma_code_parses(c);
    PilotRating::lemma_code_parses(p);
    MilitaryRating::lemma_code_parses(m);
    reveal_strlit("facility");
    reveal_strlit("rating");
    reveal_strlit("pilot_rating");
    reveal_strlit("military_rating");
    assert("pilot_rating"@.len() != "facility"@.len() && "pilot_rating"@.len() != "rating"@.len());
    assert("military_rating"@.len() != "facility"@.len() && "military_rating"@.len()
        != "rating"@.len() && "military_rating"@.len() != "pilot_rating"@.len());
}

} // verus!
