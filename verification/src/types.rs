//! Core types shared across VATSIM APIs: [`CertificateId`], [`Facility`],
//! [`ControllerRating`], [`PilotRating`] and [`MilitaryRating`], with their
//! string codes and data feed IDs. Endpoint-specific structs live in the
//! [`datafeed`], [`slurper`] and [`connect`] submodules.

pub mod connect;
pub mod datafeed;
pub mod order;
pub mod slurper;

use vstd::prelude::*;

use crate::error::{result_view, ParseError, ParseErrorView};
use crate::types::datafeed::{FacilityInfo, MilitaryRatingInfo, PilotRatingInfo, RatingInfo};
use crate::number::{decimal_chars, decimal_text, i8_text, int_text, parse_u32_spec};
use crate::text::{
    chars_eq_str, chars_of, lemma_split_nonempty, split, split_chars, string_of, upper_chars,
    upper_seq,
};

verus! {

/// `str::parse::<u32>` accepts an optional `+` followed by one or more ASCII
/// digits whose value fits in a `u32`, and fails on every other string.
#[verifier::external_body]
fn std_parse_u32(s: &str) -> (r: Result<u32, core::num::ParseIntError>)
    ensures
        match r {
            Ok(v) => parse_u32_spec(s@) == Some(v),
            Err(_) => parse_u32_spec(s@).is_none(),
        },
{
    s.parse::<u32>()
}

/// The error of `str::parse::<u32>`, carried through unopened.
#[verifier::external_type_specification]
#[verifier::external_body]
pub struct ExParseIntError(core::num::ParseIntError);

/// A VATSIM user's certificate ID (CID), a unique numeric identifier.
#[derive(Debug, Clone, Copy, PartialEq, Eq, Structural, Hash, Ord)]
pub struct CertificateId(u32);

impl View for CertificateId {
    type V = u32;

    closed spec fn view(&self) -> u32 {
        self.0
    }
}

impl CertificateId {
    /// A CID is its number: two CIDs with the same number are the same CID,
    /// so `CertificateId::new(c.get()) == c`, and `CertificateId::new(x) ==
    /// CertificateId::new(y)` exactly when `x == y`.
    pub proof fn lemma_number_determines(a: CertificateId, b: CertificateId)
        ensures
            (a@ == b@) <==> (a == b),
    {
    }
}

impl Default for CertificateId {
    fn default() -> (r: Self)
        ensures
            r@ == 0,
    {
        CertificateId(0)
    }
}

impl CertificateId {
    /// Creates a new [`CertificateId`] from a raw numeric ID.
    pub fn new(id: u32) -> (r: Self)
        ensures
            r@ == id,
    {
        CertificateId(id)
    }

    /// Returns the underlying numeric ID.
    pub fn get(self) -> (r: u32)
        ensures
            r == self@,
    {
        self.0
    }

    /// The decimal text of the ID, as its `Display` writes it.
    pub fn to_string(self) -> (r: String)
        ensures
            r@ == decimal_text(self@ as nat),
    {
        string_of(&decimal_chars(self.0))
    }
}

impl CertificateId {
    /// Parses a CID the way `str::parse::<u32>` reads a number: an optional
    /// `+`, then decimal digits whose value fits in a `u32`.
    pub fn from_text(s: &str) -> (r: Result<CertificateId, core::num::ParseIntError>)
        ensures
            match r {
                Ok(c) => parse_u32_spec(s@) == Some(c@),
                Err(_) => parse_u32_spec(s@) is None,
            },
    {
        match std_parse_u32(s) {
            Ok(v) => Ok(CertificateId(v)),
            Err(e) => Err(e),
        }
    }
}

impl core::str::FromStr for CertificateId {
    type Err = core::num::ParseIntError;

    /// The CID [`CertificateId::from_text`] reads.
    fn from_str(s: &str) -> (r: Result<CertificateId, core::num::ParseIntError>)
        ensures
            match r {
                Ok(c) => parse_u32_spec(s@) == Some(c@),
                Err(_) => parse_u32_spec(s@) is None,
            },
    {
        CertificateId::from_text(s)
    }
}

impl From<u32> for CertificateId {
    fn from(id: u32) -> CertificateId {
        CertificateId(id)
    }
}

impl vstd::std_specs::convert::FromSpecImpl<u32> for CertificateId {
    open spec fn obeys_from_spec() -> bool {
        true
    }

    closed spec fn from_spec(id: u32) -> CertificateId {
        CertificateId(id)
    }
}

impl From<CertificateId> for u32 {
    fn from(id: CertificateId) -> u32 {
        id.0
    }
}

impl vstd::std_specs::convert::FromSpecImpl<CertificateId> for u32 {
    open spec fn obeys_from_spec() -> bool {
        true
    }

    closed spec fn from_spec(id: CertificateId) -> u32 {
        id.0
    }
}

/// ATC facility type as used in the VATSIM data feed and callsign suffixes.
#[derive(Debug, Clone, Copy, PartialEq, Eq, Structural, Hash, PartialOrd, Ord)]
pub enum Facility {
    Observer,
    Ramp,
    ClearanceDelivery,
    Ground,
    Tower,
    Approach,
    Departure,
    Enroute,
    FlightServiceStation,
    Radio,
    TrafficFlow,
}

impl View for Facility {
    type V = Facility;

    open spec fn view(&self) -> Facility {
        *self
    }
}

impl Default for Facility {
    fn default() -> (r: Self)
        ensures
            r == Facility::Observer,
    {
        Facility::Observer
    }
}

impl Facility {
    /// The short string code of this value.
    pub open spec fn code(self) -> Seq<char> {
        match self {
            Facility::Observer => "OBS"@,
            Facility::Ramp => "RMP"@,
            Facility::ClearanceDelivery => "DEL"@,
            Facility::Ground => "GND"@,
            Facility::Tower => "TWR"@,
            Facility::Approach => "APP"@,
            Facility::Departure => "DEP"@,
            Facility::Enroute => "CTR"@,
            Facility::FlightServiceStation => "FSS"@,
            Facility::Radio => "RDO"@,
            Facility::TrafficFlow => "FMP"@,
        }
    }

    /// The numeric ID of this value in the data feed.
    pub open spec fn id(self) -> i8 {
        match self {
            Facility::Observer => 0,
            Facility::Ramp => 3,
            Facility::ClearanceDelivery => 2,
            Facility::Ground => 3,
            Facility::Tower => 4,
            Facility::Approach => 5,
            Facility::Departure => 5,
            Facility::Enroute => 6,
            Facility::FlightServiceStation => 1,
            Facility::Radio => 1,
            Facility::TrafficFlow => 0,
        }
    }

    /// The value that a data feed ID stands for.
    pub open spec fn from_id_spec(v: i8) -> Option<Facility> {
        if v == 0 {
            Some(Facility::Observer)
        } else if v == 1 {
            Some(Facility::FlightServiceStation)
        } else if v == 2 {
            Some(Facility::ClearanceDelivery)
        } else if v == 3 {
            Some(Facility::Ground)
        } else if v == 4 {
            Some(Facility::Tower)
        } else if v == 5 {
            Some(Facility::Approach)
        } else if v == 6 {
            Some(Facility::Enroute)
        } else {
            None
        }
    }

    /// The value named by an upper-cased code or name.
    pub open spec fn from_upper(u: Seq<char>) -> Option<Facility> {
        if u == "OBS"@ || u == "OBSERVER"@ {
            Some(Facility::Observer)
        } else if u == "RMP"@ || u == "RAMP"@ {
            Some(Facility::Ramp)
        } else if u == "DEL"@ || u == "DELIVERY"@ || u == "CLEARANCE DELIVERY"@ {
            Some(Facility::ClearanceDelivery)
        } else if u == "GND"@ || u == "GROUND"@ {
            Some(Facility::Ground)
        } else if u == "TWR"@ || u == "TOWER"@ {
            Some(Facility::Tower)
        } else if u == "APP"@ || u == "APPROACH"@ || u == "APPROACH/DEPARTURE"@ {
            Some(Facility::Approach)
        } else if u == "DEP"@ || u == "DEPARTURE"@ {
            Some(Facility::Departure)
        } else if u == "CTR"@ || u == "CENTER"@ || u == "CENTRE"@ || u == "ENROUTE"@ {
            Some(Facility::Enroute)
        } else if u == "FSS"@ || u == "FLIGHTSERVICESTATION"@ || u == "FLIGHT SERVICE STATION"@ {
            Some(Facility::FlightServiceStation)
        } else if u == "RDO"@ || u == "RADIO"@ {
            Some(Facility::Radio)
        } else if u == "TMU"@ || u == "TRAFFICMANAGEMENTUNIT"@ || u == "TRAFFIC MANAGEMENT UNIT"@ || u == "FMP"@ || u == "FLOWMANAGEMENTPOSITION"@ || u == "FLOW MANAGEMENT POSITION"@ || u == "TRAFFICFLOW"@ || u == "TRAFFIC FLOW"@ {
            Some(Facility::TrafficFlow)
        } else {
            None
        }
    }

    /// What parsing `s` gives: its ASCII upper-cased form is looked up
    /// among the codes and names, and an unknown one is reported upper-cased.
    pub open spec fn parse_spec(s: Seq<char>) -> Result<Facility, ParseErrorView> {
        match Facility::from_upper(upper_seq(s)) {
            Some(r) => Ok(r),
            None => Err(ParseErrorView::UnknownValue { kind: "facility"@, value: upper_seq(s) }),
        }
    }

    /// What converting a data feed ID gives: unknown IDs are reported as
    /// their decimal text.
    pub open spec fn from_id_result(v: i8) -> Result<Facility, ParseErrorView> {
        match Facility::from_id_spec(v) {
            Some(r) => Ok(r),
            None => Err(ParseErrorView::UnknownValue { kind: "facility"@, value: int_text(v as int) }),
        }
    }

    /// Returns the short string code for this value.
    pub fn as_str(self) -> (r: &'static str)
        ensures
            r@ == self.code(),
    {
        match self {
            Facility::Observer => "OBS",
            Facility::Ramp => "RMP",
            Facility::ClearanceDelivery => "DEL",
            Facility::Ground => "GND",
            Facility::Tower => "TWR",
            Facility::Approach => "APP",
            Facility::Departure => "DEP",
            Facility::Enroute => "CTR",
            Facility::FlightServiceStation => "FSS",
            Facility::Radio => "RDO",
            Facility::TrafficFlow => "FMP",
        }
    }

    /// Returns the numeric ID used in the VATSIM data feed for this value.
    pub fn as_id(self) -> (r: i8)
        ensures
            r == self.id(),
    {
        match self {
            Facility::Observer => 0,
            Facility::Ramp => 3,
            Facility::ClearanceDelivery => 2,
            Facility::Ground => 3,
            Facility::Tower => 4,
            Facility::Approach => 5,
            Facility::Departure => 5,
            Facility::Enroute => 6,
            Facility::FlightServiceStation => 1,
            Facility::Radio => 1,
            Facility::TrafficFlow => 0,
        }
    }

    /// Parses a code or name, ignoring ASCII case.
    pub fn from_text(s: &str) -> (r: Result<Facility, ParseError>)
        ensures
            result_view(r) == Facility::parse_spec(s@),
    {
        Facility::from_chars(&chars_of(s))
    }

    /// Parses a code or name given as characters, ignoring ASCII case.
    pub fn from_chars(s: &[char]) -> (r: Result<Facility, ParseError>)
        ensures
            result_view(r) == Facility::parse_spec(s@),
    {
        let u = upper_chars(s);
        if chars_eq_str(&u, "OBS") || chars_eq_str(&u, "OBSERVER") {
            Ok(Facility::Observer)
        } else if chars_eq_str(&u, "RMP") || chars_eq_str(&u, "RAMP") {
            Ok(Facility::Ramp)
        } else if chars_eq_str(&u, "DEL") || chars_eq_str(&u, "DELIVERY") || chars_eq_str(&u, "CLEARANCE DELIVERY") {
            Ok(Facility::ClearanceDelivery)
        } else if chars_eq_str(&u, "GND") || chars_eq_str(&u, "GROUND") {
            Ok(Facility::Ground)
        } else if chars_eq_str(&u, "TWR") || chars_eq_str(&u, "TOWER") {
            Ok(Facility::Tower)
        } else if chars_eq_str(&u, "APP") || chars_eq_str(&u, "APPROACH") || chars_eq_str(&u, "APPROACH/DEPARTURE") {
            Ok(Facility::Approach)
        } else if chars_eq_str(&u, "DEP") || chars_eq_str(&u, "DEPARTURE") {
            Ok(Facility::Departure)
        } else if chars_eq_str(&u, "CTR") || chars_eq_str(&u, "CENTER") || chars_eq_str(&u, "CENTRE") || chars_eq_str(&u, "ENROUTE") {
            Ok(Facility::Enroute)
        } else if chars_eq_str(&u, "FSS") || chars_eq_str(&u, "FLIGHTSERVICESTATION") || chars_eq_str(&u, "FLIGHT SERVICE STATION") {
            Ok(Facility::FlightServiceStation)
        } else if chars_eq_str(&u, "RDO") || chars_eq_str(&u, "RADIO") {
            Ok(Facility::Radio)
        } else if chars_eq_str(&u, "TMU") || chars_eq_str(&u, "TRAFFICMANAGEMENTUNIT") || chars_eq_str(&u, "TRAFFIC MANAGEMENT UNIT") || chars_eq_str(&u, "FMP") || chars_eq_str(&u, "FLOWMANAGEMENTPOSITION") || chars_eq_str(&u, "FLOW MANAGEMENT POSITION") || chars_eq_str(&u, "TRAFFICFLOW") || chars_eq_str(&u, "TRAFFIC FLOW") {
            Ok(Facility::TrafficFlow)
        } else {
            Err(ParseError::UnknownValue { kind: "facility", value: string_of(&u) })
        }
    }

    /// Converts a data feed ID.
    pub fn from_id(v: i8) -> (r: Result<Facility, ParseError>)
        ensures
            result_view(r) == Facility::from_id_result(v),
    {
        if v == 0 {
            Ok(Facility::Observer)
        } else if v == 1 {
            Ok(Facility::FlightServiceStation)
        } else if v == 2 {
            Ok(Facility::ClearanceDelivery)
        } else if v == 3 {
            Ok(Facility::Ground)
        } else if v == 4 {
            Ok(Facility::Tower)
        } else if v == 5 {
            Ok(Facility::Approach)
        } else if v == 6 {
            Ok(Facility::Enroute)
        } else {
            Err(ParseError::UnknownValue { kind: "facility", value: i8_text(v) })
        }
    }
}

impl Facility {
    /// The facility a callsign's suffix names: the part after its last `_`
    /// (the whole callsign when it has none), parsed ignoring ASCII case, or
    /// [`Facility::Observer`] when that part names no facility.
    pub open spec fn from_callsign_spec(c: Seq<char>) -> Facility {
        match Facility::from_upper(upper_seq(split(c, '_').last())) {
            Some(f) => f,
            None => Facility::Observer,
        }
    }

    /// Guesses the [`Facility`] from a callsign suffix (e.g. `"LOWW_TWR"` -> [`Facility::Tower`]).
    ///
    /// Returns [`Facility::Observer`] if the suffix is not recognized.
    pub fn from_callsign(callsign: &str) -> (r: Facility)
        ensures
            r == Facility::from_callsign_spec(callsign@),
    {
        let parts = split_chars(&chars_of(callsign), '_');
        proof {
            lemma_split_nonempty(callsign@, '_');
        }
        let last = parts.len() - 1;
        assert(parts@[last as int]@ == split(callsign@, '_').last());
        match Facility::from_chars(&parts[last]) {
            Ok(f) => f,
            Err(_) => Facility::Observer,
        }
    }

    /// The short code, as the facility's `Display` writes it.
    pub fn to_string(self) -> (r: String)
        ensures
            r@ == self.code(),
    {
        String::from_str(self.as_str())
    }
}

impl core::str::FromStr for Facility {
    type Err = ParseError;

    fn from_str(s: &str) -> (r: Result<Facility, ParseError>)
        ensures
            result_view(r) == Facility::parse_spec(s@),
    {
        Facility::from_text(s)
    }
}

impl vstd::std_specs::convert::TryFromSpecImpl<&str> for Facility {
    open spec fn obeys_try_from_spec() -> bool {
        false
    }

    open spec fn try_from_spec(v: &str) -> Result<Facility, ParseError> {
        arbitrary()
    }
}

impl TryFrom<&str> for Facility {
    type Error = ParseError;

    fn try_from(value: &str) -> (r: Result<Facility, ParseError>)
        ensures
            result_view(r) == Facility::parse_spec(value@),
    {
        Facility::from_text(value)
    }
}

impl vstd::std_specs::convert::TryFromSpecImpl<String> for Facility {
    open spec fn obeys_try_from_spec() -> bool {
        false
    }

    open spec fn try_from_spec(v: String) -> Result<Facility, ParseError> {
        arbitrary()
    }
}

impl TryFrom<String> for Facility {
    type Error = ParseError;

    fn try_from(value: String) -> (r: Result<Facility, ParseError>)
        ensures
            result_view(r) == Facility::parse_spec(value@),
    {
        Facility::from_text(value.as_str())
    }
}

impl vstd::std_specs::convert::TryFromSpecImpl<i8> for Facility {
    open spec fn obeys_try_from_spec() -> bool {
        false
    }

    open spec fn try_from_spec(v: i8) -> Result<Facility, ParseError> {
        arbitrary()
    }
}

impl TryFrom<i8> for Facility {
    type Error = ParseError;

    fn try_from(value: i8) -> (r: Result<Facility, ParseError>)
        ensures
            result_view(r) == Facility::from_id_result(value),
    {
        Facility::from_id(value)
    }
}

/// VATSIM ATC controller rating, from inactive/suspended through administrator.
#[derive(Debug, Clone, Copy, PartialEq, Eq, Structural, Hash, PartialOrd, Ord)]
pub enum ControllerRating {
    Inactive,
    Suspended,
    Observer,
    TowerTrainee,
    TowerController,
    SeniorStudent,
    EnrouteController,
    /// Not actively in use on VATSIM.
    Controller2,
    SeniorController,
    Instructor,
    /// Not actively in use on VATSIM.
    Instructor2,
    SeniorInstructor,
    Supervisor,
    Administrator,
}

impl View for ControllerRating {
    type V = ControllerRating;

    open spec fn view(&self) -> ControllerRating {
        *self
    }
}

impl Default for ControllerRating {
    fn default() -> (r: Self)
        ensures
            r == ControllerRating::Inactive,
    {
        ControllerRating::Inactive
    }
}

impl ControllerRating {
    /// The short string code of this value.
    pub open spec fn code(self) -> Seq<char> {
        match self {
            ControllerRating::Inactive => "INAC"@,
            ControllerRating::Suspended => "SUS"@,
            ControllerRating::Observer => "OBS"@,
            ControllerRating::TowerTrainee => "S1"@,
            ControllerRating::TowerController => "S2"@,
            ControllerRating::SeniorStudent => "S3"@,
            ControllerRating::EnrouteController => "C1"@,
            ControllerRating::Controller2 => "C2"@,
            ControllerRating::SeniorController => "C3"@,
            ControllerRating::Instructor => "I1"@,
            ControllerRating::Instructor2 => "I2"@,
            ControllerRating::SeniorInstructor => "I3"@,
            ControllerRating::Supervisor => "SUP"@,
            ControllerRating::Administrator => "ADM"@,
        }
    }

    /// The numeric ID of this value in the data feed.
    pub open spec fn id(self) -> i8 {
        match self {
            ControllerRating::Inactive => -1i8,
            ControllerRating::Suspended => 0,
            ControllerRating::Observer => 1,
            ControllerRating::TowerTrainee => 2,
            ControllerRating::TowerController => 3,
            ControllerRating::SeniorStudent => 4,
            ControllerRating::EnrouteController => 5,
            ControllerRating::Controller2 => 6,
            ControllerRating::SeniorController => 7,
            ControllerRating::Instructor => 8,
            ControllerRating::Instructor2 => 9,
            ControllerRating::SeniorInstructor => 10,
            ControllerRating::Supervisor => 11,
            ControllerRating::Administrator => 12,
        }
    }

    /// The value that a data feed ID stands for.
    pub open spec fn from_id_spec(v: i8) -> Option<ControllerRating> {
        if v == -1i8 {
            Some(ControllerRating::Inactive)
        } else if v == 0 {
            Some(ControllerRating::Suspended)
        } else if v == 1 {
            Some(ControllerRating::Observer)
        } else if v == 2 {
            Some(ControllerRating::TowerTrainee)
        } else if v == 3 {
            Some(ControllerRating::TowerController)
        } else if v == 4 {
            Some(ControllerRating::SeniorStudent)
        } else if v == 5 {
            Some(ControllerRating::EnrouteController)
        } else if v == 6 {
            Some(ControllerRating::Controller2)
        } else if v == 7 {
            Some(ControllerRating::SeniorController)
        } else if v == 8 {
            Some(ControllerRating::Instructor)
        } else if v == 9 {
            Some(ControllerRating::Instructor2)
        } else if v == 10 {
            Some(ControllerRating::SeniorInstructor)
        } else if v == 11 {
            Some(ControllerRating::Supervisor)
        } else if v == 12 {
            Some(ControllerRating::Administrator)
        } else {
            None
        }
    }

    /// The value named by an upper-cased code or name.
    pub open spec fn from_upper(u: Seq<char>) -> Option<ControllerRating> {
        if u == "INAC"@ || u == "INACTIVE"@ {
            Some(ControllerRating::Inactive)
        } else if u == "SUS"@ || u == "SUSPENDED"@ {
            Some(ControllerRating::Suspended)
        } else if u == "OBS"@ || u == "OBSERVER"@ {
            Some(ControllerRating::Observer)
        } else if u == "S1"@ || u == "TOWER TRAINEE"@ {
            Some(ControllerRating::TowerTrainee)
        } else if u == "S2"@ || u == "TOWER CONTROLLER"@ {
            Some(ControllerRating::TowerController)
        } else if u == "S3"@ || u == "SENIOR STUDENT"@ {
            Some(ControllerRating::SeniorStudent)
        } else if u == "C1"@ || u == "ENROUTE CONTROLLER"@ {
            Some(ControllerRating::EnrouteController)
        } else if u == "C2"@ || u == "CONTROLLER 2 (NOT IN USE)"@ {
            Some(ControllerRating::Controller2)
        } else if u == "C3"@ || u == "SENIOR CONTROLLER"@ {
            Some(ControllerRating::SeniorController)
        } else if u == "I1"@ || u == "INSTRUCTOR"@ {
            Some(ControllerRating::Instructor)
        } else if u == "I2"@ || u == "INSTRUCTOR 2 (NOT IN USE)"@ {
            Some(ControllerRating::Instructor2)
        } else if u == "I3"@ || u == "SENIOR INSTRUCTOR"@ {
            Some(ControllerRating::SeniorInstructor)
        } else if u == "SUP"@ || u == "SUPERVISOR"@ {
            Some(ControllerRating::Supervisor)
        } else if u == "ADM"@ || u == "ADMINISTRATOR"@ {
            Some(ControllerRating::Administrator)
        } else {
            None
        }
    }

    /// What parsing `s` gives: its ASCII upper-cased form is looked up
    /// among the codes and names, and an unknown one is reported upper-cased.
    pub open spec fn parse_spec(s: Seq<char>) -> Result<ControllerRating, ParseErrorView> {
        match ControllerRating::from_upper(upper_seq(s)) {
            Some(r) => Ok(r),
            None => Err(ParseErrorView::UnknownValue { kind: "controller rating"@, value: upper_seq(s) }),
        }
    }

    /// What converting a data feed ID gives: unknown IDs are reported as
    /// their decimal text.
    pub open spec fn from_id_result(v: i8) -> Result<ControllerRating, ParseErrorView> {
        match ControllerRating::from_id_spec(v) {
            Some(r) => Ok(r),
            None => Err(ParseErrorView::UnknownValue { kind: "controller rating"@, value: int_text(v as int) }),
        }
    }

    /// Returns the short string code for this value.
    pub fn as_str(self) -> (r: &'static str)
        ensures
            r@ == self.code(),
    {
        match self {
            ControllerRating::Inactive => "INAC",
            ControllerRating::Suspended => "SUS",
            ControllerRating::Observer => "OBS",
            ControllerRating::TowerTrainee => "S1",
            ControllerRating::TowerController => "S2",
            ControllerRating::SeniorStudent => "S3",
            ControllerRating::EnrouteController => "C1",
            ControllerRating::Controller2 => "C2",
            ControllerRating::SeniorController => "C3",
            ControllerRating::Instructor => "I1",
            ControllerRating::Instructor2 => "I2",
            ControllerRating::SeniorInstructor => "I3",
            ControllerRating::Supervisor => "SUP",
            ControllerRating::Administrator => "ADM",
        }
    }

    /// Returns the numeric ID used in the VATSIM data feed for this value.
    pub fn as_id(self) -> (r: i8)
        ensures
            r == self.id(),
    {
        match self {
            ControllerRating::Inactive => -1i8,
            ControllerRating::Suspended => 0,
            ControllerRating::Observer => 1,
            ControllerRating::TowerTrainee => 2,
            ControllerRating::TowerController => 3,
            ControllerRating::SeniorStudent => 4,
            ControllerRating::EnrouteController => 5,
            ControllerRating::Controller2 => 6,
            ControllerRating::SeniorController => 7,
            ControllerRating::Instructor => 8,
            ControllerRating::Instructor2 => 9,
            ControllerRating::SeniorInstructor => 10,
            ControllerRating::Supervisor => 11,
            ControllerRating::Administrator => 12,
        }
    }

    /// Parses a code or name, ignoring ASCII case.
    pub fn from_text(s: &str) -> (r: Result<ControllerRating, ParseError>)
        ensures
            result_view(r) == ControllerRating::parse_spec(s@),
    {
        ControllerRating::from_chars(&chars_of(s))
    }

    /// Parses a code or name given as characters, ignoring ASCII case.
    pub fn from_chars(s: &[char]) -> (r: Result<ControllerRating, ParseError>)
        ensures
            result_view(r) == ControllerRating::parse_spec(s@),
    {
        let u = upper_chars(s);
        if chars_eq_str(&u, "INAC") || chars_eq_str(&u, "INACTIVE") {
            Ok(ControllerRating::Inactive)
        } else if chars_eq_str(&u, "SUS") || chars_eq_str(&u, "SUSPENDED") {
            Ok(ControllerRating::Suspended)
        } else if chars_eq_str(&u, "OBS") || chars_eq_str(&u, "OBSERVER") {
            Ok(ControllerRating::Observer)
        } else if chars_eq_str(&u, "S1") || chars_eq_str(&u, "TOWER TRAINEE") {
            Ok(ControllerRating::TowerTrainee)
        } else if chars_eq_str(&u, "S2") || chars_eq_str(&u, "TOWER CONTROLLER") {
            Ok(ControllerRating::TowerController)
        } else if chars_eq_str(&u, "S3") || chars_eq_str(&u, "SENIOR STUDENT") {
            Ok(ControllerRating::SeniorStudent)
        } else if chars_eq_str(&u, "C1") || chars_eq_str(&u, "ENROUTE CONTROLLER") {
            Ok(ControllerRating::EnrouteController)
        } else if chars_eq_str(&u, "C2") || chars_eq_str(&u, "CONTROLLER 2 (NOT IN USE)") {
            Ok(ControllerRating::Controller2)
        } else if chars_eq_str(&u, "C3") || chars_eq_str(&u, "SENIOR CONTROLLER") {
            Ok(ControllerRating::SeniorController)
        } else if chars_eq_str(&u, "I1") || chars_eq_str(&u, "INSTRUCTOR") {
            Ok(ControllerRating::Instructor)
        } else if chars_eq_str(&u, "I2") || chars_eq_str(&u, "INSTRUCTOR 2 (NOT IN USE)") {
            Ok(ControllerRating::Instructor2)
        } else if chars_eq_str(&u, "I3") || chars_eq_str(&u, "SENIOR INSTRUCTOR") {
            Ok(ControllerRating::SeniorInstructor)
        } else if chars_eq_str(&u, "SUP") || chars_eq_str(&u, "SUPERVISOR") {
            Ok(ControllerRating::Supervisor)
        } else if chars_eq_str(&u, "ADM") || chars_eq_str(&u, "ADMINISTRATOR") {
            Ok(ControllerRating::Administrator)
        } else {
            Err(ParseError::UnknownValue { kind: "controller rating", value: string_of(&u) })
        }
    }

    /// Converts a data feed ID.
    pub fn from_id(v: i8) -> (r: Result<ControllerRating, ParseError>)
        ensures
            result_view(r) == ControllerRating::from_id_result(v),
    {
        if v == -1i8 {
            Ok(ControllerRating::Inactive)
        } else if v == 0 {
            Ok(ControllerRating::Suspended)
        } else if v == 1 {
            Ok(ControllerRating::Observer)
        } else if v == 2 {
            Ok(ControllerRating::TowerTrainee)
        } else if v == 3 {
            Ok(ControllerRating::TowerController)
        } else if v == 4 {
            Ok(ControllerRating::SeniorStudent)
        } else if v == 5 {
            Ok(ControllerRating::EnrouteController)
        } else if v == 6 {
            Ok(ControllerRating::Controller2)
        } else if v == 7 {
            Ok(ControllerRating::SeniorController)
        } else if v == 8 {
            Ok(ControllerRating::Instructor)
        } else if v == 9 {
            Ok(ControllerRating::Instructor2)
        } else if v == 10 {
            Ok(ControllerRating::SeniorInstructor)
        } else if v == 11 {
            Ok(ControllerRating::Supervisor)
        } else if v == 12 {
            Ok(ControllerRating::Administrator)
        } else {
            Err(ParseError::UnknownValue { kind: "controller rating", value: i8_text(v) })
        }
    }
}

impl core::str::FromStr for ControllerRating {
    type Err = ParseError;

    fn from_str(s: &str) -> (r: Result<ControllerRating, ParseError>)
        ensures
            result_view(r) == ControllerRating::parse_spec(s@),
    {
        ControllerRating::from_text(s)
    }
}

impl vstd::std_specs::convert::TryFromSpecImpl<&str> for ControllerRating {
    open spec fn obeys_try_from_spec() -> bool {
        false
    }

    open spec fn try_from_spec(v: &str) -> Result<ControllerRating, ParseError> {
        arbitrary()
    }
}

impl TryFrom<&str> for ControllerRating {
    type Error = ParseError;

    fn try_from(value: &str) -> (r: Result<ControllerRating, ParseError>)
        ensures
            result_view(r) == ControllerRating::parse_spec(value@),
    {
        ControllerRating::from_text(value)
    }
}

impl vstd::std_specs::convert::TryFromSpecImpl<String> for ControllerRating {
    open spec fn obeys_try_from_spec() -> bool {
        false
    }

    open spec fn try_from_spec(v: String) -> Result<ControllerRating, ParseError> {
        arbitrary()
    }
}

impl TryFrom<String> for ControllerRating {
    type Error = ParseError;

    fn try_from(value: String) -> (r: Result<ControllerRating, ParseError>)
        ensures
            result_view(r) == ControllerRating::parse_spec(value@),
    {
        ControllerRating::from_text(value.as_str())
    }
}

impl vstd::std_specs::convert::TryFromSpecImpl<i8> for ControllerRating {
    open spec fn obeys_try_from_spec() -> bool {
        false
    }

    open spec fn try_from_spec(v: i8) -> Result<ControllerRating, ParseError> {
        arbitrary()
    }
}

impl TryFrom<i8> for ControllerRating {
    type Error = ParseError;

    fn try_from(value: i8) -> (r: Result<ControllerRating, ParseError>)
        ensures
            result_view(r) == ControllerRating::from_id_result(value),
    {
        ControllerRating::from_id(value)
    }
}

/// VATSIM pilot rating, from basic member through flight examiner.
#[derive(Debug, Clone, Copy, PartialEq, Eq, Structural, Hash, PartialOrd, Ord)]
pub enum PilotRating {
    BasicMember,
    PrivatePilotLicense,
    InstrumentRating,
    CommercialMultiEngineLicense,
    AirlineTransportPilotLicense,
    FlightInstructor,
    FlightExaminer,
}

impl View for PilotRating {
    type V = PilotRating;

    open spec fn view(&self) -> PilotRating {
        *self
    }
}

impl Default for PilotRating {
    fn default() -> (r: Self)
        ensures
            r == PilotRating::BasicMember,
    {
        PilotRating::BasicMember
    }
}

impl PilotRating {
    /// The short string code of this value.
    pub open spec fn code(self) -> Seq<char> {
        match self {
            PilotRating::BasicMember => "NEW"@,
            PilotRating::PrivatePilotLicense => "PPL"@,
            PilotRating::InstrumentRating => "IR"@,
            PilotRating::CommercialMultiEngineLicense => "CMEL"@,
            PilotRating::AirlineTransportPilotLicense => "ATPL"@,
            PilotRating::FlightInstructor => "FI"@,
            PilotRating::FlightExaminer => "FE"@,
        }
    }

    /// The numeric ID of this value in the data feed.
    pub open spec fn id(self) -> i8 {
        match self {
            PilotRating::BasicMember => 0,
            PilotRating::PrivatePilotLicense => 1,
            PilotRating::InstrumentRating => 3,
            PilotRating::CommercialMultiEngineLicense => 7,
            PilotRating::AirlineTransportPilotLicense => 15,
            PilotRating::FlightInstructor => 31,
            PilotRating::FlightExaminer => 63,
        }
    }

    /// The value that a data feed ID stands for.
    pub open spec fn from_id_spec(v: i8) -> Option<PilotRating> {
        if v == 0 {
            Some(PilotRating::BasicMember)
        } else if v == 1 {
            Some(PilotRating::PrivatePilotLicense)
        } else if v == 3 {
            Some(PilotRating::InstrumentRating)
        } else if v == 7 {
            Some(PilotRating::CommercialMultiEngineLicense)
        } else if v == 15 {
            Some(PilotRating::AirlineTransportPilotLicense)
        } else if v == 31 {
            Some(PilotRating::FlightInstructor)
        } else if v == 63 {
            Some(PilotRating::FlightExaminer)
        } else {
            None
        }
    }

    /// The value named by an upper-cased code or name.
    pub open spec fn from_upper(u: Seq<char>) -> Option<PilotRating> {
        if u == "NEW"@ || u == "BASIC MEMBER"@ {
            Some(PilotRating::BasicMember)
        } else if u == "PPL"@ || u == "PRIVATE PILOT LICENSE"@ {
            Some(PilotRating::PrivatePilotLicense)
        } else if u == "IR"@ || u == "INSTRUMENT RATING"@ {
            Some(PilotRating::InstrumentRating)
        } else if u == "CMEL"@ || u == "COMMERCIAL MULTI-ENGINE LICENSE"@ {
            Some(PilotRating::CommercialMultiEngineLicense)
        } else if u == "ATPL"@ || u == "AIRLINE TRANSPORT PILOT LICENSE"@ {
            Some(PilotRating::AirlineTransportPilotLicense)
        } else if u == "FI"@ || u == "FLIGHT INSTRUCTOR"@ {
            Some(PilotRating::FlightInstructor)
        } else if u == "FE"@ || u == "FLIGHT EXAMINER"@ {
            Some(PilotRating::FlightExaminer)
        } else {
            None
        }
    }

    /// What parsing `s` gives: its ASCII upper-cased form is looked up
    /// among the codes and names, and an unknown one is reported upper-cased.
    pub open spec fn parse_spec(s: Seq<char>) -> Result<PilotRating, ParseErrorView> {
        match PilotRating::from_upper(upper_seq(s)) {
            Some(r) => Ok(r),
            None => Err(ParseErrorView::UnknownValue { kind: "pilot rating"@, value: upper_seq(s) }),
        }
    }

    /// What converting a data feed ID gives: unknown IDs are reported as
    /// their decimal text.
    pub open spec fn from_id_result(v: i8) -> Result<PilotRating, ParseErrorView> {
        match PilotRating::from_id_spec(v) {
            Some(r) => Ok(r),
            None => Err(ParseErrorView::UnknownValue { kind: "pilot rating"@, value: int_text(v as int) }),
        }
    }

    /// Returns the short string code for this value.
    pub fn as_str(self) -> (r: &'static str)
        ensures
            r@ == self.code(),
    {
        match self {
            PilotRating::BasicMember => "NEW",
            PilotRating::PrivatePilotLicense => "PPL",
            PilotRating::InstrumentRating => "IR",
            PilotRating::CommercialMultiEngineLicense => "CMEL",
            PilotRating::AirlineTransportPilotLicense => "ATPL",
            PilotRating::FlightInstructor => "FI",
            PilotRating::FlightExaminer => "FE",
        }
    }

    /// Returns the numeric ID used in the VATSIM data feed for this value.
    pub fn as_id(self) -> (r: i8)
        ensures
            r == self.id(),
    {
        match self {
            PilotRating::BasicMember => 0,
            PilotRating::PrivatePilotLicense => 1,
            PilotRating::InstrumentRating => 3,
            PilotRating::CommercialMultiEngineLicense => 7,
            PilotRating::AirlineTransportPilotLicense => 15,
            PilotRating::FlightInstructor => 31,
            PilotRating::FlightExaminer => 63,
        }
    }

    /// Parses a code or name, ignoring ASCII case.
    pub fn from_text(s: &str) -> (r: Result<PilotRating, ParseError>)
        ensures
            result_view(r) == PilotRating::parse_spec(s@),
    {
        PilotRating::from_chars(&chars_of(s))
    }

    /// Parses a code or name given as characters, ignoring ASCII case.
    pub fn from_chars(s: &[char]) -> (r: Result<PilotRating, ParseError>)
        ensures
            result_view(r) == PilotRating::parse_spec(s@),
    {
        let u = upper_chars(s);
        if chars_eq_str(&u, "NEW") || chars_eq_str(&u, "BASIC MEMBER") {
            Ok(PilotRating::BasicMember)
        } else if chars_eq_str(&u, "PPL") || chars_eq_str(&u, "PRIVATE PILOT LICENSE") {
            Ok(PilotRating::PrivatePilotLicense)
        } else if chars_eq_str(&u, "IR") || chars_eq_str(&u, "INSTRUMENT RATING") {
            Ok(PilotRating::InstrumentRating)
        } else if chars_eq_str(&u, "CMEL") || chars_eq_str(&u, "COMMERCIAL MULTI-ENGINE LICENSE") {
            Ok(PilotRating::CommercialMultiEngineLicense)
        } else if chars_eq_str(&u, "ATPL") || chars_eq_str(&u, "AIRLINE TRANSPORT PILOT LICENSE") {
            Ok(PilotRating::AirlineTransportPilotLicense)
        } else if chars_eq_str(&u, "FI") || chars_eq_str(&u, "FLIGHT INSTRUCTOR") {
            Ok(PilotRating::FlightInstructor)
        } else if chars_eq_str(&u, "FE") || chars_eq_str(&u, "FLIGHT EXAMINER") {
            Ok(PilotRating::FlightExaminer)
        } else {
            Err(ParseError::UnknownValue { kind: "pilot rating", value: string_of(&u) })
        }
    }

    /// Converts a data feed ID.
    pub fn from_id(v: i8) -> (r: Result<PilotRating, ParseError>)
        ensures
            result_view(r) == PilotRating::from_id_result(v),
    {
        if v == 0 {
            Ok(PilotRating::BasicMember)
        } else if v == 1 {
            Ok(PilotRating::PrivatePilotLicense)
        } else if v == 3 {
            Ok(PilotRating::InstrumentRating)
        } else if v == 7 {
            Ok(PilotRating::CommercialMultiEngineLicense)
        } else if v == 15 {
            Ok(PilotRating::AirlineTransportPilotLicense)
        } else if v == 31 {
            Ok(PilotRating::FlightInstructor)
        } else if v == 63 {
            Ok(PilotRating::FlightExaminer)
        } else {
            Err(ParseError::UnknownValue { kind: "pilot rating", value: i8_text(v) })
        }
    }
}

impl core::str::FromStr for PilotRating {
    type Err = ParseError;

    fn from_str(s: &str) -> (r: Result<PilotRating, ParseError>)
        ensures
            result_view(r) == PilotRating::parse_spec(s@),
    {
        PilotRating::from_text(s)
    }
}

impl vstd::std_specs::convert::TryFromSpecImpl<&str> for PilotRating {
    open spec fn obeys_try_from_spec() -> bool {
        false
    }

    open spec fn try_from_spec(v: &str) -> Result<PilotRating, ParseError> {
        arbitrary()
    }
}

impl TryFrom<&str> for PilotRating {
    type Error = ParseError;

    fn try_from(value: &str) -> (r: Result<PilotRating, ParseError>)
        ensures
            result_view(r) == PilotRating::parse_spec(value@),
    {
        PilotRating::from_text(value)
    }
}

impl vstd::std_specs::convert::TryFromSpecImpl<String> for PilotRating {
    open spec fn obeys_try_from_spec() -> bool {
        false
    }

    open spec fn try_from_spec(v: String) -> Result<PilotRating, ParseError> {
        arbitrary()
    }
}

impl TryFrom<String> for PilotRating {
    type Error = ParseError;

    fn try_from(value: String) -> (r: Result<PilotRating, ParseError>)
        ensures
            result_view(r) == PilotRating::parse_spec(value@),
    {
        PilotRating::from_text(value.as_str())
    }
}

impl vstd::std_specs::convert::TryFromSpecImpl<i8> for PilotRating {
    open spec fn obeys_try_from_spec() -> bool {
        false
    }

    open spec fn try_from_spec(v: i8) -> Result<PilotRating, ParseError> {
        arbitrary()
    }
}

impl TryFrom<i8> for PilotRating {
    type Error = ParseError;

    fn try_from(value: i8) -> (r: Result<PilotRating, ParseError>)
        ensures
            result_view(r) == PilotRating::from_id_result(value),
    {
        PilotRating::from_id(value)
    }
}

/// VATSIM military pilot rating.
#[derive(Debug, Clone, Copy, PartialEq, Eq, Structural, Hash, PartialOrd, Ord)]
pub enum MilitaryRating {
    NoMilitaryRating,
    MilitaryPilotLicense,
    MilitaryInstrumentRating,
    MilitaryMultiEngineRating,
    MilitaryMissionReadyPilot,
}

impl View for MilitaryRating {
    type V = MilitaryRating;

    open spec fn view(&self) -> MilitaryRating {
        *self
    }
}

impl Default for MilitaryRating {
    fn default() -> (r: Self)
        ensures
            r == MilitaryRating::NoMilitaryRating,
    {
        MilitaryRating::NoMilitaryRating
    }
}

impl MilitaryRating {
    /// The short string code of this value.
    pub open spec fn code(self) -> Seq<char> {
        match self {
            MilitaryRating::NoMilitaryRating => "M0"@,
            MilitaryRating::MilitaryPilotLicense => "M1"@,
            MilitaryRating::MilitaryInstrumentRating => "M2"@,
            MilitaryRating::MilitaryMultiEngineRating => "M3"@,
            MilitaryRating::MilitaryMissionReadyPilot => "M4"@,
        }
    }

    /// The numeric ID of this value in the data feed.
    pub open spec fn id(self) -> i8 {
        match self {
            MilitaryRating::NoMilitaryRating => 0,
            MilitaryRating::MilitaryPilotLicense => 1,
            MilitaryRating::MilitaryInstrumentRating => 3,
            MilitaryRating::MilitaryMultiEngineRating => 7,
            MilitaryRating::MilitaryMissionReadyPilot => 15,
        }
    }

    /// The value that a data feed ID stands for.
    pub open spec fn from_id_spec(v: i8) -> Option<MilitaryRating> {
        if v == 0 {
            Some(MilitaryRating::NoMilitaryRating)
        } else if v == 1 {
            Some(MilitaryRating::MilitaryPilotLicense)
        } else if v == 3 {
            Some(MilitaryRating::MilitaryInstrumentRating)
        } else if v == 7 {
            Some(MilitaryRating::MilitaryMultiEngineRating)
        } else if v == 15 {
            Some(MilitaryRating::MilitaryMissionReadyPilot)
        } else {
            None
        }
    }

    /// The value named by an upper-cased code or name.
    pub open spec fn from_upper(u: Seq<char>) -> Option<MilitaryRating> {
        if u == "M0"@ || u == "NO MILITARY RATING"@ {
            Some(MilitaryRating::NoMilitaryRating)
        } else if u == "M1"@ || u == "MILITARY PILOT LICENSE"@ {
            Some(MilitaryRating::MilitaryPilotLicense)
        } else if u == "M2"@ || u == "MILITARY INSTRUMENT RATING"@ {
            Some(MilitaryRating::MilitaryInstrumentRating)
        } else if u == "M3"@ || u == "MILITARY MULTI-ENGINE RATING"@ {
            Some(MilitaryRating::MilitaryMultiEngineRating)
        } else if u == "M4"@ || u == "MILITARY MISSION READY PILOT"@ {
            Some(MilitaryRating::MilitaryMissionReadyPilot)
        } else {
            None
        }
    }

    /// What parsing `s` gives: its ASCII upper-cased form is looked up
    /// among the codes and names, and an unknown one is reported upper-cased.
    pub open spec fn parse_spec(s: Seq<char>) -> Result<MilitaryRating, ParseErrorView> {
        match MilitaryRating::from_upper(upper_seq(s)) {
            Some(r) => Ok(r),
            None => Err(ParseErrorView::UnknownValue { kind: "military rating"@, value: upper_seq(s) }),
        }
    }

    /// What converting a data feed ID gives: unknown IDs are reported as
    /// their decimal text.
    pub open spec fn from_id_result(v: i8) -> Result<MilitaryRating, ParseErrorView> {
        match MilitaryRating::from_id_spec(v) {
            Some(r) => Ok(r),
            None => Err(ParseErrorView::UnknownValue { kind: "military rating"@, value: int_text(v as int) }),
        }
    }

    /// Returns the short string code for this value.
    pub fn as_str(self) -> (r: &'static str)
        ensures
            r@ == self.code(),
    {
        match self {
            MilitaryRating::NoMilitaryRating => "M0",
            MilitaryRating::MilitaryPilotLicense => "M1",
            MilitaryRating::MilitaryInstrumentRating => "M2",
            MilitaryRating::MilitaryMultiEngineRating => "M3",
            MilitaryRating::MilitaryMissionReadyPilot => "M4",
        }
    }

    /// Returns the numeric ID used in the VATSIM data feed for this value.
    pub fn as_id(self) -> (r: i8)
        ensures
            r == self.id(),
    {
        match self {
            MilitaryRating::NoMilitaryRating => 0,
            MilitaryRating::MilitaryPilotLicense => 1,
            MilitaryRating::MilitaryInstrumentRating => 3,
            MilitaryRating::MilitaryMultiEngineRating => 7,
            MilitaryRating::MilitaryMissionReadyPilot => 15,
        }
    }

    /// Parses a code or name, ignoring ASCII case.
    pub fn from_text(s: &str) -> (r: Result<MilitaryRating, ParseError>)
        ensures
            result_view(r) == MilitaryRating::parse_spec(s@),
    {
        MilitaryRating::from_chars(&chars_of(s))
    }

    /// Parses a code or name given as characters, ignoring ASCII case.
    pub fn from_chars(s: &[char]) -> (r: Result<MilitaryRating, ParseError>)
        ensures
            result_view(r) == MilitaryRating::parse_spec(s@),
    {
        let u = upper_chars(s);
        if chars_eq_str(&u, "M0") || chars_eq_str(&u, "NO MILITARY RATING") {
            Ok(MilitaryRating::NoMilitaryRating)
        } else if chars_eq_str(&u, "M1") || chars_eq_str(&u, "MILITARY PILOT LICENSE") {
            Ok(MilitaryRating::MilitaryPilotLicense)
        } else if chars_eq_str(&u, "M2") || chars_eq_str(&u, "MILITARY INSTRUMENT RATING") {
            Ok(MilitaryRating::MilitaryInstrumentRating)
        } else if chars_eq_str(&u, "M3") || chars_eq_str(&u, "MILITARY MULTI-ENGINE RATING") {
            Ok(MilitaryRating::MilitaryMultiEngineRating)
        } else if chars_eq_str(&u, "M4") || chars_eq_str(&u, "MILITARY MISSION READY PILOT") {
            Ok(MilitaryRating::MilitaryMissionReadyPilot)
        } else {
            Err(ParseError::UnknownValue { kind: "military rating", value: string_of(&u) })
        }
    }

    /// Converts a data feed ID.
    pub fn from_id(v: i8) -> (r: Result<MilitaryRating, ParseError>)
        ensures
            result_view(r) == MilitaryRating::from_id_result(v),
    {
        if v == 0 {
            Ok(MilitaryRating::NoMilitaryRating)
        } else if v == 1 {
            Ok(MilitaryRating::MilitaryPilotLicense)
        } else if v == 3 {
            Ok(MilitaryRating::MilitaryInstrumentRating)
        } else if v == 7 {
            Ok(MilitaryRating::MilitaryMultiEngineRating)
        } else if v == 15 {
            Ok(MilitaryRating::MilitaryMissionReadyPilot)
        } else {
            Err(ParseError::UnknownValue { kind: "military rating", value: i8_text(v) })
        }
    }
}

impl core::str::FromStr for MilitaryRating {
    type Err = ParseError;

    fn from_str(s: &str) -> (r: Result<MilitaryRating, ParseError>)
        ensures
            result_view(r) == MilitaryRating::parse_spec(s@),
    {
        MilitaryRating::from_text(s)
    }
}

impl vstd::std_specs::convert::TryFromSpecImpl<&str> for MilitaryRating {
    open spec fn obeys_try_from_spec() -> bool {
        false
    }

    open spec fn try_from_spec(v: &str) -> Result<MilitaryRating, ParseError> {
        arbitrary()
    }
}

impl TryFrom<&str> for MilitaryRating {
    type Error = ParseError;

    fn try_from(value: &str) -> (r: Result<MilitaryRating, ParseError>)
        ensures
            result_view(r) == MilitaryRating::parse_spec(value@),
    {
        MilitaryRating::from_text(value)
    }
}

impl vstd::std_specs::convert::TryFromSpecImpl<String> for MilitaryRating {
    open spec fn obeys_try_from_spec() -> bool {
        false
    }

    open spec fn try_from_spec(v: String) -> Result<MilitaryRating, ParseError> {
        arbitrary()
    }
}

impl TryFrom<String> for MilitaryRating {
    type Error = ParseError;

    fn try_from(value: String) -> (r: Result<MilitaryRating, ParseError>)
        ensures
            result_view(r) == MilitaryRating::parse_spec(value@),
    {
        MilitaryRating::from_text(value.as_str())
    }
}

impl vstd::std_specs::convert::TryFromSpecImpl<i8> for MilitaryRating {
    open spec fn obeys_try_from_spec() -> bool {
        false
    }

    open spec fn try_from_spec(v: i8) -> Result<MilitaryRating, ParseError> {
        arbitrary()
    }
}

impl TryFrom<i8> for MilitaryRating {
    type Error = ParseError;

    fn try_from(value: i8) -> (r: Result<MilitaryRating, ParseError>)
        ensures
            result_view(r) == MilitaryRating::from_id_result(value),
    {
        MilitaryRating::from_id(value)
    }
}

impl Facility {
    /// Parsing the short code of a value gives that value back.
    pub proof fn lemma_code_parses(v: Facility)
        ensures
            Facility::parse_spec(v.code()) == Ok::<Facility, ParseErrorView>(v),
    {
        match v {
            Facility::Observer => {
                reveal_strlit("OBS");
                assert(upper_seq(v.code()) =~= v.code());
            },
            Facility::Ramp => {
                reveal_strlit("RMP");
                assert(upper_seq(v.code()) =~= v.code());
                reveal_strlit("OBS");
                assert("OBS"@[0] != "RMP"@[0]);
                reveal_strlit("OBSERVER");
                assert("OBSERVER"@.len() != "RMP"@.len());
            },
            Facility::ClearanceDelivery => {
                reveal_strlit("DEL");
                assert(upper_seq(v.code()) =~= v.code());
                reveal_strlit("OBS");
                assert("OBS"@[0] != "DEL"@[0]);
                reveal_strlit("OBSERVER");
                assert("OBSERVER"@.len() != "DEL"@.len());
                reveal_strlit("RMP");
                assert("RMP"@[0] != "DEL"@[0]);
                reveal_strlit("RAMP");
                assert("RAMP"@.len() != "DEL"@.len());
            },
            Facility::Ground => {
                reveal_strlit("GND");
                assert(upper_seq(v.code()) =~= v.code());
                reveal_strlit("OBS");
                assert("OBS"@[0] != "GND"@[0]);
                reveal_strlit("OBSERVER");
                assert("OBSERVER"@.len() != "GND"@.len());
                reveal_strlit("RMP");
                assert("RMP"@[0] != "GND"@[0]);
                reveal_strlit("RAMP");
                assert("RAMP"@.len() != "GND"@.len());
                reveal_strlit("DEL");
                assert("DEL"@[0] != "GND"@[0]);
                reveal_strlit("DELIVERY");
                assert("DELIVERY"@.len() != "GND"@.len());
                reveal_strlit("CLEARANCE DELIVERY");
                assert("CLEARANCE DELIVERY"@.len() != "GND"@.len());
            },
            Facility::Tower => {
                reveal_strlit("TWR");
                assert(upper_seq(v.code()) =~= v.code());
                reveal_strlit("OBS");
                assert("OBS"@[0] != "TWR"@[0]);
                reveal_strlit("OBSERVER");
                assert("OBSERVER"@.len() != "TWR"@.len());
                reveal_strlit("RMP");
                assert("RMP"@[0] != "TWR"@[0]);
                reveal_strlit("RAMP");
                assert("RAMP"@.len() != "TWR"@.len());
                reveal_strlit("DEL");
                assert("DEL"@[0] != "TWR"@[0]);
                reveal_strlit("DELIVERY");
                assert("DELIVERY"@.len() != "TWR"@.len());
                reveal_strlit("CLEARANCE DELIVERY");
                assert("CLEARANCE DELIVERY"@.len() != "TWR"@.len());
                reveal_strlit("GND");
                assert("GND"@[0] != "TWR"@[0]);
                reveal_strlit("GROUND");
                assert("GROUND"@.len() != "TWR"@.len());
            },
            Facility::Approach => {
                reveal_strlit("APP");
                assert(upper_seq(v.code()) =~= v.code());
                reveal_strlit("OBS");
                assert("OBS"@[0] != "APP"@[0]);
                reveal_strlit("OBSERVER");
                assert("OBSERVER"@.len() != "APP"@.len());
                reveal_strlit("RMP");
                assert("RMP"@[0] != "APP"@[0]);
                reveal_strlit("RAMP");
                assert("RAMP"@.len() != "APP"@.len());
                reveal_strlit("DEL");
                assert("DEL"@[0] != "APP"@[0]);
                reveal_strlit("DELIVERY");
                assert("DELIVERY"@.len() != "APP"@.len());
                reveal_strlit("CLEARANCE DELIVERY");
                assert("CLEARANCE DELIVERY"@.len() != "APP"@.len());
                reveal_strlit("GND");
                assert("GND"@[0] != "APP"@[0]);
                reveal_strlit("GROUND");
                assert("GROUND"@.len() != "APP"@.len());
                reveal_strlit("TWR");
                assert("TWR"@[0] != "APP"@[0]);
                reveal_strlit("TOWER");
                assert("TOWER"@.len() != "APP"@.len());
            },
            Facility::Departure => {
                reveal_strlit("DEP");
                assert(upper_seq(v.code()) =~= v.code());
                reveal_strlit("OBS");
                assert("OBS"@[0] != "DEP"@[0]);
                reveal_strlit("OBSERVER");
                assert("OBSERVER"@.len() != "DEP"@.len());
                reveal_strlit("RMP");
                assert("RMP"@[0] != "DEP"@[0]);
                reveal_strlit("RAMP");
                assert("RAMP"@.len() != "DEP"@.len());
                reveal_strlit("DEL");
                assert("DEL"@[2] != "DEP"@[2]);
                reveal_strlit("DELIVERY");
                assert("DELIVERY"@.len() != "DEP"@.len());
                reveal_strlit("CLEARANCE DELIVERY");
                assert("CLEARANCE DELIVERY"@.len() != "DEP"@.len());
                reveal_strlit("GND");
                assert("GND"@[0] != "DEP"@[0]);
                reveal_strlit("GROUND");
                assert("GROUND"@.len() != "DEP"@.len());
                reveal_strlit("TWR");
                assert("TWR"@[0] != "DEP"@[0]);
                reveal_strlit("TOWER");
                assert("TOWER"@.len() != "DEP"@.len());
                reveal_strlit("APP");
                assert("APP"@[0] != "DEP"@[0]);
                reveal_strlit("APPROACH");
                assert("APPROACH"@.len() != "DEP"@.len());
                reveal_strlit("APPROACH/DEPARTURE");
                assert("APPROACH/DEPARTURE"@.len() != "DEP"@.len());
            },
            Facility::Enroute => {
                reveal_strlit("CTR");
                assert(upper_seq(v.code()) =~= v.code());
                reveal_strlit("OBS");
                assert("OBS"@[0] != "CTR"@[0]);
                reveal_strlit("OBSERVER");
                assert("OBSERVER"@.len() != "CTR"@.len());
                reveal_strlit("RMP");
                assert("RMP"@[0] != "CTR"@[0]);
                reveal_strlit("RAMP");
                assert("RAMP"@.len() != "CTR"@.len());
                reveal_strlit("DEL");
                assert("DEL"@[0] != "CTR"@[0]);
                reveal_strlit("DELIVERY");
                assert("DELIVERY"@.len() != "CTR"@.len());
                reveal_strlit("CLEARANCE DELIVERY");
                assert("CLEARANCE DELIVERY"@.len() != "CTR"@.len());
                reveal_strlit("GND");
                assert("GND"@[0] != "CTR"@[0]);
                reveal_strlit("GROUND");
                assert("GROUND"@.len() != "CTR"@.len());
                reveal_strlit("TWR");
                assert("TWR"@[0] != "CTR"@[0]);
                reveal_strlit("TOWER");
                assert("TOWER"@.len() != "CTR"@.len());
                reveal_strlit("APP");
                assert("APP"@[0] != "CTR"@[0]);
                reveal_strlit("APPROACH");
                assert("APPROACH"@.len() != "CTR"@.len());
                reveal_strlit("APPROACH/DEPARTURE");
                assert("APPROACH/DEPARTURE"@.len() != "CTR"@.len());
                reveal_strlit("DEP");
                assert("DEP"@[0] != "CTR"@[0]);
                reveal_strlit("DEPARTURE");
                assert("DEPARTURE"@.len() != "CTR"@.len());
            },
            Facility::FlightServiceStation => {
                reveal_strlit("FSS");
                assert(upper_seq(v.code()) =~= v.code());
                reveal_strlit("OBS");
                assert("OBS"@[0] != "FSS"@[0]);
                reveal_strlit("OBSERVER");
                assert("OBSERVER"@.len() != "FSS"@.len());
                reveal_strlit("RMP");
                assert("RMP"@[0] != "FSS"@[0]);
                reveal_strlit("RAMP");
                assert("RAMP"@.len() != "FSS"@.len());
                reveal_strlit("DEL");
                assert("DEL"@[0] != "FSS"@[0]);
                reveal_strlit("DELIVERY");
                assert("DELIVERY"@.len() != "FSS"@.len());
                reveal_strlit("CLEARANCE DELIVERY");
                assert("CLEARANCE DELIVERY"@.len() != "FSS"@.len());
                reveal_strlit("GND");
                assert("GND"@[0] != "FSS"@[0]);
                reveal_strlit("GROUND");
                assert("GROUND"@.len() != "FSS"@.len());
                reveal_strlit("TWR");
                assert("TWR"@[0] != "FSS"@[0]);
                reveal_strlit("TOWER");
                assert("TOWER"@.len() != "FSS"@.len());
                reveal_strlit("APP");
                assert("APP"@[0] != "FSS"@[0]);
                reveal_strlit("APPROACH");
                assert("APPROACH"@.len() != "FSS"@.len());
                reveal_strlit("APPROACH/DEPARTURE");
                assert("APPROACH/DEPARTURE"@.len() != "FSS"@.len());
                reveal_strlit("DEP");
                assert("DEP"@[0] != "FSS"@[0]);
                reveal_strlit("DEPARTURE");
                assert("DEPARTURE"@.len() != "FSS"@.len());
                reveal_strlit("CTR");
                assert("CTR"@[0] != "FSS"@[0]);
                reveal_strlit("CENTER");
                assert("CENTER"@.len() != "FSS"@.len());
                reveal_strlit("CENTRE");
                assert("CENTRE"@.len() != "FSS"@.len());
                reveal_strlit("ENROUTE");
                assert("ENROUTE"@.len() != "FSS"@.len());
            },
            Facility::Radio => {
                reveal_strlit("RDO");
                assert(upper_seq(v.code()) =~= v.code());
                reveal_strlit("OBS");
                assert("OBS"@[0] != "RDO"@[0]);
                reveal_strlit("OBSERVER");
                assert("OBSERVER"@.len() != "RDO"@.len());
                reveal_strlit("RMP");
                assert("RMP"@[1] != "RDO"@[1]);
                reveal_strlit("RAMP");
                assert("RAMP"@.len() != "RDO"@.len());
                reveal_strlit("DEL");
                assert("DEL"@[0] != "RDO"@[0]);
                reveal_strlit("DELIVERY");
                assert("DELIVERY"@.len() != "RDO"@.len());
                reveal_strlit("CLEARANCE DELIVERY");
                assert("CLEARANCE DELIVERY"@.len() != "RDO"@.len());
                reveal_strlit("GND");
                assert("GND"@[0] != "RDO"@[0]);
                reveal_strlit("GROUND");
                assert("GROUND"@.len() != "RDO"@.len());
                reveal_strlit("TWR");
                assert("TWR"@[0] != "RDO"@[0]);
                reveal_strlit("TOWER");
                assert("TOWER"@.len() != "RDO"@.len());
                reveal_strlit("APP");
                assert("APP"@[0] != "RDO"@[0]);
                reveal_strlit("APPROACH");
                assert("APPROACH"@.len() != "RDO"@.len());
                reveal_strlit("APPROACH/DEPARTURE");
                assert("APPROACH/DEPARTURE"@.len() != "RDO"@.len());
                reveal_strlit("DEP");
                assert("DEP"@[0] != "RDO"@[0]);
                reveal_strlit("DEPARTURE");
                assert("DEPARTURE"@.len() != "RDO"@.len());
                reveal_strlit("CTR");
                assert("CTR"@[0] != "RDO"@[0]);
                reveal_strlit("CENTER");
                assert("CENTER"@.len() != "RDO"@.len());
                reveal_strlit("CENTRE");
                assert("CENTRE"@.len() != "RDO"@.len());
                reveal_strlit("ENROUTE");
                assert("ENROUTE"@.len() != "RDO"@.len());
                reveal_strlit("FSS");
                assert("FSS"@[0] != "RDO"@[0]);
                reveal_strlit("FLIGHTSERVICESTATION");
                assert("FLIGHTSERVICESTATION"@.len() != "RDO"@.len());
                reveal_strlit("FLIGHT SERVICE STATION");
                assert("FLIGHT SERVICE STATION"@.len() != "RDO"@.len());
            },
            Facility::TrafficFlow => {
                reveal_strlit("FMP");
                assert(upper_seq(v.code()) =~= v.code());
                reveal_strlit("OBS");
                assert("OBS"@[0] != "FMP"@[0]);
                reveal_strlit("OBSERVER");
                assert("OBSERVER"@.len() != "FMP"@.len());
                reveal_strlit("RMP");
                assert("RMP"@[0] != "FMP"@[0]);
                reveal_strlit("RAMP");
                assert("RAMP"@.len() != "FMP"@.len());
                reveal_strlit("DEL");
                assert("DEL"@[0] != "FMP"@[0]);
                reveal_strlit("DELIVERY");
                assert("DELIVERY"@.len() != "FMP"@.len());
                reveal_strlit("CLEARANCE DELIVERY");
                assert("CLEARANCE DELIVERY"@.len() != "FMP"@.len());
                reveal_strlit("GND");
                assert("GND"@[0] != "FMP"@[0]);
                reveal_strlit("GROUND");
                assert("GROUND"@.len() != "FMP"@.len());
                reveal_strlit("TWR");
                assert("TWR"@[0] != "FMP"@[0]);
                reveal_strlit("TOWER");
                assert("TOWER"@.len() != "FMP"@.len());
                reveal_strlit("APP");
                assert("APP"@[0] != "FMP"@[0]);
                reveal_strlit("APPROACH");
                assert("APPROACH"@.len() != "FMP"@.len());
                reveal_strlit("APPROACH/DEPARTURE");
                assert("APPROACH/DEPARTURE"@.len() != "FMP"@.len());
                reveal_strlit("DEP");
                assert("DEP"@[0] != "FMP"@[0]);
                reveal_strlit("DEPARTURE");
                assert("DEPARTURE"@.len() != "FMP"@.len());
                reveal_strlit("CTR");
                assert("CTR"@[0] != "FMP"@[0]);
                reveal_strlit("CENTER");
                assert("CENTER"@.len() != "FMP"@.len());
                reveal_strlit("CENTRE");
                assert("CENTRE"@.len() != "FMP"@.len());
                reveal_strlit("ENROUTE");
                assert("ENROUTE"@.len() != "FMP"@.len());
                reveal_strlit("FSS");
                assert("FSS"@[1] != "FMP"@[1]);
                reveal_strlit("FLIGHTSERVICESTATION");
                assert("FLIGHTSERVICESTATION"@.len() != "FMP"@.len());
                reveal_strlit("FLIGHT SERVICE STATION");
                assert("FLIGHT SERVICE STATION"@.len() != "FMP"@.len());
                reveal_strlit("RDO");
                assert("RDO"@[0] != "FMP"@[0]);
                reveal_strlit("RADIO");
                assert("RADIO"@.len() != "FMP"@.len());
            },
        }
    }

    /// Every value has a data feed ID that converts to a value, and every
    /// known ID is the ID of the value it stands for.
    pub proof fn lemma_id_roundtrip(v: Facility, i: i8)
        ensures
            Facility::from_id_spec(v.id()) is Some,
            Facility::from_id_spec(i) matches Some(w) ==> w.id() == i,
    {
    }

    /// The data feed ID of each facility, by its code: OBS 0, RMP 3, DEL 2, GND
    /// 3, TWR 4, APP 5, DEP 5, CTR 6, FSS 1, RDO 1, FMP 0. Converting an ID
    /// gives a value with that ID (0 gives OBS, 1 gives FSS, 2 gives DEL, 3
    /// gives GND, 4 gives TWR, 5 gives APP, 6 gives CTR), and no other ID
    /// converts.
    pub proof fn lemma_id_table(v: i8)
        ensures
            Facility::parse_spec("OBS"@) matches Ok(w) && w.id() == 0,
            Facility::parse_spec("RMP"@) matches Ok(w) && w.id() == 3,
            Facility::parse_spec("DEL"@) matches Ok(w) && w.id() == 2,
            Facility::parse_spec("GND"@) matches Ok(w) && w.id() == 3,
            Facility::parse_spec("TWR"@) matches Ok(w) && w.id() == 4,
            Facility::parse_spec("APP"@) matches Ok(w) && w.id() == 5,
            Facility::parse_spec("DEP"@) matches Ok(w) && w.id() == 5,
            Facility::parse_spec("CTR"@) matches Ok(w) && w.id() == 6,
            Facility::parse_spec("FSS"@) matches Ok(w) && w.id() == 1,
            Facility::parse_spec("RDO"@) matches Ok(w) && w.id() == 1,
            Facility::parse_spec("FMP"@) matches Ok(w) && w.id() == 0,
            Facility::from_id_spec(0) matches Some(w) && w.code() == "OBS"@,
            Facility::from_id_spec(1) matches Some(w) && w.code() == "FSS"@,
            Facility::from_id_spec(2) matches Some(w) && w.code() == "DEL"@,
            Facility::from_id_spec(3) matches Some(w) && w.code() == "GND"@,
            Facility::from_id_spec(4) matches Some(w) && w.code() == "TWR"@,
            Facility::from_id_spec(5) matches Some(w) && w.code() == "APP"@,
            Facility::from_id_spec(6) matches Some(w) && w.code() == "CTR"@,
            Facility::from_id_spec(v) matches Some(w) ==> w.id() == v,
            Facility::from_id_spec(v) is Some <==> (v == 0 || v == 1 || v == 2 || v == 3 || v == 4 || v == 5 || v == 6),
    {
        Facility::lemma_code_parses(Facility::Observer);
        Facility::lemma_code_parses(Facility::Ramp);
        Facility::lemma_code_parses(Facility::ClearanceDelivery);
        Facility::lemma_code_parses(Facility::Ground);
        Facility::lemma_code_parses(Facility::Tower);
        Facility::lemma_code_parses(Facility::Approach);
        Facility::lemma_code_parses(Facility::Departure);
        Facility::lemma_code_parses(Facility::Enroute);
        Facility::lemma_code_parses(Facility::FlightServiceStation);
        Facility::lemma_code_parses(Facility::Radio);
        Facility::lemma_code_parses(Facility::TrafficFlow);
    }
}

impl ControllerRating {
    /// Parsing the short code of a value gives that value back.
    pub proof fn lemma_code_parses(v: ControllerRating)
        ensures
            ControllerRating::parse_spec(v.code()) == Ok::<ControllerRating, ParseErrorView>(v),
    {
        match v {
            ControllerRating::Inactive => {
                reveal_strlit("INAC");
                assert(upper_seq(v.code()) =~= v.code());
            },
            ControllerRating::Suspended => {
                reveal_strlit("SUS");
                assert(upper_seq(v.code()) =~= v.code());
                reveal_strlit("INAC");
                assert("INAC"@.len() != "SUS"@.len());
                reveal_strlit("INACTIVE");
                assert("INACTIVE"@.len() != "SUS"@.len());
            },
            ControllerRating::Observer => {
                reveal_strlit("OBS");
                assert(upper_seq(v.code()) =~= v.code());
                reveal_strlit("INAC");
                assert("INAC"@.len() != "OBS"@.len());
                reveal_strlit("INACTIVE");
                assert("INACTIVE"@.len() != "OBS"@.len());
                reveal_strlit("SUS");
                assert("SUS"@[0] != "OBS"@[0]);
                reveal_strlit("SUSPENDED");
                assert("SUSPENDED"@.len() != "OBS"@.len());
            },
            ControllerRating::TowerTrainee => {
                reveal_strlit("S1");
                assert(upper_seq(v.code()) =~= v.code());
                reveal_strlit("INAC");
                assert("INAC"@.len() != "S1"@.len());
                reveal_strlit("INACTIVE");
                assert("INACTIVE"@.len() != "S1"@.len());
                reveal_strlit("SUS");
                assert("SUS"@.len() != "S1"@.len());
                reveal_strlit("SUSPENDED");
                assert("SUSPENDED"@.len() != "S1"@.len());
                reveal_strlit("OBS");
                assert("OBS"@.len() != "S1"@.len());
                reveal_strlit("OBSERVER");
                assert("OBSERVER"@.len() != "S1"@.len());
            },
            ControllerRating::TowerController => {
                reveal_strlit("S2");
                assert(upper_seq(v.code()) =~= v.code());
                reveal_strlit("INAC");
                assert("INAC"@.len() != "S2"@.len());
                reveal_strlit("INACTIVE");
                assert("INACTIVE"@.len() != "S2"@.len());
                reveal_strlit("SUS");
                assert("SUS"@.len() != "S2"@.len());
                reveal_strlit("SUSPENDED");
                assert("SUSPENDED"@.len() != "S2"@.len());
                reveal_strlit("OBS");
                assert("OBS"@.len() != "S2"@.len());
                reveal_strlit("OBSERVER");
                assert("OBSERVER"@.len() != "S2"@.len());
                reveal_strlit("S1");
                assert("S1"@[1] != "S2"@[1]);
                reveal_strlit("TOWER TRAINEE");
                assert("TOWER TRAINEE"@.len() != "S2"@.len());
            },
            ControllerRating::SeniorStudent => {
                reveal_strlit("S3");
                assert(upper_seq(v.code()) =~= v.code());
                reveal_strlit("INAC");
                assert("INAC"@.len() != "S3"@.len());
                reveal_strlit("INACTIVE");
                assert("INACTIVE"@.len() != "S3"@.len());
                reveal_strlit("SUS");
                assert("SUS"@.len() != "S3"@.len());
                reveal_strlit("SUSPENDED");
                assert("SUSPENDED"@.len() != "S3"@.len());
                reveal_strlit("OBS");
                assert("OBS"@.len() != "S3"@.len());
                reveal_strlit("OBSERVER");
                assert("OBSERVER"@.len() != "S3"@.len());
                reveal_strlit("S1");
                assert("S1"@[1] != "S3"@[1]);
                reveal_strlit("TOWER TRAINEE");
                assert("TOWER TRAINEE"@.len() != "S3"@.len());
                reveal_strlit("S2");
                assert("S2"@[1] != "S3"@[1]);
                reveal_strlit("TOWER CONTROLLER");
                assert("TOWER CONTROLLER"@.len() != "S3"@.len());
            },
            ControllerRating::EnrouteController => {
                reveal_strlit("C1");
                assert(upper_seq(v.code()) =~= v.code());
                reveal_strlit("INAC");
                assert("INAC"@.len() != "C1"@.len());
                reveal_strlit("INACTIVE");
                assert("INACTIVE"@.len() != "C1"@.len());
                reveal_strlit("SUS");
                assert("SUS"@.len() != "C1"@.len());
                reveal_strlit("SUSPENDED");
                assert("SUSPENDED"@.len() != "C1"@.len());
                reveal_strlit("OBS");
                assert("OBS"@.len() != "C1"@.len());
                reveal_strlit("OBSERVER");
                assert("OBSERVER"@.len() != "C1"@.len());
                reveal_strlit("S1");
                assert("S1"@[0] != "C1"@[0]);
                reveal_strlit("TOWER TRAINEE");
                assert("TOWER TRAINEE"@.len() != "C1"@.len());
                reveal_strlit("S2");
                assert("S2"@[0] != "C1"@[0]);
                reveal_strlit("TOWER CONTROLLER");
                assert("TOWER CONTROLLER"@.len() != "C1"@.len());
                reveal_strlit("S3");
                assert("S3"@[0] != "C1"@[0]);
                reveal_strlit("SENIOR STUDENT");
                assert("SENIOR STUDENT"@.len() != "C1"@.len());
            },
            ControllerRating::Controller2 => {
                reveal_strlit("C2");
                assert(upper_seq(v.code()) =~= v.code());
                reveal_strlit("INAC");
                assert("INAC"@.len() != "C2"@.len());
                reveal_strlit("INACTIVE");
                assert("INACTIVE"@.len() != "C2"@.len());
                reveal_strlit("SUS");
                assert("SUS"@.len() != "C2"@.len());
                reveal_strlit("SUSPENDED");
                assert("SUSPENDED"@.len() != "C2"@.len());
                reveal_strlit("OBS");
                assert("OBS"@.len() != "C2"@.len());
                reveal_strlit("OBSERVER");
                assert("OBSERVER"@.len() != "C2"@.len());
                reveal_strlit("S1");
                assert("S1"@[0] != "C2"@[0]);
                reveal_strlit("TOWER TRAINEE");
                assert("TOWER TRAINEE"@.len() != "C2"@.len());
                reveal_strlit("S2");
                assert("S2"@[0] != "C2"@[0]);
                reveal_strlit("TOWER CONTROLLER");
                assert("TOWER CONTROLLER"@.len() != "C2"@.len());
                reveal_strlit("S3");
                assert("S3"@[0] != "C2"@[0]);
                reveal_strlit("SENIOR STUDENT");
                assert("SENIOR STUDENT"@.len() != "C2"@.len());
                reveal_strlit("C1");
                assert("C1"@[1] != "C2"@[1]);
                reveal_strlit("ENROUTE CONTROLLER");
                assert("ENROUTE CONTROLLER"@.len() != "C2"@.len());
            },
            ControllerRating::SeniorController => {
                reveal_strlit("C3");
                assert(upper_seq(v.code()) =~= v.code());
                reveal_strlit("INAC");
                assert("INAC"@.len() != "C3"@.len());
                reveal_strlit("INACTIVE");
                assert("INACTIVE"@.len() != "C3"@.len());
                reveal_strlit("SUS");
                assert("SUS"@.len() != "C3"@.len());
                reveal_strlit("SUSPENDED");
                assert("SUSPENDED"@.len() != "C3"@.len());
                reveal_strlit("OBS");
                assert("OBS"@.len() != "C3"@.len());
                reveal_strlit("OBSERVER");
                assert("OBSERVER"@.len() != "C3"@.len());
                reveal_strlit("S1");
                assert("S1"@[0] != "C3"@[0]);
                reveal_strlit("TOWER TRAINEE");
                assert("TOWER TRAINEE"@.len() != "C3"@.len());
                reveal_strlit("S2");
                assert("S2"@[0] != "C3"@[0]);
                reveal_strlit("TOWER CONTROLLER");
                assert("TOWER CONTROLLER"@.len() != "C3"@.len());
                reveal_strlit("S3");
                assert("S3"@[0] != "C3"@[0]);
                reveal_strlit("SENIOR STUDENT");
                assert("SENIOR STUDENT"@.len() != "C3"@.len());
                reveal_strlit("C1");
                assert("C1"@[1] != "C3"@[1]);
                reveal_strlit("ENROUTE CONTROLLER");
                assert("ENROUTE CONTROLLER"@.len() != "C3"@.len());
                reveal_strlit("C2");
                assert("C2"@[1] != "C3"@[1]);
                reveal_strlit("CONTROLLER 2 (NOT IN USE)");
                assert("CONTROLLER 2 (NOT IN USE)"@.len() != "C3"@.len());
            },
            ControllerRating::Instructor => {
                reveal_strlit("I1");
                assert(upper_seq(v.code()) =~= v.code());
                reveal_strlit("INAC");
                assert("INAC"@.len() != "I1"@.len());
                reveal_strlit("INACTIVE");
                assert("INACTIVE"@.len() != "I1"@.len());
                reveal_strlit("SUS");
                assert("SUS"@.len() != "I1"@.len());
                reveal_strlit("SUSPENDED");
                assert("SUSPENDED"@.len() != "I1"@.len());
                reveal_strlit("OBS");
                assert("OBS"@.len() != "I1"@.len());
                reveal_strlit("OBSERVER");
                assert("OBSERVER"@.len() != "I1"@.len());
                reveal_strlit("S1");
                assert("S1"@[0] != "I1"@[0]);
                reveal_strlit("TOWER TRAINEE");
                assert("TOWER TRAINEE"@.len() != "I1"@.len());
                reveal_strlit("S2");
                assert("S2"@[0] != "I1"@[0]);
                reveal_strlit("TOWER CONTROLLER");
                assert("TOWER CONTROLLER"@.len() != "I1"@.len());
                reveal_strlit("S3");
                assert("S3"@[0] != "I1"@[0]);
                reveal_strlit("SENIOR STUDENT");
                assert("SENIOR STUDENT"@.len() != "I1"@.len());
                reveal_strlit("C1");
                assert("C1"@[0] != "I1"@[0]);
                reveal_strlit("ENROUTE CONTROLLER");
                assert("ENROUTE CONTROLLER"@.len() != "I1"@.len());
                reveal_strlit("C2");
                assert("C2"@[0] != "I1"@[0]);
                reveal_strlit("CONTROLLER 2 (NOT IN USE)");
                assert("CONTROLLER 2 (NOT IN USE)"@.len() != "I1"@.len());
                reveal_strlit("C3");
                assert("C3"@[0] != "I1"@[0]);
                reveal_strlit("SENIOR CONTROLLER");
                assert("SENIOR CONTROLLER"@.len() != "I1"@.len());
            },
            ControllerRating::Instructor2 => {
                reveal_strlit("I2");
                assert(upper_seq(v.code()) =~= v.code());
                reveal_strlit("INAC");
                assert("INAC"@.len() != "I2"@.len());
                reveal_strlit("INACTIVE");
                assert("INACTIVE"@.len() != "I2"@.len());
                reveal_strlit("SUS");
                assert("SUS"@.len() != "I2"@.len());
                reveal_strlit("SUSPENDED");
                assert("SUSPENDED"@.len() != "I2"@.len());
                reveal_strlit("OBS");
                assert("OBS"@.len() != "I2"@.len());
                reveal_strlit("OBSERVER");
                assert("OBSERVER"@.len() != "I2"@.len());
                reveal_strlit("S1");
                assert("S1"@[0] != "I2"@[0]);
                reveal_strlit("TOWER TRAINEE");
                assert("TOWER TRAINEE"@.len() != "I2"@.len());
                reveal_strlit("S2");
                assert("S2"@[0] != "I2"@[0]);
                reveal_strlit("TOWER CONTROLLER");
                assert("TOWER CONTROLLER"@.len() != "I2"@.len());
                reveal_strlit("S3");
                assert("S3"@[0] != "I2"@[0]);
                reveal_strlit("SENIOR STUDENT");
                assert("SENIOR STUDENT"@.len() != "I2"@.len());
                reveal_strlit("C1");
                assert("C1"@[0] != "I2"@[0]);
                reveal_strlit("ENROUTE CONTROLLER");
                assert("ENROUTE CONTROLLER"@.len() != "I2"@.len());
                reveal_strlit("C2");
                assert("C2"@[0] != "I2"@[0]);
                reveal_strlit("CONTROLLER 2 (NOT IN USE)");
                assert("CONTROLLER 2 (NOT IN USE)"@.len() != "I2"@.len());
                reveal_strlit("C3");
                assert("C3"@[0] != "I2"@[0]);
                reveal_strlit("SENIOR CONTROLLER");
                assert("SENIOR CONTROLLER"@.len() != "I2"@.len());
                reveal_strlit("I1");
                assert("I1"@[1] != "I2"@[1]);
                reveal_strlit("INSTRUCTOR");
                assert("INSTRUCTOR"@.len() != "I2"@.len());
            },
            ControllerRating::SeniorInstructor => {
                reveal_strlit("I3");
                assert(upper_seq(v.code()) =~= v.code());
                reveal_strlit("INAC");
                assert("INAC"@.len() != "I3"@.len());
                reveal_strlit("INACTIVE");
                assert("INACTIVE"@.len() != "I3"@.len());
                reveal_strlit("SUS");
                assert("SUS"@.len() != "I3"@.len());
                reveal_strlit("SUSPENDED");
                assert("SUSPENDED"@.len() != "I3"@.len());
                reveal_strlit("OBS");
                assert("OBS"@.len() != "I3"@.len());
                reveal_strlit("OBSERVER");
                assert("OBSERVER"@.len() != "I3"@.len());
                reveal_strlit("S1");
                assert("S1"@[0] != "I3"@[0]);
                reveal_strlit("TOWER TRAINEE");
                assert("TOWER TRAINEE"@.len() != "I3"@.len());
                reveal_strlit("S2");
                assert("S2"@[0] != "I3"@[0]);
                reveal_strlit("TOWER CONTROLLER");
                assert("TOWER CONTROLLER"@.len() != "I3"@.len());
                reveal_strlit("S3");
                assert("S3"@[0] != "I3"@[0]);
                reveal_strlit("SENIOR STUDENT");
                assert("SENIOR STUDENT"@.len() != "I3"@.len());
                reveal_strlit("C1");
                assert("C1"@[0] != "I3"@[0]);
                reveal_strlit("ENROUTE CONTROLLER");
                assert("ENROUTE CONTROLLER"@.len() != "I3"@.len());
                reveal_strlit("C2");
                assert("C2"@[0] != "I3"@[0]);
                reveal_strlit("CONTROLLER 2 (NOT IN USE)");
                assert("CONTROLLER 2 (NOT IN USE)"@.len() != "I3"@.len());
                reveal_strlit("C3");
                assert("C3"@[0] != "I3"@[0]);
                reveal_strlit("SENIOR CONTROLLER");
                assert("SENIOR CONTROLLER"@.len() != "I3"@.len());
                reveal_strlit("I1");
                assert("I1"@[1] != "I3"@[1]);
                reveal_strlit("INSTRUCTOR");
                assert("INSTRUCTOR"@.len() != "I3"@.len());
                reveal_strlit("I2");
                assert("I2"@[1] != "I3"@[1]);
                reveal_strlit("INSTRUCTOR 2 (NOT IN USE)");
                assert("INSTRUCTOR 2 (NOT IN USE)"@.len() != "I3"@.len());
            },
            ControllerRating::Supervisor => {
                reveal_strlit("SUP");
                assert(upper_seq(v.code()) =~= v.code());
                reveal_strlit("INAC");
                assert("INAC"@.len() != "SUP"@.len());
                reveal_strlit("INACTIVE");
                assert("INACTIVE"@.len() != "SUP"@.len());
                reveal_strlit("SUS");
                assert("SUS"@[2] != "SUP"@[2]);
                reveal_strlit("SUSPENDED");
                assert("SUSPENDED"@.len() != "SUP"@.len());
                reveal_strlit("OBS");
                assert("OBS"@[0] != "SUP"@[0]);
                reveal_strlit("OBSERVER");
                assert("OBSERVER"@.len() != "SUP"@.len());
                reveal_strlit("S1");
                assert("S1"@.len() != "SUP"@.len());
                reveal_strlit("TOWER TRAINEE");
                assert("TOWER TRAINEE"@.len() != "SUP"@.len());
                reveal_strlit("S2");
                assert("S2"@.len() != "SUP"@.len());
                reveal_strlit("TOWER CONTROLLER");
                assert("TOWER CONTROLLER"@.len() != "SUP"@.len());
                reveal_strlit("S3");
                assert("S3"@.len() != "SUP"@.len());
                reveal_strlit("SENIOR STUDENT");
                assert("SENIOR STUDENT"@.len() != "SUP"@.len());
                reveal_strlit("C1");
                assert("C1"@.len() != "SUP"@.len());
                reveal_strlit("ENROUTE CONTROLLER");
                assert("ENROUTE CONTROLLER"@.len() != "SUP"@.len());
                reveal_strlit("C2");
                assert("C2"@.len() != "SUP"@.len());
                reveal_strlit("CONTROLLER 2 (NOT IN USE)");
                assert("CONTROLLER 2 (NOT IN USE)"@.len() != "SUP"@.len());
                reveal_strlit("C3");
                assert("C3"@.len() != "SUP"@.len());
                reveal_strlit("SENIOR CONTROLLER");
                assert("SENIOR CONTROLLER"@.len() != "SUP"@.len());
                reveal_strlit("I1");
                assert("I1"@.len() != "SUP"@.len());
                reveal_strlit("INSTRUCTOR");
                assert("INSTRUCTOR"@.len() != "SUP"@.len());
                reveal_strlit("I2");
                assert("I2"@.len() != "SUP"@.len());
                reveal_strlit("INSTRUCTOR 2 (NOT IN USE)");
                assert("INSTRUCTOR 2 (NOT IN USE)"@.len() != "SUP"@.len());
                reveal_strlit("I3");
                assert("I3"@.len() != "SUP"@.len());
                reveal_strlit("SENIOR INSTRUCTOR");
                assert("SENIOR INSTRUCTOR"@.len() != "SUP"@.len());
            },
            ControllerRating::Administrator => {
                reveal_strlit("ADM");
                assert(upper_seq(v.code()) =~= v.code());
                reveal_strlit("INAC");
                assert("INAC"@.len() != "ADM"@.len());
                reveal_strlit("INACTIVE");
                assert("INACTIVE"@.len() != "ADM"@.len());
                reveal_strlit("SUS");
                assert("SUS"@[0] != "ADM"@[0]);
                reveal_strlit("SUSPENDED");
                assert("SUSPENDED"@.len() != "ADM"@.len());
                reveal_strlit("OBS");
                assert("OBS"@[0] != "ADM"@[0]);
                reveal_strlit("OBSERVER");
                assert("OBSERVER"@.len() != "ADM"@.len());
                reveal_strlit("S1");
                assert("S1"@.len() != "ADM"@.len());
                reveal_strlit("TOWER TRAINEE");
                assert("TOWER TRAINEE"@.len() != "ADM"@.len());
                reveal_strlit("S2");
                assert("S2"@.len() != "ADM"@.len());
                reveal_strlit("TOWER CONTROLLER");
                assert("TOWER CONTROLLER"@.len() != "ADM"@.len());
                reveal_strlit("S3");
                assert("S3"@.len() != "ADM"@.len());
                reveal_strlit("SENIOR STUDENT");
                assert("SENIOR STUDENT"@.len() != "ADM"@.len());
                reveal_strlit("C1");
                assert("C1"@.len() != "ADM"@.len());
                reveal_strlit("ENROUTE CONTROLLER");
                assert("ENROUTE CONTROLLER"@.len() != "ADM"@.len());
                reveal_strlit("C2");
                assert("C2"@.len() != "ADM"@.len());
                reveal_strlit("CONTROLLER 2 (NOT IN USE)");
                assert("CONTROLLER 2 (NOT IN USE)"@.len() != "ADM"@.len());
                reveal_strlit("C3");
                assert("C3"@.len() != "ADM"@.len());
                reveal_strlit("SENIOR CONTROLLER");
                assert("SENIOR CONTROLLER"@.len() != "ADM"@.len());
                reveal_strlit("I1");
                assert("I1"@.len() != "ADM"@.len());
                reveal_strlit("INSTRUCTOR");
                assert("INSTRUCTOR"@.len() != "ADM"@.len());
                reveal_strlit("I2");
                assert("I2"@.len() != "ADM"@.len());
                reveal_strlit("INSTRUCTOR 2 (NOT IN USE)");
                assert("INSTRUCTOR 2 (NOT IN USE)"@.len() != "ADM"@.len());
                reveal_strlit("I3");
                assert("I3"@.len() != "ADM"@.len());
                reveal_strlit("SENIOR INSTRUCTOR");
                assert("SENIOR INSTRUCTOR"@.len() != "ADM"@.len());
                reveal_strlit("SUP");
                assert("SUP"@[0] != "ADM"@[0]);
                reveal_strlit("SUPERVISOR");
                assert("SUPERVISOR"@.len() != "ADM"@.len());
            },
        }
    }

    /// Converting the data feed ID of a value gives that value back, and
    /// every known ID is the ID of the value it stands for.
    pub proof fn lemma_id_roundtrip(v: ControllerRating, i: i8)
        ensures
            ControllerRating::from_id_spec(v.id()) == Some(v),
            ControllerRating::from_id_spec(i) matches Some(w) ==> w.id() == i,
    {
    }

    /// The data feed ID of each controller rating, by its code: INAC -1, SUS 0,
    /// OBS 1, S1 2, S2 3, S3 4, C1 5, C2 6, C3 7, I1 8, I2 9, I3 10, SUP 11,
    /// ADM 12. Converting an ID gives a value with that ID (-1 gives INAC, 0
    /// gives SUS, 1 gives OBS, 2 gives S1, 3 gives S2, 4 gives S3, 5 gives C1,
    /// 6 gives C2, 7 gives C3, 8 gives I1, 9 gives I2, 10 gives I3, 11 gives
    /// SUP, 12 gives ADM), and no other ID converts.
    pub proof fn lemma_id_table(v: i8)
        ensures
            ControllerRating::parse_spec("INAC"@) matches Ok(w) && w.id() == -1i8,
            ControllerRating::parse_spec("SUS"@) matches Ok(w) && w.id() == 0,
            ControllerRating::parse_spec("OBS"@) matches Ok(w) && w.id() == 1,
            ControllerRating::parse_spec("S1"@) matches Ok(w) && w.id() == 2,
            ControllerRating::parse_spec("S2"@) matches Ok(w) && w.id() == 3,
            ControllerRating::parse_spec("S3"@) matches Ok(w) && w.id() == 4,
            ControllerRating::parse_spec("C1"@) matches Ok(w) && w.id() == 5,
            ControllerRating::parse_spec("C2"@) matches Ok(w) && w.id() == 6,
            ControllerRating::parse_spec("C3"@) matches Ok(w) && w.id() == 7,
            ControllerRating::parse_spec("I1"@) matches Ok(w) && w.id() == 8,
            ControllerRating::parse_spec("I2"@) matches Ok(w) && w.id() == 9,
            ControllerRating::parse_spec("I3"@) matches Ok(w) && w.id() == 10,
            ControllerRating::parse_spec("SUP"@) matches Ok(w) && w.id() == 11,
            ControllerRating::parse_spec("ADM"@) matches Ok(w) && w.id() == 12,
            ControllerRating::from_id_spec(-1i8) matches Some(w) && w.code() == "INAC"@,
            ControllerRating::from_id_spec(0) matches Some(w) && w.code() == "SUS"@,
            ControllerRating::from_id_spec(1) matches Some(w) && w.code() == "OBS"@,
            ControllerRating::from_id_spec(2) matches Some(w) && w.code() == "S1"@,
            ControllerRating::from_id_spec(3) matches Some(w) && w.code() == "S2"@,
            ControllerRating::from_id_spec(4) matches Some(w) && w.code() == "S3"@,
            ControllerRating::from_id_spec(5) matches Some(w) && w.code() == "C1"@,
            ControllerRating::from_id_spec(6) matches Some(w) && w.code() == "C2"@,
            ControllerRating::from_id_spec(7) matches Some(w) && w.code() == "C3"@,
            ControllerRating::from_id_spec(8) matches Some(w) && w.code() == "I1"@,
            ControllerRating::from_id_spec(9) matches Some(w) && w.code() == "I2"@,
            ControllerRating::from_id_spec(10) matches Some(w) && w.code() == "I3"@,
            ControllerRating::from_id_spec(11) matches Some(w) && w.code() == "SUP"@,
            ControllerRating::from_id_spec(12) matches Some(w) && w.code() == "ADM"@,
            ControllerRating::from_id_spec(v) matches Some(w) ==> w.id() == v,
            ControllerRating::from_id_spec(v) is Some <==> (v == -1i8 || v == 0 || v == 1 || v == 2 || v == 3 || v == 4 || v == 5 || v == 6 || v == 7 || v == 8 || v == 9 || v == 10 || v == 11 || v == 12),
    {
        ControllerRating::lemma_code_parses(ControllerRating::Inactive);
        ControllerRating::lemma_code_parses(ControllerRating::Suspended);
        ControllerRating::lemma_code_parses(ControllerRating::Observer);
        ControllerRating::lemma_code_parses(ControllerRating::TowerTrainee);
        ControllerRating::lemma_code_parses(ControllerRating::TowerController);
        ControllerRating::lemma_code_parses(ControllerRating::SeniorStudent);
        ControllerRating::lemma_code_parses(ControllerRating::EnrouteController);
        ControllerRating::lemma_code_parses(ControllerRating::Controller2);
        ControllerRating::lemma_code_parses(ControllerRating::SeniorController);
        ControllerRating::lemma_code_parses(ControllerRating::Instructor);
        ControllerRating::lemma_code_parses(ControllerRating::Instructor2);
        ControllerRating::lemma_code_parses(ControllerRating::SeniorInstructor);
        ControllerRating::lemma_code_parses(ControllerRating::Supervisor);
        ControllerRating::lemma_code_parses(ControllerRating::Administrator);
    }
}

impl PilotRating {
    /// Parsing the short code of a value gives that value back.
    pub proof fn lemma_code_parses(v: PilotRating)
        ensures
            PilotRating::parse_spec(v.code()) == Ok::<PilotRating, ParseErrorView>(v),
    {
        match v {
            PilotRating::BasicMember => {
                reveal_strlit("NEW");
                assert(upper_seq(v.code()) =~= v.code());
            },
            PilotRating::PrivatePilotLicense => {
                reveal_strlit("PPL");
                assert(upper_seq(v.code()) =~= v.code());
                reveal_strlit("NEW");
                assert("NEW"@[0] != "PPL"@[0]);
                reveal_strlit("BASIC MEMBER");
                assert("BASIC MEMBER"@.len() != "PPL"@.len());
            },
            PilotRating::InstrumentRating => {
                reveal_strlit("IR");
                assert(upper_seq(v.code()) =~= v.code());
                reveal_strlit("NEW");
                assert("NEW"@.len() != "IR"@.len());
                reveal_strlit("BASIC MEMBER");
                assert("BASIC MEMBER"@.len() != "IR"@.len());
                reveal_strlit("PPL");
                assert("PPL"@.len() != "IR"@.len());
                reveal_strlit("PRIVATE PILOT LICENSE");
                assert("PRIVATE PILOT LICENSE"@.len() != "IR"@.len());
            },
            PilotRating::CommercialMultiEngineLicense => {
                reveal_strlit("CMEL");
                assert(upper_seq(v.code()) =~= v.code());
                reveal_strlit("NEW");
                assert("NEW"@.len() != "CMEL"@.len());
                reveal_strlit("BASIC MEMBER");
                assert("BASIC MEMBER"@.len() != "CMEL"@.len());
                reveal_strlit("PPL");
                assert("PPL"@.len() != "CMEL"@.len());
                reveal_strlit("PRIVATE PILOT LICENSE");
                assert("PRIVATE PILOT LICENSE"@.len() != "CMEL"@.len());
                reveal_strlit("IR");
                assert("IR"@.len() != "CMEL"@.len());
                reveal_strlit("INSTRUMENT RATING");
                assert("INSTRUMENT RATING"@.len() != "CMEL"@.len());
            },
            PilotRating::AirlineTransportPilotLicense => {
                reveal_strlit("ATPL");
                assert(upper_seq(v.code()) =~= v.code());
                reveal_strlit("NEW");
                assert("NEW"@.len() != "ATPL"@.len());
                reveal_strlit("BASIC MEMBER");
                assert("BASIC MEMBER"@.len() != "ATPL"@.len());
                reveal_strlit("PPL");
                assert("PPL"@.len() != "ATPL"@.len());
                reveal_strlit("PRIVATE PILOT LICENSE");
                assert("PRIVATE PILOT LICENSE"@.len() != "ATPL"@.len());
                reveal_strlit("IR");
                assert("IR"@.len() != "ATPL"@.len());
                reveal_strlit("INSTRUMENT RATING");
                assert("INSTRUMENT RATING"@.len() != "ATPL"@.len());
                reveal_strlit("CMEL");
                assert("CMEL"@[0] != "ATPL"@[0]);
                reveal_strlit("COMMERCIAL MULTI-ENGINE LICENSE");
                assert("COMMERCIAL MULTI-ENGINE LICENSE"@.len() != "ATPL"@.len());
            },
            PilotRating::FlightInstructor => {
                reveal_strlit("FI");
                assert(upper_seq(v.code()) =~= v.code());
                reveal_strlit("NEW");
                assert("NEW"@.len() != "FI"@.len());
                reveal_strlit("BASIC MEMBER");
                assert("BASIC MEMBER"@.len() != "FI"@.len());
                reveal_strlit("PPL");
                assert("PPL"@.len() != "FI"@.len());
                reveal_strlit("PRIVATE PILOT LICENSE");
                assert("PRIVATE PILOT LICENSE"@.len() != "FI"@.len());
                reveal_strlit("IR");
                assert("IR"@[0] != "FI"@[0]);
                reveal_strlit("INSTRUMENT RATING");
                assert("INSTRUMENT RATING"@.len() != "FI"@.len());
                reveal_strlit("CMEL");
                assert("CMEL"@.len() != "FI"@.len());
                reveal_strlit("COMMERCIAL MULTI-ENGINE LICENSE");
                assert("COMMERCIAL MULTI-ENGINE LICENSE"@.len() != "FI"@.len());
                reveal_strlit("ATPL");
                assert("ATPL"@.len() != "FI"@.len());
                reveal_strlit("AIRLINE TRANSPORT PILOT LICENSE");
                assert("AIRLINE TRANSPORT PILOT LICENSE"@.len() != "FI"@.len());
            },
            PilotRating::FlightExaminer => {
                reveal_strlit("FE");
                assert(upper_seq(v.code()) =~= v.code());
                reveal_strlit("NEW");
                assert("NEW"@.len() != "FE"@.len());
                reveal_strlit("BASIC MEMBER");
                assert("BASIC MEMBER"@.len() != "FE"@.len());
                reveal_strlit("PPL");
                assert("PPL"@.len() != "FE"@.len());
                reveal_strlit("PRIVATE PILOT LICENSE");
                assert("PRIVATE PILOT LICENSE"@.len() != "FE"@.len());
                reveal_strlit("IR");
                assert("IR"@[0] != "FE"@[0]);
                reveal_strlit("INSTRUMENT RATING");
                assert("INSTRUMENT RATING"@.len() != "FE"@.len());
                reveal_strlit("CMEL");
                assert("CMEL"@.len() != "FE"@.len());
                reveal_strlit("COMMERCIAL MULTI-ENGINE LICENSE");
                assert("COMMERCIAL MULTI-ENGINE LICENSE"@.len() != "FE"@.len());
                reveal_strlit("ATPL");
                assert("ATPL"@.len() != "FE"@.len());
                reveal_strlit("AIRLINE TRANSPORT PILOT LICENSE");
                assert("AIRLINE TRANSPORT PILOT LICENSE"@.len() != "FE"@.len());
                reveal_strlit("FI");
                assert("FI"@[1] != "FE"@[1]);
                reveal_strlit("FLIGHT INSTRUCTOR");
                assert("FLIGHT INSTRUCTOR"@.len() != "FE"@.len());
            },
        }
    }

    /// Converting the data feed ID of a value gives that value back, and
    /// every known ID is the ID of the value it stands for.
    pub proof fn lemma_id_roundtrip(v: PilotRating, i: i8)
        ensures
            PilotRating::from_id_spec(v.id()) == Some(v),
            PilotRating::from_id_spec(i) matches Some(w) ==> w.id() == i,
    {
    }

    /// The data feed ID of each pilot rating, by its code: NEW 0, PPL 1, IR 3,
    /// CMEL 7, ATPL 15, FI 31, FE 63. Converting an ID gives a value with that
    /// ID (0 gives NEW, 1 gives PPL, 3 gives IR, 7 gives CMEL, 15 gives ATPL,
    /// 31 gives FI, 63 gives FE), and no other ID converts.
    pub proof fn lemma_id_table(v: i8)
        ensures
            PilotRating::parse_spec("NEW"@) matches Ok(w) && w.id() == 0,
            PilotRating::parse_spec("PPL"@) matches Ok(w) && w.id() == 1,
            PilotRating::parse_spec("IR"@) matches Ok(w) && w.id() == 3,
            PilotRating::parse_spec("CMEL"@) matches Ok(w) && w.id() == 7,
            PilotRating::parse_spec("ATPL"@) matches Ok(w) && w.id() == 15,
            PilotRating::parse_spec("FI"@) matches Ok(w) && w.id() == 31,
            PilotRating::parse_spec("FE"@) matches Ok(w) && w.id() == 63,
            PilotRating::from_id_spec(0) matches Some(w) && w.code() == "NEW"@,
            PilotRating::from_id_spec(1) matches Some(w) && w.code() == "PPL"@,
            PilotRating::from_id_spec(3) matches Some(w) && w.code() == "IR"@,
            PilotRating::from_id_spec(7) matches Some(w) && w.code() == "CMEL"@,
            PilotRating::from_id_spec(15) matches Some(w) && w.code() == "ATPL"@,
            PilotRating::from_id_spec(31) matches Some(w) && w.code() == "FI"@,
            PilotRating::from_id_spec(63) matches Some(w) && w.code() == "FE"@,
            PilotRating::from_id_spec(v) matches Some(w) ==> w.id() == v,
            PilotRating::from_id_spec(v) is Some <==> (v == 0 || v == 1 || v == 3 || v == 7 || v == 15 || v == 31 || v == 63),
    {
        PilotRating::lemma_code_parses(PilotRating::BasicMember);
        PilotRating::lemma_code_parses(PilotRating::PrivatePilotLicense);
        PilotRating::lemma_code_parses(PilotRating::InstrumentRating);
        PilotRating::lemma_code_parses(PilotRating::CommercialMultiEngineLicense);
        PilotRating::lemma_code_parses(PilotRating::AirlineTransportPilotLicense);
        PilotRating::lemma_code_parses(PilotRating::FlightInstructor);
        PilotRating::lemma_code_parses(PilotRating::FlightExaminer);
    }
}

impl MilitaryRating {
    /// Parsing the short code of a value gives that value back.
    pub proof fn lemma_code_parses(v: MilitaryRating)
        ensures
            MilitaryRating::parse_spec(v.code()) == Ok::<MilitaryRating, ParseErrorView>(v),
    {
        match v {
            MilitaryRating::NoMilitaryRating => {
                reveal_strlit("M0");
                assert(upper_seq(v.code()) =~= v.code());
            },
            MilitaryRating::MilitaryPilotLicense => {
                reveal_strlit("M1");
                assert(upper_seq(v.code()) =~= v.code());
                reveal_strlit("M0");
                assert("M0"@[1] != "M1"@[1]);
                reveal_strlit("NO MILITARY RATING");
                assert("NO MILITARY RATING"@.len() != "M1"@.len());
            },
            MilitaryRating::MilitaryInstrumentRating => {
                reveal_strlit("M2");
                assert(upper_seq(v.code()) =~= v.code());
                reveal_strlit("M0");
                assert("M0"@[1] != "M2"@[1]);
                reveal_strlit("NO MILITARY RATING");
                assert("NO MILITARY RATING"@.len() != "M2"@.len());
                reveal_strlit("M1");
                assert("M1"@[1] != "M2"@[1]);
                reveal_strlit("MILITARY PILOT LICENSE");
                assert("MILITARY PILOT LICENSE"@.len() != "M2"@.len());
            },
            MilitaryRating::MilitaryMultiEngineRating => {
                reveal_strlit("M3");
                assert(upper_seq(v.code()) =~= v.code());
                reveal_strlit("M0");
                assert("M0"@[1] != "M3"@[1]);
                reveal_strlit("NO MILITARY RATING");
                assert("NO MILITARY RATING"@.len() != "M3"@.len());
                reveal_strlit("M1");
                assert("M1"@[1] != "M3"@[1]);
                reveal_strlit("MILITARY PILOT LICENSE");
                assert("MILITARY PILOT LICENSE"@.len() != "M3"@.len());
                reveal_strlit("M2");
                assert("M2"@[1] != "M3"@[1]);
                reveal_strlit("MILITARY INSTRUMENT RATING");
                assert("MILITARY INSTRUMENT RATING"@.len() != "M3"@.len());
            },
            MilitaryRating::MilitaryMissionReadyPilot => {
                reveal_strlit("M4");
                assert(upper_seq(v.code()) =~= v.code());
                reveal_strlit("M0");
                assert("M0"@[1] != "M4"@[1]);
                reveal_strlit("NO MILITARY RATING");
                assert("NO MILITARY RATING"@.len() != "M4"@.len());
                reveal_strlit("M1");
                assert("M1"@[1] != "M4"@[1]);
                reveal_strlit("MILITARY PILOT LICENSE");
                assert("MILITARY PILOT LICENSE"@.len() != "M4"@.len());
                reveal_strlit("M2");
                assert("M2"@[1] != "M4"@[1]);
                reveal_strlit("MILITARY INSTRUMENT RATING");
                assert("MILITARY INSTRUMENT RATING"@.len() != "M4"@.len());
                reveal_strlit("M3");
                assert("M3"@[1] != "M4"@[1]);
                reveal_strlit("MILITARY MULTI-ENGINE RATING");
                assert("MILITARY MULTI-ENGINE RATING"@.len() != "M4"@.len());
            },
        }
    }

    /// Converting the data feed ID of a value gives that value back, and
    /// every known ID is the ID of the value it stands for.
    pub proof fn lemma_id_roundtrip(v: MilitaryRating, i: i8)
        ensures
            MilitaryRating::from_id_spec(v.id()) == Some(v),
            MilitaryRating::from_id_spec(i) matches Some(w) ==> w.id() == i,
    {
    }

    /// The data feed ID of each military rating, by its code: M0 0, M1 1, M2 3,
    /// M3 7, M4 15. Converting an ID gives a value with that ID (0 gives M0, 1
    /// gives M1, 3 gives M2, 7 gives M3, 15 gives M4), and no other ID
    /// converts.
    pub proof fn lemma_id_table(v: i8)
        ensures
            MilitaryRating::parse_spec("M0"@) matches Ok(w) && w.id() == 0,
            MilitaryRating::parse_spec("M1"@) matches Ok(w) && w.id() == 1,
            MilitaryRating::parse_spec("M2"@) matches Ok(w) && w.id() == 3,
            MilitaryRating::parse_spec("M3"@) matches Ok(w) && w.id() == 7,
            MilitaryRating::parse_spec("M4"@) matches Ok(w) && w.id() == 15,
            MilitaryRating::from_id_spec(0) matches Some(w) && w.code() == "M0"@,
            MilitaryRating::from_id_spec(1) matches Some(w) && w.code() == "M1"@,
            MilitaryRating::from_id_spec(3) matches Some(w) && w.code() == "M2"@,
            MilitaryRating::from_id_spec(7) matches Some(w) && w.code() == "M3"@,
            MilitaryRating::from_id_spec(15) matches Some(w) && w.code() == "M4"@,
            MilitaryRating::from_id_spec(v) matches Some(w) ==> w.id() == v,
            MilitaryRating::from_id_spec(v) is Some <==> (v == 0 || v == 1 || v == 3 || v == 7 || v == 15),
    {
        MilitaryRating::lemma_code_parses(MilitaryRating::NoMilitaryRating);
        MilitaryRating::lemma_code_parses(MilitaryRating::MilitaryPilotLicense);
        MilitaryRating::lemma_code_parses(MilitaryRating::MilitaryInstrumentRating);
        MilitaryRating::lemma_code_parses(MilitaryRating::MilitaryMultiEngineRating);
        MilitaryRating::lemma_code_parses(MilitaryRating::MilitaryMissionReadyPilot);
    }
}


impl Facility {
    /// All facility variants.
    pub const ALL: [Facility; 11] = [
        Facility::Observer,
        Facility::Ramp,
        Facility::ClearanceDelivery,
        Facility::Ground,
        Facility::Tower,
        Facility::Approach,
        Facility::Departure,
        Facility::Enroute,
        Facility::FlightServiceStation,
        Facility::Radio,
        Facility::TrafficFlow,
    ];
}


impl ControllerRating {
    /// All controller rating variants in active use (the deprecated
    /// [`ControllerRating::Controller2`] and [`ControllerRating::Instructor2`]
    /// are left out).
    pub const ALL: [ControllerRating; 12] = [
        ControllerRating::Inactive,
        ControllerRating::Suspended,
        ControllerRating::Observer,
        ControllerRating::TowerTrainee,
        ControllerRating::TowerController,
        ControllerRating::SeniorStudent,
        ControllerRating::EnrouteController,
        ControllerRating::SeniorController,
        ControllerRating::Instructor,
        ControllerRating::SeniorInstructor,
        ControllerRating::Supervisor,
        ControllerRating::Administrator,
    ];
}

impl PilotRating {
    /// All pilot rating variants.
    pub const ALL: [PilotRating; 7] = [
        PilotRating::BasicMember,
        PilotRating::PrivatePilotLicense,
        PilotRating::InstrumentRating,
        PilotRating::CommercialMultiEngineLicense,
        PilotRating::AirlineTransportPilotLicense,
        PilotRating::FlightInstructor,
        PilotRating::FlightExaminer,
    ];
}

impl MilitaryRating {
    /// All military rating variants.
    pub const ALL: [MilitaryRating; 5] = [
        MilitaryRating::NoMilitaryRating,
        MilitaryRating::MilitaryPilotLicense,
        MilitaryRating::MilitaryInstrumentRating,
        MilitaryRating::MilitaryMultiEngineRating,
        MilitaryRating::MilitaryMissionReadyPilot,
    ];
}

impl vstd::std_specs::convert::TryFromSpecImpl<FacilityInfo> for Facility {
    open spec fn obeys_try_from_spec() -> bool {
        false
    }

    open spec fn try_from_spec(v: FacilityInfo) -> Result<Facility, ParseError> {
        arbitrary()
    }
}

impl TryFrom<FacilityInfo> for Facility {
    type Error = ParseError;

    /// The value the lookup table entry's ID stands for, as
    /// [`Facility::from_id`] gives it.
    fn try_from(value: FacilityInfo) -> (r: Result<Facility, ParseError>)
        ensures
            result_view(r) == Facility::from_id_result(value.id),
    {
        Facility::from_id(value.id)
    }
}

impl vstd::std_specs::convert::TryFromSpecImpl<RatingInfo> for ControllerRating {
    open spec fn obeys_try_from_spec() -> bool {
        false
    }

    open spec fn try_from_spec(v: RatingInfo) -> Result<ControllerRating, ParseError> {
        arbitrary()
    }
}

impl TryFrom<RatingInfo> for ControllerRating {
    type Error = ParseError;

    /// The value the lookup table entry's ID stands for, as
    /// [`ControllerRating::from_id`] gives it.
    fn try_from(value: RatingInfo) -> (r: Result<ControllerRating, ParseError>)
        ensures
            result_view(r) == ControllerRating::from_id_result(value.id),
    {
        ControllerRating::from_id(value.id)
    }
}

impl vstd::std_specs::convert::TryFromSpecImpl<PilotRatingInfo> for PilotRating {
    open spec fn obeys_try_from_spec() -> bool {
        false
    }

    open spec fn try_from_spec(v: PilotRatingInfo) -> Result<PilotRating, ParseError> {
        arbitrary()
    }
}

impl TryFrom<PilotRatingInfo> for PilotRating {
    type Error = ParseError;

    /// The value the lookup table entry's ID stands for, as
    /// [`PilotRating::from_id`] gives it.
    fn try_from(value: PilotRatingInfo) -> (r: Result<PilotRating, ParseError>)
        ensures
            result_view(r) == PilotRating::from_id_result(value.id),
    {
        PilotRating::from_id(value.id)
    }
}

impl vstd::std_specs::convert::TryFromSpecImpl<MilitaryRatingInfo> for MilitaryRating {
    open spec fn obeys_try_from_spec() -> bool {
        false
    }

    open spec fn try_from_spec(v: MilitaryRatingInfo) -> Result<MilitaryRating, ParseError> {
        arbitrary()
    }
}

impl TryFrom<MilitaryRatingInfo> for MilitaryRating {
    type Error = ParseError;

    /// The value the lookup table entry's ID stands for, as
    /// [`MilitaryRating::from_id`] gives it.
    fn try_from(value: MilitaryRatingInfo) -> (r: Result<MilitaryRating, ParseError>)
        ensures
            result_view(r) == MilitaryRating::from_id_result(value.id),
    {
        MilitaryRating::from_id(value.id)
    }
}


/// Why a number read from a data feed names no value.
#[derive(Debug, Clone, PartialEq, Eq)]
pub enum FeedIdError {
    /// The number does not fit an `i8` ID.
    OutOfRange,
    /// The ID names no value.
    Unknown(ParseError),
}

impl Facility {
    /// The value a number from a data feed names: numbers outside `i8` are
    /// out of range, and the others are converted as by [`Facility::from_id`].
    pub fn from_feed_number(v: i64) -> (r: Result<Facility, FeedIdError>)
        ensures
            match r {
                Ok(x) => -128 <= v <= 127 && Facility::from_id_result(v as i8) == Ok::<
                    Facility,
                    ParseErrorView,
                >(x),
                Err(FeedIdError::OutOfRange) => !(-128 <= v <= 127),
                Err(FeedIdError::Unknown(e)) => -128 <= v <= 127 && Facility::from_id_result(v as i8)
                    == Err::<Facility, ParseErrorView>(e@),
            },
    {
        if v < -128 || v > 127 {
            return Err(FeedIdError::OutOfRange);
        }
        match Facility::from_id(v as i8) {
            Ok(x) => Ok(x),
            Err(e) => Err(FeedIdError::Unknown(e)),
        }
    }
}

impl ControllerRating {
    /// The value a number from a data feed names: numbers outside `i8` are
    /// out of range, and the others are converted as by [`ControllerRating::from_id`].
    pub fn from_feed_number(v: i64) -> (r: Result<ControllerRating, FeedIdError>)
        ensures
            match r {
                Ok(x) => -128 <= v <= 127 && ControllerRating::from_id_result(v as i8) == Ok::<
                    ControllerRating,
                    ParseErrorView,
                >(x),
                Err(FeedIdError::OutOfRange) => !(-128 <= v <= 127),
                Err(FeedIdError::Unknown(e)) => -128 <= v <= 127 && ControllerRating::from_id_result(v as i8)
                    == Err::<ControllerRating, ParseErrorView>(e@),
            },
    {
        if v < -128 || v > 127 {
            return Err(FeedIdError::OutOfRange);
        }
        match ControllerRating::from_id(v as i8) {
            Ok(x) => Ok(x),
            Err(e) => Err(FeedIdError::Unknown(e)),
        }
    }
}

impl PilotRating {
    /// The value a number from a data feed names: numbers outside `i8` are
    /// out of range, and the others are converted as by [`PilotRating::from_id`].
    pub fn from_feed_number(v: i64) -> (r: Result<PilotRating, FeedIdError>)
        ensures
            match r {
                Ok(x) => -128 <= v <= 127 && PilotRating::from_id_result(v as i8) == Ok::<
                    PilotRating,
                    ParseErrorView,
                >(x),
                Err(FeedIdError::OutOfRange) => !(-128 <= v <= 127),
                Err(FeedIdError::Unknown(e)) => -128 <= v <= 127 && PilotRating::from_id_result(v as i8)
                    == Err::<PilotRating, ParseErrorView>(e@),
            },
    {
        if v < -128 || v > 127 {
            return Err(FeedIdError::OutOfRange);
        }
        match PilotRating::from_id(v as i8) {
            Ok(x) => Ok(x),
            Err(e) => Err(FeedIdError::Unknown(e)),
        }
    }
}

impl MilitaryRating {
    /// The value a number from a data feed names: numbers outside `i8` are
    /// out of range, and the others are converted as by [`MilitaryRating::from_id`].
    pub fn from_feed_number(v: i64) -> (r: Result<MilitaryRating, FeedIdError>)
        ensures
            match r {
                Ok(x) => -128 <= v <= 127 && MilitaryRating::from_id_result(v as i8) == Ok::<
                    MilitaryRating,
                    ParseErrorView,
                >(x),
                Err(FeedIdError::OutOfRange) => !(-128 <= v <= 127),
                Err(FeedIdError::Unknown(e)) => -128 <= v <= 127 && MilitaryRating::from_id_result(v as i8)
                    == Err::<MilitaryRating, ParseErrorView>(e@),
            },
    {
        if v < -128 || v > 127 {
            return Err(FeedIdError::OutOfRange);
        }
        match MilitaryRating::from_id(v as i8) {
            Ok(x) => Ok(x),
            Err(e) => Err(FeedIdError::Unknown(e)),
        }
    }
}

} // verus!
