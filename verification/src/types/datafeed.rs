//! Types for the [VATSIM data feed](https://vatsim.dev/api/data-api/get-network-data).
//!
//! The top-level [`DataFeed`] struct mirrors the JSON response and contains
//! vectors of [`Pilot`], [`Controller`], [`Atis`], [`Server`], and [`Prefile`]
//! entries, plus metadata lookup tables. Timestamps are held as their RFC 3339
//! text and floating-point readings as their decimal text.

use vstd::prelude::*;

use crate::types::{CertificateId, ControllerRating, Facility, MilitaryRating, PilotRating};

verus! {

/// The views of a sequence of values.
pub open spec fn views<T: View>(s: Seq<T>) -> Seq<T::V> {
    s.map_values(|x: T| x@)
}

/// The contents of an optional list of strings.
pub open spec fn opt_strings_view(o: Option<Vec<String>>) -> Option<Seq<String>> {
    match o {
        Some(v) => Some(v@),
        None => None,
    }
}

/// A copy of an optional string.
pub fn clone_opt_string(o: &Option<String>) -> (r: Option<String>)
    ensures
        r == *o,
{
    match o {
        Some(s) => Some(s.clone()),
        None => None,
    }
}

/// A copy of a list of strings.
pub fn clone_strings(v: &Vec<String>) -> (r: Vec<String>)
    ensures
        r@ == v@,
{
    let r = v.clone();
    assert(r@ =~= v@);
    r
}

/// A copy of an optional list of strings.
pub fn clone_opt_strings(o: &Option<Vec<String>>) -> (r: Option<Vec<String>>)
    ensures
        opt_strings_view(r) == opt_strings_view(*o),
{
    match o {
        Some(v) => Some(clone_strings(v)),
        None => None,
    }
}

/// ICAO flight rules for a filed flight plan.
#[derive(Debug, Clone, Copy, PartialEq, Eq, Structural, Hash)]
pub enum FlightRules {
    /// Instrument flight rules.
    IFR,
    /// Visual flight rules.
    VFR,
    /// IFR changing to VFR en route (composite flight plan).
    YIFR,
    /// VFR changing to IFR en route (composite flight plan).
    ZVFR,
}

impl Default for FlightRules {
    fn default() -> (r: FlightRules)
        ensures
            r == FlightRules::IFR,
    {
        FlightRules::IFR
    }
}

/// Top-level response from the [VATSIM data feed](https://vatsim.dev/api/data-api/get-network-data).
#[derive(Debug, PartialEq, Eq)]
pub struct DataFeed {
    /// Metadata about this snapshot.
    pub general: GeneralInfo,
    /// Pilots currently connected to the network.
    pub pilots: Vec<Pilot>,
    /// Controllers currently connected to the network.
    pub controllers: Vec<Controller>,
    /// ATIS stations currently broadcasting.
    pub atis: Vec<Atis>,
    /// FSD servers available to connect to.
    pub servers: Vec<Server>,
    /// Flight plans filed without an active connection.
    pub prefiles: Vec<Prefile>,
    /// Lookup table mapping facility IDs to names.
    pub facilities: Vec<FacilityInfo>,
    /// Lookup table mapping controller rating IDs to names.
    pub ratings: Vec<RatingInfo>,
    /// Lookup table mapping pilot rating IDs to names.
    pub pilot_ratings: Vec<PilotRatingInfo>,
    /// Lookup table mapping military rating IDs to names.
    pub military_ratings: Vec<MilitaryRatingInfo>,
}

/// The mathematical value of a [`DataFeed`]: its lists taken by their contents.
pub struct DataFeedView {
    pub general: GeneralInfo,
    pub pilots: Seq<Pilot>,
    pub controllers: Seq<ControllerView>,
    pub atis: Seq<AtisView>,
    pub servers: Seq<Server>,
    pub prefiles: Seq<Prefile>,
    pub facilities: Seq<FacilityInfo>,
    pub ratings: Seq<RatingInfo>,
    pub pilot_ratings: Seq<PilotRatingInfo>,
    pub military_ratings: Seq<MilitaryRatingInfo>,
}

impl View for DataFeed {
    type V = DataFeedView;

    open spec fn view(&self) -> DataFeedView {
        DataFeedView {
            general: self.general,
            pilots: self.pilots@,
            controllers: views(self.controllers@),
            atis: views(self.atis@),
            servers: self.servers@,
            prefiles: self.prefiles@,
            facilities: self.facilities@,
            ratings: self.ratings@,
            pilot_ratings: self.pilot_ratings@,
            military_ratings: self.military_ratings@,
        }
    }
}

impl Default for DataFeed {
    fn default() -> (r: DataFeed)
        ensures
            r@.pilots.len() == 0,
            r@.controllers.len() == 0,
            r@.atis.len() == 0,
            r@.servers.len() == 0,
            r@.prefiles.len() == 0,
            r@.facilities.len() == 0,
            r@.ratings.len() == 0,
            r@.pilot_ratings.len() == 0,
            r@.military_ratings.len() == 0,
            r.general.version == 0,
            r.general.update_timestamp@ == Seq::<char>::empty(),
            r.general.connected_clients == 0,
            r.general.unique_users == 0,
    {
        DataFeed {
            general: GeneralInfo::default(),
            pilots: Vec::new(),
            controllers: Vec::new(),
            atis: Vec::new(),
            servers: Vec::new(),
            prefiles: Vec::new(),
            facilities: Vec::new(),
            ratings: Vec::new(),
            pilot_ratings: Vec::new(),
            military_ratings: Vec::new(),
        }
    }
}

/// General metadata about the current data feed snapshot.
#[derive(Debug, PartialEq, Eq)]
pub struct GeneralInfo {
    /// Data feed schema version, currently always 3.
    pub version: u32,
    /// When the data feed was last generated, as RFC 3339 text.
    pub update_timestamp: String,
    /// Total clients (pilots + controllers + ATIS) connected
    pub connected_clients: u32,
    /// Total unique users connected
    pub unique_users: u32,
}

impl View for GeneralInfo {
    type V = GeneralInfo;

    open spec fn view(&self) -> GeneralInfo {
        *self
    }
}

impl Clone for GeneralInfo {
    fn clone(&self) -> (r: GeneralInfo)
        ensures
            r == *self,
    {
        GeneralInfo {
            version: self.version,
            update_timestamp: self.update_timestamp.clone(),
            connected_clients: self.connected_clients,
            unique_users: self.unique_users,
        }
    }
}

impl Default for GeneralInfo {
    fn default() -> (r: GeneralInfo)
        ensures
            r.version == 0,
            r.update_timestamp@ == Seq::<char>::empty(),
            r.connected_clients == 0,
            r.unique_users == 0,
    {
        GeneralInfo {
            version: 0,
            update_timestamp: String::new(),
            connected_clients: 0,
            unique_users: 0,
        }
    }
}

/// A pilot currently connected to the VATSIM network.
#[derive(Debug, PartialEq, Eq)]
pub struct Pilot {
    /// The pilot's VATSIM certificate ID.
    pub cid: CertificateId,
    /// The pilot's full name, or their CID if they hide it.
    pub name: String,
    /// Callsign the pilot is connected as, e.g. "AUA123".
    pub callsign: String,
    /// Ident of the FSD server the pilot is connected to.
    pub server: String,
    /// The pilot's civilian rating.
    pub pilot_rating: PilotRating,
    /// The pilot's military rating.
    pub military_rating: MilitaryRating,
    /// Latitude in decimal degrees, as decimal text (`0` by default).
    pub latitude: String,
    /// Longitude in decimal degrees, as decimal text (`0` by default).
    pub longitude: String,
    /// Altitude in feet MSL
    pub altitude: i32,
    /// Ground speed in knots
    pub groundspeed: u32,
    /// Squawk code as four octal digits, e.g. "2000".
    pub transponder: String,
    /// Heading in degrees magnetic
    pub heading: u16,
    /// QNH in inches of mercury, as decimal text.
    pub qnh_i_hg: String,
    /// QNH in millibars
    pub qnh_mb: u32,
    /// Filed flight plan, if present
    pub flight_plan: Option<FlightPlan>,
    /// When the pilot connected to the network, as RFC 3339 text.
    pub logon_time: String,
    /// When this entry was last refreshed, as RFC 3339 text.
    pub last_updated: String,
}

impl View for Pilot {
    type V = Pilot;

    open spec fn view(&self) -> Pilot {
        *self
    }
}

impl Clone for Pilot {
    fn clone(&self) -> (r: Pilot)
        ensures
            r == *self,
    {
        Pilot {
            cid: self.cid,
            name: self.name.clone(),
            callsign: self.callsign.clone(),
            server: self.server.clone(),
            pilot_rating: self.pilot_rating,
            military_rating: self.military_rating,
            latitude: self.latitude.clone(),
            longitude: self.longitude.clone(),
            altitude: self.altitude,
            groundspeed: self.groundspeed,
            transponder: self.transponder.clone(),
            heading: self.heading,
            qnh_i_hg: self.qnh_i_hg.clone(),
            qnh_mb: self.qnh_mb,
            flight_plan: match &self.flight_plan {
                Some(x) => Some(x.clone()),
                None => None,
            },
            logon_time: self.logon_time.clone(),
            last_updated: self.last_updated.clone(),
        }
    }
}

/// The text of the number zero.
fn zero_text() -> (r: String)
    ensures
        r@ == seq!['0'],
{
    let mut r = String::new();
    r.push('0');
    r
}

impl Default for Pilot {
    fn default() -> (r: Pilot)
        ensures
            r.cid@ == 0,
            r.pilot_rating == PilotRating::BasicMember,
            r.military_rating == MilitaryRating::NoMilitaryRating,
            r.name@ == Seq::<char>::empty(),
            r.callsign@ == Seq::<char>::empty(),
            r.server@ == Seq::<char>::empty(),
            r.latitude@ == seq!['0'],
            r.longitude@ == seq!['0'],
            r.altitude == 0,
            r.groundspeed == 0,
            r.transponder@ == Seq::<char>::empty(),
            r.heading == 0,
            r.qnh_i_hg@ == seq!['0'],
            r.qnh_mb == 0,
            r.flight_plan is None,
            r.logon_time@ == Seq::<char>::empty(),
            r.last_updated@ == Seq::<char>::empty(),
    {
        Pilot {
            cid: CertificateId::default(),
            name: String::new(),
            callsign: String::new(),
            server: String::new(),
            pilot_rating: PilotRating::default(),
            military_rating: MilitaryRating::default(),
            latitude: zero_text(),
            longitude: zero_text(),
            altitude: 0,
            groundspeed: 0,
            transponder: String::new(),
            heading: 0,
            qnh_i_hg: zero_text(),
            qnh_mb: 0,
            flight_plan: None,
            logon_time: String::new(),
            last_updated: String::new(),
        }
    }
}

/// An ATC controller currently connected to the VATSIM network.
#[derive(Debug, PartialEq, Eq)]
pub struct Controller {
    /// The controller's VATSIM certificate ID.
    pub cid: CertificateId,
    /// The controller's full name, or their CID if they hide it.
    pub name: String,
    /// Callsign the controller is connected as, e.g. "LOWW_TWR".
    pub callsign: String,
    /// Frequency in MHz, e.g. "121.500"
    pub frequency: String,
    /// Facility type, derived from the callsign suffix.
    pub facility: Facility,
    /// The controller's ATC rating.
    pub rating: ControllerRating,
    /// Ident of the FSD server the controller is connected to.
    pub server: String,
    /// Visual range in nautical miles
    pub visual_range: u32,
    /// ATIS/controller info lines, if any
    pub text_atis: Option<Vec<String>>,
    /// When this entry was last refreshed, as RFC 3339 text.
    pub last_updated: String,
    /// When the controller connected to the network, as RFC 3339 text.
    pub logon_time: String,
}

/// The mathematical value of a [`Controller`]: its lists are taken by their contents.
pub struct ControllerView {
    pub cid: CertificateId,
    pub name: String,
    pub callsign: String,
    pub frequency: String,
    pub facility: Facility,
    pub rating: ControllerRating,
    pub server: String,
    pub visual_range: u32,
    pub text_atis: Option<Seq<String>>,
    pub last_updated: String,
    pub logon_time: String,
}

impl View for Controller {
    type V = ControllerView;

    open spec fn view(&self) -> ControllerView {
        ControllerView {
            cid: self.cid,
            name: self.name,
            callsign: self.callsign,
            frequency: self.frequency,
            facility: self.facility,
            rating: self.rating,
            server: self.server,
            visual_range: self.visual_range,
            text_atis: opt_strings_view(self.text_atis),
            last_updated: self.last_updated,
            logon_time: self.logon_time,
        }
    }
}

impl Clone for Controller {
    fn clone(&self) -> (r: Controller)
        ensures
            r@ == self@,
    {
        Controller {
            cid: self.cid,
            name: self.name.clone(),
            callsign: self.callsign.clone(),
            frequency: self.frequency.clone(),
            facility: self.facility,
            rating: self.rating,
            server: self.server.clone(),
            visual_range: self.visual_range,
            text_atis: clone_opt_strings(&self.text_atis),
            last_updated: self.last_updated.clone(),
            logon_time: self.logon_time.clone(),
        }
    }
}

impl Default for Controller {
    fn default() -> (r: Controller)
        ensures
            r.cid@ == 0,
            r.facility == Facility::Observer,
            r.rating == ControllerRating::Inactive,
            r.name@ == Seq::<char>::empty(),
            r.callsign@ == Seq::<char>::empty(),
            r.frequency@ == Seq::<char>::empty(),
            r.server@ == Seq::<char>::empty(),
            r.visual_range == 0,
            r.text_atis is None,
            r.last_updated@ == Seq::<char>::empty(),
            r.logon_time@ == Seq::<char>::empty(),
    {
        Controller {
            cid: CertificateId::default(),
            name: String::new(),
            callsign: String::new(),
            frequency: String::new(),
            facility: Facility::default(),
            rating: ControllerRating::default(),
            server: String::new(),
            visual_range: 0,
            text_atis: None,
            last_updated: String::new(),
            logon_time: String::new(),
        }
    }
}

/// An ATIS station currently broadcasting on the VATSIM network.
#[derive(Debug, PartialEq, Eq)]
pub struct Atis {
    /// The controller's VATSIM certificate ID.
    pub cid: CertificateId,
    /// The controller's full name, or their CID if they hide it.
    pub name: String,
    /// Callsign of the ATIS connection, e.g. "LOWW_ATIS".
    pub callsign: String,
    /// Frequency in MHz, e.g. "121.500"
    pub frequency: String,
    /// Facility type, derived from the callsign suffix.
    pub facility: Facility,
    /// The controller's ATC rating.
    pub rating: ControllerRating,
    /// Ident of the FSD server the ATIS is connected to.
    pub server: String,
    /// Visual range in nautical miles.
    pub visual_range: u32,
    /// Current ATIS phonetic letter, e.g. "A"
    pub atis_code: Option<String>,
    /// The ATIS text, split into lines.
    pub text_atis: Option<Vec<String>>,
    /// When this entry was last refreshed, as RFC 3339 text.
    pub last_updated: String,
    /// When the ATIS connected to the network, as RFC 3339 text.
    pub logon_time: String,
}

/// The mathematical value of a [`Atis`]: its lists are taken by their contents.
pub struct AtisView {
    pub cid: CertificateId,
    pub name: String,
    pub callsign: String,
    pub frequency: String,
    pub facility: Facility,
    pub rating: ControllerRating,
    pub server: String,
    pub visual_range: u32,
    pub atis_code: Option<String>,
    pub text_atis: Option<Seq<String>>,
    pub last_updated: String,
    pub logon_time: String,
}

impl View for Atis {
    type V = AtisView;

    open spec fn view(&self) -> AtisView {
        AtisView {
            cid: self.cid,
            name: self.name,
            callsign: self.callsign,
            frequency: self.frequency,
            facility: self.facility,
            rating: self.rating,
            server: self.server,
            visual_range: self.visual_range,
            atis_code: self.atis_code,
            text_atis: opt_strings_view(self.text_atis),
            last_updated: self.last_updated,
            logon_time: self.logon_time,
        }
    }
}

impl Clone for Atis {
    fn clone(&self) -> (r: Atis)
        ensures
            r@ == self@,
    {
        Atis {
            cid: self.cid,
            name: self.name.clone(),
            callsign: self.callsign.clone(),
            frequency: self.frequency.clone(),
            facility: self.facility,
            rating: self.rating,
            server: self.server.clone(),
            visual_range: self.visual_range,
            atis_code: clone_opt_string(&self.atis_code),
            text_atis: clone_opt_strings(&self.text_atis),
            last_updated: self.last_updated.clone(),
            logon_time: self.logon_time.clone(),
        }
    }
}

impl Default for Atis {
    fn default() -> (r: Atis)
        ensures
            r.cid@ == 0,
            r.facility == Facility::Observer,
            r.rating == ControllerRating::Inactive,
            r.name@ == Seq::<char>::empty(),
            r.callsign@ == Seq::<char>::empty(),
            r.frequency@ == Seq::<char>::empty(),
            r.server@ == Seq::<char>::empty(),
            r.visual_range == 0,
            r.atis_code is None,
            r.text_atis is None,
            r.last_updated@ == Seq::<char>::empty(),
            r.logon_time@ == Seq::<char>::empty(),
    {
        Atis {
            cid: CertificateId::default(),
            name: String::new(),
            callsign: String::new(),
            frequency: String::new(),
            facility: Facility::default(),
            rating: ControllerRating::default(),
            server: String::new(),
            visual_range: 0,
            atis_code: None,
            text_atis: None,
            last_updated: String::new(),
            logon_time: String::new(),
        }
    }
}

/// A VATSIM FSD server.
#[derive(Debug, PartialEq, Eq)]
pub struct Server {
    /// Short server identifier used in pilot and controller entries, e.g. "GERMANY-1".
    pub ident: String,
    /// Hostname or IP address clients connect to.
    pub hostname_or_ip: String,
    /// Geographic location of the server.
    pub location: String,
    /// Human-readable server name.
    pub name: String,
    /// Whether this server is currently accepting connections
    pub client_connections_allowed: bool,
    /// Whether this server is a sweatbox (training) server
    pub is_sweatbox: bool,
}

impl View for Server {
    type V = Server;

    open spec fn view(&self) -> Server {
        *self
    }
}

impl Clone for Server {
    fn clone(&self) -> (r: Server)
        ensures
            r == *self,
    {
        Server {
            ident: self.ident.clone(),
            hostname_or_ip: self.hostname_or_ip.clone(),
            location: self.location.clone(),
            name: self.name.clone(),
            client_connections_allowed: self.client_connections_allowed,
            is_sweatbox: self.is_sweatbox,
        }
    }
}

impl Default for Server {
    fn default() -> (r: Server)
        ensures
            r.ident@ == Seq::<char>::empty(),
            r.hostname_or_ip@ == Seq::<char>::empty(),
            r.location@ == Seq::<char>::empty(),
            r.name@ == Seq::<char>::empty(),
            !r.client_connections_allowed,
            !r.is_sweatbox,
    {
        Server {
            ident: String::new(),
            hostname_or_ip: String::new(),
            location: String::new(),
            name: String::new(),
            client_connections_allowed: false,
            is_sweatbox: false,
        }
    }
}

/// A prefiled flight plan not yet associated with an active connection
#[derive(Debug, PartialEq, Eq)]
pub struct Prefile {
    /// The filer's VATSIM certificate ID.
    pub cid: CertificateId,
    /// The filer's full name, or their CID if they hide it.
    pub name: String,
    /// Callsign the flight plan was filed for.
    pub callsign: String,
    /// The filed flight plan.
    pub flight_plan: FlightPlan,
    /// When this entry was last refreshed, as RFC 3339 text.
    pub last_updated: String,
}

impl View for Prefile {
    type V = Prefile;

    open spec fn view(&self) -> Prefile {
        *self
    }
}

impl Clone for Prefile {
    fn clone(&self) -> (r: Prefile)
        ensures
            r == *self,
    {
        Prefile {
            cid: self.cid,
            name: self.name.clone(),
            callsign: self.callsign.clone(),
            flight_plan: self.flight_plan.clone(),
            last_updated: self.last_updated.clone(),
        }
    }
}

impl Default for Prefile {
    fn default() -> (r: Prefile)
        ensures
            r.cid@ == 0,
            r.name@ == Seq::<char>::empty(),
            r.callsign@ == Seq::<char>::empty(),
            r.flight_plan.is_blank(),
            r.last_updated@ == Seq::<char>::empty(),
    {
        Prefile {
            cid: CertificateId::default(),
            name: String::new(),
            callsign: String::new(),
            flight_plan: FlightPlan::default(),
            last_updated: String::new(),
        }
    }
}

/// A filed flight plan.
#[derive(Debug, PartialEq, Eq)]
pub struct FlightPlan {
    /// Flight rules the flight plan was filed under.
    pub flight_rules: FlightRules,
    /// ICAO aircraft type and equipment suffix, e.g. "B764/H-SDE3FGHIM3RWXY/LB1"
    pub aircraft: String,
    /// FAA aircraft type, e.g. "B764/L"
    pub aircraft_faa: String,
    /// ICAO aircraft type designator only, e.g. "B764"
    pub aircraft_short: String,
    /// ICAO code of the departure aerodrome.
    pub departure: String,
    /// ICAO code of the destination aerodrome.
    pub arrival: String,
    /// ICAO code of the alternate aerodrome, empty if none was filed.
    pub alternate: String,
    /// Estimated off-block time, e.g. "1430"
    pub deptime: String,
    /// Estimated time enroute, e.g. "0615"
    pub enroute_time: String,
    /// Fuel endurance, e.g. "0745"
    pub fuel_time: String,
    /// Free-text remarks, including the ICAO field 18 items.
    pub remarks: String,
    /// Filed route, as a space-separated string of waypoints and airways.
    pub route: String,
    /// Revision number, incremented each time the flight plan is refiled.
    pub revision_id: u32,
    /// Squawk code assigned to this flight plan.
    pub assigned_transponder: String,
}

impl View for FlightPlan {
    type V = FlightPlan;

    open spec fn view(&self) -> FlightPlan {
        *self
    }
}

impl Clone for FlightPlan {
    fn clone(&self) -> (r: FlightPlan)
        ensures
            r == *self,
    {
        FlightPlan {
            flight_rules: self.flight_rules,
            aircraft: self.aircraft.clone(),
            aircraft_faa: self.aircraft_faa.clone(),
            aircraft_short: self.aircraft_short.clone(),
            departure: self.departure.clone(),
            arrival: self.arrival.clone(),
            alternate: self.alternate.clone(),
            deptime: self.deptime.clone(),
            enroute_time: self.enroute_time.clone(),
            fuel_time: self.fuel_time.clone(),
            remarks: self.remarks.clone(),
            route: self.route.clone(),
            revision_id: self.revision_id,
            assigned_transponder: self.assigned_transponder.clone(),
        }
    }
}

impl FlightPlan {
    /// IFR, with every text empty and revision 0.
    pub open spec fn is_blank(self) -> bool {
        &&& self.flight_rules == FlightRules::IFR
        &&& self.aircraft@ == Seq::<char>::empty()
        &&& self.aircraft_faa@ == Seq::<char>::empty()
        &&& self.aircraft_short@ == Seq::<char>::empty()
        &&& self.departure@ == Seq::<char>::empty()
        &&& self.arrival@ == Seq::<char>::empty()
        &&& self.alternate@ == Seq::<char>::empty()
        &&& self.deptime@ == Seq::<char>::empty()
        &&& self.enroute_time@ == Seq::<char>::empty()
        &&& self.fuel_time@ == Seq::<char>::empty()
        &&& self.remarks@ == Seq::<char>::empty()
        &&& self.route@ == Seq::<char>::empty()
        &&& self.revision_id == 0
        &&& self.assigned_transponder@ == Seq::<char>::empty()
    }
}

impl Default for FlightPlan {
    fn default() -> (r: FlightPlan)
        ensures
            r.is_blank(),
    {
        FlightPlan {
            flight_rules: FlightRules::default(),
            aircraft: String::new(),
            aircraft_faa: String::new(),
            aircraft_short: String::new(),
            departure: String::new(),
            arrival: String::new(),
            alternate: String::new(),
            deptime: String::new(),
            enroute_time: String::new(),
            fuel_time: String::new(),
            remarks: String::new(),
            route: String::new(),
            revision_id: 0,
            assigned_transponder: String::new(),
        }
    }
}

/// Human-readable metadata for a facility type, as returned in the datafeed
#[derive(Debug, PartialEq, Eq)]
pub struct FacilityInfo {
    /// Numeric facility ID as used on controller and ATIS entries.
    pub id: i8,
    /// Short code, e.g. "TWR".
    pub short: String,
    /// Full name, e.g. "Tower".
    pub long: String,
}

impl View for FacilityInfo {
    type V = FacilityInfo;

    open spec fn view(&self) -> FacilityInfo {
        *self
    }
}

impl Clone for FacilityInfo {
    fn clone(&self) -> (r: FacilityInfo)
        ensures
            r == *self,
    {
        FacilityInfo {
            id: self.id,
            short: self.short.clone(),
            long: self.long.clone(),
        }
    }
}

impl Default for FacilityInfo {
    fn default() -> (r: FacilityInfo)
        ensures
            r.id == 0,
            r.short@ == Seq::<char>::empty(),
            r.long@ == Seq::<char>::empty(),
    {
        FacilityInfo {
            id: 0,
            short: String::new(),
            long: String::new(),
        }
    }
}

/// Human-readable metadata for a controller rating, as returned in the datafeed
#[derive(Debug, PartialEq, Eq)]
pub struct RatingInfo {
    /// Numeric rating ID as used on controller and ATIS entries.
    pub id: i8,
    /// Short code, e.g. "C1".
    pub short: String,
    /// Full name, e.g. "Enroute".
    pub long: String,
}

impl View for RatingInfo {
    type V = RatingInfo;

    open spec fn view(&self) -> RatingInfo {
        *self
    }
}

impl Clone for RatingInfo {
    fn clone(&self) -> (r: RatingInfo)
        ensures
            r == *self,
    {
        RatingInfo {
            id: self.id,
            short: self.short.clone(),
            long: self.long.clone(),
        }
    }
}

impl Default for RatingInfo {
    fn default() -> (r: RatingInfo)
        ensures
            r.id == 0,
            r.short@ == Seq::<char>::empty(),
            r.long@ == Seq::<char>::empty(),
    {
        RatingInfo {
            id: 0,
            short: String::new(),
            long: String::new(),
        }
    }
}

/// Human-readable metadata for a pilot rating, as returned in the datafeed
#[derive(Debug, PartialEq, Eq)]
pub struct PilotRatingInfo {
    /// Numeric rating ID as used on pilot entries.
    pub id: i8,
    /// Short code, e.g. "PPL".
    pub short_name: String,
    /// Full name, e.g. "Private Pilot Licence".
    pub long_name: String,
}

impl View for PilotRatingInfo {
    type V = PilotRatingInfo;

    open spec fn view(&self) -> PilotRatingInfo {
        *self
    }
}

impl Clone for PilotRatingInfo {
    fn clone(&self) -> (r: PilotRatingInfo)
        ensures
            r == *self,
    {
        PilotRatingInfo {
            id: self.id,
            short_name: self.short_name.clone(),
            long_name: self.long_name.clone(),
        }
    }
}

impl Default for PilotRatingInfo {
    fn default() -> (r: PilotRatingInfo)
        ensures
            r.id == 0,
            r.short_name@ == Seq::<char>::empty(),
            r.long_name@ == Seq::<char>::empty(),
    {
        PilotRatingInfo {
            id: 0,
            short_name: String::new(),
            long_name: String::new(),
        }
    }
}

/// Human-readable metadata for a military rating, as returned in the datafeed
#[derive(Debug, PartialEq, Eq)]
pub struct MilitaryRatingInfo {
    /// Numeric rating ID as used on pilot entries.
    pub id: i8,
    /// Short code, e.g. "M1".
    pub short_name: String,
    /// Full name, e.g. "Military Pilot License".
    pub long_name: String,
}

impl View for MilitaryRatingInfo {
    type V = MilitaryRatingInfo;

    open spec fn view(&self) -> MilitaryRatingInfo {
        *self
    }
}

impl Clone for MilitaryRatingInfo {
    fn clone(&self) -> (r: MilitaryRatingInfo)
        ensures
            r == *self,
    {
        MilitaryRatingInfo {
            id: self.id,
            short_name: self.short_name.clone(),
            long_name: self.long_name.clone(),
        }
    }
}

impl Default for MilitaryRatingInfo {
    fn default() -> (r: MilitaryRatingInfo)
        ensures
            r.id == 0,
            r.short_name@ == Seq::<char>::empty(),
            r.long_name@ == Seq::<char>::empty(),
    {
        MilitaryRatingInfo {
            id: 0,
            short_name: String::new(),
            long_name: String::new(),
        }
    }
}


/// A value that can be copied with its view kept.
pub trait Duplicate: View + Sized {
    fn duplicate(&self) -> (r: Self)
        ensures
            r@ == self@,
    ;
}

/// A copy of a list, element by element.
pub fn duplicate_all<T: Duplicate>(v: &Vec<T>) -> (r: Vec<T>)
    ensures
        views(r@) == views(v@),
{
    let mut r: Vec<T> = Vec::new();
    let mut i: usize = 0;
    while i < v.len()
        invariant
            i <= v@.len(),
            views(r@) == views(v@).take(i as int),
        decreases v@.len() - i,
    {
        let ghost before = views(r@);
        r.push(v[i].duplicate());
        assert(views(r@) =~= before.push(views(v@)[i as int]));
        assert(views(v@).take(i + 1) =~= views(v@).take(i as int).push(views(v@)[i as int]));
        i = i + 1;
    }
    assert(views(v@).take(v@.len() as int) =~= views(v@));
    r
}

impl Duplicate for Pilot {
    fn duplicate(&self) -> (r: Pilot) {
        self.clone()
    }
}

impl Duplicate for Controller {
    fn duplicate(&self) -> (r: Controller) {
        self.clone()
    }
}

impl Duplicate for Atis {
    fn duplicate(&self) -> (r: Atis) {
        self.clone()
    }
}

impl Duplicate for Server {
    fn duplicate(&self) -> (r: Server) {
        self.clone()
    }
}

impl Duplicate for Prefile {
    fn duplicate(&self) -> (r: Prefile) {
        self.clone()
    }
}

impl Duplicate for FacilityInfo {
    fn duplicate(&self) -> (r: FacilityInfo) {
        self.clone()
    }
}

impl Duplicate for RatingInfo {
    fn duplicate(&self) -> (r: RatingInfo) {
        self.clone()
    }
}

impl Duplicate for PilotRatingInfo {
    fn duplicate(&self) -> (r: PilotRatingInfo) {
        self.clone()
    }
}

impl Duplicate for MilitaryRatingInfo {
    fn duplicate(&self) -> (r: MilitaryRatingInfo) {
        self.clone()
    }
}


impl Clone for DataFeed {
    fn clone(&self) -> (r: DataFeed)
        ensures
            r@ == self@,
    {
        let r = DataFeed {
            general: self.general.clone(),
            pilots: duplicate_all(&self.pilots),
            controllers: duplicate_all(&self.controllers),
            atis: duplicate_all(&self.atis),
            servers: duplicate_all(&self.servers),
            prefiles: duplicate_all(&self.prefiles),
            facilities: duplicate_all(&self.facilities),
            ratings: duplicate_all(&self.ratings),
            pilot_ratings: duplicate_all(&self.pilot_ratings),
            military_ratings: duplicate_all(&self.military_ratings),
        };
        assert(r.pilots@ =~= views(r.pilots@) && self.pilots@ =~= views(self.pilots@));
        assert(r.servers@ =~= views(r.servers@) && self.servers@ =~= views(self.servers@));
        assert(r.prefiles@ =~= views(r.prefiles@) && self.prefiles@ =~= views(self.prefiles@));
        assert(r.facilities@ =~= views(r.facilities@) && self.facilities@ =~= views(
            self.facilities@,
        ));
        assert(r.ratings@ =~= views(r.ratings@) && self.ratings@ =~= views(self.ratings@));
        assert(r.pilot_ratings@ =~= views(r.pilot_ratings@) && self.pilot_ratings@ =~= views(
            self.pilot_ratings@,
        ));
        assert(r.military_ratings@ =~= views(r.military_ratings@) && self.military_ratings@
            =~= views(self.military_ratings@));
        r
    }
}

} // verus!
