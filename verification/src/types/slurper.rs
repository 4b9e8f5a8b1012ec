//! Types for the [VATSIM slurper API](https://vatsim.dev/api/slurper-api/get-user-info).
//!
//! The slurper endpoint returns CSV, not JSON. Each line describes one active
//! connection for a user. [`UserConnection`] models a single line; it is read
//! by [`UserConnection::parse_line`] and written by
//! [`UserConnection::to_csv_line`].
//!
//! Coordinates are held as their decimal text, exactly as the line carried
//! it; every such text is one that `f64::from_str` accepts.

use vstd::prelude::*;

use crate::error::{csv_fault_text, result_view, CsvFault, CsvFaultView, ParseError, ParseErrorView};
use crate::number::{
    float_fault, float_fault_of, u32_fault, u32_fault_of,
    decimal_chars, decimal_text, is_float_chars, is_float_text, parse_u32, parse_u32_spec,
};
use crate::text::{
    chars_eq_str, chars_of, is_ws, joined, lemma_joined_first, lemma_joined_last,
    lemma_split_joined, lemma_trim_end_char_one, lemma_trim_plain, lines, lines_of, lower_chars,
    lower_seq, seqs_of, split, split_chars, string_of, strip_cr, trim, trim_chars, trim_end_char,
    trim_end_matching,
};
use crate::types::CertificateId;

verus! {

/// The facility type reported by the slurper API for each connection.
#[derive(Debug, Clone, Copy, PartialEq, Eq, Structural, Hash, PartialOrd, Ord)]
pub enum SlurperFacilityType {
    Pilot,
    Atc,
}

impl View for SlurperFacilityType {
    type V = SlurperFacilityType;

    open spec fn view(&self) -> SlurperFacilityType {
        *self
    }
}

impl Default for SlurperFacilityType {
    fn default() -> (r: Self)
        ensures
            r == SlurperFacilityType::Pilot,
    {
        SlurperFacilityType::Pilot
    }
}

impl SlurperFacilityType {
    /// The lower-case name the slurper uses for this type.
    pub open spec fn name(self) -> Seq<char> {
        match self {
            SlurperFacilityType::Pilot => "pilot"@,
            SlurperFacilityType::Atc => "atc"@,
        }
    }

    /// The type named by a lower-cased name.
    pub open spec fn from_lower(l: Seq<char>) -> Option<SlurperFacilityType> {
        if l == "pilot"@ {
            Some(SlurperFacilityType::Pilot)
        } else if l == "atc"@ {
            Some(SlurperFacilityType::Atc)
        } else {
            None
        }
    }

    /// What parsing `s` gives: its ASCII lower-cased form is looked up, and an
    /// unknown name is reported as given.
    pub open spec fn parse_spec(s: Seq<char>) -> Result<SlurperFacilityType, ParseErrorView> {
        match SlurperFacilityType::from_lower(lower_seq(s)) {
            Some(t) => Ok(t),
            None => Err(
                ParseErrorView::UnknownValue { kind: "slurper facility type"@, value: s },
            ),
        }
    }

    /// Returns the lower-case name of this type.
    pub fn as_str(self) -> (r: &'static str)
        ensures
            r@ == self.name(),
    {
        match self {
            SlurperFacilityType::Pilot => "pilot",
            SlurperFacilityType::Atc => "atc",
        }
    }

    /// The lower-case name, as the type's `Display` writes it.
    pub fn to_string(self) -> (r: String)
        ensures
            r@ == self.name(),
    {
        String::from_str(self.as_str())
    }

    /// Parses a name given as characters, ignoring ASCII case.
    pub fn from_chars(s: &[char]) -> (r: Result<SlurperFacilityType, ParseError>)
        ensures
            result_view(r) == SlurperFacilityType::parse_spec(s@),
    {
        let l = lower_chars(s);
        if chars_eq_str(&l, "pilot") {
            Ok(SlurperFacilityType::Pilot)
        } else if chars_eq_str(&l, "atc") {
            Ok(SlurperFacilityType::Atc)
        } else {
            Err(ParseError::UnknownValue { kind: "slurper facility type", value: string_of(s) })
        }
    }

    /// Parses a name, ignoring ASCII case.
    pub fn from_text(s: &str) -> (r: Result<SlurperFacilityType, ParseError>)
        ensures
            result_view(r) == SlurperFacilityType::parse_spec(s@),
    {
        SlurperFacilityType::from_chars(&chars_of(s))
    }

    /// Writing a type's name and parsing it back gives the type.
    pub proof fn lemma_name_parses(t: SlurperFacilityType)
        ensures
            SlurperFacilityType::parse_spec(t.name()) == Ok::<SlurperFacilityType, ParseErrorView>(t),
    {
        reveal_strlit("pilot");
        reveal_strlit("atc");
        assert(lower_seq(t.name()) =~= t.name());
    }
}

impl core::str::FromStr for SlurperFacilityType {
    type Err = ParseError;

    fn from_str(s: &str) -> (r: Result<SlurperFacilityType, ParseError>)
        ensures
            result_view(r) == SlurperFacilityType::parse_spec(s@),
    {
        SlurperFacilityType::from_text(s)
    }
}

/// A single row from the slurper CSV response.
///
/// The CSV fields are
/// `CID,Callsign,FacilityType,Frequency,VisualRange,Lat,Lon[,SecLat,SecLon,...],`.
/// Pilots have empty frequency and visual-range fields; controllers may have
/// zero or more secondary-position lat/lon pairs appended.
#[derive(Debug, Clone, PartialEq)]
pub struct UserConnection {
    pub cid: CertificateId,
    pub callsign: String,
    pub facility_type: SlurperFacilityType,
    /// MHz frequency string (e.g. `"121.900"`) - [`None`] for pilots.
    pub frequency: Option<String>,
    /// Visual range in nautical miles - [`None`] for pilots.
    pub visual_range: Option<u32>,
    /// Latitude in decimal degrees, as decimal text.
    pub latitude: String,
    /// Longitude in decimal degrees, as decimal text.
    pub longitude: String,
    /// Secondary positions as lat/lon pairs of decimal text.
    pub secondary_positions: Vec<(String, String)>,
}

/// The mathematical value of a [`UserConnection`].
pub struct UserConnectionView {
    pub cid: u32,
    pub callsign: Seq<char>,
    pub facility_type: SlurperFacilityType,
    pub frequency: Option<Seq<char>>,
    pub visual_range: Option<u32>,
    pub latitude: Seq<char>,
    pub longitude: Seq<char>,
    pub secondary_positions: Seq<(Seq<char>, Seq<char>)>,
}

/// The text held by an optional string.
pub open spec fn opt_view(o: Option<String>) -> Option<Seq<char>> {
    match o {
        Some(s) => Some(s@),
        None => None,
    }
}

/// The texts held by a sequence of pairs of strings.
pub open spec fn pairs_view(v: Seq<(String, String)>) -> Seq<(Seq<char>, Seq<char>)> {
    v.map_values(|p: (String, String)| (p.0@, p.1@))
}

impl View for UserConnection {
    type V = UserConnectionView;

    open spec fn view(&self) -> UserConnectionView {
        UserConnectionView {
            cid: self.cid@,
            callsign: self.callsign@,
            facility_type: self.facility_type,
            frequency: opt_view(self.frequency),
            visual_range: self.visual_range,
            latitude: self.latitude@,
            longitude: self.longitude@,
            secondary_positions: pairs_view(self.secondary_positions@),
        }
    }
}

/// The fields of a line: trailing commas, then surrounding whitespace,
/// removed, and the rest split on commas.
pub open spec fn csv_fields(s: Seq<char>) -> Seq<Seq<char>> {
    split(trim(trim_end_char(s, ',')), ',')
}

/// A field's trimmed text, or `None` when nothing is left of it.
pub open spec fn non_empty_spec(f: Seq<char>) -> Option<Seq<char>> {
    if trim(f).len() == 0 {
        None
    } else {
        Some(trim(f))
    }
}

/// The error for line `line` with the given fault, reported by its text.
pub open spec fn csv_error(line: usize, fault: CsvFaultView) -> ParseErrorView {
    ParseErrorView::InvalidSlurperCsv { line, reason: csv_fault_text(fault) }
}

/// The secondary positions that the fields after the seventh give: they are
/// read in pairs, a pair of two `0` fields is padding and skipped, an odd last
/// field is ignored, and the first unreadable coordinate is the fault.
pub open spec fn secondary_spec(extra: Seq<Seq<char>>) -> Result<
    Seq<(Seq<char>, Seq<char>)>,
    CsvFaultView,
>
    decreases extra.len(),
{
    if extra.len() < 2 {
        Ok(Seq::empty())
    } else {
        let lat = trim(extra[0]);
        let lon = trim(extra[1]);
        if lat == seq!['0'] && lon == seq!['0'] {
            secondary_spec(extra.skip(2))
        } else if !is_float_text(lat) {
            Err(CsvFaultView::InvalidSecondaryLatitude { cause: float_fault(lat) })
        } else if !is_float_text(lon) {
            Err(CsvFaultView::InvalidSecondaryLongitude { cause: float_fault(lon) })
        } else {
            match secondary_spec(extra.skip(2)) {
                Ok(rest) => Ok(seq![(lat, lon)] + rest),
                Err(e) => Err(e),
            }
        }
    }
}

/// The visual range a field gives: none when it is blank, its value when it
/// is a `u32`, and a fault otherwise.
pub open spec fn visual_range_spec(f: Seq<char>) -> Result<Option<u32>, CsvFaultView> {
    match non_empty_spec(f) {
        None => Ok(None),
        Some(t) => match parse_u32_spec(t) {
            Some(v) => Ok(Some(v)),
            None => Err(CsvFaultView::InvalidVisualRange { cause: u32_fault(t) }),
        },
    }
}

/// What parsing one slurper CSV line gives, with `line` reported in errors.
pub open spec fn parse_line_spec(s: Seq<char>, line: usize) -> Result<
    UserConnectionView,
    ParseErrorView,
> {
    let f = csv_fields(s);
    if f.len() < 7 {
        Err(csv_error(line, CsvFaultView::TooFewFields { found: f.len() as usize }))
    } else if parse_u32_spec(trim(f[0])) is None {
        Err(csv_error(line, CsvFaultView::InvalidCid { cause: u32_fault(trim(f[0])) }))
    } else if trim(f[1]).len() == 0 {
        Err(csv_error(line, CsvFaultView::EmptyCallsign))
    } else if SlurperFacilityType::parse_spec(trim(f[2])) is Err {
        Err(csv_error(line, CsvFaultView::UnknownFacilityType { value: trim(f[2]) }))
    } else if visual_range_spec(f[4]) is Err {
        Err(csv_error(line, visual_range_spec(f[4])->Err_0))
    } else if !is_float_text(trim(f[5])) {
        Err(csv_error(line, CsvFaultView::InvalidLatitude { cause: float_fault(trim(f[5])) }))
    } else if !is_float_text(trim(f[6])) {
        Err(csv_error(line, CsvFaultView::InvalidLongitude { cause: float_fault(trim(f[6])) }))
    } else {
        match secondary_spec(f.skip(7)) {
            Err(e) => Err(csv_error(line, e)),
            Ok(sec) => Ok(
                UserConnectionView {
                    cid: parse_u32_spec(trim(f[0]))->0,
                    callsign: trim(f[1]),
                    facility_type: SlurperFacilityType::parse_spec(trim(f[2]))->Ok_0,
                    frequency: non_empty_spec(f[3]),
                    visual_range: visual_range_spec(f[4])->Ok_0,
                    latitude: trim(f[5]),
                    longitude: trim(f[6]),
                    secondary_positions: sec,
                },
            ),
        }
    }
}

/// Returns `Some(trimmed)` if the field is non-empty after trimming,
/// `None` otherwise.
pub fn non_empty(field: &str) -> (r: Option<String>)
    ensures
        opt_view(r) == non_empty_spec(field@),
{
    match non_empty_chars(&chars_of(field)) {
        Some(t) => Some(string_of(&t)),
        None => None,
    }
}

/// The trimmed characters of a field, if any are left.
fn non_empty_chars(field: &[char]) -> (r: Option<Vec<char>>)
    ensures
        match r {
            Some(t) => non_empty_spec(field@) == Some(t@),
            None => non_empty_spec(field@) is None,
        },
{
    let trimmed = trim_chars(field);
    if trimmed.len() == 0 {
        None
    } else {
        Some(trimmed)
    }
}

proof fn lemma_skip_pair(f: Seq<Seq<char>>, j: int)
    requires
        0 <= j,
        j + 1 < f.len(),
    ensures
        f.skip(j).skip(2) == f.skip(j + 2),
        f.skip(j)[0] == f[j],
        f.skip(j)[1] == f[j + 1],
        f.skip(j).len() >= 2,
{
    assert(f.skip(j).skip(2) =~= f.skip(j + 2));
}

/// Prefixes an accumulated sequence onto a result.
pub open spec fn prepend<T, E>(acc: Seq<T>, r: Result<Seq<T>, E>) -> Result<Seq<T>, E> {
    match r {
        Ok(rest) => Ok(acc + rest),
        Err(e) => Err(e),
    }
}

fn secondary_positions(f: &Vec<Vec<char>>) -> (r: Result<Vec<(String, String)>, CsvFault>)
    requires
        f@.len() >= 7,
    ensures
        match r {
            Ok(v) => secondary_spec(seqs_of(f@).skip(7)) == Ok::<
                Seq<(Seq<char>, Seq<char>)>,
                CsvFaultView,
            >(pairs_view(v@)),
            Err(e) => secondary_spec(seqs_of(f@).skip(7)) == Err::<
                Seq<(Seq<char>, Seq<char>)>,
                CsvFaultView,
            >(e@),
        },
{
    let ghost fs = seqs_of(f@);
    let n = f.len();
    let mut acc: Vec<(String, String)> = Vec::new();
    let mut j: usize = 7;
    while j < n - 1
        invariant
            fs == seqs_of(f@),
            n == f@.len(),
            7 <= j <= n,
            secondary_spec(fs.skip(7)) == prepend(pairs_view(acc@), secondary_spec(fs.skip(j as int))),
        decreases n - j,
    {
        proof {
            lemma_skip_pair(fs, j as int);
        }
        let lat = trim_chars(&f[j]);
        let lon = trim_chars(&f[j + 1]);
        if lat.len() == 1 && lat[0] == '0' && lon.len() == 1 && lon[0] == '0' {
            assert(lat@ =~= seq!['0'] && lon@ =~= seq!['0']);
            j = j + 2;
        } else {
            assert(!(lat@ == seq!['0'] && lon@ == seq!['0'])) by {
                if lat@ == seq!['0'] && lon@ == seq!['0'] {
                    assert(lat@[0] == '0' && lon@[0] == '0');
                }
            }
            if !is_float_chars(&lat) {
                return Err(CsvFault::InvalidSecondaryLatitude { cause: float_fault_of(&lat) });
            }
            if !is_float_chars(&lon) {
                return Err(CsvFault::InvalidSecondaryLongitude { cause: float_fault_of(&lon) });
            }
            let ghost before = pairs_view(acc@);
            acc.push((string_of(&lat), string_of(&lon)));
            assert(pairs_view(acc@) =~= before.push((lat@, lon@)));
            assert(before.push((lat@, lon@)) =~= before + seq![(lat@, lon@)]);
            proof {
                match secondary_spec(fs.skip(j + 2)) {
                    Ok(rest) => {
                        assert(before + (seq![(lat@, lon@)] + rest) =~= (before + seq![(lat@, lon@)]) + rest);
                    },
                    Err(e) => {},
                }
            }
            j = j + 2;
        }
    }
    assert(secondary_spec(fs.skip(j as int)) == Ok::<Seq<(Seq<char>, Seq<char>)>, CsvFaultView>(Seq::empty()));
    assert(pairs_view(acc@) + Seq::<(Seq<char>, Seq<char>)>::empty() =~= pairs_view(acc@));
    Ok(acc)
}

fn csv_err(line: usize, fault: CsvFault) -> (r: ParseError)
    ensures
        r@ == csv_error(line, fault@),
{
    ParseError::InvalidSlurperCsv { line, reason: fault.text() }
}

impl UserConnection {
    /// Parses a single CSV line from the slurper response, reporting `line`
    /// in any error.
    pub fn parse_line(s: &str, line: usize) -> (r: Result<UserConnection, ParseError>)
        ensures
            result_view(r) == parse_line_spec(s@, line),
    {
        UserConnection::parse_line_chars(&chars_of(s), line)
    }

    /// Parses a single CSV line given as characters.
    pub fn parse_line_chars(s: &[char], line: usize) -> (r: Result<UserConnection, ParseError>)
        ensures
            result_view(r) == parse_line_spec(s@, line),
    {
        let stripped = trim_end_matching(s, ',');
        let trimmed = trim_chars(&stripped);
        let fields = split_chars(&trimmed, ',');
        let ghost f = csv_fields(s@);
        assert(seqs_of(fields@) == f);
        if fields.len() < 7 {
            return Err(csv_err(line, CsvFault::TooFewFields { found: fields.len() }));
        }
        assert(fields@[0]@ == f[0] && fields@[1]@ == f[1] && fields@[2]@ == f[2]);
        assert(fields@[3]@ == f[3] && fields@[4]@ == f[4] && fields@[5]@ == f[5]);
        assert(fields@[6]@ == f[6]);
        let cid_text = trim_chars(&fields[0]);
        let cid = match parse_u32(&cid_text) {
            Some(v) => v,
            None => {
                return Err(csv_err(line, CsvFault::InvalidCid { cause: u32_fault_of(&cid_text) }));
            },
        };
        let callsign = trim_chars(&fields[1]);
        if callsign.len() == 0 {
            return Err(csv_err(line, CsvFault::EmptyCallsign));
        }
        let type_text = trim_chars(&fields[2]);
        let facility_type = match SlurperFacilityType::from_chars(&type_text) {
            Ok(t) => t,
            Err(_) => {
                return Err(
                    csv_err(line, CsvFault::UnknownFacilityType { value: string_of(&type_text) }),
                );
            },
        };
        let frequency = match non_empty_chars(&fields[3]) {
            Some(t) => Some(string_of(&t)),
            None => None,
        };
        let visual_range = match non_empty_chars(&fields[4]) {
            None => None,
            Some(t) => match parse_u32(&t) {
                Some(v) => Some(v),
                None => {
                    return Err(csv_err(line, CsvFault::InvalidVisualRange { cause: u32_fault_of(&t) }));
                },
            },
        };
        let latitude = trim_chars(&fields[5]);
        if !is_float_chars(&latitude) {
            return Err(csv_err(line, CsvFault::InvalidLatitude { cause: float_fault_of(&latitude) }));
        }
        let longitude = trim_chars(&fields[6]);
        if !is_float_chars(&longitude) {
            return Err(csv_err(line, CsvFault::InvalidLongitude { cause: float_fault_of(&longitude) }));
        }
        let secondary = match secondary_positions(&fields) {
            Ok(v) => v,
            Err(e) => {
                return Err(csv_err(line, e));
            },
        };
        let r = UserConnection {
            cid: CertificateId::new(cid),
            callsign: string_of(&callsign),
            facility_type,
            frequency,
            visual_range,
            latitude: string_of(&latitude),
            longitude: string_of(&longitude),
            secondary_positions: secondary,
        };
        assert(opt_view(r.frequency) == non_empty_spec(f[3]));
        Ok(r)
    }
}

/// What parsing a whole slurper response gives, from its line `i` on: lines
/// that are blank after trimming are skipped, every other line is parsed
/// with its index among all lines, and the first error ends the parse.
pub open spec fn connections_from(ls: Seq<Seq<char>>, i: int) -> Result<
    Seq<UserConnectionView>,
    ParseErrorView,
>
    decreases ls.len() - i,
{
    if i >= ls.len() || i < 0 {
        Ok(Seq::empty())
    } else if trim(ls[i]).len() == 0 {
        connections_from(ls, i + 1)
    } else {
        match parse_line_spec(ls[i], i as usize) {
            Err(e) => Err(e),
            Ok(c) => match connections_from(ls, i + 1) {
                Ok(rest) => Ok(seq![c] + rest),
                Err(e) => Err(e),
            },
        }
    }
}

/// The views of a sequence of connections.
pub open spec fn connections_view(v: Seq<UserConnection>) -> Seq<UserConnectionView> {
    v.map_values(|c: UserConnection| c@)
}

/// Parses a whole slurper response body: one connection per non-blank line,
/// each error reporting the index of its line among all lines of the body.
pub fn parse_user_connections(body: &str) -> (r: Result<Vec<UserConnection>, ParseError>)
    ensures
        match r {
            Ok(v) => connections_from(lines(body@), 0) == Ok::<
                Seq<UserConnectionView>,
                ParseErrorView,
            >(connections_view(v@)),
            Err(e) => connections_from(lines(body@), 0) == Err::<
                Seq<UserConnectionView>,
                ParseErrorView,
            >(e@),
        },
{
    let ls = lines_of(&chars_of(body));
    let ghost lv = lines(body@);
    let mut acc: Vec<UserConnection> = Vec::new();
    let mut i: usize = 0;
    while i < ls.len()
        invariant
            seqs_of(ls@) == lv,
            lv == lines(body@),
            i <= ls@.len(),
            connections_from(lv, 0) == prepend(connections_view(acc@), connections_from(lv, i as int)),
        decreases ls@.len() - i,
    {
        assert(ls@[i as int]@ == lv[i as int]);
        let t = trim_chars(&ls[i]);
        if t.len() != 0 {
            match UserConnection::parse_line_chars(&ls[i], i) {
                Ok(c) => {
                    let ghost before = connections_view(acc@);
                    let ghost cv = c@;
                    acc.push(c);
                    assert(connections_view(acc@) =~= before + seq![cv]);
                    proof {
                        match connections_from(lv, i + 1) {
                            Ok(rest) => {
                                assert(before + (seq![cv] + rest) =~= (before + seq![cv]) + rest);
                            },
                            Err(e) => {},
                        }
                    }
                },
                Err(e) => {
                    assert(connections_from(lv, i as int) == Err::<
                        Seq<UserConnectionView>,
                        ParseErrorView,
                    >(e@));
                    return Err(e);
                },
            }
        }
        i = i + 1;
    }
    assert(connections_view(acc@) + Seq::<UserConnectionView>::empty() =~= connections_view(acc@));
    Ok(acc)
}

impl core::str::FromStr for UserConnection {
    type Err = ParseError;

    /// Parses a single CSV line, reporting line 0 in any error.
    fn from_str(s: &str) -> (r: Result<UserConnection, ParseError>)
        ensures
            result_view(r) == parse_line_spec(s@, 0),
    {
        UserConnection::parse_line(s, 0)
    }
}


/// The text of an optional field: its text, or nothing.
pub open spec fn field_text(o: Option<Seq<char>>) -> Seq<char> {
    match o {
        Some(t) => t,
        None => Seq::empty(),
    }
}

/// The text of an optional visual range: its decimal text, or nothing.
pub open spec fn range_text(o: Option<u32>) -> Seq<char> {
    match o {
        Some(v) => decimal_text(v as nat),
        None => Seq::empty(),
    }
}

/// The fields of secondary positions: latitude, then longitude, of each pair
/// in turn.
pub open spec fn pair_fields(p: Seq<(Seq<char>, Seq<char>)>) -> Seq<Seq<char>>
    decreases p.len(),
{
    if p.len() == 0 {
        Seq::empty()
    } else {
        seq![p[0].0, p[0].1] + pair_fields(p.drop_first())
    }
}

/// Appending a pair appends its two fields.
pub proof fn lemma_pair_fields_push(p: Seq<(Seq<char>, Seq<char>)>, x: (Seq<char>, Seq<char>))
    ensures
        pair_fields(p.push(x)) == pair_fields(p) + seq![x.0, x.1],
    decreases p.len(),
{
    if p.len() == 0 {
        assert(p.push(x).drop_first() =~= Seq::<(Seq<char>, Seq<char>)>::empty());
        assert(pair_fields(Seq::<(Seq<char>, Seq<char>)>::empty()) == Seq::<Seq<char>>::empty());
        assert(p.push(x)[0] == x);
        assert(pair_fields(p.push(x)) =~= seq![x.0, x.1]);
    } else {
        lemma_pair_fields_push(p.drop_first(), x);
        assert(p.push(x).drop_first() =~= p.drop_first().push(x));
        assert(pair_fields(p.push(x)) =~= pair_fields(p) + seq![x.0, x.1]);
    }
}

/// The CSV fields of a connection, in the order the slurper writes them.
pub open spec fn connection_fields(c: UserConnectionView) -> Seq<Seq<char>> {
    seq![
        decimal_text(c.cid as nat),
        c.callsign,
        c.facility_type.name(),
        field_text(c.frequency),
        range_text(c.visual_range),
        c.latitude,
        c.longitude,
    ] + pair_fields(c.secondary_positions)
}

/// Fields each followed by a comma.
pub open spec fn comma_terminated(fs: Seq<Seq<char>>) -> Seq<char>
    decreases fs.len(),
{
    if fs.len() == 0 {
        Seq::empty()
    } else {
        comma_terminated(fs.drop_last()) + fs.last() + seq![',']
    }
}

/// The slurper CSV line of a connection: every field followed by a comma.
pub open spec fn csv_line(c: UserConnectionView) -> Seq<char> {
    comma_terminated(connection_fields(c))
}

impl UserConnection {
    /// The CSV fields of this connection.
    fn fields(&self) -> (r: Vec<Vec<char>>)
        ensures
            seqs_of(r@) == connection_fields(self@),
    {
        let mut r: Vec<Vec<char>> = Vec::new();
        r.push(decimal_chars(self.cid.get()));
        r.push(chars_of(self.callsign.as_str()));
        r.push(chars_of(self.facility_type.as_str()));
        match &self.frequency {
            Some(f) => r.push(chars_of(f.as_str())),
            None => r.push(Vec::new()),
        }
        match self.visual_range {
            Some(v) => r.push(decimal_chars(v)),
            None => r.push(Vec::new()),
        }
        r.push(chars_of(self.latitude.as_str()));
        r.push(chars_of(self.longitude.as_str()));
        let ghost head = seqs_of(r@);
        assert(head =~= connection_fields(self@).take(7));
        let ghost pv = pairs_view(self.secondary_positions@);
        let mut i: usize = 0;
        while i < self.secondary_positions.len()
            invariant
                i <= self.secondary_positions@.len(),
                pv == pairs_view(self.secondary_positions@),
                seqs_of(r@) == head + pair_fields(pv.take(i as int)),
            decreases self.secondary_positions@.len() - i,
        {
            let ghost before = seqs_of(r@);
            r.push(chars_of(self.secondary_positions[i].0.as_str()));
            r.push(chars_of(self.secondary_positions[i].1.as_str()));
            assert(pv.take(i + 1).drop_last() =~= pv.take(i as int));
            assert(pv.take(i + 1).last() == pv[i as int]);
            assert(seqs_of(r@) =~= before + seq![pv[i as int].0, pv[i as int].1]);
            proof {
                lemma_pair_fields_push(pv.take(i as int), pv[i as int]);
                assert(pv.take(i as int).push(pv[i as int]) =~= pv.take(i + 1));
            }
            assert(head + pair_fields(pv.take(i + 1)) =~= (head + pair_fields(pv.take(i as int)))
                + seq![pv[i as int].0, pv[i as int].1]);
            i = i + 1;
        }
        assert(pv.take(self.secondary_positions@.len() as int) =~= pv);
        assert(head =~= seq![
            decimal_text(self@.cid as nat),
            self@.callsign,
            self@.facility_type.name(),
            field_text(self@.frequency),
            range_text(self@.visual_range),
            self@.latitude,
            self@.longitude,
        ]);
        r
    }

    /// Writes this connection as a slurper CSV line: every field followed by
    /// a comma, empty frequency and visual-range fields for pilots, and the
    /// secondary positions after the coordinates.
    pub fn to_csv_line(&self) -> (r: String)
        ensures
            r@ == csv_line(self@),
    {
        let fs = self.fields();
        let ghost fv = seqs_of(fs@);
        let mut r = String::new();
        let mut i: usize = 0;
        while i < fs.len()
            invariant
                i <= fs@.len(),
                fv == seqs_of(fs@),
                r@ == comma_terminated(fv.take(i as int)),
            decreases fs@.len() - i,
        {
            let ghost before = r@;
            let piece = string_of(&fs[i]);
            r.append(piece.as_str());
            r.push(',');
            assert(fv.take(i + 1).drop_last() =~= fv.take(i as int));
            assert(fv.take(i + 1).last() == fv[i as int]);
            assert(r@ =~= before + fv[i as int] + seq![',']);
            i = i + 1;
        }
        assert(fv.take(fs@.len() as int) =~= fv);
        r
    }
}


/// A field that a CSV line carries as it is: not empty, without a comma, and
/// without surrounding whitespace.
pub open spec fn plain_field(f: Seq<char>) -> bool {
    &&& f.len() > 0
    &&& !f.contains(',')
    &&& trim(f) == f
}

/// A secondary position that a CSV line carries as it is: two float texts,
/// not the `0,0` padding.
pub open spec fn plain_position(p: (Seq<char>, Seq<char>)) -> bool {
    &&& is_float_text(p.0)
    &&& is_float_text(p.1)
    &&& !(p.0 == seq!['0'] && p.1 == seq!['0'])
}

/// A connection that its CSV line describes exactly: a plain callsign and
/// frequency, float-text coordinates, and no padding among the secondary
/// positions.
pub open spec fn writable(c: UserConnectionView) -> bool {
    &&& plain_field(c.callsign)
    &&& (c.frequency matches Some(f) ==> plain_field(f))
    &&& is_float_text(c.latitude)
    &&& is_float_text(c.longitude)
    &&& forall|i: int|
        0 <= i < c.secondary_positions.len() ==> plain_position(#[trigger] c.secondary_positions[i])
}

proof fn lemma_float_field(s: Seq<char>)
    requires
        is_float_text(s),
    ensures
        s.len() > 0,
        !s.contains(','),
        trim(s) == s,
        !is_ws(s.last()),
        s.last() != ',',
{
    crate::number::lemma_float_text_plain(s);
    assert(s[s.len() - 1] == s.last());
    lemma_trim_plain(s);
}

proof fn lemma_decimal_field(n: u32)
    ensures
        decimal_text(n as nat).len() > 0,
        !decimal_text(n as nat).contains(','),
        trim(decimal_text(n as nat)) == decimal_text(n as nat),
        !is_ws(decimal_text(n as nat)[0]),
        non_empty_spec(decimal_text(n as nat)) == Some(decimal_text(n as nat)),
        parse_u32_spec(decimal_text(n as nat)) == Some(n),
{
    let t = decimal_text(n as nat);
    crate::number::lemma_decimal_text_len(n as nat);
    crate::number::lemma_decimal_text_digits(n as nat);
    crate::number::lemma_decimal_text_parses(n);
    assert(crate::number::is_digit(t[0]));
    assert(crate::number::is_digit(t[t.len() - 1]));
    lemma_trim_plain(t);
    assert(!t.contains(',')) by {
        if t.contains(',') {
            let i = choose|i: int| 0 <= i < t.len() && t[i] == ',';
            assert(crate::number::is_digit(t[i]));
        }
    }
}

proof fn lemma_pair_fields_plain(p: Seq<(Seq<char>, Seq<char>)>)
    requires
        forall|i: int| 0 <= i < p.len() ==> plain_position(#[trigger] p[i]),
    ensures
        pair_fields(p).len() == 2 * p.len(),
        forall|j: int| 0 <= j < pair_fields(p).len() ==> is_float_text(#[trigger] pair_fields(p)[j]),
        secondary_spec(pair_fields(p)) == Ok::<Seq<(Seq<char>, Seq<char>)>, CsvFaultView>(p),
    decreases p.len(),
{
    if p.len() > 0 {
        let d = p.drop_first();
        assert forall|i: int| 0 <= i < d.len() implies plain_position(#[trigger] d[i]) by {
            assert(d[i] == p[i + 1]);
        }
        lemma_pair_fields_plain(d);
        assert(plain_position(p[0]));
        let f = pair_fields(p);
        assert(f == seq![p[0].0, p[0].1] + pair_fields(d));
        assert forall|j: int| 0 <= j < f.len() implies is_float_text(#[trigger] f[j]) by {
            if j >= 2 {
                assert(f[j] == pair_fields(d)[j - 2]);
            }
        }
        lemma_float_field(p[0].0);
        lemma_float_field(p[0].1);
        assert(f.skip(2) =~= pair_fields(d));
        assert(f[0] == p[0].0 && f[1] == p[0].1);
        assert(seq![(p[0].0, p[0].1)] + d =~= p);
    } else {
        assert(secondary_spec(pair_fields(p)) == Ok::<Seq<(Seq<char>, Seq<char>)>, CsvFaultView>(
            Seq::empty(),
        ));
        assert(p =~= Seq::<(Seq<char>, Seq<char>)>::empty());
    }
}

/// Fields each followed by a comma are the fields joined by commas, and one
/// comma more.
pub proof fn lemma_comma_terminated_joined(fs: Seq<Seq<char>>)
    requires
        fs.len() > 0,
    ensures
        comma_terminated(fs) == joined(fs, ',') + seq![','],
    decreases fs.len(),
{
    if fs.len() == 1 {
        assert(comma_terminated(fs.drop_last()) == Seq::<char>::empty());
        assert(comma_terminated(fs) =~= fs[0] + seq![',']);
    } else {
        lemma_comma_terminated_joined(fs.drop_last());
        assert(comma_terminated(fs) =~= joined(fs, ',') + seq![',']);
    }
}

/// Reading back the CSV line written for a connection gives the connection,
/// when the line can carry it (see [`writable`]).
pub proof fn lemma_csv_line_parses(c: UserConnectionView, line: usize)
    requires
        writable(c),
    ensures
        parse_line_spec(csv_line(c), line) == Ok::<UserConnectionView, ParseErrorView>(c),
{
    let fs = connection_fields(c);
    let sec = c.secondary_positions;
    let name = c.facility_type.name();
    lemma_pair_fields_plain(sec);
    lemma_decimal_field(c.cid);
    lemma_float_field(c.latitude);
    lemma_float_field(c.longitude);
    reveal_strlit("pilot");
    reveal_strlit("atc");
    SlurperFacilityType::lemma_name_parses(c.facility_type);
    lemma_trim_plain(name);
    assert(!name.contains(',')) by {
        if name.contains(',') {
            let i = choose|i: int| 0 <= i < name.len() && name[i] == ',';
        }
    }
    if let Some(v) = c.visual_range {
        lemma_decimal_field(v);
    } else {
        assert(trim(range_text(c.visual_range)) =~= Seq::<char>::empty()) by {
            assert(range_text(c.visual_range) =~= Seq::<char>::empty());
        }
    }
    if c.frequency is None {
        assert(field_text(c.frequency) =~= Seq::<char>::empty());
        assert(trim(Seq::<char>::empty()) =~= Seq::<char>::empty());
    }
    let pf = pair_fields(sec);
    assert(fs.len() == 7 + pf.len());
    assert forall|i: int| 0 <= i < fs.len() implies !(#[trigger] fs[i]).contains(',') by {
        if i >= 7 {
            assert(fs[i] == pf[i - 7]);
            lemma_float_field(pf[i - 7]);
        }
    }
    assert(fs[0] == decimal_text(c.cid as nat));
    assert(fs[5] == c.latitude);
    assert(fs[6] == c.longitude);
    assert(fs.last().len() > 0 && fs.last().last() != ',' && !is_ws(fs.last().last())) by {
        if pf.len() > 0 {
            assert(fs.last() == pf[pf.len() - 1]);
            lemma_float_field(pf[pf.len() - 1]);
        }
    }
    lemma_comma_terminated_joined(fs);
    let j = joined(fs, ',');
    lemma_joined_last(fs, ',');
    lemma_joined_first(fs, ',');
    assert(j[0] == fs[0][0]);
    lemma_trim_end_char_one(j, ',');
    assert(csv_line(c) =~= j.push(','));
    assert(trim_end_char(csv_line(c), ',') == j);
    lemma_trim_plain(j);
    assert(trim(j) == j);
    lemma_split_joined(fs, ',');
    assert(csv_fields(csv_line(c)) == fs);
    assert(fs.skip(7) =~= pf);
    assert(trim(fs[1]) == c.callsign);
    assert(trim(fs[2]) == name);
    let r = parse_line_spec(csv_line(c), line);
    assert(non_empty_spec(fs[3]) == c.frequency);
    assert(visual_range_spec(fs[4]) == Ok::<Option<u32>, CsvFaultView>(c.visual_range));
    assert(r == Ok::<UserConnectionView, ParseErrorView>(c));
}


/// A connection that a slurper response line describes exactly: writable,
/// and with no line feed in its callsign or frequency.
pub open spec fn servable(c: UserConnectionView) -> bool {
    &&& writable(c)
    &&& !c.callsign.contains('\n')
    &&& (c.frequency matches Some(f) ==> !f.contains('\n'))
}

proof fn lemma_comma_terminated_plain(fs: Seq<Seq<char>>, c: char)
    requires
        c != ',',
        forall|i: int| 0 <= i < fs.len() ==> !(#[trigger] fs[i]).contains(c),
    ensures
        !comma_terminated(fs).contains(c),
    decreases fs.len(),
{
    if fs.len() > 0 {
        let d = fs.drop_last();
        assert forall|i: int| 0 <= i < d.len() implies !(#[trigger] d[i]).contains(c) by {
            assert(d[i] == fs[i]);
        }
        lemma_comma_terminated_plain(d, c);
        let t = comma_terminated(fs);
        let a = comma_terminated(d);
        let l = fs.last();
        assert(!l.contains(c)) by {
            assert(fs[fs.len() - 1] == l);
        }
        assert(t == a + l + seq![',']);
        if t.contains(c) {
            let k = choose|k: int| 0 <= k < t.len() && t[k] == c;
            if k < a.len() {
                assert(t[k] == a[k]);
            } else if k < a.len() + l.len() {
                assert(t[k] == l[k - a.len()]);
            } else {
                assert(t[k] == ',');
            }
        }
    }
}

/// The line of a servable connection: not blank, no line feed, and ending
/// in a comma.
proof fn lemma_csv_line_shape(c: UserConnectionView)
    requires
        servable(c),
    ensures
        csv_line(c).len() > 0,
        !csv_line(c).contains('\n'),
        csv_line(c).last() == ',',
        trim(csv_line(c)).len() > 0,
{
    let fs = connection_fields(c);
    let sec = c.secondary_positions;
    let pf = pair_fields(sec);
    lemma_pair_fields_plain(sec);
    lemma_decimal_field(c.cid);
    crate::number::lemma_float_text_plain(c.latitude);
    crate::number::lemma_float_text_plain(c.longitude);
    reveal_strlit("pilot");
    reveal_strlit("atc");
    assert forall|i: int| 0 <= i < fs.len() implies !(#[trigger] fs[i]).contains('\n') by {
        let f = fs[i];
        if f.contains('\n') {
            let k = choose|k: int| 0 <= k < f.len() && f[k] == '\n';
            if i == 0 {
                crate::number::lemma_decimal_text_digits(c.cid as nat);
                assert(crate::number::is_digit(f[k]));
            } else if i == 2 {
                assert(f == c.facility_type.name());
            } else if i == 4 {
                if let Some(v) = c.visual_range {
                    crate::number::lemma_decimal_text_digits(v as nat);
                    assert(crate::number::is_digit(f[k]));
                }
            } else if i == 5 {
                assert(!is_ws(c.latitude[k]));
            } else if i == 6 {
                assert(!is_ws(c.longitude[k]));
            } else if i >= 7 {
                assert(f == pf[i - 7]);
                crate::number::lemma_float_text_plain(pf[i - 7]);
                assert(!is_ws(pf[i - 7][k]));
            }
        }
    }
    lemma_comma_terminated_plain(fs, '\n');
    lemma_comma_terminated_joined(fs);
    let j = joined(fs, ',');
    lemma_joined_first(fs, ',');
    assert(fs[0] == decimal_text(c.cid as nat));
    assert(csv_line(c) == j + seq![',']);
    assert(csv_line(c)[0] == fs[0][0]);
    lemma_trim_plain(csv_line(c));
}

/// Lines without a line feed, none empty or ending in a carriage return,
/// joined by line feeds, are read back as the same lines.
pub proof fn lemma_lines_joined(ls: Seq<Seq<char>>)
    requires
        forall|i: int|
            0 <= i < ls.len() ==> (#[trigger] ls[i]).len() > 0 && !ls[i].contains('\n')
                && ls[i].last() != '\r',
    ensures
        lines(joined(ls, '\n')) == ls,
{
    if ls.len() == 0 {
        assert(split(Seq::<char>::empty(), '\n') == seq![Seq::<char>::empty()]);
        assert(lines(joined(ls, '\n')) =~= ls);
    } else {
        lemma_split_joined(ls, '\n');
        let n = ls.len() as int;
        assert(ls.take(n - 1).map_values(|l: Seq<char>| strip_cr(l)) =~= ls.take(n - 1)) by {
            assert forall|i: int| 0 <= i < n - 1 implies strip_cr(ls[i]) == ls[i] by {
                assert(ls[i].last() != '\r');
            }
        }
        assert(ls[n - 1].len() > 0);
        assert(ls.take(n - 1).push(ls[n - 1]) =~= ls);
    }
}

/// Parsing lines that are each the CSV line of a servable connection, from
/// line `i` on, gives those connections.
proof fn lemma_connections_from_lines(cs: Seq<UserConnectionView>, ls: Seq<Seq<char>>, i: int)
    requires
        0 <= i <= ls.len(),
        ls.len() == cs.len(),
        ls.len() <= usize::MAX + 1,
        forall|k: int| 0 <= k < cs.len() ==> servable(#[trigger] cs[k]),
        forall|k: int| 0 <= k < ls.len() ==> #[trigger] ls[k] == csv_line(cs[k]),
    ensures
        connections_from(ls, i) == Ok::<Seq<UserConnectionView>, ParseErrorView>(cs.skip(i)),
    decreases ls.len() - i,
{
    if i < ls.len() {
        lemma_connections_from_lines(cs, ls, i + 1);
        lemma_csv_line_shape(cs[i]);
        assert(ls[i] == csv_line(cs[i]));
        lemma_csv_line_parses(cs[i], i as usize);
        assert(seq![cs[i]] + cs.skip(i + 1) =~= cs.skip(i));
    } else {
        assert(cs.skip(i) =~= Seq::<UserConnectionView>::empty());
    }
}

/// What the slurper writes for servable connections, one CSV line each
/// separated by line feeds, is parsed back into the same connections.
pub proof fn lemma_response_parses(cs: Seq<UserConnectionView>)
    requires
        cs.len() <= usize::MAX,
        forall|k: int| 0 <= k < cs.len() ==> servable(#[trigger] cs[k]),
    ensures
        connections_from(
            lines(joined(cs.map_values(|c: UserConnectionView| csv_line(c)), '\n')),
            0,
        ) == Ok::<Seq<UserConnectionView>, ParseErrorView>(cs),
{
    let ls = cs.map_values(|c: UserConnectionView| csv_line(c));
    assert forall|k: int| 0 <= k < ls.len() implies (#[trigger] ls[k]).len() > 0 && !ls[k].contains(
        '\n',
    ) && ls[k].last() != '\r' by {
        lemma_csv_line_shape(cs[k]);
    }
    lemma_lines_joined(ls);
    lemma_connections_from_lines(cs, ls, 0);
    assert(cs.skip(0) =~= cs);
}

} // verus!
