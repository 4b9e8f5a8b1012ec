use vatsim_api::error::{CsvFault, FloatFault, IntFault};
use vatsim_api::types::slurper::{non_empty, parse_user_connections, SlurperFacilityType, UserConnection};
use vatsim_api::{CertificateId, ParseError};

fn coord(text: &str) -> f64 {
    text.parse::<f64>().unwrap()
}

#[test]
fn parse_pilot_line() {
    let line = "1234567,BAW123,pilot,,,51.148056,-0.190278,0,0,0,0,";
    let conn: UserConnection = line.parse().unwrap();
    assert_eq!(conn.cid, CertificateId::new(1_234_567));
    assert_eq!(conn.callsign, "BAW123");
    assert_eq!(conn.facility_type, SlurperFacilityType::Pilot);
    assert_eq!(conn.frequency, None);
    assert_eq!(conn.visual_range, None);
    assert!(conn.secondary_positions.is_empty());
}

#[test]
fn parse_atc_line() {
    let line = "1234567,EGLL_TWR,atc,118.500,50,51.4775,-0.461389,";
    let conn: UserConnection = line.parse().unwrap();
    assert_eq!(conn.callsign, "EGLL_TWR");
    assert_eq!(conn.facility_type, SlurperFacilityType::Atc);
    assert_eq!(conn.frequency.as_deref(), Some("118.500"));
    assert_eq!(conn.visual_range, Some(50));
    assert!(conn.secondary_positions.is_empty());
}

#[test]
fn parse_atc_with_secondary_positions() {
    let line = "1234567,EGLL_APP,atc,119.725,100,51.4775,-0.461389,51.15,-0.18,52.0,0.5,";
    let conn: UserConnection = line.parse().unwrap();
    assert_eq!(conn.secondary_positions.len(), 2);
    assert!((coord(&conn.secondary_positions[0].0) - 51.15).abs() < f64::EPSILON);
    assert!((coord(&conn.secondary_positions[1].1) - 0.5).abs() < f64::EPSILON);
}

#[test]
fn parse_strips_zero_padding_pairs() {
    let line = "1234567,EGLL_APP,atc,119.725,100,51.4775,-0.461389,51.15,-0.18,0,0,0,0,";
    let conn: UserConnection = line.parse().unwrap();
    assert_eq!(conn.secondary_positions.len(), 1);
}

#[test]
fn parse_too_few_fields() {
    let line = "1234567,BAW123,pilot,,,51.1";
    let err = line.parse::<UserConnection>().unwrap_err();
    assert!(matches!(err, ParseError::InvalidSlurperCsv { .. }));
}

#[test]
fn parse_invalid_cid() {
    let line = "not_a_number,BAW123,pilot,,,51.1,-0.19,";
    let err = line.parse::<UserConnection>().unwrap_err();
    assert!(matches!(err, ParseError::InvalidSlurperCsv { .. }));
}

#[test]
fn parse_empty_callsign() {
    let line = "1234567,,pilot,,,51.1,-0.19,";
    let err = line.parse::<UserConnection>().unwrap_err();
    assert!(matches!(err, ParseError::InvalidSlurperCsv { .. }));
}

#[test]
fn parse_unknown_facility_type() {
    let line = "1234567,BAW123,observer,,,51.1,-0.19,";
    let err = line.parse::<UserConnection>().unwrap_err();
    assert!(matches!(err, ParseError::InvalidSlurperCsv { .. }));
}

#[test]
fn slurper_facility_type_display() {
    assert_eq!(SlurperFacilityType::Pilot.to_string(), "pilot");
    assert_eq!(SlurperFacilityType::Atc.to_string(), "atc");
}

#[test]
fn slurper_facility_type_roundtrip() {
    for ty in [SlurperFacilityType::Pilot, SlurperFacilityType::Atc] {
        let parsed: SlurperFacilityType = ty.to_string().parse().unwrap();
        assert_eq!(parsed, ty);
    }
}

#[test]
fn parse_line_preserves_line_number_in_error() {
    let result = UserConnection::parse_line("bad", 42);
    match result.unwrap_err() {
        ParseError::InvalidSlurperCsv { line, .. } => assert_eq!(line, 42),
        other => panic!("unexpected error: {other:?}"),
    }
}

#[test]
fn parse_facility_type_case_insensitive() {
    let line = "1234567,EGLL_TWR,ATC,118.500,50,51.4775,-0.461389,";
    let conn: UserConnection = line.parse().unwrap();
    assert_eq!(conn.facility_type, SlurperFacilityType::Atc);

    let line = "1234567,BAW123,Pilot,,,51.1,-0.19,";
    let conn: UserConnection = line.parse().unwrap();
    assert_eq!(conn.facility_type, SlurperFacilityType::Pilot);
}

#[test]
fn parse_realistic_multi_entry_response() {
    let response = "\
        1234567,LOWW_D_ATIS,atc,121.730,0,48.11028,16.56972,0,0,0,0,0,0,0,0,\n\
        1234567,LOVV_CTR,atc,123.450,600,47.66667,14.33333,0,0,0,0,0,0,0,0,\n\
        1234567,LOWW_A_ATIS,atc,122.955,0,48.11028,16.56972,0,0,0,0,0,0,0,0,\n";

    let connections: Vec<UserConnection> = response
        .lines()
        .filter(|l| !l.trim().is_empty())
        .enumerate()
        .map(|(i, l)| UserConnection::parse_line(l, i).unwrap())
        .collect();

    assert_eq!(connections.len(), 3);
    assert_eq!(connections[0].callsign, "LOWW_D_ATIS");
    assert_eq!(connections[0].visual_range, Some(0));
    assert_eq!(connections[1].callsign, "LOVV_CTR");
    assert_eq!(connections[1].visual_range, Some(600));
    assert_eq!(connections[2].callsign, "LOWW_A_ATIS");
}

#[test]
fn parse_many_zero_padded_secondary_positions() {
    let line = "1234567,LOVV_CTR,atc,123.450,600,47.66667,14.33333,0,0,0,0,0,0,0,0,";
    let conn: UserConnection = line.parse().unwrap();
    assert!(conn.secondary_positions.is_empty());
}

#[test]
fn parse_multiple_trailing_commas() {
    let line = "1234567,BAW123,pilot,,,51.148056,-0.190278,0,0,0,0,,,,";
    let conn: UserConnection = line.parse().unwrap();
    assert_eq!(conn.callsign, "BAW123");
    assert!(conn.secondary_positions.is_empty());
}

#[test]
fn parse_minimal_valid_line_no_trailing_comma() {
    let line = "1234567,EGLL_TWR,atc,118.500,50,51.4775,-0.461389";
    let conn: UserConnection = line.parse().unwrap();
    assert_eq!(conn.callsign, "EGLL_TWR");
    assert_eq!(conn.frequency.as_deref(), Some("118.500"));
}

#[test]
fn parse_negative_coordinates() {
    let line = "1234567,SAEZ_TWR,atc,118.500,50,-34.8222,-58.5358,";
    let conn: UserConnection = line.parse().unwrap();
    assert!((coord(&conn.latitude) - (-34.8222)).abs() < f64::EPSILON);
    assert!((coord(&conn.longitude) - (-58.5358)).abs() < f64::EPSILON);
}

#[test]
fn parse_odd_trailing_field_ignored() {
    let line = "1234567,EGLL_TWR,atc,118.500,50,51.4775,-0.461389,42.0,";
    let conn: UserConnection = line.parse().unwrap();
    assert!(conn.secondary_positions.is_empty());
}

#[test]
fn parse_secondary_positions_with_negative_coords() {
    let line = "1234567,EGLL_APP,atc,119.725,100,51.4775,-0.461389,-33.86,151.21,51.15,-0.18,";
    let conn: UserConnection = line.parse().unwrap();
    assert_eq!(conn.secondary_positions.len(), 2);
    assert!((coord(&conn.secondary_positions[0].0) - (-33.86)).abs() < f64::EPSILON);
    assert!((coord(&conn.secondary_positions[0].1) - 151.21).abs() < f64::EPSILON);
}

fn csv_fault(line: &str) -> String {
    match UserConnection::parse_line(line, 7) {
        Err(ParseError::InvalidSlurperCsv { line: 7, reason }) => reason,
        other => panic!("expected a CSV error on line 7, got {other:?}"),
    }
}

#[test]
fn each_csv_fault_has_an_input() {
    assert_eq!(csv_fault("1,A,pilot"), CsvFault::TooFewFields { found: 3 }.text());
    assert_eq!(csv_fault("x,A,pilot,,,1,2,"), CsvFault::InvalidCid { cause: IntFault::InvalidDigit }.text());
    assert_eq!(csv_fault("4294967296,A,pilot,,,1,2,"),
        CsvFault::InvalidCid { cause: IntFault::PosOverflow }.text()
    );
    assert_eq!(csv_fault("1, ,pilot,,,1,2,"), CsvFault::EmptyCallsign.text());
    assert_eq!(
        csv_fault("1,A,tower,,,1,2,"),
        CsvFault::UnknownFacilityType { value: "tower".to_owned() }.text()
    );
    assert_eq!(csv_fault("1,A,atc,118.5,far,1,2,"), CsvFault::InvalidVisualRange { cause: IntFault::InvalidDigit }.text());
    assert_eq!(csv_fault("1,A,pilot,,,north,2,"),
        CsvFault::InvalidLatitude { cause: FloatFault::Invalid }.text()
    );
    assert_eq!(csv_fault("1,A,pilot,,,1,east,"),
        CsvFault::InvalidLongitude { cause: FloatFault::Invalid }.text()
    );
    assert_eq!(csv_fault("1,A,atc,118.5,5,1,2,x,3,"), CsvFault::InvalidSecondaryLatitude { cause: FloatFault::Invalid }.text());
    assert_eq!(csv_fault("1,A,atc,118.5,5,1,2,3,y,"), CsvFault::InvalidSecondaryLongitude { cause: FloatFault::Invalid }.text());
}

#[test]
fn float_fields_accept_what_f64_accepts() {
    for text in ["1", "-1.5", "+.5", "5.", "1e3", "1E-3", "inf", "-Infinity", "NaN"] {
        assert!(text.parse::<f64>().is_ok());
        let line = format!("1,A,pilot,,,{text},0,");
        let conn = UserConnection::parse_line(&line, 0).unwrap();
        assert_eq!(conn.latitude, text);
    }
    for text in [".", "e5", "1e", "1.2.3", "--1", "infin"] {
        assert!(text.parse::<f64>().is_err());
        let line = format!("1,A,pilot,,,{text},0,");
        assert_eq!(
            csv_fault_at_zero(&line),
            CsvFault::InvalidLatitude { cause: FloatFault::Invalid }.text()
        );
    }
}

fn csv_fault_at_zero(line: &str) -> String {
    match UserConnection::parse_line(line, 0) {
        Err(ParseError::InvalidSlurperCsv { reason, .. }) => reason,
        other => panic!("expected a CSV error, got {other:?}"),
    }
}

#[test]
fn fields_are_trimmed() {
    let conn = UserConnection::parse_line("  1 , EGLL_TWR ,atc, 118.500 , 50 , 51.4 , -0.4 ,", 0).unwrap();
    assert_eq!(conn.cid, CertificateId::new(1));
    assert_eq!(conn.callsign, "EGLL_TWR");
    assert_eq!(conn.frequency.as_deref(), Some("118.500"));
    assert_eq!(conn.visual_range, Some(50));
    assert_eq!(conn.latitude, "51.4");
    assert_eq!(conn.longitude, "-0.4");
}

#[test]
fn non_empty_trims_fields() {
    assert_eq!(non_empty("  118.500 "), Some("118.500".to_owned()));
    assert_eq!(non_empty("   "), None);
    assert_eq!(non_empty(""), None);
}

#[test]
fn to_csv_line_writes_every_field_followed_by_a_comma() {
    let pilot = UserConnection {
        cid: CertificateId::new(1_234_567),
        callsign: "AUA456".to_owned(),
        facility_type: SlurperFacilityType::Pilot,
        frequency: None,
        visual_range: None,
        latitude: "48.11028".to_owned(),
        longitude: "16.56972".to_owned(),
        secondary_positions: Vec::new(),
    };
    assert_eq!(pilot.to_csv_line(), "1234567,AUA456,pilot,,,48.11028,16.56972,");

    let controller = UserConnection {
        cid: CertificateId::new(1_234_567),
        callsign: "EGLL_APP".to_owned(),
        facility_type: SlurperFacilityType::Atc,
        frequency: Some("119.725".to_owned()),
        visual_range: Some(100),
        latitude: "51.4775".to_owned(),
        longitude: "-0.461389".to_owned(),
        secondary_positions: vec![("51.15".to_owned(), "-0.18".to_owned())],
    };
    assert_eq!(
        controller.to_csv_line(),
        "1234567,EGLL_APP,atc,119.725,100,51.4775,-0.461389,51.15,-0.18,"
    );
}

#[test]
fn csv_line_reads_back_as_the_connection() {
    let conn = UserConnection {
        cid: CertificateId::new(42),
        callsign: "LOVV_CTR".to_owned(),
        facility_type: SlurperFacilityType::Atc,
        frequency: Some("123.450".to_owned()),
        visual_range: Some(600),
        latitude: "47.66667".to_owned(),
        longitude: "14.33333".to_owned(),
        secondary_positions: vec![
            ("-33.86".to_owned(), "151.21".to_owned()),
            ("0".to_owned(), "1e2".to_owned()),
        ],
    };
    let back = UserConnection::parse_line(&conn.to_csv_line(), 3).unwrap();
    assert_eq!(back, conn);
}

#[test]
fn parse_user_connections_skips_blank_lines_and_numbers_errors_by_line() {
    let body = "\n1234567,AUA456,pilot,,,48.11028,16.56972,0,0,0,0,\n\n\n";
    let conns = parse_user_connections(body).unwrap();
    assert_eq!(conns.len(), 1);
    assert_eq!(conns[0].callsign, "AUA456");

    let body = "1,A,pilot,,,1,2,\r\n\nnot,enough,fields\n";
    match parse_user_connections(body) {
        Err(ParseError::InvalidSlurperCsv { line, reason }) => {
            assert_eq!(line, 2);
            assert_eq!(reason, "expected at least 7 fields, got 3");
            assert_eq!(reason, CsvFault::TooFewFields { found: 3 }.text());
        }
        other => panic!("expected a CSV error, got {other:?}"),
    }

    assert!(parse_user_connections("").unwrap().is_empty());
}

fn fault_text_of(line: &str) -> String {
    csv_fault(line)
}

#[test]
fn csv_fault_texts_carry_the_parse_error_message() {
    let int_err = |t: &str| t.parse::<u32>().unwrap_err().to_string();
    let float_err = |t: &str| t.parse::<f64>().unwrap_err().to_string();
    assert_eq!(fault_text_of("x,A,pilot,,,1,2,"), format!("invalid CID: {}", int_err("x")));
    assert_eq!(fault_text_of("x,A,pilot,,,1,2,"), "invalid CID: invalid digit found in string");
    assert_eq!(
        fault_text_of("4294967296,A,pilot,,,1,2,"),
        format!("invalid CID: {}", int_err("4294967296"))
    );
    assert_eq!(fault_text_of("+,A,pilot,,,1,2,"), format!("invalid CID: {}", int_err("+")));
    for cid in ["42949672960x", "4294967x", "-0", "+-1", "99999999999"] {
        let line = format!("{cid},A,pilot,,,1,2,");
        assert_eq!(fault_text_of(&line), format!("invalid CID: {}", int_err(cid)));
    }
    assert_eq!(fault_text_of(" ,A,pilot,,,1,2,"), format!("invalid CID: {}", int_err("")));
    assert_eq!(
        fault_text_of("1,A,atc,118.5,-5,1,2,"),
        format!("invalid visual range: {}", int_err("-5"))
    );
    assert_eq!(
        fault_text_of("1,A,pilot,,,north,2,"),
        format!("invalid latitude: {}", float_err("north"))
    );
    assert_eq!(
        fault_text_of("1,A,pilot,,,1,east,"),
        format!("invalid longitude: {}", float_err("east"))
    );
    assert_eq!(
        fault_text_of("1,A,atc,118.5,5,1,2,,3,"),
        format!("invalid secondary latitude: {}", float_err(""))
    );
    assert_eq!(
        fault_text_of("1,A,atc,118.5,5,1,2,3,y,"),
        format!("invalid secondary longitude: {}", float_err("y"))
    );
    assert_eq!(fault_text_of("1,A,pilot"), "expected at least 7 fields, got 3");
    assert_eq!(fault_text_of("1, ,pilot,,,1,2,"), "empty callsign");
    assert_eq!(fault_text_of("1,A,tower,,,1,2,"), "unknown facility type: tower");
}

#[test]
fn parse_error_texts() {
    let err = UserConnection::parse_line("1,A,pilot,,,1,2,3,y,", 12).unwrap_err();
    assert_eq!(
        err.text(),
        "invalid slurper CSV at line 12: invalid secondary longitude: invalid float literal"
    );
    let unknown = ParseError::UnknownValue { kind: "facility", value: "XYZ".to_owned() };
    assert_eq!(unknown.text(), "unknown facility: XYZ");
}
