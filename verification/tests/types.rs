use vatsim_api::mock::feed::id_for;
use vatsim_api::types::datafeed::{FacilityInfo, RatingInfo};
use vatsim_api::types::{ControllerRating, Facility, FeedIdError, MilitaryRating, PilotRating};
use vatsim_api::{CertificateId, ParseError};

#[test]
fn certificate_id_wraps_a_number() {
    let cid = CertificateId::new(1_234_567);
    assert_eq!(cid.get(), 1_234_567);
    assert_eq!(cid.to_string(), "1234567");
    assert_eq!(u32::from(cid), 1_234_567);
    assert_eq!(CertificateId::from(7u32), CertificateId::new(7));
    assert_eq!("1234567".parse::<CertificateId>().unwrap(), cid);
    assert_eq!(" 1".parse::<CertificateId>().ok(), None);
    assert_eq!("+8".parse::<CertificateId>().unwrap(), CertificateId::new(8));
    assert_eq!(CertificateId::default(), CertificateId::new(0));
}

#[test]
fn facility_codes_and_ids() {
    assert_eq!(Facility::Tower.as_str(), "TWR");
    assert_eq!(Facility::Tower.to_string(), "TWR");
    assert_eq!(Facility::Tower.as_id(), 4);
    assert_eq!(Facility::Ramp.as_id(), 3);
    assert_eq!(Facility::Departure.as_id(), 5);
    assert_eq!(Facility::Radio.as_id(), 1);
    assert_eq!(Facility::TrafficFlow.as_id(), 0);
    assert_eq!("tower".parse::<Facility>().unwrap(), Facility::Tower);
    assert_eq!("Approach/Departure".parse::<Facility>().unwrap(), Facility::Approach);
    assert_eq!(Facility::try_from(6i8).unwrap(), Facility::Enroute);
    assert_eq!(
        "tmz".parse::<Facility>().unwrap_err(),
        ParseError::UnknownValue { kind: "facility", value: "TMZ".to_owned() }
    );
    assert_eq!(
        Facility::try_from(9i8).unwrap_err(),
        ParseError::UnknownValue { kind: "facility", value: "9".to_owned() }
    );
}

#[test]
fn facility_from_callsign_reads_the_last_suffix() {
    assert_eq!(Facility::from_callsign("LOWW_TWR"), Facility::Tower);
    assert_eq!(Facility::from_callsign("LOWW_A_ATIS"), Facility::Observer);
    assert_eq!(Facility::from_callsign("EDGG_W_CTR"), Facility::Enroute);
    assert_eq!(Facility::from_callsign("loww_gnd"), Facility::Ground);
    assert_eq!(Facility::from_callsign("CTR"), Facility::Enroute);
    assert_eq!(Facility::from_callsign(""), Facility::Observer);
}

#[test]
fn controller_ratings() {
    assert_eq!(ControllerRating::SeniorStudent.as_str(), "S3");
    assert_eq!(ControllerRating::SeniorStudent.as_id(), 4);
    assert_eq!(ControllerRating::Inactive.as_id(), -1);
    assert_eq!(ControllerRating::try_from(-1i8).unwrap(), ControllerRating::Inactive);
    assert_eq!("c1".parse::<ControllerRating>().unwrap(), ControllerRating::EnrouteController);
    assert!(ControllerRating::try_from(13i8).is_err());
}

#[test]
fn pilot_and_military_ratings() {
    assert_eq!(PilotRating::InstrumentRating.as_str(), "IR");
    assert_eq!(PilotRating::InstrumentRating.as_id(), 3);
    assert_eq!(PilotRating::try_from(63i8).unwrap(), PilotRating::FlightExaminer);
    assert!(PilotRating::try_from(2i8).is_err());
    assert_eq!(MilitaryRating::MilitaryMultiEngineRating.as_str(), "M3");
    assert_eq!(MilitaryRating::try_from(15i8).unwrap(), MilitaryRating::MilitaryMissionReadyPilot);
    assert_eq!("m0".parse::<MilitaryRating>().unwrap(), MilitaryRating::NoMilitaryRating);
}

#[test]
fn every_code_parses_back() {
    for v in [
        Facility::Observer,
        Facility::Ramp,
        Facility::ClearanceDelivery,
        Facility::Ground,
        Facility::Tower,
        Facility::Approach,
        Facility::Departure,
        Facility::Enroute,
        Facility::FlightServiceStation,
        Facility::Radio,
        Facility::TrafficFlow,
    ] {
        assert_eq!(v.as_str().parse::<Facility>().unwrap(), v);
    }
    for v in [ControllerRating::Observer, ControllerRating::Administrator] {
        assert_eq!(v.as_str().parse::<ControllerRating>().unwrap(), v);
        assert_eq!(ControllerRating::try_from(v.as_id()).unwrap(), v);
    }
}

#[test]
fn id_for_maps_codes_to_feed_ids() {
    assert_eq!(id_for("facility", "TWR"), Some(4));
    assert_eq!(id_for("facility", "RMP"), Some(3));
    assert_eq!(id_for("facility", "DEP"), Some(5));
    assert_eq!(id_for("facility", "RDO"), Some(1));
    assert_eq!(id_for("facility", "FMP"), Some(0));
    assert_eq!(id_for("rating", "S3"), Some(4));
    assert_eq!(id_for("pilot_rating", "NEW"), Some(0));
    assert_eq!(id_for("military_rating", "M2"), Some(3));
    assert_eq!(id_for("facility", "XYZ"), None);
    assert_eq!(id_for("callsign", "TWR"), None);
}

#[test]
fn feed_numbers_outside_i8_are_out_of_range() {
    assert_eq!(Facility::from_feed_number(4), Ok(Facility::Tower));
    assert_eq!(Facility::from_feed_number(300), Err(FeedIdError::OutOfRange));
    assert_eq!(Facility::from_feed_number(-129), Err(FeedIdError::OutOfRange));
    assert_eq!(
        Facility::from_feed_number(7),
        Err(FeedIdError::Unknown(ParseError::UnknownValue {
            kind: "facility",
            value: "7".to_owned()
        }))
    );
    assert_eq!(ControllerRating::from_feed_number(-1), Ok(ControllerRating::Inactive));
    assert_eq!(PilotRating::from_feed_number(31), Ok(PilotRating::FlightInstructor));
    assert_eq!(MilitaryRating::from_feed_number(1), Ok(MilitaryRating::MilitaryPilotLicense));
}

#[test]
fn lookup_table_entries_convert_by_id() {
    let info = FacilityInfo { id: 5, short: "APP".to_owned(), long: "Approach/Departure".to_owned() };
    assert_eq!(Facility::try_from(info).unwrap(), Facility::Approach);
    let info = RatingInfo { id: 12, short: "ADM".to_owned(), long: "Administrator".to_owned() };
    assert_eq!(ControllerRating::try_from(info).unwrap(), ControllerRating::Administrator);
    assert_eq!(Facility::ALL.len(), 11);
    assert_eq!(ControllerRating::ALL.len(), 12);
    assert!(!ControllerRating::ALL.contains(&ControllerRating::Controller2));
}

#[test]
fn every_written_code_maps_to_its_id() {
    for f in Facility::ALL {
        assert_eq!(id_for("facility", f.as_str()), Some(f.as_id()));
    }
    for c in ControllerRating::ALL {
        assert_eq!(id_for("rating", c.as_str()), Some(c.as_id()));
    }
    for p in PilotRating::ALL {
        assert_eq!(id_for("pilot_rating", p.as_str()), Some(p.as_id()));
    }
    for m in MilitaryRating::ALL {
        assert_eq!(id_for("military_rating", m.as_str()), Some(m.as_id()));
    }
}

#[test]
fn feed_defaults_are_empty() {
    let pilot = vatsim_api::types::datafeed::Pilot::default();
    assert_eq!(pilot.latitude, "0");
    assert_eq!(pilot.qnh_i_hg, "0");
    assert_eq!(pilot.cid, CertificateId::new(0));
    assert_eq!(pilot.pilot_rating, PilotRating::BasicMember);
    let feed = vatsim_api::types::datafeed::DataFeed::default();
    assert!(feed.pilots.is_empty());
    assert_eq!(feed.general.version, 0);
    let prefile = vatsim_api::types::datafeed::Prefile::default();
    assert_eq!(prefile.flight_plan.revision_id, 0);
}

#[test]
fn certificate_ids_order_by_number() {
    assert!(CertificateId::new(1) < CertificateId::new(2));
    assert!(CertificateId::new(3) > CertificateId::new(2));
    assert!(CertificateId::new(5) <= CertificateId::new(5));
    let c = CertificateId::new(1_234_567);
    assert_eq!(CertificateId::new(c.get()), c);
    assert_ne!(CertificateId::new(1), CertificateId::new(2));
    let mut ids = vec![CertificateId::new(30), CertificateId::new(4), CertificateId::new(200)];
    ids.sort();
    assert_eq!(ids, vec![CertificateId::new(4), CertificateId::new(30), CertificateId::new(200)]);
    assert_eq!(
        CertificateId::new(9).partial_cmp(&CertificateId::new(10)),
        Some(std::cmp::Ordering::Less)
    );
}
