use weathr::flights::{
    build_label, flight_label, flight_poll_delay, pick_candidate, AdsbdbAircraft, AdsbdbAirport,
    AdsbdbFlightRoute, Candidate, FlightLookup, LookupStep, StateVector,
};

/// A state vector as OpenSky sends it: address, callsign, on-ground flag and
/// true track in degrees (eastbound for a track in [0, 180)).
fn state(icao: &str, callsign: &str, on_ground: bool, track: f64) -> StateVector {
    StateVector {
        icao24: Some(icao.to_string()),
        callsign: Some(callsign.to_string()),
        on_ground: Some(on_ground),
        track_eastbound: (0.0..180.0).contains(&track),
    }
}

#[test]
fn test_pick_candidate_skips_ground_and_empty() {
    let states = vec![
        state("aaa", "", false, 90.0),
        state("bbb", "AFL123", true, 90.0),
        state("ccc", "AFL456", false, 275.0),
    ];
    let c = pick_candidate(&states).unwrap();
    assert_eq!(c.icao24, "ccc");
    assert_eq!(c.callsign, "AFL456");
    assert!(!c.eastbound);
}

#[test]
fn test_build_label_full() {
    let aircraft = AdsbdbAircraft {
        icao_type: Some("A320".to_string()),
        registration: Some("RA-73756".to_string()),
    };
    let route = AdsbdbFlightRoute {
        callsign_iata: Some("SU1234".to_string()),
        origin: Some(AdsbdbAirport {
            iata_code: Some("SVO".to_string()),
        }),
        destination: Some(AdsbdbAirport {
            iata_code: Some("LED".to_string()),
        }),
    };
    assert_eq!(
        build_label("AFL1234", &aircraft, &route),
        "A320 RA-73756 | SU1234 SVO-LED"
    );
}

#[test]
fn test_build_label_no_route_falls_back_to_callsign() {
    let aircraft = AdsbdbAircraft::default();
    let route = AdsbdbFlightRoute::default();
    assert_eq!(build_label("DRU544", &aircraft, &route), "DRU544");
}

#[test]
fn build_label_registration_only_keeps_separator() {
    let aircraft = AdsbdbAircraft {
        icao_type: None,
        registration: Some("RA-1".to_string()),
    };
    let route = AdsbdbFlightRoute {
        callsign_iata: None,
        origin: Some(AdsbdbAirport { iata_code: Some("SVO".to_string()) }),
        destination: Some(AdsbdbAirport { iata_code: None }),
    };
    assert_eq!(build_label("AFL1", &aircraft, &route), "RA-1 | AFL1");
}

#[test]
fn pick_candidate_trims_and_skips_missing_fields() {
    let states = vec![
        StateVector { icao24: None, callsign: Some("X".to_string()), on_ground: Some(false), track_eastbound: true },
        StateVector { icao24: Some("abc".to_string()), callsign: Some("Y".to_string()), on_ground: None, track_eastbound: true },
        state("  def ", " SBI77  ", false, 10.0),
    ];
    let c = pick_candidate(&states).unwrap();
    assert_eq!(c.icao24, "def");
    assert_eq!(c.callsign, "SBI77");
    assert!(c.eastbound);
    assert!(pick_candidate(&vec![state("a", "   ", false, 1.0)]).is_none());
    assert!(pick_candidate(&Vec::new()).is_none());
}

#[test]
fn flight_label_keeps_direction() {
    let c = Candidate { icao24: "abc".to_string(), callsign: "UTA9".to_string(), eastbound: true };
    let f = flight_label(&c, &AdsbdbAircraft::default(), &AdsbdbFlightRoute::default());
    assert_eq!(f.label, "UTA9");
    assert!(f.eastbound);
}

#[test]
fn flight_poll_is_at_least_five_minutes() {
    assert_eq!(flight_poll_delay(60), 300);
    assert_eq!(flight_poll_delay(1200), 1200);
}

#[test]
fn lookup_asks_for_aircraft_then_route_then_labels() {
    let states = vec![state("bbb", "AFL123", true, 90.0), state(" ccc ", "AFL456 ", false, 10.0)];
    let mut lookup = FlightLookup::start(&states).unwrap();
    match lookup.next_step() {
        LookupStep::Aircraft(icao) => assert_eq!(icao, "ccc"),
        _ => panic!("the aircraft comes first"),
    }
    lookup.aircraft_found(AdsbdbAircraft {
        icao_type: Some("B738".to_string()),
        registration: None,
    });
    match lookup.next_step() {
        LookupStep::Route(callsign) => assert_eq!(callsign, "AFL456"),
        _ => panic!("then the route"),
    }
    lookup.route_found(AdsbdbFlightRoute::default());
    match lookup.next_step() {
        LookupStep::Done(label) => {
            assert_eq!(label.label, "B738 | AFL456");
            assert!(label.eastbound);
        }
        _ => panic!("then the caption"),
    }
    assert!(FlightLookup::start(&vec![state("aaa", "", false, 0.0)]).is_none());
}

#[test]
fn lookup_takes_cached_details() {
    let states = vec![state("ccc", "AFL456", false, 200.0)];
    let mut lookup = FlightLookup::start(&states).unwrap();
    assert!(lookup.offer_cached_aircraft(None));
    assert!(lookup.aircraft.is_none());
    let cached = AdsbdbAircraft { icao_type: Some("A321".to_string()), registration: None };
    assert!(!lookup.offer_cached_aircraft(Some(cached)));
    assert!(lookup.offer_cached_route(None));
    let route = AdsbdbFlightRoute {
        callsign_iata: Some("SU456".to_string()),
        origin: Some(AdsbdbAirport { iata_code: Some("SVO".to_string()) }),
        destination: Some(AdsbdbAirport { iata_code: Some("AER".to_string()) }),
    };
    assert!(!lookup.offer_cached_route(Some(route)));
    match lookup.next_step() {
        LookupStep::Done(label) => {
            assert_eq!(label.label, "A321 | SU456 SVO-AER");
            assert!(!label.eastbound);
        }
        _ => panic!("both details were cached"),
    }
}
