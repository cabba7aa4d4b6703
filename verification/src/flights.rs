//! Real aircraft over the location: positions come from OpenSky Network,
//! model, registration and route from adsbdb.com. This module picks the
//! aircraft to show from OpenSky's state vectors and composes its caption.

use vstd::prelude::*;
use crate::text;
use crate::text::trim;

verus! {

/// An aircraft ready to be shown: its caption and the direction of flight.
#[derive(Debug, Clone)]
pub struct FlightLabel {
    pub label: String,
    pub eastbound: bool,
}

/// Aircraft record from adsbdb: ICAO type and registration.
#[derive(Debug, Clone, Default)]
pub struct AdsbdbAircraft {
    pub icao_type: Option<String>,
    pub registration: Option<String>,
}

/// An airport of an adsbdb route.
#[derive(Debug, Clone)]
pub struct AdsbdbAirport {
    pub iata_code: Option<String>,
}

/// Flight route from adsbdb: IATA flight number and the two airports.
#[derive(Debug, Clone, Default)]
pub struct AdsbdbFlightRoute {
    pub callsign_iata: Option<String>,
    pub origin: Option<AdsbdbAirport>,
    pub destination: Option<AdsbdbAirport>,
}

/// The fields of an OpenSky state vector that the choice reads: ICAO 24-bit
/// address (field 0) and callsign (field 1) when they are strings, the
/// on-ground flag (field 8) when it is a boolean, and whether the true
/// track (field 10, 90 degrees when absent) lies in [0, 180), that is the
/// aircraft moves east and crosses the screen from left to right.
#[derive(Debug, Clone)]
pub struct StateVector {
    pub icao24: Option<String>,
    pub callsign: Option<String>,
    pub on_ground: Option<bool>,
    pub track_eastbound: bool,
}

/// A candidate from OpenSky: an airborne aircraft with a callsign.
#[derive(Debug, Clone)]
pub struct Candidate {
    pub icao24: String,
    pub callsign: String,
    pub eastbound: bool,
}

/// View of an optional string.
pub open spec fn opt_view(o: Option<String>) -> Option<Seq<char>> {
    match o {
        Some(s) => Some(s@),
        None => None,
    }
}

/// View of a candidate: address, callsign, direction.
pub open spec fn candidate_view(c: Candidate) -> (Seq<char>, Seq<char>, bool) {
    (c.icao24@, c.callsign@, c.eastbound)
}

/// The candidate a state vector gives: both identifiers present and
/// non-blank after trimming, and the aircraft not on the ground.
pub open spec fn candidate_spec(s: StateVector) -> Option<(Seq<char>, Seq<char>, bool)> {
    match (s.icao24, s.callsign, s.on_ground) {
        (Some(icao), Some(callsign), Some(on_ground)) => {
            let icao_t = text::trim_seq(icao@);
            let callsign_t = text::trim_seq(callsign@);
            if icao_t.len() == 0 || callsign_t.len() == 0 || on_ground {
                None
            } else {
                Some((icao_t, callsign_t, s.track_eastbound))
            }
        },
        _ => None,
    }
}

/// The candidate of the first state vector that gives one.
pub open spec fn pick_candidate_spec(states: Seq<StateVector>) -> Option<
    (Seq<char>, Seq<char>, bool),
>
    decreases states.len(),
{
    if states.len() == 0 {
        None
    } else {
        match candidate_spec(states[0]) {
            Some(c) => Some(c),
            None => pick_candidate_spec(states.drop_first()),
        }
    }
}

/// The candidate of one state vector.
pub fn candidate_of(s: &StateVector) -> (r: Option<Candidate>)
    ensures
        match r {
            Some(c) => candidate_spec(*s) == Some(candidate_view(c)),
            None => candidate_spec(*s) is None,
        },
{
    match (&s.icao24, &s.callsign, &s.on_ground) {
        (Some(icao), Some(callsign), Some(on_ground)) => {
            let icao_t = trim(icao.as_str());
            let callsign_t = trim(callsign.as_str());
            if icao_t.unicode_len() == 0 || callsign_t.unicode_len() == 0 || *on_ground {
                None
            } else {
                Some(
                    Candidate {
                        icao24: String::from_str(icao_t),
                        callsign: String::from_str(callsign_t),
                        eastbound: s.track_eastbound,
                    },
                )
            }
        },
        _ => None,
    }
}

proof fn lemma_pick_skip(states: Seq<StateVector>, i: int)
    requires
        0 <= i < states.len(),
    ensures
        pick_candidate_spec(states.skip(i)) == match candidate_spec(states[i]) {
            Some(c) => Some(c),
            None => pick_candidate_spec(states.skip(i + 1)),
        },
{
    assert(states.skip(i).drop_first() =~= states.skip(i + 1));
    assert(states.skip(i)[0] == states[i]);
}

/// The first airborne aircraft with a callsign among OpenSky's state
/// vectors.
pub fn pick_candidate(states: &Vec<StateVector>) -> (r: Option<Candidate>)
    ensures
        match r {
            Some(c) => pick_candidate_spec(states@) == Some(candidate_view(c)),
            None => pick_candidate_spec(states@) is None,
        },
{
    let n = states.len();
    let mut i: usize = 0;
    assert(states@.skip(0) =~= states@);
    while i < n
        invariant
            n == states@.len(),
            i <= n,
            pick_candidate_spec(states@) == pick_candidate_spec(states@.skip(i as int)),
        decreases n - i,
    {
        proof {
            lemma_pick_skip(states@, i as int);
        }
        match candidate_of(&states[i]) {
            Some(c) => {
                return Some(c);
            },
            None => {},
        }
        i = i + 1;
    }
    assert(states@.skip(n as int).len() == 0);
    None
}

/// "type registration", whichever of the two adsbdb knows, or nothing.
pub open spec fn model_reg_spec(icao_type: Option<Seq<char>>, registration: Option<Seq<char>>) -> Option<
    Seq<char>,
> {
    match (icao_type, registration) {
        (Some(t), Some(r)) => Some(t + " "@ + r),
        (Some(t), None) => Some(t),
        (None, Some(r)) => Some(r),
        (None, None) => None,
    }
}

/// The flight leg: the IATA flight number (the callsign when adsbdb has
/// none), followed by "FROM-TO" when both airports have IATA codes.
pub open spec fn leg_spec(callsign: Seq<char>, route: AdsbdbFlightRoute) -> Seq<char> {
    let flight_number = match route.callsign_iata {
        Some(n) => n@,
        None => callsign,
    };
    match (route.origin, route.destination) {
        (Some(origin), Some(dest)) => match (origin.iata_code, dest.iata_code) {
            (Some(from), Some(to)) => flight_number + " "@ + from@ + "-"@ + to@,
            _ => flight_number,
        },
        _ => flight_number,
    }
}

/// The caption: "type registration | leg", or the leg alone when adsbdb
/// knows neither the type nor the registration.
pub open spec fn label_spec(
    callsign: Seq<char>,
    aircraft: AdsbdbAircraft,
    route: AdsbdbFlightRoute,
) -> Seq<char> {
    let leg = leg_spec(callsign, route);
    match model_reg_spec(opt_view(aircraft.icao_type), opt_view(aircraft.registration)) {
        Some(m) => m + " | "@ + leg,
        None => leg,
    }
}

/// Composes the caption of a real aircraft, e.g.
/// "A320 RA-73756 | SU1234 SVO-LED".
pub fn build_label(callsign: &str, aircraft: &AdsbdbAircraft, route: &AdsbdbFlightRoute) -> (s:
    String)
    ensures
        s@ == label_spec(callsign@, *aircraft, *route),
{
    let mut s = String::new();
    let has_model_reg = match (&aircraft.icao_type, &aircraft.registration) {
        (Some(t), Some(r)) => {
            s.append(t.as_str());
            s.append(" ");
            s.append(r.as_str());
            true
        },
        (Some(t), None) => {
            s.append(t.as_str());
            true
        },
        (None, Some(r)) => {
            s.append(r.as_str());
            true
        },
        (None, None) => false,
    };
    if has_model_reg {
        s.append(" | ");
    }
    match &route.callsign_iata {
        Some(n) => s.append(n.as_str()),
        None => s.append(callsign),
    }
    match (&route.origin, &route.destination) {
        (Some(origin), Some(dest)) => match (&origin.iata_code, &dest.iata_code) {
            (Some(from), Some(to)) => {
                s.append(" ");
                s.append(from.as_str());
                s.append("-");
                s.append(to.as_str());
            },
            _ => {},
        },
        _ => {},
    }
    assert(s@ =~= label_spec(callsign@, *aircraft, *route));
    s
}

/// The label sent for a chosen candidate and what adsbdb told about it.
pub fn flight_label(
    candidate: &Candidate,
    aircraft: &AdsbdbAircraft,
    route: &AdsbdbFlightRoute,
) -> (f: FlightLabel)
    ensures
        f.label@ == label_spec(candidate.callsign@, *aircraft, *route),
        f.eastbound == candidate.eastbound,
{
    FlightLabel {
        label: build_label(candidate.callsign.as_str(), aircraft, route),
        eastbound: candidate.eastbound,
    }
}

/// Pause between two looks at the sky: the poll period, at least five
/// minutes (anonymous OpenSky allows about a hundred requests a day).
pub fn flight_poll_delay(poll_secs: u64) -> (r: u64)
    ensures
        r == (if poll_secs < 300 { 300 } else { poll_secs }),
{
    if poll_secs < 300 {
        300
    } else {
        poll_secs
    }
}

/// What the lookup of a flight needs next: the aircraft's details (from
/// the cache or adsbdb), the route of its callsign (likewise), or nothing
/// more, the caption being ready.
pub enum LookupStep {
    Aircraft(String),
    Route(String),
    Done(FlightLabel),
}

/// The lookup of one flight's caption: the chosen candidate and what has
/// been found out about it so far.
pub struct FlightLookup {
    pub candidate: Candidate,
    pub aircraft: Option<AdsbdbAircraft>,
    pub route: Option<AdsbdbFlightRoute>,
}

impl FlightLookup {
    /// Starts the lookup of the first usable aircraft among OpenSky's
    /// state vectors; none when no aircraft is usable.
    pub fn start(states: &Vec<StateVector>) -> (r: Option<FlightLookup>)
        ensures
            match r {
                Some(l) => {
                    &&& pick_candidate_spec(states@) == Some(candidate_view(l.candidate))
                    &&& l.aircraft is None
                    &&& l.route is None
                },
                None => pick_candidate_spec(states@) is None,
            },
    {
        match pick_candidate(states) {
            Some(candidate) => Some(FlightLookup { candidate, aircraft: None, route: None }),
            None => None,
        }
    }

    /// The next step: first the aircraft, then the route, then the caption.
    pub fn next_step(&self) -> (step: LookupStep)
        ensures
            self.aircraft is None ==> (step matches LookupStep::Aircraft(icao) && icao@
                == self.candidate.icao24@),
            self.aircraft is Some && self.route is None ==> (step matches LookupStep::Route(
                callsign,
            ) && callsign@ == self.candidate.callsign@),
            self.aircraft matches Some(a) ==> (self.route matches Some(r) ==> (
            step matches LookupStep::Done(f) && f.label@ == label_spec(
                self.candidate.callsign@,
                a,
                r,
            ) && f.eastbound == self.candidate.eastbound)),
    {
        match (&self.aircraft, &self.route) {
            (None, _) => LookupStep::Aircraft(self.candidate.icao24.clone()),
            (Some(_), None) => LookupStep::Route(self.candidate.callsign.clone()),
            (Some(a), Some(r)) => LookupStep::Done(flight_label(&self.candidate, a, r)),
        }
    }

    /// Offers what the cache holds for the aircraft: a cached entry is
    /// taken as found and nothing needs fetching; without one the details
    /// are to be fetched (then given with `aircraft_found`).
    pub fn offer_cached_aircraft(&mut self, cached: Option<AdsbdbAircraft>) -> (fetch: bool)
        ensures
            fetch == (cached is None),
            cached is None ==> *final(self) == *old(self),
            cached matches Some(a) ==> final(self).aircraft == Some(a) && final(self).route
                == old(self).route && final(self).candidate == old(self).candidate,
    {
        match cached {
            Some(a) => {
                self.aircraft_found(a);
                false
            },
            None => true,
        }
    }

    /// Offers what the cache holds for the callsign's route: a cached entry
    /// is taken as found and nothing needs fetching; without one the route
    /// is to be fetched (then given with `route_found`).
    pub fn offer_cached_route(&mut self, cached: Option<AdsbdbFlightRoute>) -> (fetch: bool)
        ensures
            fetch == (cached is None),
            cached is None ==> *final(self) == *old(self),
            cached matches Some(r) ==> final(self).route == Some(r) && final(self).aircraft
                == old(self).aircraft && final(self).candidate == old(self).candidate,
    {
        match cached {
            Some(r) => {
                self.route_found(r);
                false
            },
            None => true,
        }
    }

    /// The aircraft's details have been found.
    pub fn aircraft_found(&mut self, aircraft: AdsbdbAircraft)
        ensures
            final(self).aircraft == Some(aircraft),
            final(self).route == old(self).route,
            final(self).candidate == old(self).candidate,
    {
        self.aircraft = Some(aircraft);
    }

    /// The route of the callsign has been found.
    pub fn route_found(&mut self, route: AdsbdbFlightRoute)
        ensures
            final(self).route == Some(route),
            final(self).aircraft == old(self).aircraft,
            final(self).candidate == old(self).candidate,
    {
        self.route = Some(route);
    }
}

} // verus!
