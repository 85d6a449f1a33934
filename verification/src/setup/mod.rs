//! What the name of a setup says of it.

use vstd::prelude::*;
use crate::session::Weather;
use crate::setup::setup_file::SetupFile;

pub mod data;
pub mod setup_file;

verus! {

/// The kind of session that a setup is meant for.
#[derive(Clone, Copy, Debug, PartialEq, Eq, Structural)]
pub enum SetupType {
    /// A setup for any session.
    Base,
    Race,
    Qualifying,
}

impl Default for SetupType {
    fn default() -> (r: SetupType)
        ensures
            r == SetupType::Base,
    {
        SetupType::Base
    }
}

/// Why a setup could not be taken in.
#[derive(Clone, Copy, Debug, PartialEq, Eq, Structural)]
pub enum SetupError {
    /// The path of the setup does not have the form of a setup's path.
    ParsePathError,
}

/// The pattern of a name that marks a qualifying setup: ` Q` or ` Quali`,
/// followed by a blank or the end of the name.
pub const QUALI_PATTERN: &'static str = " (Q|Quali)( |$)";

/// The pattern of a name that marks a race setup: ` R` or ` Race`, followed
/// by a blank or the end of the name.
pub const RACE_PATTERN: &'static str = " (R|Race)( |$)";

/// Whether the regular expression `pattern` matches somewhere in `haystack`,
/// as the `regex` crate decides it; `None` where the crate does not accept
/// the pattern.
pub uninterp spec fn regex_search(pattern: Seq<char>, haystack: Seq<char>) -> Option<bool>;

/// Compiles `pattern` with `regex::Regex::new` and searches `haystack` with
/// `Regex::is_match`. The result is what the crate answers for these two
/// strings: whether there is a match anywhere in the haystack, or `None`
/// where it rejects the pattern. It depends on the two strings alone.
#[verifier::external_body]
fn search(pattern: &str, haystack: &str) -> (r: Option<bool>)
    ensures
        r == regex_search(pattern@, haystack@),
{
    match regex::Regex::new(pattern) {
        Ok(re) => Some(re.is_match(haystack)),
        Err(_) => None,
    }
}

impl SetupType {
    /// The type that the two searches of a name make out: a name that
    /// matches the pattern of qualifying setups is one, whatever else it
    /// matches; else a name that matches the pattern of race setups is a
    /// race setup; every other name is a base setup. A search that could not
    /// be made counts as no match.
    pub open spec fn of_matches(quali: Option<bool>, race: Option<bool>) -> SetupType {
        if quali == Some(true) {
            SetupType::Qualifying
        } else if race == Some(true) {
            SetupType::Race
        } else {
            SetupType::Base
        }
    }

    /// The type that the two searches of a name make out.
    pub fn classify(quali: Option<bool>, race: Option<bool>) -> (r: SetupType)
        ensures
            r == Self::of_matches(quali, race),
    {
        match quali {
            Some(true) => SetupType::Qualifying,
            _ => match race {
                Some(true) => SetupType::Race,
                _ => SetupType::Base,
            },
        }
    }

    /// The type of the setup named `s`. Every name has a type.
    pub fn from_str(s: &str) -> (r: Result<SetupType, SetupError>)
        ensures
            r == Ok::<SetupType, SetupError>(
                Self::of_matches(
                    regex_search(QUALI_PATTERN@, s@),
                    regex_search(RACE_PATTERN@, s@),
                ),
            ),
    {
        let quali = search(QUALI_PATTERN, s);
        let race = search(RACE_PATTERN, s);
        Ok(Self::classify(quali, race))
    }
}

/// What the setups are to follow.
#[derive(Clone, Copy, Debug, PartialEq, Eq, Structural)]
pub enum SetupChange {
    Weather(Weather),
    /// The fuel for the race in litres.
    RaceFuel(i32),
    /// The fuel for the qualifying session in litres.
    QualiFuel(i32),
    /// The number of laps that the telemetry records.
    TelemetryLaps(i32),
}

/// The setups of a car on a track, and what they were last adjusted to.
#[derive(Clone, Debug, PartialEq, Eq)]
pub struct SetupManager {
    pub weather: Weather,
    pub race_fuel: i32,
    pub quali_fuel: i32,
    pub telemetry_laps: i32,
    pub setups: Vec<SetupFile>,
}

impl SetupType {
    /// Whether a setup of this type takes the fuel of a session of type
    /// `session`: a base setup takes the fuel of every session, the others
    /// that of their own.
    pub open spec fn takes_fuel_of(self, session: SetupType) -> bool {
        self == SetupType::Base || self == session
    }
}

impl SetupManager {
    /// A manager without setups.
    pub fn new() -> (r: SetupManager)
        ensures
            r.weather == Weather::initial(),
            r.race_fuel == 0,
            r.quali_fuel == 0,
            r.telemetry_laps == 0,
            r.setups@.len() == 0,
    {
        SetupManager {
            weather: Weather::default(),
            race_fuel: 0,
            quali_fuel: 0,
            telemetry_laps: 0,
            setups: Vec::new(),
        }
    }

    /// Takes every setup to the temperatures of `weather`.
    pub fn adjust_weather(&mut self, weather: Weather)
        ensures
            final(self).setups@.len() == old(self).setups@.len(),
            forall|i: int|
                0 <= i < old(self).setups@.len() ==> (#[trigger] old(
                    self,
                ).setups@[i]).weather_adjusted(final(self).setups@[i], weather),
            final(self).weather == old(self).weather,
            final(self).race_fuel == old(self).race_fuel,
            final(self).quali_fuel == old(self).quali_fuel,
            final(self).telemetry_laps == old(self).telemetry_laps,
    {
        let mut i: usize = 0;
        while i < self.setups.len()
            invariant
                i <= self.setups@.len(),
                self.setups@.len() == old(self).setups@.len(),
                forall|k: int|
                    0 <= k < i ==> (#[trigger] old(self).setups@[k]).weather_adjusted(
                        self.setups@[k],
                        weather,
                    ),
                forall|k: int|
                    i <= k < self.setups@.len() ==> (#[trigger] self.setups@[k]) == old(
                        self,
                    ).setups@[k],
                self.weather == old(self).weather,
                self.race_fuel == old(self).race_fuel,
                self.quali_fuel == old(self).quali_fuel,
                self.telemetry_laps == old(self).telemetry_laps,
            decreases self.setups@.len() - i,
        {
            self.setups[i].adjust_weather(&weather);
            i += 1;
        }
    }

    /// Sets the fuel of every setup that takes the fuel of a session of type
    /// `session`, and leaves the others as they are.
    pub fn adjust_fuel(&mut self, fuel: i32, session: SetupType)
        ensures
            final(self).setups@.len() == old(self).setups@.len(),
            forall|i: int|
                0 <= i < old(self).setups@.len() ==> (if (#[trigger] old(
                    self,
                ).setups@[i]).setup_type.takes_fuel_of(session) {
                    old(self).setups@[i].fuel_adjusted(final(self).setups@[i], fuel)
                } else {
                    final(self).setups@[i] == old(self).setups@[i]
                }),
            final(self).weather == old(self).weather,
            final(self).race_fuel == old(self).race_fuel,
            final(self).quali_fuel == old(self).quali_fuel,
            final(self).telemetry_laps == old(self).telemetry_laps,
    {
        let mut i: usize = 0;
        while i < self.setups.len()
            invariant
                i <= self.setups@.len(),
                self.setups@.len() == old(self).setups@.len(),
                forall|k: int|
                    0 <= k < i ==> (if (#[trigger] old(self).setups@[k]).setup_type.takes_fuel_of(
                        session,
                    ) {
                        old(self).setups@[k].fuel_adjusted(self.setups@[k], fuel)
                    } else {
                        self.setups@[k] == old(self).setups@[k]
                    }),
                forall|k: int|
                    i <= k < self.setups@.len() ==> (#[trigger] self.setups@[k]) == old(
                        self,
                    ).setups@[k],
                self.weather == old(self).weather,
                self.race_fuel == old(self).race_fuel,
                self.quali_fuel == old(self).quali_fuel,
                self.telemetry_laps == old(self).telemetry_laps,
            decreases self.setups@.len() - i,
        {
            let setup_type = self.setups[i].setup_type;
            if setup_type == SetupType::Base || setup_type == session {
                self.setups[i].adjust_fuel(fuel);
            }
            i += 1;
        }
    }

    /// Sets the number of laps that the telemetry of every setup records.
    pub fn adjust_telemetry_laps(&mut self, laps: i32)
        ensures
            final(self).setups@.len() == old(self).setups@.len(),
            forall|i: int|
                0 <= i < old(self).setups@.len() ==> (#[trigger] old(
                    self,
                ).setups@[i]).laps_adjusted(final(self).setups@[i], laps),
            final(self).weather == old(self).weather,
            final(self).race_fuel == old(self).race_fuel,
            final(self).quali_fuel == old(self).quali_fuel,
            final(self).telemetry_laps == old(self).telemetry_laps,
    {
        let mut i: usize = 0;
        while i < self.setups.len()
            invariant
                i <= self.setups@.len(),
                self.setups@.len() == old(self).setups@.len(),
                forall|k: int|
                    0 <= k < i ==> (#[trigger] old(self).setups@[k]).laps_adjusted(
                        self.setups@[k],
                        laps,
                    ),
                forall|k: int|
                    i <= k < self.setups@.len() ==> (#[trigger] self.setups@[k]) == old(
                        self,
                    ).setups@[k],
                self.weather == old(self).weather,
                self.race_fuel == old(self).race_fuel,
                self.quali_fuel == old(self).quali_fuel,
                self.telemetry_laps == old(self).telemetry_laps,
            decreases self.setups@.len() - i,
        {
            self.setups[i].adjust_telemetry_laps(laps);
            i += 1;
        }
    }

    /// Takes a change in: keeps what the setups are adjusted to and adjusts
    /// them. The weather and the telemetry laps go to every setup, the fuel
    /// of a session to the base setups and to the setups of that session.
    pub fn handle(&mut self, msg: SetupChange)
        ensures
            final(self).setups@.len() == old(self).setups@.len(),
            match msg {
                SetupChange::Weather(weather) => {
                    &&& final(self).weather == weather
                    &&& final(self).race_fuel == old(self).race_fuel
                    &&& final(self).quali_fuel == old(self).quali_fuel
                    &&& final(self).telemetry_laps == old(self).telemetry_laps
                    &&& forall|i: int|
                        0 <= i < old(self).setups@.len() ==> (#[trigger] old(
                            self,
                        ).setups@[i]).weather_adjusted(final(self).setups@[i], weather)
                },
                SetupChange::RaceFuel(fuel) => {
                    &&& final(self).race_fuel == fuel
                    &&& final(self).weather == old(self).weather
                    &&& final(self).quali_fuel == old(self).quali_fuel
                    &&& final(self).telemetry_laps == old(self).telemetry_laps
                    &&& forall|i: int|
                        0 <= i < old(self).setups@.len() ==> (if (#[trigger] old(
                            self,
                        ).setups@[i]).setup_type.takes_fuel_of(SetupType::Race) {
                            old(self).setups@[i].fuel_adjusted(final(self).setups@[i], fuel)
                        } else {
                            final(self).setups@[i] == old(self).setups@[i]
                        })
                },
                SetupChange::QualiFuel(fuel) => {
                    &&& final(self).quali_fuel == fuel
                    &&& final(self).weather == old(self).weather
                    &&& final(self).race_fuel == old(self).race_fuel
                    &&& final(self).telemetry_laps == old(self).telemetry_laps
                    &&& forall|i: int|
                        0 <= i < old(self).setups@.len() ==> (if (#[trigger] old(
                            self,
                        ).setups@[i]).setup_type.takes_fuel_of(SetupType::Qualifying) {
                            old(self).setups@[i].fuel_adjusted(final(self).setups@[i], fuel)
                        } else {
                            final(self).setups@[i] == old(self).setups@[i]
                        })
                },
                SetupChange::TelemetryLaps(laps) => {
                    &&& final(self).telemetry_laps == laps
                    &&& final(self).weather == old(self).weather
                    &&& final(self).race_fuel == old(self).race_fuel
                    &&& final(self).quali_fuel == old(self).quali_fuel
                    &&& forall|i: int|
                        0 <= i < old(self).setups@.len() ==> (#[trigger] old(
                            self,
                        ).setups@[i]).laps_adjusted(final(self).setups@[i], laps)
                },
            },
    {
        match msg {
            SetupChange::Weather(weather) => {
                self.weather = weather;
                self.adjust_weather(weather);
            },
            SetupChange::RaceFuel(fuel) => {
                self.race_fuel = fuel;
                self.adjust_fuel(fuel, SetupType::Race);
            },
            SetupChange::QualiFuel(fuel) => {
                self.quali_fuel = fuel;
                self.adjust_fuel(fuel, SetupType::Qualifying);
            },
            SetupChange::TelemetryLaps(laps) => {
                self.telemetry_laps = laps;
                self.adjust_telemetry_laps(laps);
            },
        }
    }
}

} // verus!
