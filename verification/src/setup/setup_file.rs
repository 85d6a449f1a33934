//! A setup with what its file name says of it: the temperatures it was made
//! for, its name and, by the name, the kind of session it is meant for.
//!
//! The file of a setup is named `<ambient>c <track>c <name>.json`, the two
//! temperatures as whole degrees, as in `21c 26c Sprint Race.json`.

use vstd::prelude::*;
use vstd::slice::slice_subrange;
use vstd::string::{StringExecFns, StringSliceAdditionalSpecFns};
use vstd::utf8::{decode_utf8, encode_utf8_decode_utf8, valid_utf8};
use crate::session::Weather;
use crate::setup::data::{add_clamped, clamp, Electronics, PitStrategy, Setup};
use crate::setup::{SetupError, SetupType};

verus! {

/// A setup and what its file name says of it.
#[derive(Clone, Debug, PartialEq, Eq)]
pub struct SetupFile {
    /// The name of the setup, without the temperatures.
    pub name: String,
    /// The ambient temperature that the setup is made for, in degrees.
    pub ambient_temperature: u8,
    /// The track temperature that the setup is made for, in degrees.
    pub track_temperature: u8,
    pub setup_type: SetupType,
    pub setup: Setup,
}

/// Whether a byte parts the directories of a path: a slash or a backslash.
pub open spec fn is_separator(byte: u8) -> bool {
    byte == 0x2f || byte == 0x5c
}

/// Where the last part of a path starts: behind its last separator.
pub open spec fn file_start(path: Seq<u8>) -> int
    decreases path.len(),
{
    if path.len() == 0 || is_separator(path.last()) {
        path.len() as int
    } else {
        file_start(path.drop_last())
    }
}

/// The bytes of `.json`.
pub open spec fn json_suffix() -> Seq<u8> {
    seq![0x2e, 0x6a, 0x73, 0x6f, 0x6e]
}

/// The number that two bytes of text stand for: two digits, or a plus sign
/// and a digit.
pub open spec fn two_digits(a: u8, b: u8) -> Option<u8> {
    if 0x30 <= b <= 0x39 {
        if 0x30 <= a <= 0x39 {
            Some(((a - 0x30) * 10 + (b - 0x30)) as u8)
        } else if a == 0x2b {
            Some((b - 0x30) as u8)
        } else {
            None
        }
    } else {
        None
    }
}

/// What the name of a setup's file says, for a path given by its bytes: the
/// bytes of the setup's name, the ambient and the track temperature. The
/// last part of the path has to end in `.json`; what stands before that has
/// to hold the ambient temperature in its first two bytes, the track
/// temperature in its fifth and sixth, and the name from its ninth byte on.
pub open spec fn spec_parse_name(path: Seq<u8>) -> Option<(Seq<u8>, u8, u8)> {
    let file = path.skip(file_start(path));
    if file.len() < 5 || file.skip(file.len() - 5) != json_suffix() {
        None
    } else {
        let stem = file.take(file.len() - 5);
        if stem.len() < 8 {
            None
        } else {
            match (two_digits(stem[0], stem[1]), two_digits(stem[4], stem[5])) {
                (Some(ambient), Some(track)) => Some((stem.skip(8), ambient, track)),
                _ => None,
            }
        }
    }
}

/// The text of a digit.
pub open spec fn digit_char(digit: u8) -> char {
    (0x30 + digit) as char
}

/// The text of a number: its decimal digits, without zeros in front.
pub open spec fn decimal(n: u8) -> Seq<char> {
    if n >= 100 {
        seq![digit_char(n / 100), digit_char(n / 10 % 10), digit_char(n % 10)]
    } else if n >= 10 {
        seq![digit_char(n / 10), digit_char(n % 10)]
    } else {
        seq![digit_char(n)]
    }
}

/// Where the last part of a path starts.
fn find_file_start(path: &[u8]) -> (r: usize)
    ensures
        r == file_start(path@),
        r <= path@.len(),
{
    let mut i = path.len();
    assert(path@.take(i as int) =~= path@);
    while i > 0 && !(path[i - 1] == 0x2f || path[i - 1] == 0x5c)
        invariant
            i <= path@.len(),
            file_start(path@) == file_start(path@.take(i as int)),
        decreases i,
    {
        assert(path@.take(i as int).drop_last() =~= path@.take(i - 1));
        i -= 1;
    }
    i
}

/// The number that two bytes of text stand for.
fn read_two_digits(a: u8, b: u8) -> (r: Option<u8>)
    ensures
        r == two_digits(a, b),
{
    if 0x30 <= b && b <= 0x39 {
        if 0x30 <= a && a <= 0x39 {
            Some((a - 0x30) * 10 + (b - 0x30))
        } else if a == 0x2b {
            Some(b - 0x30)
        } else {
            None
        }
    } else {
        None
    }
}

/// The text of a digit.
fn digit_text(digit: u8) -> (r: &'static str)
    requires
        digit <= 9,
    ensures
        r@ == seq![digit_char(digit)],
{
    proof {
        reveal_strlit("0");
        reveal_strlit("1");
        reveal_strlit("2");
        reveal_strlit("3");
        reveal_strlit("4");
        reveal_strlit("5");
        reveal_strlit("6");
        reveal_strlit("7");
        reveal_strlit("8");
        reveal_strlit("9");
    }
    let text = match digit {
        0 => "0",
        1 => "1",
        2 => "2",
        3 => "3",
        4 => "4",
        5 => "5",
        6 => "6",
        7 => "7",
        8 => "8",
        _ => "9",
    };
    assert(text@ =~= seq![digit_char(digit)]);
    text
}

/// Appends the decimal digits of `n`.
fn push_decimal(text: &mut String, n: u8)
    ensures
        final(text)@ == old(text)@ + decimal(n),
{
    if n >= 100 {
        text.append(digit_text(n / 100));
    }
    if n >= 10 {
        text.append(digit_text(n / 10 % 10));
    }
    text.append(digit_text(n % 10));
    assert(text@ =~= old(text)@ + decimal(n));
}

impl SetupFile {
    /// The name that the file of a setup with these temperatures and this
    /// name has.
    pub open spec fn spec_file_name(ambient: u8, track: u8, name: Seq<char>) -> Seq<char> {
        decimal(ambient) + "c "@ + decimal(track) + "c "@ + name + ".json"@
    }

    /// Reads the name and the two temperatures off the path of a setup's
    /// file. A path whose last part does not have the form of a setup's file
    /// name is an error.
    pub fn parse_name(path: &str) -> (r: Result<(String, u8, u8), SetupError>)
        ensures
            match r {
                Ok((name, ambient, track)) => {
                    &&& spec_parse_name(path.spec_bytes()) matches Some((bytes, a, t))
                    &&& valid_utf8(bytes)
                    &&& name@ == decode_utf8(bytes)
                    &&& ambient == a
                    &&& track == t
                },
                Err(e) => {
                    &&& e == SetupError::ParsePathError
                    &&& match spec_parse_name(path.spec_bytes()) {
                        Some((bytes, _, _)) => !valid_utf8(bytes),
                        None => true,
                    }
                },
            },
    {
        let bytes = path.as_bytes();
        let start = find_file_start(bytes);
        let file = slice_subrange(bytes, start, bytes.len());
        assert(file@ =~= bytes@.skip(start as int));
        if file.len() < 5 {
            return Err(SetupError::ParsePathError);
        }
        let end = file.len() - 5;
        let ghost tail = file@.skip(end as int);
        if !(file[end] == 0x2e && file[end + 1] == 0x6a && file[end + 2] == 0x73 && file[end + 3]
            == 0x6f && file[end + 4] == 0x6e) {
            assert(tail != json_suffix()) by {
                assert(tail[0] == file@[end as int]);
                assert(tail[1] == file@[end + 1]);
                assert(tail[2] == file@[end + 2]);
                assert(tail[3] == file@[end + 3]);
                assert(tail[4] == file@[end + 4]);
            }
            return Err(SetupError::ParsePathError);
        }
        assert(tail =~= json_suffix());
        let stem = slice_subrange(file, 0, end);
        assert(stem@ =~= file@.take(end as int));
        if stem.len() < 8 {
            return Err(SetupError::ParsePathError);
        }
        let ambient = match read_two_digits(stem[0], stem[1]) {
            Some(value) => value,
            None => {
                return Err(SetupError::ParsePathError);
            },
        };
        let track = match read_two_digits(stem[4], stem[5]) {
            Some(value) => value,
            None => {
                return Err(SetupError::ParsePathError);
            },
        };
        let name_bytes = slice_subrange(stem, 8, stem.len());
        assert(name_bytes@ =~= stem@.skip(8));
        match core::str::from_utf8(name_bytes) {
            Ok(name) => {
                proof {
                    encode_utf8_decode_utf8(name@);
                }
                Ok((name.to_owned(), ambient, track))
            },
            Err(_) => Err(SetupError::ParsePathError),
        }
    }

    /// The name of the setup's file.
    pub fn file_name(&self) -> (r: String)
        ensures
            r@ == Self::spec_file_name(
                self.ambient_temperature,
                self.track_temperature,
                self.name@,
            ),
    {
        let mut text = String::new();
        push_decimal(&mut text, self.ambient_temperature);
        text.append("c ");
        push_decimal(&mut text, self.track_temperature);
        text.append("c ");
        text.append(self.name.as_str());
        text.append(".json");
        assert(text@ =~= Self::spec_file_name(
            self.ambient_temperature,
            self.track_temperature,
            self.name@,
        ));
        text
    }

    /// The clicks by which the tyre pressures change when the setup is taken
    /// from its ambient temperature to `ambient`: one click down for every
    /// degree up.
    pub open spec fn pressure_clicks(self, ambient: u8) -> int {
        self.ambient_temperature - ambient
    }

    /// Whether `after` is the setup `self` taken to the temperatures of
    /// `weather`: it has the temperatures of `weather`, and the tyre
    /// pressures of the setup and of each of its pit stops are changed by a
    /// click for every degree of ambient temperature. Everything else is as
    /// it was.
    pub open spec fn weather_adjusted(self, after: SetupFile, weather: Weather) -> bool {
        let clicks = self.pressure_clicks(weather.ambient_temp);
        let stops = self.setup.basic_setup.strategy.pit_strategy@;
        let stops_after = after.setup.basic_setup.strategy.pit_strategy@;
        &&& after.ambient_temperature == weather.ambient_temp
        &&& after.track_temperature == weather.track_temp
        &&& after.name == self.name
        &&& after.setup_type == self.setup_type
        &&& after.setup.basic_setup.tyres == self.setup.basic_setup.tyres.shifted(clicks)
        &&& stops_after.len() == stops.len()
        &&& forall|i: int|
            0 <= i < stops.len() ==> (#[trigger] stops_after[i]) == (PitStrategy {
                tyres: stops[i].tyres.shifted(clicks),
                ..stops[i]
            })
        &&& after.setup.car_name == self.setup.car_name
        &&& after.setup.track_bop_type == self.setup.track_bop_type
        &&& after.setup.advanced_setup == self.setup.advanced_setup
        &&& after.setup.basic_setup.alignment == self.setup.basic_setup.alignment
        &&& after.setup.basic_setup.electronics == self.setup.basic_setup.electronics
        &&& after.setup.basic_setup.strategy.fuel == self.setup.basic_setup.strategy.fuel
        &&& after.setup.basic_setup.strategy.n_pit_stops
            == self.setup.basic_setup.strategy.n_pit_stops
        &&& after.setup.basic_setup.strategy.tyre_set == self.setup.basic_setup.strategy.tyre_set
        &&& after.setup.basic_setup.strategy.front_brake_pad_compound
            == self.setup.basic_setup.strategy.front_brake_pad_compound
        &&& after.setup.basic_setup.strategy.rear_brake_pad_compound
            == self.setup.basic_setup.strategy.rear_brake_pad_compound
        &&& after.setup.basic_setup.strategy.fuel_per_lap
            == self.setup.basic_setup.strategy.fuel_per_lap
    }

    /// Whether `after` is the setup `self` with the fuel at the start set to
    /// two litres less than `fuel`, and everything else as it was.
    pub open spec fn fuel_adjusted(self, after: SetupFile, fuel: i32) -> bool {
        &&& after.setup.basic_setup.strategy.fuel == clamp(fuel - 2)
        &&& after.setup.basic_setup.strategy.pit_strategy
            == self.setup.basic_setup.strategy.pit_strategy
        &&& after.setup.basic_setup.strategy.n_pit_stops
            == self.setup.basic_setup.strategy.n_pit_stops
        &&& after.setup.basic_setup.strategy.tyre_set == self.setup.basic_setup.strategy.tyre_set
        &&& after.setup.basic_setup.strategy.front_brake_pad_compound
            == self.setup.basic_setup.strategy.front_brake_pad_compound
        &&& after.setup.basic_setup.strategy.rear_brake_pad_compound
            == self.setup.basic_setup.strategy.rear_brake_pad_compound
        &&& after.setup.basic_setup.strategy.fuel_per_lap
            == self.setup.basic_setup.strategy.fuel_per_lap
        &&& after.setup.basic_setup.tyres == self.setup.basic_setup.tyres
        &&& after.setup.basic_setup.alignment == self.setup.basic_setup.alignment
        &&& after.setup.basic_setup.electronics == self.setup.basic_setup.electronics
        &&& after.setup.advanced_setup == self.setup.advanced_setup
        &&& after.setup.car_name == self.setup.car_name
        &&& after.setup.track_bop_type == self.setup.track_bop_type
        &&& after.ambient_temperature == self.ambient_temperature
        &&& after.track_temperature == self.track_temperature
        &&& after.name == self.name
        &&& after.setup_type == self.setup_type
    }

    /// Whether `after` is the setup `self` with the telemetry set to record
    /// `laps` laps, and everything else as it was.
    pub open spec fn laps_adjusted(self, after: SetupFile, laps: i32) -> bool {
        &&& after.setup.basic_setup.electronics == (Electronics {
            telemetry_laps: laps,
            ..self.setup.basic_setup.electronics
        })
        &&& after.setup.basic_setup.strategy == self.setup.basic_setup.strategy
        &&& after.setup.basic_setup.tyres == self.setup.basic_setup.tyres
        &&& after.setup.basic_setup.alignment == self.setup.basic_setup.alignment
        &&& after.setup.advanced_setup == self.setup.advanced_setup
        &&& after.setup.car_name == self.setup.car_name
        &&& after.setup.track_bop_type == self.setup.track_bop_type
        &&& after.ambient_temperature == self.ambient_temperature
        &&& after.track_temperature == self.track_temperature
        &&& after.name == self.name
        &&& after.setup_type == self.setup_type
    }

    /// Takes the setup to the temperatures of `weather`.
    pub fn adjust_weather(&mut self, weather: &Weather)
        ensures
            old(self).weather_adjusted(*final(self), *weather),
    {
        let clicks: i32 = self.ambient_temperature as i32 - weather.ambient_temp as i32;
        self.ambient_temperature = weather.ambient_temp;
        self.track_temperature = weather.track_temp;
        self.setup.basic_setup.tyres.shift(clicks);
        let ghost stops = old(self).setup.basic_setup.strategy.pit_strategy@;
        let mut i: usize = 0;
        while i < self.setup.basic_setup.strategy.pit_strategy.len()
            invariant
                i <= stops.len(),
                stops == old(self).setup.basic_setup.strategy.pit_strategy@,
                clicks == old(self).pressure_clicks(weather.ambient_temp),
                self.setup.basic_setup.strategy.pit_strategy@.len() == stops.len(),
                forall|k: int|
                    0 <= k < i ==> (#[trigger] self.setup.basic_setup.strategy.pit_strategy@[k])
                        == (PitStrategy { tyres: stops[k].tyres.shifted(clicks as int), ..stops[k] }),
                forall|k: int|
                    i <= k < stops.len() ==> (
                    #[trigger] self.setup.basic_setup.strategy.pit_strategy@[k]) == stops[k],
                self.ambient_temperature == weather.ambient_temp,
                self.track_temperature == weather.track_temp,
                self.name == old(self).name,
                self.setup_type == old(self).setup_type,
                self.setup.basic_setup.tyres == old(self).setup.basic_setup.tyres.shifted(
                    clicks as int,
                ),
                self.setup.car_name == old(self).setup.car_name,
                self.setup.track_bop_type == old(self).setup.track_bop_type,
                self.setup.advanced_setup == old(self).setup.advanced_setup,
                self.setup.basic_setup.alignment == old(self).setup.basic_setup.alignment,
                self.setup.basic_setup.electronics == old(self).setup.basic_setup.electronics,
                self.setup.basic_setup.strategy.fuel == old(self).setup.basic_setup.strategy.fuel,
                self.setup.basic_setup.strategy.n_pit_stops == old(
                    self,
                ).setup.basic_setup.strategy.n_pit_stops,
                self.setup.basic_setup.strategy.tyre_set == old(
                    self,
                ).setup.basic_setup.strategy.tyre_set,
                self.setup.basic_setup.strategy.front_brake_pad_compound == old(
                    self,
                ).setup.basic_setup.strategy.front_brake_pad_compound,
                self.setup.basic_setup.strategy.rear_brake_pad_compound == old(
                    self,
                ).setup.basic_setup.strategy.rear_brake_pad_compound,
                self.setup.basic_setup.strategy.fuel_per_lap == old(
                    self,
                ).setup.basic_setup.strategy.fuel_per_lap,
            decreases stops.len() - i,
        {
            let mut stop = self.setup.basic_setup.strategy.pit_strategy[i];
            stop.tyres.shift(clicks);
            self.setup.basic_setup.strategy.pit_strategy[i] = stop;
            i += 1;
        }
    }

    /// Sets the fuel at the start to two litres less than `fuel`.
    pub fn adjust_fuel(&mut self, fuel: i32)
        ensures
            old(self).fuel_adjusted(*final(self), fuel),
    {
        self.setup.basic_setup.strategy.fuel = add_clamped(fuel, -2);
    }

    /// Sets the number of laps that the telemetry records.
    pub fn adjust_telemetry_laps(&mut self, laps: i32)
        ensures
            old(self).laps_adjusted(*final(self), laps),
    {
        self.setup.basic_setup.electronics.telemetry_laps = laps;
    }
}

} // verus!
