//! The entry list of the server and the cars on it.
//!
//! The entry list names the cars by their indices; the details of each car
//! come in an entry-list-car message of its own.

use vstd::prelude::*;
use vstd::slice::slice_subrange;
use crate::telemetry::udp::data::{DriverCategory, Nationality};
use crate::telemetry::udp::list::{
    after, bytes_many, lemma_bytes_many_push, lemma_many_round_trip, lemma_read_many_end,
    lemma_read_many_fail, lemma_read_many_start, lemma_read_many_step, spec_read_many,
};
use crate::telemetry::udp::wire::{
    bytes_i32, bytes_string, bytes_u16, i32_at, i32_of_bits, lemma_append_assoc,
    lemma_i32_round_trip, lemma_skip_prefix, lemma_string_round_trip, lemma_u16_round_trip,
    parsed, put_le_i32, put_le_u16, put_string, read_string, spec_read_string, string_fits,
    u16_at, u16_of, u32_of, ParseError, Parsed,
};

verus! {

/// A driver of a car.
#[derive(Clone, Debug, PartialEq, Eq)]
pub struct Driver {
    pub first_name: String,
    pub last_name: String,
    pub short_name: String,
    pub category: DriverCategory,
    pub nationality: Nationality,
}

/// A driver as a mathematical value.
pub struct DriverView {
    pub first_name: Seq<char>,
    pub last_name: Seq<char>,
    pub short_name: Seq<char>,
    pub category: DriverCategory,
    pub nationality: Nationality,
}

impl View for Driver {
    type V = DriverView;

    open spec fn view(&self) -> DriverView {
        DriverView {
            first_name: self.first_name@,
            last_name: self.last_name@,
            short_name: self.short_name@,
            category: self.category,
            nationality: self.nationality,
        }
    }
}

impl DriverView {
    /// Whether the wire format can carry the driver: each name fits its
    /// sixteen-bit count.
    pub open spec fn fits(self) -> bool {
        &&& string_fits(self.first_name)
        &&& string_fits(self.last_name)
        &&& string_fits(self.short_name)
    }
}

impl Driver {
    /// The bytes of the driver: three names, the category (one byte), the
    /// nationality (`u16`).
    pub open spec fn spec_serialize(v: DriverView) -> Seq<u8> {
        bytes_string(v.first_name) + bytes_string(v.last_name) + bytes_string(v.short_name) + seq![
            v.category.code(),
        ] + bytes_u16(v.nationality.code())
    }

    /// The driver that the bytes hold.
    pub open spec fn spec_deserialize(input: Seq<u8>) -> Parsed<DriverView> {
        match spec_read_string(input) {
            Err(e) => Err(e),
            Ok((r1, first_name)) => match spec_read_string(r1) {
                Err(e) => Err(e),
                Ok((r2, last_name)) => match spec_read_string(r2) {
                    Err(e) => Err(e),
                    Ok((r3, short_name)) => {
                        if r3.len() < 3 {
                            Err(ParseError::Incomplete)
                        } else {
                            Ok(
                                (
                                    r3.skip(3),
                                    DriverView {
                                        first_name,
                                        last_name,
                                        short_name,
                                        category: DriverCategory::of_code(r3[0]),
                                        nationality: Nationality::of_code(u16_of(r3[1], r3[2])),
                                    },
                                ),
                            )
                        }
                    },
                },
            },
        }
    }

    /// Appends the bytes of the driver.
    pub fn write(&self, out: &mut Vec<u8>)
        ensures
            final(out)@ == old(out)@ + Self::spec_serialize(self@),
    {
        put_string(out, self.first_name.as_str());
        put_string(out, self.last_name.as_str());
        put_string(out, self.short_name.as_str());
        out.push(self.category.to_primitive());
        put_le_u16(out, self.nationality.to_primitive());
        assert(out@ =~= old(out)@ + Self::spec_serialize(self@));
    }

    /// The bytes of the driver.
    pub fn serialize(&self) -> (r: Vec<u8>)
        ensures
            r@ == Self::spec_serialize(self@),
    {
        let mut out: Vec<u8> = Vec::new();
        self.write(&mut out);
        assert(out@ =~= Self::spec_serialize(self@));
        out
    }

    /// Reads a driver and returns the bytes behind it.
    pub fn deserialize<'a>(input: &'a [u8]) -> (r: Result<(&'a [u8], Driver), ParseError>)
        ensures
            parsed(r, Self::spec_deserialize(input@)),
    {
        let (r1, first_name) = read_string(input)?;
        let (r2, last_name) = read_string(r1)?;
        let (r3, short_name) = read_string(r2)?;
        if r3.len() < 3 {
            return Err(ParseError::Incomplete);
        }
        let category = DriverCategory::from_primitive(r3[0]);
        let nationality = Nationality::from_primitive(u16_at(r3, 1));
        let r4 = slice_subrange(r3, 3, r3.len());
        Ok(
            (
                r4,
                Driver {
                    first_name: first_name.to_owned(),
                    last_name: last_name.to_owned(),
                    short_name: short_name.to_owned(),
                    category,
                    nationality,
                },
            ),
        )
    }

    /// The three bytes behind the names give back category and nationality.
    proof fn lemma_codes(category: DriverCategory, nationality: Nationality)
        ensures
            ({
                let codes = seq![category.code()] + bytes_u16(nationality.code());
                &&& codes.len() == 3
                &&& DriverCategory::of_code(codes[0]) == category
                &&& Nationality::of_code(u16_of(codes[1], codes[2])) == nationality
            }),
    {
        lemma_u16_round_trip(nationality.code(), Seq::empty());
        category.lemma_code_round_trip();
        nationality.lemma_code_round_trip();
    }

    /// A driver that the wire format can carry, written and read again, is
    /// the same driver.
    #[verifier::rlimit(40)]
    pub proof fn lemma_round_trip(v: DriverView, tail: Seq<u8>)
        requires
            v.fits(),
        ensures
            Self::spec_deserialize(Self::spec_serialize(v) + tail) == Ok::<
                (Seq<u8>, DriverView),
                ParseError,
            >((tail, v)),
    {
        let s1 = bytes_string(v.first_name);
        let s2 = bytes_string(v.last_name);
        let s3 = bytes_string(v.short_name);
        let codes = seq![v.category.code()] + bytes_u16(v.nationality.code());
        let input = Self::spec_serialize(v) + tail;
        assert(input == s1 + (s2 + (s3 + (codes + tail)))) by {
            lemma_append_assoc(s1 + s2 + s3, seq![v.category.code()], bytes_u16(v.nationality.code()));
            lemma_append_assoc(s1 + s2 + s3, codes, tail);
            lemma_append_assoc(s1 + s2, s3, codes + tail);
            lemma_append_assoc(s1, s2, s3 + (codes + tail));
        }
        lemma_string_round_trip(v.first_name, s2 + (s3 + (codes + tail)));
        lemma_string_round_trip(v.last_name, s3 + (codes + tail));
        lemma_string_round_trip(v.short_name, codes + tail);
        lemma_skip_prefix(codes, tail);
        Self::lemma_codes(v.category, v.nationality);
    }
}

/// The views of the drivers in `drivers`, in their order.
pub open spec fn driver_views(drivers: Seq<Driver>) -> Seq<DriverView> {
    Seq::new(drivers.len(), |i: int| drivers[i]@)
}

/// The reader of one driver.
pub open spec fn driver_reader() -> spec_fn(Seq<u8>) -> Parsed<DriverView> {
    |input: Seq<u8>| Driver::spec_deserialize(input)
}

/// The writer of one driver.
pub open spec fn driver_writer() -> spec_fn(DriverView) -> Seq<u8> {
    |v: DriverView| Driver::spec_serialize(v)
}

/// `count` drivers, one behind the other.
pub open spec fn spec_read_drivers(input: Seq<u8>, count: nat) -> Parsed<Seq<DriverView>> {
    spec_read_many(input, count, driver_reader())
}

/// The bytes of the drivers, one behind the other.
pub open spec fn bytes_drivers(drivers: Seq<DriverView>) -> Seq<u8> {
    bytes_many(drivers, driver_writer())
}

/// Drivers that the wire format can carry, written and read again, are the
/// same drivers.
pub proof fn lemma_drivers_round_trip(drivers: Seq<DriverView>, tail: Seq<u8>)
    requires
        forall|i: int| 0 <= i < drivers.len() ==> (#[trigger] drivers[i]).fits(),
    ensures
        spec_read_drivers(bytes_drivers(drivers) + tail, drivers.len()) == Ok::<
            (Seq<u8>, Seq<DriverView>),
            ParseError,
        >((tail, drivers)),
{
    assert forall|i: int, t: Seq<u8>| 0 <= i < drivers.len() implies #[trigger] driver_reader()(
        driver_writer()(drivers[i]) + t,
    ) == Ok::<(Seq<u8>, DriverView), ParseError>((t, drivers[i])) by {
        assert(drivers[i].fits());
        Driver::lemma_round_trip(drivers[i], t);
    }
    lemma_many_round_trip(drivers, tail, driver_reader(), driver_writer());
}

/// Reads `count` drivers and returns the bytes behind them.
pub fn read_drivers<'a>(input: &'a [u8], count: u8) -> (r: Result<
    (&'a [u8], Vec<Driver>),
    ParseError,
>)
    ensures
        match r {
            Ok((rest, drivers)) => spec_read_drivers(input@, count as nat) == Ok::<
                (Seq<u8>, Seq<DriverView>),
                ParseError,
            >((rest@, driver_views(drivers@))),
            Err(e) => spec_read_drivers(input@, count as nat) == Err::<
                (Seq<u8>, Seq<DriverView>),
                ParseError,
            >(e),
        },
{
    let mut rest = input;
    let mut drivers: Vec<Driver> = Vec::new();
    let mut i: u8 = 0;
    proof {
        lemma_read_many_start(input@, count as nat, driver_reader());
        assert(driver_views(drivers@) =~= Seq::<DriverView>::empty());
    }
    while i < count
        invariant
            i <= count,
            spec_read_drivers(input@, count as nat) == after(
                driver_views(drivers@),
                spec_read_many(rest@, (count - i) as nat, driver_reader()),
            ),
        decreases count - i,
    {
        let ghost done = driver_views(drivers@);
        match Driver::deserialize(rest) {
            Err(e) => {
                proof {
                    lemma_read_many_fail(done, rest@, e, (count - i) as nat, driver_reader());
                }
                return Err(e);
            },
            Ok((next, driver)) => {
                proof {
                    lemma_read_many_step(
                        done,
                        rest@,
                        next@,
                        driver@,
                        (count - i) as nat,
                        driver_reader(),
                    );
                    assert(driver_views(drivers@.push(driver)) =~= done.push(driver@));
                }
                drivers.push(driver);
                rest = next;
            },
        }
        i += 1;
    }
    proof {
        lemma_read_many_end(driver_views(drivers@), rest@, driver_reader());
    }
    Ok((rest, drivers))
}

/// Appends the bytes of the drivers, one behind the other.
pub fn put_drivers(out: &mut Vec<u8>, drivers: &Vec<Driver>)
    ensures
        final(out)@ == old(out)@ + bytes_drivers(driver_views(drivers@)),
{
    let mut i: usize = 0;
    assert(driver_views(drivers@).take(0) =~= Seq::<DriverView>::empty());
    assert(out@ =~= old(out)@ + bytes_drivers(Seq::<DriverView>::empty()));
    while i < drivers.len()
        invariant
            i <= drivers.len(),
            out@ == old(out)@ + bytes_drivers(driver_views(drivers@).take(i as int)),
        decreases drivers.len() - i,
    {
        proof {
            let all = driver_views(drivers@);
            assert(all.take(i + 1) =~= all.take(i as int).push(drivers@[i as int]@));
            lemma_bytes_many_push(all.take(i as int), drivers@[i as int]@, driver_writer());
            lemma_append_assoc(
                old(out)@,
                bytes_drivers(all.take(i as int)),
                Driver::spec_serialize(drivers@[i as int]@),
            );
        }
        drivers[i].write(out);
        i += 1;
    }
    assert(driver_views(drivers@).take(drivers@.len() as int) =~= driver_views(drivers@));
}

/// A car of the entry list.
#[derive(Clone, Debug, PartialEq, Eq)]
pub struct CarInfo {
    pub id: u16,
    pub model_type: u8,
    pub team_name: String,
    pub race_number: i32,
    pub cup_category: DriverCategory,
    pub current_driver_id: u8,
    pub nationality: Nationality,
    pub drivers: Vec<Driver>,
}

/// A car of the entry list as a mathematical value.
pub struct CarInfoView {
    pub id: u16,
    pub model_type: u8,
    pub team_name: Seq<char>,
    pub race_number: i32,
    pub cup_category: DriverCategory,
    pub current_driver_id: u8,
    pub nationality: Nationality,
    pub drivers: Seq<DriverView>,
}

impl View for CarInfo {
    type V = CarInfoView;

    open spec fn view(&self) -> CarInfoView {
        CarInfoView {
            id: self.id,
            model_type: self.model_type,
            team_name: self.team_name@,
            race_number: self.race_number,
            cup_category: self.cup_category,
            current_driver_id: self.current_driver_id,
            nationality: self.nationality,
            drivers: driver_views(self.drivers@),
        }
    }
}

impl CarInfoView {
    /// Whether the wire format can carry the car: the team name fits its
    /// count, there are at most 255 drivers, and each of them fits.
    pub open spec fn fits(self) -> bool {
        &&& string_fits(self.team_name)
        &&& self.drivers.len() <= 255
        &&& forall|i: int| 0 <= i < self.drivers.len() ==> (#[trigger] self.drivers[i]).fits()
    }
}

impl CarInfo {
    /// The nine bytes between the team name and the drivers: race number
    /// (`i32`), cup category and current driver (one byte each), nationality
    /// (`u16`), and the count of the drivers, reduced to a byte.
    pub open spec fn bytes_entry(v: CarInfoView) -> Seq<u8> {
        bytes_i32(v.race_number) + seq![v.cup_category.code(), v.current_driver_id] + bytes_u16(
            v.nationality.code(),
        ) + seq![(v.drivers.len() % 256) as u8]
    }

    /// The payload of the car: index (`u16`), model (one byte), team name,
    /// the nine bytes of the entry, the drivers.
    pub open spec fn spec_serialize(v: CarInfoView) -> Seq<u8> {
        bytes_u16(v.id) + seq![v.model_type] + bytes_string(v.team_name) + Self::bytes_entry(v)
            + bytes_drivers(v.drivers)
    }

    /// The car that a payload holds.
    ///
    /// The definition is opaque, to keep it out of proofs that do not need
    /// it: `reveal` it to unfold it.
    #[verifier::opaque]
    pub open spec fn spec_deserialize(input: Seq<u8>) -> Parsed<CarInfoView> {
        if input.len() < 3 {
            Err(ParseError::Incomplete)
        } else {
            match spec_read_string(input.skip(3)) {
                Err(e) => Err(e),
                Ok((r1, team_name)) => {
                    if r1.len() < 9 {
                        Err(ParseError::Incomplete)
                    } else {
                        match spec_read_drivers(r1.skip(9), r1[8] as nat) {
                            Err(e) => Err(e),
                            Ok((r2, drivers)) => Ok(
                                (
                                    r2,
                                    CarInfoView {
                                        id: u16_of(input[0], input[1]),
                                        model_type: input[2],
                                        team_name,
                                        race_number: i32_of_bits(
                                            u32_of(r1[0], r1[1], r1[2], r1[3]),
                                        ),
                                        cup_category: DriverCategory::of_code(r1[4]),
                                        current_driver_id: r1[5],
                                        nationality: Nationality::of_code(u16_of(r1[6], r1[7])),
                                        drivers,
                                    },
                                ),
                            ),
                        }
                    }
                },
            }
        }
    }

    /// Appends the nine bytes between the team name and the drivers.
    fn put_entry(&self, out: &mut Vec<u8>)
        ensures
            final(out)@ == old(out)@ + Self::bytes_entry(self@),
    {
        put_le_i32(out, self.race_number);
        out.push(self.cup_category.to_primitive());
        out.push(self.current_driver_id);
        put_le_u16(out, self.nationality.to_primitive());
        out.push((self.drivers.len() % 256) as u8);
        assert(out@ =~= old(out)@ + Self::bytes_entry(self@));
    }

    /// Appends the payload of the car.
    pub fn write(&self, out: &mut Vec<u8>)
        ensures
            final(out)@ == old(out)@ + Self::spec_serialize(self@),
    {
        let ghost start = out@;
        let ghost acc0 = bytes_u16(self.id) + seq![self.model_type];
        let ghost acc1 = acc0 + bytes_string(self.team_name@);
        let ghost acc2 = acc1 + Self::bytes_entry(self@);
        put_le_u16(out, self.id);
        out.push(self.model_type);
        assert(out@ =~= start + acc0);
        put_string(out, self.team_name.as_str());
        self.put_entry(out);
        put_drivers(out, &self.drivers);
        proof {
            lemma_append_assoc(start, acc0, bytes_string(self.team_name@));
            lemma_append_assoc(start, acc1, Self::bytes_entry(self@));
            lemma_append_assoc(start, acc2, bytes_drivers(self@.drivers));
        }
    }

    /// The payload of the car.
    pub fn serialize(&self) -> (r: Vec<u8>)
        ensures
            r@ == Self::spec_serialize(self@),
    {
        let mut out: Vec<u8> = Vec::new();
        self.write(&mut out);
        assert(out@ =~= Self::spec_serialize(self@));
        out
    }

    /// Reads a car off its payload and returns the bytes behind it.
    pub fn deserialize<'a>(input: &'a [u8]) -> (r: Result<(&'a [u8], CarInfo), ParseError>)
        ensures
            parsed(r, Self::spec_deserialize(input@)),
    {
        reveal(CarInfo::spec_deserialize);
        if input.len() < 3 {
            return Err(ParseError::Incomplete);
        }
        let id = u16_at(input, 0);
        let model_type = input[2];
        let (r1, team_name) = read_string(slice_subrange(input, 3, input.len()))?;
        if r1.len() < 9 {
            return Err(ParseError::Incomplete);
        }
        let race_number = i32_at(r1, 0);
        let cup_category = DriverCategory::from_primitive(r1[4]);
        let current_driver_id = r1[5];
        let nationality = Nationality::from_primitive(u16_at(r1, 6));
        let driver_num = r1[8];
        let (r2, drivers) = read_drivers(slice_subrange(r1, 9, r1.len()), driver_num)?;
        Ok(
            (
                r2,
                CarInfo {
                    id,
                    model_type,
                    team_name: team_name.to_owned(),
                    race_number,
                    cup_category,
                    current_driver_id,
                    nationality,
                    drivers,
                },
            ),
        )
    }

    /// The three bytes in front of a car give back its index and its model.
    proof fn lemma_front(id: u16, model_type: u8)
        ensures
            ({
                let front = bytes_u16(id) + seq![model_type];
                &&& front.len() == 3
                &&& u16_of(front[0], front[1]) == id
                &&& front[2] == model_type
            }),
    {
        lemma_u16_round_trip(id, Seq::empty());
    }

    /// The nine bytes between team name and drivers give back what they hold.
    proof fn lemma_entry(v: CarInfoView)
        requires
            v.drivers.len() <= 255,
        ensures
            ({
                let entry = Self::bytes_entry(v);
                &&& entry.len() == 9
                &&& i32_of_bits(u32_of(entry[0], entry[1], entry[2], entry[3])) == v.race_number
                &&& DriverCategory::of_code(entry[4]) == v.cup_category
                &&& entry[5] == v.current_driver_id
                &&& Nationality::of_code(u16_of(entry[6], entry[7])) == v.nationality
                &&& entry[8] as nat == v.drivers.len()
            }),
    {
        lemma_i32_round_trip(v.race_number, Seq::empty());
        lemma_u16_round_trip(v.nationality.code(), Seq::empty());
        v.cup_category.lemma_code_round_trip();
        v.nationality.lemma_code_round_trip();
    }

    /// A car that the wire format can carry, written and read again, is the
    /// same car.
    #[verifier::rlimit(40)]
    pub proof fn lemma_round_trip(v: CarInfoView, tail: Seq<u8>)
        requires
            v.fits(),
        ensures
            Self::spec_deserialize(Self::spec_serialize(v) + tail) == Ok::<
                (Seq<u8>, CarInfoView),
                ParseError,
            >((tail, v)),
    {
        reveal(CarInfo::spec_deserialize);
        let front = bytes_u16(v.id) + seq![v.model_type];
        let name = bytes_string(v.team_name);
        let entry = Self::bytes_entry(v);
        let drivers = bytes_drivers(v.drivers);
        let input = Self::spec_serialize(v) + tail;
        assert(input == front + (name + (entry + (drivers + tail)))) by {
            lemma_append_assoc(front + name + entry, drivers, tail);
            lemma_append_assoc(front + name, entry, drivers + tail);
            lemma_append_assoc(front, name, entry + (drivers + tail));
        }
        Self::lemma_front(v.id, v.model_type);
        lemma_skip_prefix(front, name + (entry + (drivers + tail)));
        lemma_string_round_trip(v.team_name, entry + (drivers + tail));
        Self::lemma_entry(v);
        lemma_skip_prefix(entry, drivers + tail);
        lemma_drivers_round_trip(v.drivers, tail);
    }
}

/// The entry list of the server.
#[derive(Clone, Debug, PartialEq, Eq)]
pub struct EntryList {
    /// The connection that asked for the list.
    pub connection_id: i32,
    /// The indices of the cars on the list. The details of each car come in
    /// an entry-list-car message of its own.
    pub cars: Vec<u16>,
}

/// The entry list as a mathematical value.
pub struct EntryListView {
    pub connection_id: i32,
    pub cars: Seq<u16>,
}

impl View for EntryList {
    type V = EntryListView;

    open spec fn view(&self) -> EntryListView {
        EntryListView { connection_id: self.connection_id, cars: self.cars@ }
    }
}

impl EntryListView {
    /// Whether the wire format can carry the list: the count of its cars
    /// fits sixteen bits.
    pub open spec fn fits(self) -> bool {
        self.cars.len() <= 65535
    }
}

impl Default for EntryList {
    /// The list without a car.
    fn default() -> (r: EntryList)
        ensures
            r@ == (EntryListView { connection_id: 0, cars: Seq::empty() }),
    {
        EntryList { connection_id: 0, cars: Vec::new() }
    }
}

impl EntryList {
    /// The payload of the list: the connection id (`i32`), the count of the
    /// cars reduced to sixteen bits, and the index of each car (`u16`).
    pub open spec fn spec_serialize(v: EntryListView) -> Seq<u8> {
        bytes_i32(v.connection_id) + bytes_u16((v.cars.len() % 65536) as u16) + Self::bytes_cars(
            v.cars,
        )
    }

    /// The list that a payload holds.
    pub open spec fn spec_deserialize(input: Seq<u8>) -> Parsed<EntryListView> {
        if input.len() < 6 {
            Err(ParseError::Incomplete)
        } else {
            let count = u16_of(input[4], input[5]) as int;
            let body = input.skip(6);
            if body.len() < 2 * count {
                Err(ParseError::Incomplete)
            } else {
                Ok(
                    (
                        body.skip(2 * count),
                        EntryListView {
                            connection_id: i32_of_bits(
                                u32_of(input[0], input[1], input[2], input[3]),
                            ),
                            cars: Seq::new(
                                count as nat,
                                |i: int| u16_of(body[2 * i], body[2 * i + 1]),
                            ),
                        },
                    ),
                )
            }
        }
    }

    /// Appends the payload of the list.
    pub fn write(&self, out: &mut Vec<u8>)
        ensures
            final(out)@ == old(out)@ + Self::spec_serialize(self@),
    {
        put_le_i32(out, self.connection_id);
        put_le_u16(out, (self.cars.len() % 65536) as u16);
        let ghost front = out@;
        let mut i: usize = 0;
        while i < self.cars.len()
            invariant
                i <= self.cars.len(),
                out@ == front + Seq::new(
                    2 * (i as nat),
                    |j: int| bytes_u16(self.cars@[j / 2])[j % 2],
                ),
            decreases self.cars.len() - i,
        {
            put_le_u16(out, self.cars[i]);
            assert(out@ =~= front + Seq::new(
                2 * ((i + 1) as nat),
                |j: int| bytes_u16(self.cars@[j / 2])[j % 2],
            ));
            i += 1;
        }
        assert(out@ =~= old(out)@ + Self::spec_serialize(self@));
    }

    /// The payload of the list.
    pub fn serialize(&self) -> (r: Vec<u8>)
        ensures
            r@ == Self::spec_serialize(self@),
    {
        let mut out: Vec<u8> = Vec::new();
        self.write(&mut out);
        assert(out@ =~= Self::spec_serialize(self@));
        out
    }

    /// Reads a list off its payload and returns the bytes behind it.
    pub fn deserialize<'a>(input: &'a [u8]) -> (r: Result<(&'a [u8], EntryList), ParseError>)
        ensures
            parsed(r, Self::spec_deserialize(input@)),
    {
        if input.len() < 6 {
            return Err(ParseError::Incomplete);
        }
        let connection_id = i32_at(input, 0);
        let count = u16_at(input, 4) as usize;
        let body = slice_subrange(input, 6, input.len());
        if body.len() / 2 < count {
            return Err(ParseError::Incomplete);
        }
        let mut cars: Vec<u16> = Vec::new();
        let mut i: usize = 0;
        while i < count
            invariant
                i <= count,
                2 * count <= body@.len(),
                body@.len() <= usize::MAX,
                cars@ == Seq::new(i as nat, |k: int| u16_of(body@[2 * k], body@[2 * k + 1])),
            decreases count - i,
        {
            cars.push(u16_at(body, 2 * i));
            assert(cars@ =~= Seq::new(
                (i + 1) as nat,
                |k: int| u16_of(body@[2 * k], body@[2 * k + 1]),
            ));
            i += 1;
        }
        let rest = slice_subrange(body, 2 * count, body.len());
        Ok((rest, EntryList { connection_id, cars }))
    }

    /// The bytes of the indices of the cars.
    pub open spec fn bytes_cars(cars: Seq<u16>) -> Seq<u8> {
        Seq::new(2 * cars.len(), |j: int| bytes_u16(cars[j / 2])[j % 2])
    }

    /// The six bytes in front of a list give back the connection id and the
    /// count of the cars.
    proof fn lemma_front(connection_id: i32, count: u16)
        ensures
            ({
                let front = bytes_i32(connection_id) + bytes_u16(count);
                &&& front.len() == 6
                &&& i32_of_bits(u32_of(front[0], front[1], front[2], front[3])) == connection_id
                &&& u16_of(front[4], front[5]) == count
            }),
    {
        lemma_i32_round_trip(connection_id, Seq::empty());
        lemma_u16_round_trip(count, Seq::empty());
    }

    /// The bytes of the indices give the indices back, one after the other.
    proof fn lemma_cars(cars: Seq<u16>, tail: Seq<u8>)
        ensures
            ({
                let body = Self::bytes_cars(cars) + tail;
                &&& body.len() >= 2 * cars.len()
                &&& body.skip(2 * (cars.len() as int)) == tail
                &&& forall|i: int|
                    0 <= i < cars.len() ==> u16_of(#[trigger] body[2 * i], body[2 * i + 1])
                        == cars[i]
            }),
    {
        let ids = Self::bytes_cars(cars);
        let body = ids + tail;
        lemma_skip_prefix(ids, tail);
        assert forall|i: int| 0 <= i < cars.len() implies u16_of(
            #[trigger] body[2 * i],
            body[2 * i + 1],
        ) == cars[i] by {
            assert(body[2 * i] == ids[2 * i]);
            assert(body[2 * i + 1] == ids[2 * i + 1]);
            assert(ids[2 * i] == bytes_u16(cars[i])[0]);
            assert(ids[2 * i + 1] == bytes_u16(cars[i])[1]);
            lemma_u16_round_trip(cars[i], Seq::empty());
        }
    }

    /// A list that the wire format can carry, written and read again, is the
    /// same list.
    #[verifier::rlimit(40)]
    pub proof fn lemma_round_trip(v: EntryListView, tail: Seq<u8>)
        requires
            v.fits(),
        ensures
            Self::spec_deserialize(Self::spec_serialize(v) + tail) == Ok::<
                (Seq<u8>, EntryListView),
                ParseError,
            >((tail, v)),
    {
        let count = v.cars.len() as u16;
        let front = bytes_i32(v.connection_id) + bytes_u16(count);
        let ids = Self::bytes_cars(v.cars);
        let input = Self::spec_serialize(v) + tail;
        assert(Self::spec_serialize(v) == front + ids);
        lemma_append_assoc(front, ids, tail);
        Self::lemma_front(v.connection_id, count);
        lemma_skip_prefix(front, ids + tail);
        Self::lemma_cars(v.cars, tail);
        let body = input.skip(6);
        assert(body == ids + tail);
        assert(u16_of(input[4], input[5]) == count);
        let read = Self::spec_deserialize(input);
        assert(read is Ok);
        assert(read->Ok_0.0 == tail);
        assert(read->Ok_0.1.connection_id == v.connection_id);
        assert(read->Ok_0.1.cars =~= v.cars);
    }
}

} // verus!
