use vapor_telemetry::fuel_calculator::{
    estimate, FuelChange, FuelData, FuelMessage, FuelRequest, ELEVEN_TENTHS,
};
use vapor_telemetry::telemetry::udp::Float32;
use vapor_telemetry::telemetry::LapTime;

fn litres(value: f32) -> Float32 {
    Float32::from_bits(value.to_bits())
}

fn loaded() -> FuelData {
    let mut data = FuelData::new();
    data.handle(FuelMessage::FuelPerLap(litres(2.93)));
    data.handle(FuelMessage::AvgLapTime(LapTime::from_millis(95_000)));
    data.handle(FuelMessage::ReserveLaps(2));
    data
}

#[test]
fn race_fuel_for_twenty_five_minutes() {
    let mut data = FuelData::new();
    data.handle(FuelMessage::FuelPerLap(litres(2.93)));
    data.handle(FuelMessage::AvgLapTime(LapTime::from_millis(95_000)));
    data.handle(FuelMessage::ReserveLaps(2));
    let change = data.handle(FuelMessage::RaceLength(25 * 60 * 1000));
    assert_eq!(25 * 60 * 1000 / 95_000, 15);
    assert_eq!(change, FuelChange { race_fuel: Some(55), quali_fuel: None });
    assert_eq!(data.race_fuel, 55);
    assert_eq!(data.reserve_fuel, 6);
    assert_eq!(estimate(25 * 60 * 1000, 95_000, 2, litres(2.93)), Some(55));
}

#[test]
fn fuel_is_not_made_up() {
    assert_eq!(estimate(0, 95_000, 2, litres(2.93)), None);
    assert_eq!(estimate(1_500_000, 0, 2, litres(2.93)), None);
    assert_eq!(estimate(1_500_000, 95_000, 2, litres(0.0)), None);
    assert_eq!(estimate(1_500_000, 95_000, 2, litres(-0.0)), None);
    let mut data = FuelData::new();
    assert_eq!(
        data.handle(FuelMessage::RaceLength(1_500_000)),
        FuelChange { race_fuel: None, quali_fuel: None }
    );
    assert_eq!(data.race_fuel, 0);
    assert_eq!(data.calculate_race(), None);
    assert_eq!(data.calculate_quali(), None);
    assert_eq!(data.calculate_reserve(), None);
    assert_eq!(data.request(FuelRequest::RaceFuel), None);
}

#[test]
fn reserve_of_no_laps_is_no_fuel_whatever_it_was() {
    let mut data = FuelData::new();
    data.handle(FuelMessage::FuelPerLap(litres(2.93)));
    data.handle(FuelMessage::ReserveLaps(2));
    assert_eq!(data.reserve_fuel, 6);
    let before = data;
    data.handle(FuelMessage::ReserveLaps(0));
    assert_eq!(data.reserve_fuel, 0);
    assert_eq!(data, FuelData { reserve_laps: 0, reserve_fuel: 0, ..before });
    data.reserve_fuel = 6;
    assert_eq!(data.calculate_reserve(), Some(0));
    assert_eq!(data.reserve_fuel, 0);
    data.reserve_fuel = 6;
    data.handle(FuelMessage::FuelPerLap(litres(0.0)));
    assert_eq!(data.reserve_fuel, 6);
}

#[test]
fn tenth_on_top_is_a_tenth_in_single_precision() {
    assert_eq!(ELEVEN_TENTHS, 1.1f32.to_bits());
}

struct Lcg(u64);

impl Lcg {
    fn next(&mut self) -> u32 {
        self.0 = self.0.wrapping_mul(6364136223846793005).wrapping_add(1442695040888963407);
        (self.0 >> 32) as u32
    }
}

fn in_single_precision(length: u64, lap: u64, reserve_laps: i32, fuel_per_lap: f32) -> Option<i32> {
    if length != 0 && lap != 0 && fuel_per_lap != 0.0 {
        let laps = (length / lap) as i128 + reserve_laps as i128;
        Some(((laps as f32 * fuel_per_lap) * 1.1).ceil() as i32)
    } else {
        None
    }
}

#[test]
fn fuel_is_the_product_in_single_precision_rounded_up() {
    assert_eq!(estimate(10, 1, 0, litres(1.0)), Some(11));
    assert_eq!(in_single_precision(10, 1, 0, 1.0), Some(11));
    assert_eq!(estimate(10, 1, 0, litres(1.001)), Some(12));
    assert_eq!(estimate(10, 1, 0, litres(0.5)), Some(6));
    assert_eq!(estimate(199_999, 100_000, 0, litres(1.0)), Some(2));
    assert_eq!(estimate(200_000, 100_000, 0, litres(1.0)), Some(3));
    assert_eq!(estimate(3, 2, -1, litres(5.0)), Some(0));
    assert_eq!(estimate(3, 2, -3, litres(1.0)), Some(-2));
    assert_eq!(estimate(u64::MAX, 1, i32::MAX, litres(f32::MAX)), Some(i32::MAX));
    assert_eq!(estimate(u64::MAX, 1, i32::MAX, litres(1e-30)), Some(1));
    assert_eq!(estimate(1, 1, i32::MIN, litres(3.0)), Some(i32::MIN));
    assert_eq!(estimate(1, 1, 0, litres(f32::NAN)), Some(0));
    assert_eq!(estimate(1, 1, 0, litres(f32::INFINITY)), Some(i32::MAX));
    assert_eq!(estimate(1, 1, 0, litres(-2.0)), Some(-2));
    let mut random = Lcg(2024);
    for _ in 0..200_000 {
        let length = (random.next() as u64) << (random.next() % 33);
        let lap = (random.next() % 200_000) as u64;
        let reserve = (random.next() % 21) as i32 - 5;
        let fuel = match random.next() % 4 {
            0 => f32::from_bits(random.next()),
            _ => (random.next() % 10_000) as f32 / 1000.0,
        };
        assert_eq!(
            estimate(length, lap, reserve, litres(fuel)),
            in_single_precision(length, lap, reserve, fuel),
            "{} {} {} {}",
            length,
            lap,
            reserve,
            fuel
        );
    }
}

fn reserve(laps: i32, fuel_per_lap: f32) -> Option<i32> {
    let mut data = FuelData::new();
    data.fuel_per_lap = litres(fuel_per_lap);
    data.reserve_laps = laps;
    let fuel = data.calculate_reserve();
    assert_eq!(fuel.unwrap_or(0), data.reserve_fuel);
    fuel
}

#[test]
fn reserve_is_rounded_up() {
    assert_eq!(reserve(0, 1.0), Some(0));
    assert_eq!(reserve(0, 2.93), Some(0));
    assert_eq!(reserve(0, f32::INFINITY), Some(0));
    assert_eq!(reserve(0, f32::NAN), Some(0));
    assert_eq!(reserve(1, 0.0), None);
    assert_eq!(reserve(0, 0.0), None);
    assert_eq!(reserve(1, 0.001), Some(1));
    assert_eq!(reserve(1, 1.0), Some(1));
    assert_eq!(reserve(1, 1.001), Some(2));
    assert_eq!(reserve(2, 2.93), Some(6));
    assert_eq!(reserve(-1, 0.001), Some(0));
    assert_eq!(reserve(-1, 1.0), Some(-1));
    assert_eq!(reserve(-1, 1.999), Some(-1));
    assert_eq!(reserve(-2, 1.0), Some(-2));
    assert_eq!(reserve(i32::MAX, 4.0), Some(i32::MAX));
    assert_eq!(reserve(i32::MIN, 4.0), Some(i32::MIN));
    let mut random = Lcg(11);
    for _ in 0..100_000 {
        let laps = random.next() as i32 >> (random.next() % 32);
        let fuel = f32::from_bits(random.next());
        let expected = if fuel != 0.0 {
            Some((laps as f32 * fuel).ceil() as i32)
        } else {
            None
        };
        assert_eq!(reserve(laps, fuel), expected, "{} {}", laps, fuel);
    }
}

#[test]
fn length_of_one_session_leaves_the_fuel_of_the_other() {
    let mut data = loaded();
    data.handle(FuelMessage::QualiLength(10 * 60 * 1000));
    let quali = data.quali_fuel;
    assert_eq!(quali, 26);
    let change = data.handle(FuelMessage::RaceLength(60 * 60 * 1000));
    assert_eq!(change.quali_fuel, None);
    assert_eq!(data.quali_fuel, quali);
    assert_eq!(change.race_fuel, Some(126));
    let change = data.handle(FuelMessage::QualiLength(20 * 60 * 1000));
    assert_eq!(change.race_fuel, None);
    assert_eq!(data.race_fuel, 126);
    assert_eq!(change.quali_fuel, Some(46));
}

#[test]
fn shared_inputs_make_both_estimates_anew() {
    let mut data = loaded();
    data.handle(FuelMessage::RaceLength(1_500_000));
    data.handle(FuelMessage::QualiLength(600_000));
    let change = data.handle(FuelMessage::AvgLapTime(LapTime::from_millis(100_000)));
    assert_eq!(change, FuelChange { race_fuel: Some(55), quali_fuel: Some(26) });
    let change = data.handle(FuelMessage::FuelPerLap(litres(3.0)));
    assert_eq!(change, FuelChange { race_fuel: Some(57), quali_fuel: Some(27) });
    assert_eq!(data.reserve_fuel, 6);
    let change = data.handle(FuelMessage::ReserveLaps(0));
    assert_eq!(change, FuelChange { race_fuel: Some(50), quali_fuel: Some(20) });
    assert_eq!(data.reserve_fuel, 0);
    assert_eq!(data.request(FuelRequest::QualiFuel), Some(20));
    assert_eq!(data.request(FuelRequest::RaceFuel), Some(50));
}

#[test]
fn reset_forgets_the_sessions_and_keeps_the_car() {
    let mut data = loaded();
    data.handle(FuelMessage::RaceLength(1_500_000));
    data.handle(FuelMessage::QualiLength(600_000));
    data.reset();
    assert_eq!(data.race_length, 0);
    assert_eq!(data.quali_length, 0);
    assert_eq!(data.race_fuel, 0);
    assert_eq!(data.quali_fuel, 0);
    assert_eq!(data.fuel_per_lap, litres(2.93));
    assert_eq!(data.avg_lap_time, LapTime::from_millis(95_000));
    assert_eq!(data.reserve_laps, 2);
    assert_eq!(data.reserve_fuel, 6);
    let mut other = FuelData::default();
    assert_eq!(other, FuelData::new());
    other.replace(data);
    assert_eq!(other, data);
}

#[test]
fn lap_time_reads_as_a_clock() {
    let time = LapTime::from_millis(95_123);
    assert_eq!(time.duration(), 95_123);
    assert_eq!(time.clock(), (1, 35, 123));
    assert_eq!(LapTime::from_millis(59_999).clock(), (0, 59, 999));
    assert_eq!(LapTime::default().clock(), (0, 0, 0));
    assert_eq!(LapTime::from_millis(u64::MAX).clock().2, 615);
}
