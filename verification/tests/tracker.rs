use vapor_telemetry::telemetry::udp::Float32;
use vapor_telemetry::telemetry::laphistory::{LapHistory, LapWheels, Reading};
use vapor_telemetry::telemetry::shm::{Graphics, Physics, Status, StatusRaw, Wheels};
use vapor_telemetry::telemetry::tracker::{ShmGameState, Telemetry, TelemetryUpdate};

fn sample(id: i32, status: Status, laps: i32, fuel: f32) -> TelemetryUpdate {
    let mut graphics = Graphics::default();
    graphics.packet_id = id;
    graphics.status = status;
    graphics.completed_laps = laps;
    graphics.fuel_used_per_lap = Float32::from_bits(fuel.to_bits());
    let mut physics = Physics::default();
    physics.packet_id = id;
    TelemetryUpdate { physics, graphics }
}

#[test]
fn status_is_read_off_its_raw_value() {
    assert_eq!(Status::from_raw(StatusRaw { data: 0 }), Status::Off);
    assert_eq!(Status::from_raw(StatusRaw { data: 1 }), Status::Replay);
    assert_eq!(Status::from_raw(StatusRaw { data: 2 }), Status::Live);
    assert_eq!(Status::from_raw(StatusRaw { data: 3 }), Status::Pause);
    assert_eq!(Status::from_raw(StatusRaw { data: -1 }), Status::Off);
    assert_eq!(Status::from_raw(StatusRaw { data: 4 }), Status::Off);
    assert_eq!(Status::default(), Status::Off);
}

#[test]
fn game_state_is_reported_when_it_turns() {
    let mut telemetry = Telemetry::new();
    assert_eq!(telemetry.game_state(Status::Off), None);
    assert_eq!(telemetry.game_state(Status::Replay), None);
    assert_eq!(telemetry.game_state(Status::Live), Some(ShmGameState::Connected));
    assert!(telemetry.connected);
    assert_eq!(telemetry.game_state(Status::Pause), None);
    assert_eq!(telemetry.game_state(Status::Replay), Some(ShmGameState::Disconnected));
    assert!(!telemetry.connected);
    assert_eq!(telemetry.game_state(Status::Replay), None);
}

#[test]
fn status_of_the_newest_sample_says_nothing_new() {
    let mut telemetry = Telemetry::new();
    telemetry.update(sample(1, Status::Live, 0, 0.0));
    assert!(telemetry.connected);
    telemetry.connected = false;
    assert_eq!(telemetry.game_state(Status::Live), None);
    assert_eq!(telemetry.game_state(Status::Pause), Some(ShmGameState::Connected));
}

#[test]
fn samples_enter_the_history_by_their_number() {
    let mut telemetry = Telemetry::new();
    telemetry.commit_update(sample(1, Status::Live, 0, 0.0));
    telemetry.commit_update(sample(1, Status::Live, 0, 0.0));
    telemetry.commit_update(sample(3, Status::Live, 0, 0.0));
    telemetry.commit_update(sample(2, Status::Live, 0, 0.0));
    assert_eq!(telemetry.lap_history.h_graphics.len(), 2);
    assert_eq!(telemetry.lap_history.h_physics.len(), 2);
    assert_eq!(telemetry.graphics.packet_id, 3);
    let mut mixed = sample(4, Status::Live, 0, 0.0);
    mixed.physics.packet_id = 0;
    telemetry.commit_update(mixed);
    assert_eq!(telemetry.lap_history.h_graphics.len(), 3);
    assert_eq!(telemetry.lap_history.h_physics.len(), 2);
    let (physics, graphics) = telemetry.lap_history.last_point().unwrap();
    assert_eq!(physics.packet_id, 3);
    assert_eq!(graphics.packet_id, 4);
}

#[test]
fn last_point_needs_a_sample_of_both_pages() {
    let mut history = LapHistory::new();
    assert_eq!(history.last_point(), None);
    history.h_graphics.push(Graphics::default());
    assert_eq!(history.last_point(), None);
    history.h_physics.push(Physics::default());
    assert_eq!(history.last_point(), Some((&Physics::default(), &Graphics::default())));
    assert_eq!(LapHistory::default(), LapHistory::new());
}

#[test]
fn completed_lap_reports_its_wheels() {
    let mut telemetry = Telemetry::new();
    let first = telemetry.update(sample(1, Status::Live, 0, 2.5));
    assert_eq!(first.game_state, Some(ShmGameState::Connected));
    assert_eq!(first.lap_wheels, None);
    assert_eq!(first.fuel_per_lap, None);
    let mut warm = sample(2, Status::Live, 0, 2.5);
    warm.physics.tyre_pressure = wheels([27.0, 27.5, 26.0, 26.5]);
    let second = telemetry.update(warm);
    assert_eq!(second.game_state, None);
    assert_eq!(second.lap_wheels, None);
    let third = telemetry.update(sample(3, Status::Live, 1, 2.75));
    assert_eq!(third.game_state, None);
    let lap = third.lap_wheels.unwrap();
    assert_eq!(lap.number, 1);
    assert_eq!(numbers(lap.tyre_pressure.max), [27.0, 27.5, 26.0, 26.5]);
    assert_eq!(numbers(lap.tyre_pressure.avg), [27.0, 27.5, 26.0, 26.5]);
    assert_eq!(third.fuel_per_lap, Some(Float32::from_bits(2.5f32.to_bits())));
    assert_eq!(telemetry.lap_history.h_graphics.len(), 1);
    assert_eq!(telemetry.lap_history.h_graphics[0].packet_id, 3);
    let fourth = telemetry.update(sample(4, Status::Live, 2, 2.75));
    assert_eq!(fourth.lap_wheels.unwrap().number, 2);
    assert_eq!(fourth.fuel_per_lap, None);
}

fn wheels(values: [f32; 4]) -> Wheels<Float32> {
    Wheels {
        front_left: Float32::from_bits(values[0].to_bits()),
        front_right: Float32::from_bits(values[1].to_bits()),
        rear_left: Float32::from_bits(values[2].to_bits()),
        rear_right: Float32::from_bits(values[3].to_bits()),
    }
}

fn numbers(wheels: Wheels<Float32>) -> [f32; 4] {
    [
        f32::from_bits(wheels.front_left.to_bits()),
        f32::from_bits(wheels.front_right.to_bits()),
        f32::from_bits(wheels.rear_left.to_bits()),
        f32::from_bits(wheels.rear_right.to_bits()),
    ]
}

fn history(pressures: &[[f32; 4]]) -> LapHistory {
    let mut history = LapHistory::new();
    for (i, pressure) in pressures.iter().enumerate() {
        let mut physics = Physics::default();
        physics.packet_id = i as i32;
        physics.tyre_pressure = wheels(*pressure);
        physics.brake_temperature = wheels([pressure[0] * 10.0; 4]);
        history.h_physics.push(physics);
    }
    history
}

#[test]
fn wheels_are_averaged_over_the_samples_that_count() {
    let lap = history(&[
        [27.0, 27.5, 26.0, 26.5],
        [0.0, 0.0, 0.0, 0.0],
        [28.0, 27.0, 26.5, 26.0],
        [-1.0, 0.0, -3.0, 0.0],
        [27.5, 0.0, 27.0, 25.0],
    ]);
    assert_eq!(numbers(lap.max_of(Reading::TyrePressure)), [28.0, 27.5, 27.0, 26.5]);
    assert_eq!(numbers(lap.min_of(Reading::TyrePressure)), [27.0, 0.0, 26.0, 25.0]);
    assert_eq!(
        numbers(lap.avg_of(Reading::TyrePressure)),
        [
            (27.0f32 + 28.0 + 27.5) / 3.0,
            (27.5f32 + 27.0 + 0.0) / 3.0,
            (26.0f32 + 26.5 + 27.0) / 3.0,
            (26.5f32 + 26.0 + 25.0) / 3.0
        ]
    );
    assert_eq!(numbers(lap.max_of(Reading::BrakeTemperature)), [280.0; 4]);
    assert_eq!(numbers(lap.min_of(Reading::BrakeTemperature)), [270.0; 4]);
    assert_eq!(numbers(lap.max_of(Reading::TyreTemperature)), [f32::MIN; 4]);
    assert_eq!(numbers(lap.min_of(Reading::TyreTemperature)), [f32::MAX; 4]);
    assert!(numbers(lap.avg_of(Reading::TyreTemperature)).iter().all(|value| value.is_nan()));
    let mut wheels = LapWheels::default();
    wheels.number = 7;
    wheels.get_avg_min_max(&lap);
    assert_eq!(wheels.number, 7);
    assert_eq!(wheels.tyre_pressure, lap.avg_min_max(Reading::TyrePressure));
    assert_eq!(wheels.brake_temperature.max, lap.max_of(Reading::BrakeTemperature));
}

#[test]
fn wheels_are_averaged_as_in_single_precision() {
    let mut seed: u64 = 99;
    let mut next = move || {
        seed = seed.wrapping_mul(6364136223846793005).wrapping_add(1442695040888963407);
        ((seed >> 40) % 100_000) as f32 / 997.0
    };
    let pressures: Vec<[f32; 4]> = (0..500).map(|_| [next(), next(), next(), next()]).collect();
    let lap = history(&pressures);
    let mut sum = [0.0f32; 4];
    let mut max = [f32::MIN; 4];
    let mut min = [f32::MAX; 4];
    let mut count = 0usize;
    for pressure in &pressures {
        if pressure.iter().any(|value| *value > 0.0) {
            count += 1;
            for i in 0..4 {
                sum[i] += pressure[i];
                if max[i] < pressure[i] {
                    max[i] = pressure[i];
                }
                if min[i] > pressure[i] {
                    min[i] = pressure[i];
                }
            }
        }
    }
    let avg = [
        sum[0] / count as f32,
        sum[1] / count as f32,
        sum[2] / count as f32,
        sum[3] / count as f32,
    ];
    assert_eq!(numbers(lap.avg_of(Reading::TyrePressure)), avg);
    assert_eq!(numbers(lap.max_of(Reading::TyrePressure)), max);
    assert_eq!(numbers(lap.min_of(Reading::TyrePressure)), min);
}

#[test]
fn each_reading_has_its_own_name() {
    let lap = history(&[[27.0, 27.5, 26.0, 26.5], [28.0, 27.0, 26.5, 26.0]]);
    assert_eq!(lap.max_tyre_pressure(), lap.max_of(Reading::TyrePressure));
    assert_eq!(lap.min_tyre_pressure(), lap.min_of(Reading::TyrePressure));
    assert_eq!(lap.avg_tyre_pressure(), lap.avg_of(Reading::TyrePressure));
    assert_eq!(lap.max_brake_temperature(), lap.max_of(Reading::BrakeTemperature));
    assert_eq!(lap.min_brake_temperature(), lap.min_of(Reading::BrakeTemperature));
    assert_eq!(lap.avg_brake_temperature(), lap.avg_of(Reading::BrakeTemperature));
    assert_eq!(lap.max_tyre_temperature(), lap.max_of(Reading::TyreTemperature));
    assert_eq!(lap.min_tyre_temperature(), lap.min_of(Reading::TyreTemperature));
    assert!(f32::from_bits(lap.avg_tyre_temperature().front_left.to_bits()).is_nan());
    assert_eq!(numbers(lap.avg_tyre_pressure()), [27.5, 27.25, 26.25, 26.25]);
    assert_eq!(numbers(lap.max_brake_temperature()), [280.0; 4]);
}

#[test]
fn wheels_of_no_lap_read_zero() {
    let wheels = LapWheels::default();
    assert_eq!(wheels.number, 0);
    for stats in [wheels.tyre_pressure, wheels.tyre_temperature, wheels.brake_temperature] {
        assert_eq!(numbers(stats.avg), [0.0; 4]);
        assert_eq!(numbers(stats.min), [0.0; 4]);
        assert_eq!(numbers(stats.max), [0.0; 4]);
        assert_eq!(stats.avg.front_left.to_bits(), 0);
    }
}
