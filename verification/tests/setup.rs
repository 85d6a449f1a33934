use vapor_telemetry::session::Weather;
use vapor_telemetry::setup::data::{
    AdvancedSetup, AeroBalance, Alignment, BasicSetup, Dampers, Drivetrain, Electronics,
    MechanicalBalance, PitStrategy, Setup, Strategy, Tyres,
};
use vapor_telemetry::setup::setup_file::SetupFile;
use vapor_telemetry::setup::{SetupChange, SetupError, SetupManager, SetupType};
use vapor_telemetry::telemetry::udp::Float32;

fn floats(values: [f32; 4]) -> [Float32; 4] {
    [
        Float32::from_bits(values[0].to_bits()),
        Float32::from_bits(values[1].to_bits()),
        Float32::from_bits(values[2].to_bits()),
        Float32::from_bits(values[3].to_bits()),
    ]
}

fn setup() -> Setup {
    Setup {
        car_name: "mercedes_amg_gt3_evo".to_string(),
        basic_setup: BasicSetup {
            tyres: Tyres { tyre_compound: 0, tyre_pressure: [53, 52, 56, 55] },
            alignment: Alignment {
                camber: [0, 0, 0, 0],
                static_camber: floats([-3.9203207, -3.920992, -4.2078676, -4.2085314]),
                toe: [22, 22, 46, 46],
                toe_out_linear: floats([0.0004062106, 0.00040621002, 0.000184785, 0.0001847778]),
                caster_lf: 44,
                caster_rf: 44,
                steer_ratio: 3,
            },
            electronics: Electronics {
                tc1: 5,
                tc2: 0,
                abs: 2,
                ecu_map: 0,
                fuel_mix: 0,
                telemetry_laps: 5,
            },
            strategy: Strategy {
                fuel: 0,
                n_pit_stops: 0,
                tyre_set: 27,
                front_brake_pad_compound: 0,
                rear_brake_pad_compound: 0,
                pit_strategy: vec![PitStrategy {
                    fuel_to_add: 0,
                    tyres: Tyres { tyre_compound: 0, tyre_pressure: [53, 52, 56, 55] },
                    tyre_set: 2,
                    front_brake_pad_compound: 1,
                    rear_brake_pad_compound: 1,
                }],
                fuel_per_lap: Float32::from_bits(2.93f32.to_bits()),
            },
        },
        advanced_setup: AdvancedSetup {
            mechanical_balance: MechanicalBalance {
                arb_front: 10,
                arb_rear: 8,
                wheel_rate: [0, 0, 5, 5],
                bump_stop_rate_up: [0, 0, 0, 0],
                bump_stop_rate_dn: [0, 0, 10, 10],
                bump_stop_window: [5, 5, 9, 9],
                brake_torque: 20,
                brake_bias: 32,
            },
            dampers: Dampers {
                bump_slow: [5, 5, 5, 5],
                bump_fast: [6, 6, 6, 6],
                rebound_slow: [6, 6, 4, 4],
                rebound_fast: [5, 5, 8, 8],
            },
            aero_balance: AeroBalance {
                ride_height: [0, 6, 12, 18],
                rod_length: floats([-2.0982912, -2.0982912, 64.64535, 64.64535]),
                splitter: 5,
                rear_wing: 9,
                brake_duct: [3, 3],
            },
            drivetrain: Drivetrain { preload: 10 },
        },
        track_bop_type: 44,
    }
}

fn file(name: &str, setup_type: SetupType) -> SetupFile {
    SetupFile {
        name: name.to_string(),
        ambient_temperature: 24,
        track_temperature: 31,
        setup_type,
        setup: setup(),
    }
}

#[test]
fn test_parse_name() -> Result<(), SetupError> {
    let path = "test\\21c 28c TEST Race Setup.json";

    let (name, ambient, track) = SetupFile::parse_name(path)?;
    assert_eq!(name, "TEST Race Setup");
    assert_eq!(ambient, 21);
    assert_eq!(track, 28);

    Ok(())
}

#[test]
fn test_file_name() {
    let setup = SetupFile {
        name: "TEST Race Setup".to_owned(),
        ambient_temperature: 24,
        track_temperature: 31,
        setup_type: SetupType::Race,
        setup: setup(),
    };

    let file_name = setup.file_name();
    assert_eq!(file_name, "24c 31c TEST Race Setup.json")
}

#[test]
fn file_name_is_read_back() {
    for (ambient, track, name) in [(24u8, 31u8, "TEST Race Setup"), (10, 99, "\u{00e9}t\u{00e9} Q"), (12, 13, "")] {
        let mut setup = file(name, SetupType::Base);
        setup.ambient_temperature = ambient;
        setup.track_temperature = track;
        let text = setup.file_name();
        assert_eq!(
            SetupFile::parse_name(&format!("Setups/car/track/{}", text)),
            Ok((name.to_string(), ambient, track))
        );
    }
    let mut hot = file("x", SetupType::Base);
    hot.ambient_temperature = 5;
    hot.track_temperature = 105;
    assert_eq!(hot.file_name(), "5c 105c x.json");
    hot.ambient_temperature = 0;
    hot.track_temperature = 255;
    assert_eq!(hot.file_name(), "0c 255c x.json");
}

#[test]
fn name_of_another_form_is_an_error() {
    for path in [
        "",
        "21c 28c name",
        "21c 28c name.jso",
        "21c 28.json",
        "2xc 28c name.json",
        "21c x8c name.json",
        "dir/21c 28c name.json/",
        "21c 28c name.json\\other.txt",
        "21c 28c\u{00e9}name.json",
    ] {
        assert_eq!(SetupFile::parse_name(path), Err(SetupError::ParsePathError), "{:?}", path);
    }
    assert_eq!(SetupFile::parse_name("+5c +7c n.json"), Ok(("n".to_string(), 5, 7)));
    assert_eq!(SetupFile::parse_name("a/b\\05c 07c .json"), Ok(("".to_string(), 5, 7)));
}

#[test]
fn weather_moves_the_pressures_a_click_a_degree() {
    let mut setup = file("x", SetupType::Base);
    let weather =
        Weather { ambient_temp: 27, track_temp: 35, clouds: 1, rain_level: 0, wetness: 0 };
    setup.adjust_weather(&weather);
    assert_eq!(setup.ambient_temperature, 27);
    assert_eq!(setup.track_temperature, 35);
    assert_eq!(setup.setup.basic_setup.tyres.tyre_pressure, [50, 49, 53, 52]);
    assert_eq!(
        setup.setup.basic_setup.strategy.pit_strategy[0].tyres.tyre_pressure,
        [50, 49, 53, 52]
    );
    let mut expected = file("x", SetupType::Base);
    expected.ambient_temperature = 27;
    expected.track_temperature = 35;
    expected.setup.basic_setup.tyres.tyre_pressure = [50, 49, 53, 52];
    expected.setup.basic_setup.strategy.pit_strategy[0].tyres.tyre_pressure = [50, 49, 53, 52];
    assert_eq!(setup, expected);
    let colder = Weather { ambient_temp: 20, ..weather };
    setup.adjust_weather(&colder);
    assert_eq!(setup.setup.basic_setup.tyres.tyre_pressure, [57, 56, 60, 59]);
}

#[test]
fn fuel_and_laps_are_set() {
    let mut setup = file("x", SetupType::Race);
    setup.adjust_fuel(55);
    assert_eq!(setup.setup.basic_setup.strategy.fuel, 53);
    setup.adjust_fuel(i32::MIN);
    assert_eq!(setup.setup.basic_setup.strategy.fuel, i32::MIN);
    setup.adjust_telemetry_laps(9);
    assert_eq!(setup.setup.basic_setup.electronics.telemetry_laps, 9);
    let mut expected = file("x", SetupType::Race);
    expected.setup.basic_setup.strategy.fuel = i32::MIN;
    expected.setup.basic_setup.electronics.telemetry_laps = 9;
    assert_eq!(setup, expected);
}

#[test]
fn fuel_goes_to_the_setups_of_its_session() {
    let mut manager = SetupManager::new();
    manager.setups = vec![
        file("base", SetupType::Base),
        file("x R", SetupType::Race),
        file("x Q", SetupType::Qualifying),
    ];
    manager.handle(SetupChange::RaceFuel(60));
    let fuel = |m: &SetupManager| -> Vec<i32> {
        m.setups.iter().map(|s| s.setup.basic_setup.strategy.fuel).collect()
    };
    assert_eq!(fuel(&manager), vec![58, 58, 0]);
    assert_eq!(manager.race_fuel, 60);
    manager.handle(SetupChange::QualiFuel(20));
    assert_eq!(fuel(&manager), vec![18, 58, 18]);
    assert_eq!(manager.quali_fuel, 20);
    manager.handle(SetupChange::TelemetryLaps(3));
    assert!(manager.setups.iter().all(|s| s.setup.basic_setup.electronics.telemetry_laps == 3));
    let weather =
        Weather { ambient_temp: 25, track_temp: 30, clouds: 0, rain_level: 0, wetness: 0 };
    manager.handle(SetupChange::Weather(weather));
    assert_eq!(manager.weather, weather);
    assert!(manager
        .setups
        .iter()
        .all(|s| s.ambient_temperature == 25 && s.setup.basic_setup.tyres.tyre_pressure[0] == 52));
}

#[test]
fn test_setup_type() -> Result<(), SetupError> {
    assert_eq!(SetupType::Qualifying, SetupType::from_str("20c 23c RW Q")?);
    assert_eq!(SetupType::Qualifying, SetupType::from_str("20c 23c RW Quali")?);
    assert_eq!(SetupType::Qualifying, SetupType::from_str("20c 23c RW Q Test")?);
    assert_eq!(SetupType::Race, SetupType::from_str("20c 23c RW R")?);
    assert_eq!(SetupType::Race, SetupType::from_str("20c 23c RW Race")?);
    assert_eq!(SetupType::Race, SetupType::from_str("20c 23c RW R Test")?);
    assert_eq!(SetupType::Base, SetupType::from_str("20c 23c RW Test")?);

    Ok(())
}

#[test]
fn setup_type_needs_the_blank_and_the_end() {
    assert_eq!(SetupType::from_str("Q").unwrap(), SetupType::Base);
    assert_eq!(SetupType::from_str("RW Qualifying").unwrap(), SetupType::Base);
    assert_eq!(SetupType::from_str("RW Racer").unwrap(), SetupType::Base);
    assert_eq!(SetupType::from_str("").unwrap(), SetupType::Base);
}

#[test]
fn qualifying_wins_over_race() {
    assert_eq!(SetupType::from_str("RW R Q").unwrap(), SetupType::Qualifying);
    assert_eq!(SetupType::classify(Some(true), Some(true)), SetupType::Qualifying);
    assert_eq!(SetupType::classify(Some(false), Some(true)), SetupType::Race);
    assert_eq!(SetupType::classify(None, Some(true)), SetupType::Race);
    assert_eq!(SetupType::classify(Some(false), None), SetupType::Base);
    assert_eq!(SetupType::classify(None, None), SetupType::Base);
}
