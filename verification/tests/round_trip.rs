use vapor_telemetry::telemetry::udp::{
    BroadcastCodec, BroadcastInboundMessage, BroadcastingCarEventType, BroadcastingEvent,
    CameraSet, CarInfo, CarLocation, Driver, DriverCategory, EntryList, Float32, LapInfo, LapType,
    Nationality, RaceSessionType, RealtimeCarUpdate, RealtimeUpdate, RegistrationResult,
    SessionPhase, TrackData,
};

struct Random(u64);

impl Random {
    fn next(&mut self) -> u32 {
        self.0 = self.0.wrapping_mul(6364136223846793005).wrapping_add(1442695040888963407);
        (self.0 >> 32) as u32
    }

    fn below(&mut self, bound: u32) -> u32 {
        self.next() % bound
    }

    fn flag(&mut self) -> bool {
        self.next() % 2 == 0
    }

    fn float(&mut self) -> Float32 {
        Float32::from_bits(self.next())
    }

    fn text(&mut self) -> String {
        let alphabet = ['a', 'Z', '7', ' ', '\u{00e9}', '\u{00df}', '\u{65e5}', '\u{1f3c1}', '\0'];
        let length = self.below(12);
        (0..length).map(|_| alphabet[self.below(alphabet.len() as u32) as usize]).collect()
    }

    fn time(&mut self) -> Option<i32> {
        match self.below(4) {
            0 => None,
            1 => Some(i32::MAX - 1),
            2 => Some(i32::MIN),
            _ => Some(self.next() as i32 >> 8),
        }
    }

    fn lap(&mut self) -> LapInfo {
        let splits = 3 + self.below(4);
        LapInfo {
            lap_type: [LapType::Outlap, LapType::Regular, LapType::Inlap][self.below(3) as usize],
            laptime: self.time(),
            car_index: self.next() as u16,
            driver_index: self.next() as u16,
            splits: (0..splits).map(|_| self.time()).collect(),
            invalid: self.flag(),
            valid_for_best: self.flag(),
        }
    }

    fn driver(&mut self) -> Driver {
        Driver {
            first_name: self.text(),
            last_name: self.text(),
            short_name: self.text(),
            category: DriverCategory::from_primitive(self.below(5) as u8),
            nationality: Nationality::from_primitive(self.below(80) as u16),
        }
    }

    fn message(&mut self) -> BroadcastInboundMessage {
        match self.below(7) {
            0 => BroadcastInboundMessage::RegistrationResult(RegistrationResult {
                id: self.next() as i32,
                connection_success: self.flag(),
                read_only: self.flag(),
                err_msg: self.text(),
            }),
            1 => {
                let playing = self.flag();
                BroadcastInboundMessage::RealtimeUpdate(RealtimeUpdate {
                    event_index: self.next() as u16,
                    session_index: self.next() as u16,
                    session_type: RaceSessionType::from_primitive(self.below(16) as u8),
                    phase: SessionPhase::from_primitive(self.below(10) as u8),
                    session_time: self.float(),
                    session_end_time: self.float(),
                    focused_car_index: self.next() as i32,
                    active_camera_set: self.text(),
                    active_camera: self.text(),
                    current_hud_page: self.text(),
                    replay_playing: playing,
                    replay_session_time: if playing { Some(self.float()) } else { None },
                    replay_remaining_time: if playing { Some(self.float()) } else { None },
                    time_of_day: self.float(),
                    ambient_temp: self.next() as u8,
                    track_temp: self.next() as u8,
                    clouds: self.next() as u8,
                    rain_level: self.next() as u8,
                    wetness: self.next() as u8,
                    best_session_lap: self.lap(),
                })
            }
            2 => BroadcastInboundMessage::RealtimeCarUpdate(RealtimeCarUpdate {
                car_index: self.next() as i16,
                driver_index: self.next() as i16,
                driver_count: self.next() as u8,
                gear: self.next() as u8,
                world_pos_x: self.float(),
                world_pos_y: self.float(),
                yaw: self.float(),
                car_location: CarLocation::from_primitive(self.below(6) as u8),
                kmh: self.next() as u16,
                position: self.next() as u16,
                cup_position: self.next() as u16,
                track_position: self.next() as u16,
                spline_position: self.float(),
                laps: self.next() as u16,
                delta: self.next() as i32,
                best_session_lap: self.lap(),
                last_lap: self.lap(),
                current_lap: self.lap(),
            }),
            3 => {
                let cars = self.below(40);
                BroadcastInboundMessage::EntryList(EntryList {
                    connection_id: self.next() as i32,
                    cars: (0..cars).map(|_| self.next() as u16).collect(),
                })
            }
            4 => {
                let drivers = self.below(5);
                BroadcastInboundMessage::EntryListCar(CarInfo {
                    id: self.next() as u16,
                    model_type: self.next() as u8,
                    team_name: self.text(),
                    race_number: self.next() as i32,
                    cup_category: DriverCategory::from_primitive(self.below(5) as u8),
                    current_driver_id: self.next() as u8,
                    nationality: Nationality::from_primitive(self.below(80) as u16),
                    drivers: (0..drivers).map(|_| self.driver()).collect(),
                })
            }
            5 => {
                let sets = self.below(5);
                let pages = self.below(5);
                BroadcastInboundMessage::TrackData(TrackData {
                    name: self.text(),
                    id: self.next() as i32,
                    meters: self.next() as i32,
                    camera_sets: (0..sets)
                        .map(|i| {
                            let cameras = self.below(4);
                            CameraSet {
                                name: format!("{}{}", i, self.text()),
                                cameras: (0..cameras).map(|_| self.text()).collect(),
                            }
                        })
                        .collect(),
                    hud_pages: (0..pages).map(|_| self.text()).collect(),
                })
            }
            _ => BroadcastInboundMessage::BroadcastingEvent(BroadcastingEvent {
                event_type: BroadcastingCarEventType::from_primitive(self.below(9) as u8),
                msg: self.text(),
                time_ms: self.next() as i32,
                car_id: self.next() as i32,
            }),
        }
    }
}

#[test]
fn every_message_that_fits_is_decoded_from_its_datagram() {
    let mut random = Random(0xacc);
    let mut codec = BroadcastCodec::new();
    let mut kinds = [0usize; 7];
    for _ in 0..20_000 {
        let message = random.message();
        kinds[match &message {
            BroadcastInboundMessage::RegistrationResult(_) => 0,
            BroadcastInboundMessage::RealtimeUpdate(_) => 1,
            BroadcastInboundMessage::RealtimeCarUpdate(_) => 2,
            BroadcastInboundMessage::EntryList(_) => 3,
            BroadcastInboundMessage::EntryListCar(_) => 4,
            BroadcastInboundMessage::TrackData(_) => 5,
            BroadcastInboundMessage::BroadcastingEvent(_) => 6,
        }] += 1;
        let mut buffer = message.serialize();
        let decoded = codec.decode(&mut buffer);
        assert_eq!(decoded, Ok(Some(message)));
        assert!(buffer.is_empty());
    }
    assert!(kinds.iter().all(|count| *count > 1000));
}

#[test]
fn datagram_cut_short_never_decodes_to_a_message() {
    let mut random = Random(0xbee);
    let mut codec = BroadcastCodec::new();
    for _ in 0..2_000 {
        let whole = random.message().serialize();
        let cut = random.below(whole.len() as u32) as usize;
        let mut buffer = whole[..cut].to_vec();
        let decoded = codec.decode(&mut buffer);
        assert!(!matches!(decoded, Ok(Some(_))), "cut at {} of {:?}", cut, whole);
        assert_eq!(buffer, whole[..cut].to_vec());
    }
}
