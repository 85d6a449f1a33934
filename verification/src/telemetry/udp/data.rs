//! The enumerations of the protocol and their wire codes.
//!
//! Each enumeration reads every code: one that the protocol does not assign
//! falls to a fixed variant. Each variant writes a code of its own, so a value
//! that is written and read again is the same value.

use vstd::prelude::*;

verus! {

/// The kind of session that is running.
#[derive(Clone, Copy, Debug, PartialEq, Eq, Structural)]
pub enum RaceSessionType {
    Practice,
    Qualifying,
    Superpole,
    Race,
    Hotlap,
    Hotstint,
    HotlapSuperpole,
    Replay,
    /// A code that the protocol does not assign.
    Error,
}

impl RaceSessionType {
    /// The variant that `code` stands for on the wire; a code that stands
    /// for none is `Error`.
    pub open spec fn of_code(code: u8) -> RaceSessionType {
        if code == 0 {
            RaceSessionType::Practice
        } else if code == 4 {
            RaceSessionType::Qualifying
        } else if code == 9 {
            RaceSessionType::Superpole
        } else if code == 10 {
            RaceSessionType::Race
        } else if code == 11 {
            RaceSessionType::Hotlap
        } else if code == 12 {
            RaceSessionType::Hotstint
        } else if code == 13 {
            RaceSessionType::HotlapSuperpole
        } else if code == 14 {
            RaceSessionType::Replay
        } else {
            RaceSessionType::Error
        }
    }

    /// The code that stands for the variant on the wire.
    pub open spec fn code(self) -> u8 {
        match self {
            RaceSessionType::Practice => 0,
            RaceSessionType::Qualifying => 4,
            RaceSessionType::Superpole => 9,
            RaceSessionType::Race => 10,
            RaceSessionType::Hotlap => 11,
            RaceSessionType::Hotstint => 12,
            RaceSessionType::HotlapSuperpole => 13,
            RaceSessionType::Replay => 14,
            RaceSessionType::Error => 255,
        }
    }

    /// Reads the variant off its wire code.
    pub fn from_primitive(code: u8) -> (r: RaceSessionType)
        ensures
            r == Self::of_code(code),
    {
        match code {
            0 => RaceSessionType::Practice,
            4 => RaceSessionType::Qualifying,
            9 => RaceSessionType::Superpole,
            10 => RaceSessionType::Race,
            11 => RaceSessionType::Hotlap,
            12 => RaceSessionType::Hotstint,
            13 => RaceSessionType::HotlapSuperpole,
            14 => RaceSessionType::Replay,
            _ => RaceSessionType::Error,
        }
    }

    /// The wire code of the variant.
    pub fn to_primitive(self) -> (r: u8)
        ensures
            r == self.code(),
    {
        match self {
            RaceSessionType::Practice => 0,
            RaceSessionType::Qualifying => 4,
            RaceSessionType::Superpole => 9,
            RaceSessionType::Race => 10,
            RaceSessionType::Hotlap => 11,
            RaceSessionType::Hotstint => 12,
            RaceSessionType::HotlapSuperpole => 13,
            RaceSessionType::Replay => 14,
            RaceSessionType::Error => 255,
        }
    }

    /// Every variant is the one that its own code stands for.
    pub proof fn lemma_code_round_trip(self)
        ensures
            Self::of_code(self.code()) == self,
    {
    }
}

impl Default for RaceSessionType {
    fn default() -> (r: RaceSessionType)
        ensures
            r == RaceSessionType::Practice,
    {
        RaceSessionType::Practice
    }
}

/// How far the running session has come.
#[derive(Clone, Copy, Debug, PartialEq, Eq, Structural)]
pub enum SessionPhase {
    /// No value has been set.
    Unset,
    Starting,
    PreFormation,
    FormationLap,
    PreSession,
    Session,
    SessionOver,
    PostSession,
    ResultUi,
    /// A code that the protocol does not assign.
    Error,
}

impl SessionPhase {
    /// The variant that `code` stands for on the wire; a code that stands
    /// for none is `Error`.
    pub open spec fn of_code(code: u8) -> SessionPhase {
        if code == 0 {
            SessionPhase::Unset
        } else if code == 1 {
            SessionPhase::Starting
        } else if code == 2 {
            SessionPhase::PreFormation
        } else if code == 3 {
            SessionPhase::FormationLap
        } else if code == 4 {
            SessionPhase::PreSession
        } else if code == 5 {
            SessionPhase::Session
        } else if code == 6 {
            SessionPhase::SessionOver
        } else if code == 7 {
            SessionPhase::PostSession
        } else if code == 8 {
            SessionPhase::ResultUi
        } else {
            SessionPhase::Error
        }
    }

    /// The code that stands for the variant on the wire.
    pub open spec fn code(self) -> u8 {
        match self {
            SessionPhase::Unset => 0,
            SessionPhase::Starting => 1,
            SessionPhase::PreFormation => 2,
            SessionPhase::FormationLap => 3,
            SessionPhase::PreSession => 4,
            SessionPhase::Session => 5,
            SessionPhase::SessionOver => 6,
            SessionPhase::PostSession => 7,
            SessionPhase::ResultUi => 8,
            SessionPhase::Error => 255,
        }
    }

    /// Reads the variant off its wire code.
    pub fn from_primitive(code: u8) -> (r: SessionPhase)
        ensures
            r == Self::of_code(code),
    {
        match code {
            0 => SessionPhase::Unset,
            1 => SessionPhase::Starting,
            2 => SessionPhase::PreFormation,
            3 => SessionPhase::FormationLap,
            4 => SessionPhase::PreSession,
            5 => SessionPhase::Session,
            6 => SessionPhase::SessionOver,
            7 => SessionPhase::PostSession,
            8 => SessionPhase::ResultUi,
            _ => SessionPhase::Error,
        }
    }

    /// The wire code of the variant.
    pub fn to_primitive(self) -> (r: u8)
        ensures
            r == self.code(),
    {
        match self {
            SessionPhase::Unset => 0,
            SessionPhase::Starting => 1,
            SessionPhase::PreFormation => 2,
            SessionPhase::FormationLap => 3,
            SessionPhase::PreSession => 4,
            SessionPhase::Session => 5,
            SessionPhase::SessionOver => 6,
            SessionPhase::PostSession => 7,
            SessionPhase::ResultUi => 8,
            SessionPhase::Error => 255,
        }
    }

    /// Every variant is the one that its own code stands for.
    pub proof fn lemma_code_round_trip(self)
        ensures
            Self::of_code(self.code()) == self,
    {
    }
}

impl Default for SessionPhase {
    fn default() -> (r: SessionPhase)
        ensures
            r == SessionPhase::Unset,
    {
        SessionPhase::Unset
    }
}

/// Where on the circuit a car is.
#[derive(Clone, Copy, Debug, PartialEq, Eq, Structural)]
pub enum CarLocation {
    /// No value has been set.
    Unset,
    Track,
    Pitlane,
    PitEntry,
    PitExit,
    /// A code that the protocol does not assign.
    Error,
}

impl CarLocation {
    /// The variant that `code` stands for on the wire; a code that stands
    /// for none is `Error`.
    pub open spec fn of_code(code: u8) -> CarLocation {
        if code == 0 {
            CarLocation::Unset
        } else if code == 1 {
            CarLocation::Track
        } else if code == 2 {
            CarLocation::Pitlane
        } else if code == 3 {
            CarLocation::PitEntry
        } else if code == 4 {
            CarLocation::PitExit
        } else {
            CarLocation::Error
        }
    }

    /// The code that stands for the variant on the wire.
    pub open spec fn code(self) -> u8 {
        match self {
            CarLocation::Unset => 0,
            CarLocation::Track => 1,
            CarLocation::Pitlane => 2,
            CarLocation::PitEntry => 3,
            CarLocation::PitExit => 4,
            CarLocation::Error => 255,
        }
    }

    /// Reads the variant off its wire code.
    pub fn from_primitive(code: u8) -> (r: CarLocation)
        ensures
            r == Self::of_code(code),
    {
        match code {
            0 => CarLocation::Unset,
            1 => CarLocation::Track,
            2 => CarLocation::Pitlane,
            3 => CarLocation::PitEntry,
            4 => CarLocation::PitExit,
            _ => CarLocation::Error,
        }
    }

    /// The wire code of the variant.
    pub fn to_primitive(self) -> (r: u8)
        ensures
            r == self.code(),
    {
        match self {
            CarLocation::Unset => 0,
            CarLocation::Track => 1,
            CarLocation::Pitlane => 2,
            CarLocation::PitEntry => 3,
            CarLocation::PitExit => 4,
            CarLocation::Error => 255,
        }
    }

    /// Every variant is the one that its own code stands for.
    pub proof fn lemma_code_round_trip(self)
        ensures
            Self::of_code(self.code()) == self,
    {
    }
}

impl Default for CarLocation {
    fn default() -> (r: CarLocation)
        ensures
            r == CarLocation::Unset,
    {
        CarLocation::Unset
    }
}

/// The licence class of a driver or of a car's cup.
#[derive(Clone, Copy, Debug, PartialEq, Eq, Structural)]
pub enum DriverCategory {
    Bronze,
    Silver,
    Gold,
    Platinum,
    /// A code that the protocol does not assign.
    Error,
}

impl DriverCategory {
    /// The variant that `code` stands for on the wire; a code that stands
    /// for none is `Error`.
    pub open spec fn of_code(code: u8) -> DriverCategory {
        if code == 0 {
            DriverCategory::Bronze
        } else if code == 1 {
            DriverCategory::Silver
        } else if code == 2 {
            DriverCategory::Gold
        } else if code == 3 {
            DriverCategory::Platinum
        } else {
            DriverCategory::Error
        }
    }

    /// The code that stands for the variant on the wire.
    pub open spec fn code(self) -> u8 {
        match self {
            DriverCategory::Bronze => 0,
            DriverCategory::Silver => 1,
            DriverCategory::Gold => 2,
            DriverCategory::Platinum => 3,
            DriverCategory::Error => 255,
        }
    }

    /// Reads the variant off its wire code.
    pub fn from_primitive(code: u8) -> (r: DriverCategory)
        ensures
            r == Self::of_code(code),
    {
        match code {
            0 => DriverCategory::Bronze,
            1 => DriverCategory::Silver,
            2 => DriverCategory::Gold,
            3 => DriverCategory::Platinum,
            _ => DriverCategory::Error,
        }
    }

    /// The wire code of the variant.
    pub fn to_primitive(self) -> (r: u8)
        ensures
            r == self.code(),
    {
        match self {
            DriverCategory::Bronze => 0,
            DriverCategory::Silver => 1,
            DriverCategory::Gold => 2,
            DriverCategory::Platinum => 3,
            DriverCategory::Error => 255,
        }
    }

    /// Every variant is the one that its own code stands for.
    pub proof fn lemma_code_round_trip(self)
        ensures
            Self::of_code(self.code()) == self,
    {
    }
}

impl Default for DriverCategory {
    fn default() -> (r: DriverCategory)
        ensures
            r == DriverCategory::Error,
    {
        DriverCategory::Error
    }
}

/// What a broadcasting event reports.
#[derive(Clone, Copy, Debug, PartialEq, Eq, Structural)]
pub enum BroadcastingCarEventType {
    /// No value has been set.
    Unset,
    GreenFlag,
    SessionOver,
    PenaltyCommMsg,
    Accident,
    LapCompleted,
    BestSessionLap,
    BestPersonalLap,
    /// A code that the protocol does not assign.
    Error,
}

impl BroadcastingCarEventType {
    /// The variant that `code` stands for on the wire; a code that stands
    /// for none is `Error`.
    pub open spec fn of_code(code: u8) -> BroadcastingCarEventType {
        if code == 0 {
            BroadcastingCarEventType::Unset
        } else if code == 1 {
            BroadcastingCarEventType::GreenFlag
        } else if code == 2 {
            BroadcastingCarEventType::SessionOver
        } else if code == 3 {
            BroadcastingCarEventType::PenaltyCommMsg
        } else if code == 4 {
            BroadcastingCarEventType::Accident
        } else if code == 5 {
            BroadcastingCarEventType::LapCompleted
        } else if code == 6 {
            BroadcastingCarEventType::BestSessionLap
        } else if code == 7 {
            BroadcastingCarEventType::BestPersonalLap
        } else {
            BroadcastingCarEventType::Error
        }
    }

    /// The code that stands for the variant on the wire.
    pub open spec fn code(self) -> u8 {
        match self {
            BroadcastingCarEventType::Unset => 0,
            BroadcastingCarEventType::GreenFlag => 1,
            BroadcastingCarEventType::SessionOver => 2,
            BroadcastingCarEventType::PenaltyCommMsg => 3,
            BroadcastingCarEventType::Accident => 4,
            BroadcastingCarEventType::LapCompleted => 5,
            BroadcastingCarEventType::BestSessionLap => 6,
            BroadcastingCarEventType::BestPersonalLap => 7,
            BroadcastingCarEventType::Error => 255,
        }
    }

    /// Reads the variant off its wire code.
    pub fn from_primitive(code: u8) -> (r: BroadcastingCarEventType)
        ensures
            r == Self::of_code(code),
    {
        match code {
            0 => BroadcastingCarEventType::Unset,
            1 => BroadcastingCarEventType::GreenFlag,
            2 => BroadcastingCarEventType::SessionOver,
            3 => BroadcastingCarEventType::PenaltyCommMsg,
            4 => BroadcastingCarEventType::Accident,
            5 => BroadcastingCarEventType::LapCompleted,
            6 => BroadcastingCarEventType::BestSessionLap,
            7 => BroadcastingCarEventType::BestPersonalLap,
            _ => BroadcastingCarEventType::Error,
        }
    }

    /// The wire code of the variant.
    pub fn to_primitive(self) -> (r: u8)
        ensures
            r == self.code(),
    {
        match self {
            BroadcastingCarEventType::Unset => 0,
            BroadcastingCarEventType::GreenFlag => 1,
            BroadcastingCarEventType::SessionOver => 2,
            BroadcastingCarEventType::PenaltyCommMsg => 3,
            BroadcastingCarEventType::Accident => 4,
            BroadcastingCarEventType::LapCompleted => 5,
            BroadcastingCarEventType::BestSessionLap => 6,
            BroadcastingCarEventType::BestPersonalLap => 7,
            BroadcastingCarEventType::Error => 255,
        }
    }

    /// Every variant is the one that its own code stands for.
    pub proof fn lemma_code_round_trip(self)
        ensures
            Self::of_code(self.code()) == self,
    {
    }
}

impl Default for BroadcastingCarEventType {
    fn default() -> (r: BroadcastingCarEventType)
        ensures
            r == BroadcastingCarEventType::Unset,
    {
        BroadcastingCarEventType::Unset
    }
}

/// The nationality of a driver or a team.
#[derive(Clone, Copy, Debug, PartialEq, Eq, Structural)]
pub enum Nationality {
    Any,
    Italy,
    Germany,
    France,
    Spain,
    GreatBritain,
    Hungary,
    Belgium,
    Switzerland,
    Austria,
    Russia,
    Thailand,
    Netherlands,
    Poland,
    Argentina,
    Monaco,
    Ireland,
    Brazil,
    SouthAfrica,
    PuertoRico,
    Slovakia,
    Oman,
    Greece,
    SaudiArabia,
    Norway,
    Turkey,
    SouthKorea,
    Lebanon,
    Armenia,
    Mexico,
    Sweden,
    Finland,
    Denmark,
    Croatia,
    Canada,
    China,
    Portugal,
    Singapore,
    Indonesia,
    Usa,
    NewZealand,
    Australia,
    SanMarino,
    Uae,
    Luxembourg,
    Kuwait,
    HongKong,
    Colombia,
    Japan,
    Andorra,
    Azerbaijan,
    Bulgaria,
    Cuba,
    CzechRepublic,
    Estonia,
    Georgia,
    India,
    Israel,
    Jamaica,
    Latvia,
    Lithuania,
    Macau,
    Malaysia,
    Nepal,
    NewCaledonia,
    Nigeria,
    NorthernIreland,
    PapuaNewGuinea,
    Philippines,
    Qatar,
    Romania,
    Scotland,
    Serbia,
    Slovenia,
    Taiwan,
    Ukraine,
    Venezuela,
    Wales,
    /// A code that the protocol does not assign.
    Error,
}

impl Nationality {
    /// The variant that `code` stands for on the wire; a code that stands
    /// for none is `Error`.
    pub open spec fn of_code(code: u16) -> Nationality {
        if code == 0 {
            Nationality::Any
        } else if code == 1 {
            Nationality::Italy
        } else if code == 2 {
            Nationality::Germany
        } else if code == 3 {
            Nationality::France
        } else if code == 4 {
            Nationality::Spain
        } else if code == 5 {
            Nationality::GreatBritain
        } else if code == 6 {
            Nationality::Hungary
        } else if code == 7 {
            Nationality::Belgium
        } else if code == 8 {
            Nationality::Switzerland
        } else if code == 9 {
            Nationality::Austria
        } else if code == 10 {
            Nationality::Russia
        } else if code == 11 {
            Nationality::Thailand
        } else if code == 12 {
            Nationality::Netherlands
        } else if code == 13 {
            Nationality::Poland
        } else if code == 14 {
            Nationality::Argentina
        } else if code == 15 {
            Nationality::Monaco
        } else if code == 16 {
            Nationality::Ireland
        } else if code == 17 {
            Nationality::Brazil
        } else if code == 18 {
            Nationality::SouthAfrica
        } else if code == 19 {
            Nationality::PuertoRico
        } else if code == 20 {
            Nationality::Slovakia
        } else if code == 21 {
            Nationality::Oman
        } else if code == 22 {
            Nationality::Greece
        } else if code == 23 {
            Nationality::SaudiArabia
        } else if code == 24 {
            Nationality::Norway
        } else if code == 25 {
            Nationality::Turkey
        } else if code == 26 {
            Nationality::SouthKorea
        } else if code == 27 {
            Nationality::Lebanon
        } else if code == 28 {
            Nationality::Armenia
        } else if code == 29 {
            Nationality::Mexico
        } else if code == 30 {
            Nationality::Sweden
        } else if code == 31 {
            Nationality::Finland
        } else if code == 32 {
            Nationality::Denmark
        } else if code == 33 {
            Nationality::Croatia
        } else if code == 34 {
            Nationality::Canada
        } else if code == 35 {
            Nationality::China
        } else if code == 36 {
            Nationality::Portugal
        } else if code == 37 {
            Nationality::Singapore
        } else if code == 38 {
            Nationality::Indonesia
        } else if code == 39 {
            Nationality::Usa
        } else if code == 40 {
            Nationality::NewZealand
        } else if code == 41 {
            Nationality::Australia
        } else if code == 42 {
            Nationality::SanMarino
        } else if code == 43 {
            Nationality::Uae
        } else if code == 44 {
            Nationality::Luxembourg
        } else if code == 45 {
            Nationality::Kuwait
        } else if code == 46 {
            Nationality::HongKong
        } else if code == 47 {
            Nationality::Colombia
        } else if code == 48 {
            Nationality::Japan
        } else if code == 49 {
            Nationality::Andorra
        } else if code == 50 {
            Nationality::Azerbaijan
        } else if code == 51 {
            Nationality::Bulgaria
        } else if code == 52 {
            Nationality::Cuba
        } else if code == 53 {
            Nationality::CzechRepublic
        } else if code == 54 {
            Nationality::Estonia
        } else if code == 55 {
            Nationality::Georgia
        } else if code == 56 {
            Nationality::India
        } else if code == 57 {
            Nationality::Israel
        } else if code == 58 {
            Nationality::Jamaica
        } else if code == 59 {
            Nationality::Latvia
        } else if code == 60 {
            Nationality::Lithuania
        } else if code == 61 {
            Nationality::Macau
        } else if code == 62 {
            Nationality::Malaysia
        } else if code == 63 {
            Nationality::Nepal
        } else if code == 64 {
            Nationality::NewCaledonia
        } else if code == 65 {
            Nationality::Nigeria
        } else if code == 66 {
            Nationality::NorthernIreland
        } else if code == 67 {
            Nationality::PapuaNewGuinea
        } else if code == 68 {
            Nationality::Philippines
        } else if code == 69 {
            Nationality::Qatar
        } else if code == 70 {
            Nationality::Romania
        } else if code == 71 {
            Nationality::Scotland
        } else if code == 72 {
            Nationality::Serbia
        } else if code == 73 {
            Nationality::Slovenia
        } else if code == 74 {
            Nationality::Taiwan
        } else if code == 75 {
            Nationality::Ukraine
        } else if code == 76 {
            Nationality::Venezuela
        } else if code == 77 {
            Nationality::Wales
        } else {
            Nationality::Error
        }
    }

    /// The code that stands for the variant on the wire.
    pub open spec fn code(self) -> u16 {
        match self {
            Nationality::Any => 0,
            Nationality::Italy => 1,
            Nationality::Germany => 2,
            Nationality::France => 3,
            Nationality::Spain => 4,
            Nationality::GreatBritain => 5,
            Nationality::Hungary => 6,
            Nationality::Belgium => 7,
            Nationality::Switzerland => 8,
            Nationality::Austria => 9,
            Nationality::Russia => 10,
            Nationality::Thailand => 11,
            Nationality::Netherlands => 12,
            Nationality::Poland => 13,
            Nationality::Argentina => 14,
            Nationality::Monaco => 15,
            Nationality::Ireland => 16,
            Nationality::Brazil => 17,
            Nationality::SouthAfrica => 18,
            Nationality::PuertoRico => 19,
            Nationality::Slovakia => 20,
            Nationality::Oman => 21,
            Nationality::Greece => 22,
            Nationality::SaudiArabia => 23,
            Nationality::Norway => 24,
            Nationality::Turkey => 25,
            Nationality::SouthKorea => 26,
            Nationality::Lebanon => 27,
            Nationality::Armenia => 28,
            Nationality::Mexico => 29,
            Nationality::Sweden => 30,
            Nationality::Finland => 31,
            Nationality::Denmark => 32,
            Nationality::Croatia => 33,
            Nationality::Canada => 34,
            Nationality::China => 35,
            Nationality::Portugal => 36,
            Nationality::Singapore => 37,
            Nationality::Indonesia => 38,
            Nationality::Usa => 39,
            Nationality::NewZealand => 40,
            Nationality::Australia => 41,
            Nationality::SanMarino => 42,
            Nationality::Uae => 43,
            Nationality::Luxembourg => 44,
            Nationality::Kuwait => 45,
            Nationality::HongKong => 46,
            Nationality::Colombia => 47,
            Nationality::Japan => 48,
            Nationality::Andorra => 49,
            Nationality::Azerbaijan => 50,
            Nationality::Bulgaria => 51,
            Nationality::Cuba => 52,
            Nationality::CzechRepublic => 53,
            Nationality::Estonia => 54,
            Nationality::Georgia => 55,
            Nationality::India => 56,
            Nationality::Israel => 57,
            Nationality::Jamaica => 58,
            Nationality::Latvia => 59,
            Nationality::Lithuania => 60,
            Nationality::Macau => 61,
            Nationality::Malaysia => 62,
            Nationality::Nepal => 63,
            Nationality::NewCaledonia => 64,
            Nationality::Nigeria => 65,
            Nationality::NorthernIreland => 66,
            Nationality::PapuaNewGuinea => 67,
            Nationality::Philippines => 68,
            Nationality::Qatar => 69,
            Nationality::Romania => 70,
            Nationality::Scotland => 71,
            Nationality::Serbia => 72,
            Nationality::Slovenia => 73,
            Nationality::Taiwan => 74,
            Nationality::Ukraine => 75,
            Nationality::Venezuela => 76,
            Nationality::Wales => 77,
            Nationality::Error => 65535,
        }
    }

    /// Reads the variant off its wire code.
    pub fn from_primitive(code: u16) -> (r: Nationality)
        ensures
            r == Self::of_code(code),
    {
        match code {
            0 => Nationality::Any,
            1 => Nationality::Italy,
            2 => Nationality::Germany,
            3 => Nationality::France,
            4 => Nationality::Spain,
            5 => Nationality::GreatBritain,
            6 => Nationality::Hungary,
            7 => Nationality::Belgium,
            8 => Nationality::Switzerland,
            9 => Nationality::Austria,
            10 => Nationality::Russia,
            11 => Nationality::Thailand,
            12 => Nationality::Netherlands,
            13 => Nationality::Poland,
            14 => Nationality::Argentina,
            15 => Nationality::Monaco,
            16 => Nationality::Ireland,
            17 => Nationality::Brazil,
            18 => Nationality::SouthAfrica,
            19 => Nationality::PuertoRico,
            20 => Nationality::Slovakia,
            21 => Nationality::Oman,
            22 => Nationality::Greece,
            23 => Nationality::SaudiArabia,
            24 => Nationality::Norway,
            25 => Nationality::Turkey,
            26 => Nationality::SouthKorea,
            27 => Nationality::Lebanon,
            28 => Nationality::Armenia,
            29 => Nationality::Mexico,
            30 => Nationality::Sweden,
            31 => Nationality::Finland,
            32 => Nationality::Denmark,
            33 => Nationality::Croatia,
            34 => Nationality::Canada,
            35 => Nationality::China,
            36 => Nationality::Portugal,
            37 => Nationality::Singapore,
            38 => Nationality::Indonesia,
            39 => Nationality::Usa,
            40 => Nationality::NewZealand,
            41 => Nationality::Australia,
            42 => Nationality::SanMarino,
            43 => Nationality::Uae,
            44 => Nationality::Luxembourg,
            45 => Nationality::Kuwait,
            46 => Nationality::HongKong,
            47 => Nationality::Colombia,
            48 => Nationality::Japan,
            49 => Nationality::Andorra,
            50 => Nationality::Azerbaijan,
            51 => Nationality::Bulgaria,
            52 => Nationality::Cuba,
            53 => Nationality::CzechRepublic,
            54 => Nationality::Estonia,
            55 => Nationality::Georgia,
            56 => Nationality::India,
            57 => Nationality::Israel,
            58 => Nationality::Jamaica,
            59 => Nationality::Latvia,
            60 => Nationality::Lithuania,
            61 => Nationality::Macau,
            62 => Nationality::Malaysia,
            63 => Nationality::Nepal,
            64 => Nationality::NewCaledonia,
            65 => Nationality::Nigeria,
            66 => Nationality::NorthernIreland,
            67 => Nationality::PapuaNewGuinea,
            68 => Nationality::Philippines,
            69 => Nationality::Qatar,
            70 => Nationality::Romania,
            71 => Nationality::Scotland,
            72 => Nationality::Serbia,
            73 => Nationality::Slovenia,
            74 => Nationality::Taiwan,
            75 => Nationality::Ukraine,
            76 => Nationality::Venezuela,
            77 => Nationality::Wales,
            _ => Nationality::Error,
        }
    }

    /// The wire code of the variant.
    pub fn to_primitive(self) -> (r: u16)
        ensures
            r == self.code(),
    {
        match self {
            Nationality::Any => 0,
            Nationality::Italy => 1,
            Nationality::Germany => 2,
            Nationality::France => 3,
            Nationality::Spain => 4,
            Nationality::GreatBritain => 5,
            Nationality::Hungary => 6,
            Nationality::Belgium => 7,
            Nationality::Switzerland => 8,
            Nationality::Austria => 9,
            Nationality::Russia => 10,
            Nationality::Thailand => 11,
            Nationality::Netherlands => 12,
            Nationality::Poland => 13,
            Nationality::Argentina => 14,
            Nationality::Monaco => 15,
            Nationality::Ireland => 16,
            Nationality::Brazil => 17,
            Nationality::SouthAfrica => 18,
            Nationality::PuertoRico => 19,
            Nationality::Slovakia => 20,
            Nationality::Oman => 21,
            Nationality::Greece => 22,
            Nationality::SaudiArabia => 23,
            Nationality::Norway => 24,
            Nationality::Turkey => 25,
            Nationality::SouthKorea => 26,
            Nationality::Lebanon => 27,
            Nationality::Armenia => 28,
            Nationality::Mexico => 29,
            Nationality::Sweden => 30,
            Nationality::Finland => 31,
            Nationality::Denmark => 32,
            Nationality::Croatia => 33,
            Nationality::Canada => 34,
            Nationality::China => 35,
            Nationality::Portugal => 36,
            Nationality::Singapore => 37,
            Nationality::Indonesia => 38,
            Nationality::Usa => 39,
            Nationality::NewZealand => 40,
            Nationality::Australia => 41,
            Nationality::SanMarino => 42,
            Nationality::Uae => 43,
            Nationality::Luxembourg => 44,
            Nationality::Kuwait => 45,
            Nationality::HongKong => 46,
            Nationality::Colombia => 47,
            Nationality::Japan => 48,
            Nationality::Andorra => 49,
            Nationality::Azerbaijan => 50,
            Nationality::Bulgaria => 51,
            Nationality::Cuba => 52,
            Nationality::CzechRepublic => 53,
            Nationality::Estonia => 54,
            Nationality::Georgia => 55,
            Nationality::India => 56,
            Nationality::Israel => 57,
            Nationality::Jamaica => 58,
            Nationality::Latvia => 59,
            Nationality::Lithuania => 60,
            Nationality::Macau => 61,
            Nationality::Malaysia => 62,
            Nationality::Nepal => 63,
            Nationality::NewCaledonia => 64,
            Nationality::Nigeria => 65,
            Nationality::NorthernIreland => 66,
            Nationality::PapuaNewGuinea => 67,
            Nationality::Philippines => 68,
            Nationality::Qatar => 69,
            Nationality::Romania => 70,
            Nationality::Scotland => 71,
            Nationality::Serbia => 72,
            Nationality::Slovenia => 73,
            Nationality::Taiwan => 74,
            Nationality::Ukraine => 75,
            Nationality::Venezuela => 76,
            Nationality::Wales => 77,
            Nationality::Error => 65535,
        }
    }

    /// Every variant is the one that its own code stands for.
    pub proof fn lemma_code_round_trip(self)
        ensures
            Self::of_code(self.code()) == self,
    {
    }
}

impl Default for Nationality {
    fn default() -> (r: Nationality)
        ensures
            r == Nationality::Any,
    {
        Nationality::Any
    }
}

} // verus!
