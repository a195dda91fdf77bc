//! Records shared by the frame codec and the ingest engine.

use crate::f32bits::F32Bits;
use vstd::prelude::*;

verus! {

/// A vector of three binary32 components.
#[derive(Clone, Copy, Debug, PartialEq, Eq, Structural)]
pub struct Vector3 {
    pub x: F32Bits,
    pub y: F32Bits,
    pub z: F32Bits,
}

impl Vector3 {
    pub fn new(x: F32Bits, y: F32Bits, z: F32Bits) -> (r: Self)
        ensures
            r.x == x,
            r.y == y,
            r.z == z,
    {
        Vector3 { x, y, z }
    }
}

/// Where the car is and how it moves.
#[derive(Clone, Copy, Debug, PartialEq, Eq, Structural)]
pub struct Position {
    pub world: Vector3,
    pub velocity: Vector3,
    pub angular_velocity: Vector3,
    pub rotation: Vector3,
}

/// The four tyres.
#[derive(Clone, Copy, Debug, PartialEq, Eq, Structural)]
pub struct TireInfo {
    pub front_left: TireData,
    pub front_right: TireData,
    pub rear_left: TireData,
    pub rear_right: TireData,
}

/// One tyre.
#[derive(Clone, Copy, Debug, PartialEq, Eq, Structural)]
pub struct TireData {
    pub temperature: F32Bits,
    pub wear: F32Bits,
    pub suspension_travel: F32Bits,
    pub wheel_speed: F32Bits,
    pub radius: F32Bits,
}

/// Engine and driver inputs. The fuel level, `fuel_remaining / fuel_capacity`
/// (0 when the capacity is 0), is left to callers that compute in floating point.
#[derive(Clone, Copy, Debug, PartialEq, Eq, Structural)]
pub struct EngineInfo {
    pub rpm: F32Bits,
    pub max_rpm: F32Bits,
    pub throttle: F32Bits,
    pub brake: F32Bits,
    pub clutch: F32Bits,
    pub gear: i8,
    pub suggested_gear: i8,
    pub fuel_remaining: F32Bits,
    pub fuel_consumption: F32Bits,
    pub fuel_capacity: F32Bits,
}

/// Progress of the current race. A lap time of 0 on the wire is absent here.
#[derive(Clone, Copy, Debug, PartialEq, Eq, Structural)]
pub struct RaceInfo {
    pub current_lap: u16,
    pub total_laps: u16,
    pub position: u8,
    pub total_participants: u8,
    pub best_lap_time: Option<u32>,
    pub last_lap_time: Option<u32>,
    pub current_lap_time: u32,
    pub track_progress: F32Bits,
}

/// What the game is doing. Discriminants other than 0 to 5 are `Unknown`.
#[derive(Clone, Copy, Debug, PartialEq, Eq, Structural)]
pub enum GameStateType {
    InMenu,
    InRace,
    Paused,
    Replay,
    Garage,
    Loading,
    Unknown,
}

/// The state that a discriminant byte names.
pub open spec fn game_state_of(v: u8) -> GameStateType {
    if v == 0 {
        GameStateType::InMenu
    } else if v == 1 {
        GameStateType::InRace
    } else if v == 2 {
        GameStateType::Paused
    } else if v == 3 {
        GameStateType::Replay
    } else if v == 4 {
        GameStateType::Garage
    } else if v == 5 {
        GameStateType::Loading
    } else {
        GameStateType::Unknown
    }
}

/// The discriminant byte of a state; `Unknown` is written as 255.
pub open spec fn game_state_code(s: GameStateType) -> u8 {
    match s {
        GameStateType::InMenu => 0,
        GameStateType::InRace => 1,
        GameStateType::Paused => 2,
        GameStateType::Replay => 3,
        GameStateType::Garage => 4,
        GameStateType::Loading => 5,
        GameStateType::Unknown => 255,
    }
}

impl GameStateType {
    pub fn from_code(v: u8) -> (r: Self)
        ensures
            r == game_state_of(v),
    {
        match v {
            0 => GameStateType::InMenu,
            1 => GameStateType::InRace,
            2 => GameStateType::Paused,
            3 => GameStateType::Replay,
            4 => GameStateType::Garage,
            5 => GameStateType::Loading,
            _ => GameStateType::Unknown,
        }
    }

    pub fn code(&self) -> (r: u8)
        ensures
            r == game_state_code(*self),
    {
        match self {
            GameStateType::InMenu => 0,
            GameStateType::InRace => 1,
            GameStateType::Paused => 2,
            GameStateType::Replay => 3,
            GameStateType::Garage => 4,
            GameStateType::Loading => 5,
            GameStateType::Unknown => 255,
        }
    }
}

impl From<u8> for GameStateType {
    fn from(v: u8) -> (r: Self) {
        GameStateType::from_code(v)
    }
}

impl vstd::std_specs::convert::FromSpecImpl<u8> for GameStateType {
    open spec fn obeys_from_spec() -> bool {
        true
    }

    open spec fn from_spec(v: u8) -> GameStateType {
        game_state_of(v)
    }
}

/// Track data as the frame carries it.
#[derive(Clone, Debug, PartialEq)]
pub struct TrackData {
    pub track_id: u32,
    /// The name as text: the stored bytes read as UTF-8, invalid sequences replaced.
    pub track_name: String,
    /// The name's bytes with trailing NUL bytes removed.
    pub track_name_bytes: Vec<u8>,
    pub track_length: F32Bits,
    pub altitude: F32Bits,
    pub weather: WeatherCondition,
    pub road_temperature: F32Bits,
    pub air_temperature: F32Bits,
}

/// Weather at the track. Discriminants other than 0 to 5 are `Unknown`.
#[derive(Clone, Copy, Debug, PartialEq, Eq, Structural)]
pub enum WeatherCondition {
    Clear,
    Cloudy,
    LightRain,
    HeavyRain,
    Fog,
    Snow,
    Unknown,
}

/// The weather that a discriminant byte names.
pub open spec fn weather_of(v: u8) -> WeatherCondition {
    if v == 0 {
        WeatherCondition::Clear
    } else if v == 1 {
        WeatherCondition::Cloudy
    } else if v == 2 {
        WeatherCondition::LightRain
    } else if v == 3 {
        WeatherCondition::HeavyRain
    } else if v == 4 {
        WeatherCondition::Fog
    } else if v == 5 {
        WeatherCondition::Snow
    } else {
        WeatherCondition::Unknown
    }
}

/// The discriminant byte of a weather; `Unknown` is written as 255.
pub open spec fn weather_code(w: WeatherCondition) -> u8 {
    match w {
        WeatherCondition::Clear => 0,
        WeatherCondition::Cloudy => 1,
        WeatherCondition::LightRain => 2,
        WeatherCondition::HeavyRain => 3,
        WeatherCondition::Fog => 4,
        WeatherCondition::Snow => 5,
        WeatherCondition::Unknown => 255,
    }
}

impl WeatherCondition {
    pub fn from_code(v: u8) -> (r: Self)
        ensures
            r == weather_of(v),
    {
        match v {
            0 => WeatherCondition::Clear,
            1 => WeatherCondition::Cloudy,
            2 => WeatherCondition::LightRain,
            3 => WeatherCondition::HeavyRain,
            4 => WeatherCondition::Fog,
            5 => WeatherCondition::Snow,
            _ => WeatherCondition::Unknown,
        }
    }

    pub fn code(&self) -> (r: u8)
        ensures
            r == weather_code(*self),
    {
        match self {
            WeatherCondition::Clear => 0,
            WeatherCondition::Cloudy => 1,
            WeatherCondition::LightRain => 2,
            WeatherCondition::HeavyRain => 3,
            WeatherCondition::Fog => 4,
            WeatherCondition::Snow => 5,
            WeatherCondition::Unknown => 255,
        }
    }
}

impl From<u8> for WeatherCondition {
    fn from(v: u8) -> (r: Self) {
        WeatherCondition::from_code(v)
    }
}

impl vstd::std_specs::convert::FromSpecImpl<u8> for WeatherCondition {
    open spec fn obeys_from_spec() -> bool {
        true
    }

    open spec fn from_spec(v: u8) -> WeatherCondition {
        weather_of(v)
    }
}

/// Static description of a car.
#[derive(Clone, Debug, PartialEq)]
pub struct CarConfiguration {
    pub car_id: u32,
    pub car_name: String,
    pub car_category: String,
    pub weight: F32Bits,
    pub power: F32Bits,
    pub torque: F32Bits,
    pub drivetrain: String,
    pub tire_type: String,
}

/// Settings of the ingest engine.
#[derive(Clone, Debug, PartialEq)]
pub struct TelemetryConfig {
    pub console_ip: String,
    pub port: u16,
    /// Seconds of silence after which a live peer is stale.
    pub timeout: u64,
    /// Milliseconds between heartbeats to a peer.
    pub heartbeat_interval: u64,
    pub enable_logging: bool,
    pub log_file_path: Option<String>,
}

impl Default for TelemetryConfig {
    fn default() -> (r: Self)
        ensures
            r.console_ip@ == "192.168.1.30"@,
            r.port == crate::GT7_TELEMETRY_PORT,
            r.timeout == 5,
            r.heartbeat_interval == 100,
            !r.enable_logging,
            r.log_file_path is None,
    {
        TelemetryConfig {
            console_ip: "192.168.1.30".to_owned(),
            port: crate::GT7_TELEMETRY_PORT,
            timeout: 5,
            heartbeat_interval: 100,
            enable_logging: false,
            log_file_path: None,
        }
    }
}

} // verus!
