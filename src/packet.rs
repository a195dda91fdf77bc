//! The telemetry frame: a fixed 296-byte little-endian layout.
//!
//! | offset | field |
//! |-------:|-------|
//! | 0   | magic: the bytes `47 37 50 53`, that is `0x53503747` read little-endian |
//! | 4   | version, u16, must be 1 |
//! | 6   | packet id, u32 |
//! | 10  | game state discriminant, then paused and replay flags, u8 each |
//! | 13  | menu id, u32 |
//! | 17  | race section, present when the state is `InRace` |
//! | 50  | car section: 12 vector components, 20 tyre values, engine block |
//! | 200 | track section, ending in the 32-byte name at 226 |
//! | 280 | timestamp, u64 |
//!
//! The engine block ends at 212, so its brake, clutch, gears and fuel
//! consumption share bytes 200 to 211 with the start of the track section;
//! both read the same bytes.

use crate::error::GT7Error;
use crate::f32bits::{in_unit, is_in_unit, F32Bits};
use crate::le::{
    le_byte, le_uint, lemma_put_le_of_read, put_le, read_u16_le, read_u32_le, read_u64_le, write_u16_le, write_u32_le, write_u64_le,
};
use crate::text::{decimal, decimal_string, lossy_text, utf8_lossy};
use crate::GT7_PACKET_SIZE;
use crate::types::{
    game_state_code, game_state_of, weather_code, weather_of, EngineInfo, GameStateType, Position,
    RaceInfo, TireData, TireInfo, TrackData, Vector3, WeatherCondition, CarConfiguration,
};
use vstd::prelude::*;

verus! {

/// The only frame version this codec reads.
pub const GT7_PACKET_VERSION: u16 = 1;

/// The first four bytes of a frame, read little-endian.
pub const GT7_MAGIC: u32 = 0x5350_3747;

/// Offset of the 32-byte track name.
pub const TRACK_NAME_OFFSET: usize = 226;

/// Length of the track name field.
pub const TRACK_NAME_LEN: usize = 32;

/// A decoded telemetry frame.
#[derive(Clone, Debug, PartialEq)]
pub struct GT7TelemetryPacket {
    pub version: u16,
    pub game_state: GameState,
    pub car_info: CarInfo,
    pub track_info: TrackInfo,
    pub timestamp: u64,
    pub packet_id: u32,
}

/// What the game is doing; `race_info` is present exactly when `state_type` is `InRace`.
#[derive(Clone, Copy, Debug, PartialEq, Eq, Structural)]
pub struct GameState {
    pub state_type: GameStateType,
    pub race_info: Option<RaceInfo>,
    pub is_paused: bool,
    pub is_replay: bool,
    pub menu_id: u32,
}

/// The car section.
#[derive(Clone, Debug, PartialEq)]
pub struct CarInfo {
    pub position: Position,
    pub tires: TireInfo,
    pub engine: EngineInfo,
    pub configuration: Option<CarConfiguration>,
}

/// The track section.
#[derive(Clone, Debug, PartialEq)]
pub struct TrackInfo {
    pub track_data: TrackData,
    pub current_sector: u8,
    pub track_wetness: F32Bits,
}

// ---------------------------------------------------------------------------
// What a frame holds
// ---------------------------------------------------------------------------

pub open spec fn u16_at(b: Seq<u8>, off: int) -> u16 {
    le_uint(b, off, 2) as u16
}

pub open spec fn u32_at(b: Seq<u8>, off: int) -> u32 {
    le_uint(b, off, 4) as u32
}

pub open spec fn u64_at(b: Seq<u8>, off: int) -> u64 {
    le_uint(b, off, 8) as u64
}

pub open spec fn f32_at(b: Seq<u8>, off: int) -> F32Bits {
    F32Bits { bits: u32_at(b, off) }
}

/// A byte read as a two's-complement signed integer.
pub open spec fn i8_of(v: u8) -> i8 {
    if v < 128 {
        v as i8
    } else {
        (v as int - 256) as i8
    }
}

/// A signed integer written as its two's-complement byte.
pub open spec fn u8_of(v: i8) -> u8 {
    if v >= 0 {
        v as u8
    } else {
        (v as int + 256) as u8
    }
}

/// A lap time on the wire: 0 means that there is none.
pub open spec fn lap_time(raw: u32) -> Option<u32> {
    if raw == 0 {
        None
    } else {
        Some(raw)
    }
}

pub open spec fn magic_ok(b: Seq<u8>) -> bool {
    u32_at(b, 0) == GT7_MAGIC
}

pub open spec fn version_at(b: Seq<u8>) -> u16 {
    u16_at(b, 4)
}

pub open spec fn vector_at(b: Seq<u8>, off: int) -> Vector3 {
    Vector3 { x: f32_at(b, off), y: f32_at(b, off + 4), z: f32_at(b, off + 8) }
}

pub open spec fn race_at(b: Seq<u8>) -> RaceInfo {
    RaceInfo {
        current_lap: u16_at(b, 17),
        total_laps: u16_at(b, 19),
        position: b[21],
        total_participants: b[22],
        best_lap_time: lap_time(u32_at(b, 23)),
        last_lap_time: lap_time(u32_at(b, 27)),
        current_lap_time: u32_at(b, 31),
        track_progress: f32_at(b, 35),
    }
}

pub open spec fn game_state_at(b: Seq<u8>) -> GameState {
    let state = game_state_of(b[10]);
    GameState {
        state_type: state,
        race_info: if state == GameStateType::InRace {
            Some(race_at(b))
        } else {
            None
        },
        is_paused: b[11] != 0,
        is_replay: b[12] != 0,
        menu_id: u32_at(b, 13),
    }
}

pub open spec fn position_at(b: Seq<u8>) -> Position {
    Position {
        world: vector_at(b, 50),
        velocity: vector_at(b, 62),
        rotation: vector_at(b, 74),
        angular_velocity: vector_at(b, 86),
    }
}

pub open spec fn tire_at(b: Seq<u8>, off: int) -> TireData {
    TireData {
        temperature: f32_at(b, off),
        wear: f32_at(b, off + 4),
        suspension_travel: f32_at(b, off + 8),
        wheel_speed: f32_at(b, off + 12),
        radius: f32_at(b, off + 16),
    }
}

pub open spec fn tires_at(b: Seq<u8>) -> TireInfo {
    TireInfo {
        front_left: tire_at(b, 98),
        front_right: tire_at(b, 118),
        rear_left: tire_at(b, 138),
        rear_right: tire_at(b, 158),
    }
}

pub open spec fn engine_at(b: Seq<u8>) -> EngineInfo {
    EngineInfo {
        fuel_remaining: f32_at(b, 178),
        fuel_capacity: f32_at(b, 182),
        rpm: f32_at(b, 186),
        max_rpm: f32_at(b, 190),
        throttle: f32_at(b, 194),
        brake: f32_at(b, 198),
        clutch: f32_at(b, 202),
        gear: i8_of(b[206]),
        suggested_gear: i8_of(b[207]),
        fuel_consumption: f32_at(b, 208),
    }
}

/// `s` without its trailing zero bytes.
pub open spec fn trim_nul(s: Seq<u8>) -> Seq<u8>
    decreases s.len(),
{
    if s.len() > 0 && s.last() == 0 {
        trim_nul(s.drop_last())
    } else {
        s
    }
}

pub open spec fn name_bytes_at(b: Seq<u8>) -> Seq<u8> {
    trim_nul(b.subrange(TRACK_NAME_OFFSET as int, TRACK_NAME_OFFSET + TRACK_NAME_LEN))
}

/// `t` holds the track section of `b`.
pub open spec fn track_from(b: Seq<u8>, t: TrackInfo) -> bool {
    &&& t.track_data.track_id == u32_at(b, 200)
    &&& t.track_data.track_length == f32_at(b, 204)
    &&& t.track_data.altitude == f32_at(b, 208)
    &&& t.track_data.weather == weather_of(b[212])
    &&& t.track_data.road_temperature == f32_at(b, 213)
    &&& t.track_data.air_temperature == f32_at(b, 217)
    &&& t.current_sector == b[221]
    &&& t.track_wetness == f32_at(b, 222)
    &&& t.track_data.track_name_bytes@ == name_bytes_at(b)
    &&& t.track_data.track_name@ == lossy_text(name_bytes_at(b))
}

/// `c` holds the car section of `b`.
pub open spec fn car_from(b: Seq<u8>, c: CarInfo) -> bool {
    &&& c.position == position_at(b)
    &&& c.tires == tires_at(b)
    &&& c.engine == engine_at(b)
    &&& c.configuration is None
}

/// `p` is the record that frame `b` encodes.
pub open spec fn decodes_to(b: Seq<u8>, p: GT7TelemetryPacket) -> bool {
    &&& p.version == version_at(b)
    &&& p.packet_id == u32_at(b, 6)
    &&& p.game_state == game_state_at(b)
    &&& car_from(b, p.car_info)
    &&& track_from(b, p.track_info)
    &&& p.timestamp == u64_at(b, 280)
}

/// Length, magic and version are right.
pub open spec fn header_ok(b: Seq<u8>) -> bool {
    b.len() == GT7_PACKET_SIZE && magic_ok(b) && version_at(b) == GT7_PACKET_VERSION
}

/// Throttle, brake and wetness lie in `[0, 1]`.
pub open spec fn ranges_ok(throttle: F32Bits, brake: F32Bits, wetness: F32Bits) -> bool {
    in_unit(throttle.bits) && in_unit(brake.bits) && in_unit(wetness.bits)
}

/// `b` is a frame that decodes.
pub open spec fn frame_valid(b: Seq<u8>) -> bool {
    header_ok(b) && ranges_ok(f32_at(b, 194), f32_at(b, 198), f32_at(b, 222))
}


// ---------------------------------------------------------------------------
// Decoding
// ---------------------------------------------------------------------------

fn read_f32(data: &[u8], off: usize) -> (r: F32Bits)
    requires
        off + 4 <= data@.len(),
    ensures
        r == f32_at(data@, off as int),
{
    F32Bits { bits: read_u32_le(data, off) }
}

fn read_vector(data: &[u8], off: usize) -> (r: Vector3)
    requires
        data@.len() == GT7_PACKET_SIZE,
        off + 12 <= data@.len(),
    ensures
        r == vector_at(data@, off as int),
{
    Vector3::new(read_f32(data, off), read_f32(data, off + 4), read_f32(data, off + 8))
}

fn i8_from_byte(v: u8) -> (r: i8)
    ensures
        r == i8_of(v),
{
    if v < 128 {
        v as i8
    } else {
        (v as i16 - 256) as i8
    }
}

fn byte_from_i8(v: i8) -> (r: u8)
    ensures
        r == u8_of(v),
{
    if v >= 0 {
        v as u8
    } else {
        (v as i16 + 256) as u8
    }
}

fn lap_time_from(raw: u32) -> (r: Option<u32>)
    ensures
        r == lap_time(raw),
{
    if raw > 0 {
        Some(raw)
    } else {
        None
    }
}

impl GT7TelemetryPacket {
    /// Decodes and checks one frame.
    ///
    /// The checks run in this order: the length must be 296
    /// (`IncompleteData`), the magic must match (`InvalidPacketFormat("magic")`),
    /// the version must be 1 (`PacketVersionMismatch`), and throttle, brake and
    /// wetness must lie in `[0, 1]` (`InvalidPacketFormat` naming the field).
    pub fn from_bytes(data: &[u8]) -> (r: Result<Self, GT7Error>)
        ensures
            data@.len() != GT7_PACKET_SIZE ==> r == Err::<Self, GT7Error>(
                GT7Error::IncompleteData { expected: GT7_PACKET_SIZE, actual: data@.len() as usize },
            ),
            data@.len() == GT7_PACKET_SIZE && !magic_ok(data@) ==> (r matches Err(
                GT7Error::InvalidPacketFormat { field },
            ) && field@ == "magic"@),
            data@.len() == GT7_PACKET_SIZE && magic_ok(data@) && version_at(data@)
                != GT7_PACKET_VERSION ==> r == Err::<Self, GT7Error>(
                GT7Error::PacketVersionMismatch {
                    expected: GT7_PACKET_VERSION,
                    actual: version_at(data@),
                },
            ),
            header_ok(data@) && !in_unit(f32_at(data@, 194).bits) ==> (r matches Err(
                GT7Error::InvalidPacketFormat { field },
            ) && field@ == "throttle"@),
            header_ok(data@) && in_unit(f32_at(data@, 194).bits) && !in_unit(
                f32_at(data@, 198).bits,
            ) ==> (r matches Err(GT7Error::InvalidPacketFormat { field }) && field@ == "brake"@),
            header_ok(data@) && in_unit(f32_at(data@, 194).bits) && in_unit(
                f32_at(data@, 198).bits,
            ) && !in_unit(f32_at(data@, 222).bits) ==> (r matches Err(
                GT7Error::InvalidPacketFormat { field },
            ) && field@ == "wetness"@),
            frame_valid(data@) ==> (r matches Ok(p) && decodes_to(data@, p)),
    {
        if data.len() != GT7_PACKET_SIZE {
            return Err(GT7Error::incomplete_data(GT7_PACKET_SIZE, data.len()));
        }
        let magic = read_u32_le(data, 0);
        if magic != GT7_MAGIC {
            return Err(GT7Error::invalid_packet_format("magic"));
        }
        let version = read_u16_le(data, 4);
        if version != GT7_PACKET_VERSION {
            return Err(GT7Error::packet_version_mismatch(GT7_PACKET_VERSION, version));
        }
        let packet_id = read_u32_le(data, 6);
        let game_state = Self::parse_game_state(data);
        let car_info = Self::parse_car_info(data);
        let track_info = Self::parse_track_info(data);
        let timestamp = read_u64_le(data, 280);
        let packet = GT7TelemetryPacket {
            version,
            game_state,
            car_info,
            track_info,
            timestamp,
            packet_id,
        };
        match packet.validate() {
            Ok(()) => Ok(packet),
            Err(e) => Err(e),
        }
    }

    fn parse_game_state(data: &[u8]) -> (r: GameState)
        requires
            data@.len() == GT7_PACKET_SIZE,
        ensures
            r == game_state_at(data@),
    {
        let state_type = GameStateType::from_code(data[10]);
        let is_paused = data[11] != 0;
        let is_replay = data[12] != 0;
        let menu_id = read_u32_le(data, 13);
        let race_info = match state_type {
            GameStateType::InRace => Some(Self::parse_race_info(data)),
            _ => None,
        };
        GameState { state_type, race_info, is_paused, is_replay, menu_id }
    }

    fn parse_race_info(data: &[u8]) -> (r: RaceInfo)
        requires
            data@.len() == GT7_PACKET_SIZE,
        ensures
            r == race_at(data@),
    {
        RaceInfo {
            current_lap: read_u16_le(data, 17),
            total_laps: read_u16_le(data, 19),
            position: data[21],
            total_participants: data[22],
            best_lap_time: lap_time_from(read_u32_le(data, 23)),
            last_lap_time: lap_time_from(read_u32_le(data, 27)),
            current_lap_time: read_u32_le(data, 31),
            track_progress: read_f32(data, 35),
        }
    }

    fn parse_tire(data: &[u8], off: usize) -> (r: TireData)
        requires
            data@.len() == GT7_PACKET_SIZE,
            off + 20 <= data@.len(),
        ensures
            r == tire_at(data@, off as int),
    {
        TireData {
            temperature: read_f32(data, off),
            wear: read_f32(data, off + 4),
            suspension_travel: read_f32(data, off + 8),
            wheel_speed: read_f32(data, off + 12),
            radius: read_f32(data, off + 16),
        }
    }

    fn parse_car_info(data: &[u8]) -> (r: CarInfo)
        requires
            data@.len() == GT7_PACKET_SIZE,
        ensures
            car_from(data@, r),
    {
        let position = Position {
            world: read_vector(data, 50),
            velocity: read_vector(data, 62),
            rotation: read_vector(data, 74),
            angular_velocity: read_vector(data, 86),
        };
        let tires = TireInfo {
            front_left: Self::parse_tire(data, 98),
            front_right: Self::parse_tire(data, 118),
            rear_left: Self::parse_tire(data, 138),
            rear_right: Self::parse_tire(data, 158),
        };
        let engine = EngineInfo {
            fuel_remaining: read_f32(data, 178),
            fuel_capacity: read_f32(data, 182),
            rpm: read_f32(data, 186),
            max_rpm: read_f32(data, 190),
            throttle: read_f32(data, 194),
            brake: read_f32(data, 198),
            clutch: read_f32(data, 202),
            gear: i8_from_byte(data[206]),
            suggested_gear: i8_from_byte(data[207]),
            fuel_consumption: read_f32(data, 208),
        };
        CarInfo { position, tires, engine, configuration: None }
    }

    /// The track name's bytes without trailing zeros.
    fn parse_track_name(data: &[u8]) -> (r: Vec<u8>)
        requires
            data@.len() == GT7_PACKET_SIZE,
        ensures
            r@ == name_bytes_at(data@),
    {
        let ghost field = data@.subrange(TRACK_NAME_OFFSET as int, TRACK_NAME_OFFSET + TRACK_NAME_LEN);
        let mut end: usize = TRACK_NAME_LEN;
        proof {
            assert(field.subrange(0, end as int) =~= field);
        }
        while end > 0 && data[TRACK_NAME_OFFSET + end - 1] == 0
            invariant
                end <= TRACK_NAME_LEN,
                data@.len() == GT7_PACKET_SIZE,
                field == data@.subrange(TRACK_NAME_OFFSET as int, TRACK_NAME_OFFSET + TRACK_NAME_LEN),
                trim_nul(field) == trim_nul(field.subrange(0, end as int)),
            decreases end,
        {
            proof {
                assert(field.subrange(0, end as int).drop_last() =~= field.subrange(0, end - 1));
            }
            end = end - 1;
        }
        let mut name: Vec<u8> = Vec::new();
        let mut i: usize = 0;
        while i < end
            invariant
                i <= end <= TRACK_NAME_LEN,
                data@.len() == GT7_PACKET_SIZE,
                field == data@.subrange(TRACK_NAME_OFFSET as int, TRACK_NAME_OFFSET + TRACK_NAME_LEN),
                name@ == field.subrange(0, i as int),
            decreases end - i,
        {
            name.push(data[TRACK_NAME_OFFSET + i]);
            proof {
                assert(name@ =~= field.subrange(0, i + 1));
            }
            i = i + 1;
        }
        proof {
            assert(name@ =~= field.subrange(0, end as int));
            assert(trim_nul(field.subrange(0, end as int)) == field.subrange(0, end as int));
        }
        name
    }

    fn parse_track_info(data: &[u8]) -> (r: TrackInfo)
        requires
            data@.len() == GT7_PACKET_SIZE,
        ensures
            track_from(data@, r),
    {
        let track_id = read_u32_le(data, 200);
        let track_length = read_f32(data, 204);
        let altitude = read_f32(data, 208);
        let weather = WeatherCondition::from_code(data[212]);
        let road_temperature = read_f32(data, 213);
        let air_temperature = read_f32(data, 217);
        let current_sector = data[221];
        let track_wetness = read_f32(data, 222);
        let track_name_bytes = Self::parse_track_name(data);
        let track_name = utf8_lossy(track_name_bytes.as_slice());
        TrackInfo {
            track_data: TrackData {
                track_id,
                track_name,
                track_name_bytes,
                track_length,
                altitude,
                weather,
                road_temperature,
                air_temperature,
            },
            current_sector,
            track_wetness,
        }
    }

    /// Checks the version and the ranges of throttle, brake and wetness, in that order.
    pub fn validate(&self) -> (r: Result<(), GT7Error>)
        ensures
            self.version != GT7_PACKET_VERSION ==> r == Err::<(), GT7Error>(
                GT7Error::PacketVersionMismatch { expected: GT7_PACKET_VERSION, actual: self.version },
            ),
            self.version == GT7_PACKET_VERSION && !in_unit(self.car_info.engine.throttle.bits) ==> (
            r matches Err(GT7Error::InvalidPacketFormat { field }) && field@ == "throttle"@),
            self.version == GT7_PACKET_VERSION && in_unit(self.car_info.engine.throttle.bits)
                && !in_unit(self.car_info.engine.brake.bits) ==> (r matches Err(
                GT7Error::InvalidPacketFormat { field },
            ) && field@ == "brake"@),
            self.version == GT7_PACKET_VERSION && in_unit(self.car_info.engine.throttle.bits)
                && in_unit(self.car_info.engine.brake.bits) && !in_unit(
                self.track_info.track_wetness.bits,
            ) ==> (r matches Err(GT7Error::InvalidPacketFormat { field }) && field@ == "wetness"@),
            r is Ok <==> self.version == GT7_PACKET_VERSION && ranges_ok(
                self.car_info.engine.throttle,
                self.car_info.engine.brake,
                self.track_info.track_wetness,
            ),
    {
        if self.version != GT7_PACKET_VERSION {
            return Err(GT7Error::packet_version_mismatch(GT7_PACKET_VERSION, self.version));
        }
        if !is_in_unit(self.car_info.engine.throttle) {
            return Err(GT7Error::invalid_packet_format("throttle"));
        }
        if !is_in_unit(self.car_info.engine.brake) {
            return Err(GT7Error::invalid_packet_format("brake"));
        }
        if !is_in_unit(self.track_info.track_wetness) {
            return Err(GT7Error::invalid_packet_format("wetness"));
        }
        Ok(())
    }

    pub fn is_in_race(&self) -> (r: bool)
        ensures
            r == (self.game_state.state_type == GameStateType::InRace),
    {
        match self.game_state.state_type {
            GameStateType::InRace => true,
            _ => false,
        }
    }

    pub fn is_in_menu(&self) -> (r: bool)
        ensures
            r == (self.game_state.state_type == GameStateType::InMenu),
    {
        match self.game_state.state_type {
            GameStateType::InMenu => true,
            _ => false,
        }
    }

    /// `"R"` for gear 0, the decimal number for a forward gear, `"N"` otherwise.
    pub fn get_gear_display(&self) -> (r: String)
        ensures
            self.car_info.engine.gear == 0 ==> r@ == "R"@,
            self.car_info.engine.gear > 0 ==> r@ == decimal(self.car_info.engine.gear as nat),
            self.car_info.engine.gear < 0 ==> r@ == "N"@,
    {
        let g = self.car_info.engine.gear;
        if g == 0 {
            "R".to_owned()
        } else if g > 0 {
            decimal_string(g as u8)
        } else {
            "N".to_owned()
        }
    }

    /// The best lap time in milliseconds, when the frame is of a race and has one.
    pub fn get_best_lap_time(&self) -> (r: Option<u32>)
        ensures
            r == match self.game_state.race_info {
                Some(race) => race.best_lap_time,
                None => None,
            },
    {
        match self.game_state.race_info {
            Some(race) => race.best_lap_time,
            None => None,
        }
    }
}

// ---------------------------------------------------------------------------
// Encoding
// ---------------------------------------------------------------------------

/// A flag written as a byte.
pub open spec fn flag_byte(v: bool) -> u8 {
    if v {
        1
    } else {
        0
    }
}

/// A lap time as the wire holds it: an absent time is 0.
pub open spec fn lap_raw(t: Option<u32>) -> u32 {
    match t {
        Some(v) => v,
        None => 0,
    }
}

/// Byte `i` of an encoded frame within `[0, 17)`.
pub open spec fn header_byte(p: GT7TelemetryPacket, i: int) -> u8 {
    if i < 4 {
        le_byte(GT7_MAGIC as int, i)
    } else if i < 6 {
        le_byte(p.version as int, i - 4)
    } else if i < 10 {
        le_byte(p.packet_id as int, i - 6)
    } else if i == 10 {
        game_state_code(p.game_state.state_type)
    } else if i == 11 {
        flag_byte(p.game_state.is_paused)
    } else if i == 12 {
        flag_byte(p.game_state.is_replay)
    } else {
        le_byte(p.game_state.menu_id as int, i - 13)
    }
}

/// Byte `i` of an encoded frame within `[17, 50)`: the race section, or zeros.
pub open spec fn race_byte(race: Option<RaceInfo>, i: int) -> u8 {
    match race {
        None => 0,
        Some(r) => if i < 19 {
            le_byte(r.current_lap as int, i - 17)
        } else if i < 21 {
            le_byte(r.total_laps as int, i - 19)
        } else if i == 21 {
            r.position
        } else if i == 22 {
            r.total_participants
        } else if i < 27 {
            le_byte(lap_raw(r.best_lap_time) as int, i - 23)
        } else if i < 31 {
            le_byte(lap_raw(r.last_lap_time) as int, i - 27)
        } else if i < 35 {
            le_byte(r.current_lap_time as int, i - 31)
        } else if i < 39 {
            le_byte(r.track_progress.bits as int, i - 35)
        } else {
            0
        },
    }
}

/// Byte `i` of an encoded frame within `[50, 200)`: the car section up to the
/// point where the track section takes over.
pub open spec fn car_byte(c: CarInfo, i: int) -> u8 {
    if i < 54 {
        le_byte(c.position.world.x.bits as int, i - 50)
    } else if i < 58 {
        le_byte(c.position.world.y.bits as int, i - 54)
    } else if i < 62 {
        le_byte(c.position.world.z.bits as int, i - 58)
    } else if i < 66 {
        le_byte(c.position.velocity.x.bits as int, i - 62)
    } else if i < 70 {
        le_byte(c.position.velocity.y.bits as int, i - 66)
    } else if i < 74 {
        le_byte(c.position.velocity.z.bits as int, i - 70)
    } else if i < 78 {
        le_byte(c.position.rotation.x.bits as int, i - 74)
    } else if i < 82 {
        le_byte(c.position.rotation.y.bits as int, i - 78)
    } else if i < 86 {
        le_byte(c.position.rotation.z.bits as int, i - 82)
    } else if i < 90 {
        le_byte(c.position.angular_velocity.x.bits as int, i - 86)
    } else if i < 94 {
        le_byte(c.position.angular_velocity.y.bits as int, i - 90)
    } else if i < 98 {
        le_byte(c.position.angular_velocity.z.bits as int, i - 94)
    } else if i < 102 {
        le_byte(c.tires.front_left.temperature.bits as int, i - 98)
    } else if i < 106 {
        le_byte(c.tires.front_left.wear.bits as int, i - 102)
    } else if i < 110 {
        le_byte(c.tires.front_left.suspension_travel.bits as int, i - 106)
    } else if i < 114 {
        le_byte(c.tires.front_left.wheel_speed.bits as int, i - 110)
    } else if i < 118 {
        le_byte(c.tires.front_left.radius.bits as int, i - 114)
    } else if i < 122 {
        le_byte(c.tires.front_right.temperature.bits as int, i - 118)
    } else if i < 126 {
        le_byte(c.tires.front_right.wear.bits as int, i - 122)
    } else if i < 130 {
        le_byte(c.tires.front_right.suspension_travel.bits as int, i - 126)
    } else if i < 134 {
        le_byte(c.tires.front_right.wheel_speed.bits as int, i - 130)
    } else if i < 138 {
        le_byte(c.tires.front_right.radius.bits as int, i - 134)
    } else if i < 142 {
        le_byte(c.tires.rear_left.temperature.bits as int, i - 138)
    } else if i < 146 {
        le_byte(c.tires.rear_left.wear.bits as int, i - 142)
    } else if i < 150 {
        le_byte(c.tires.rear_left.suspension_travel.bits as int, i - 146)
    } else if i < 154 {
        le_byte(c.tires.rear_left.wheel_speed.bits as int, i - 150)
    } else if i < 158 {
        le_byte(c.tires.rear_left.radius.bits as int, i - 154)
    } else if i < 162 {
        le_byte(c.tires.rear_right.temperature.bits as int, i - 158)
    } else if i < 166 {
        le_byte(c.tires.rear_right.wear.bits as int, i - 162)
    } else if i < 170 {
        le_byte(c.tires.rear_right.suspension_travel.bits as int, i - 166)
    } else if i < 174 {
        le_byte(c.tires.rear_right.wheel_speed.bits as int, i - 170)
    } else if i < 178 {
        le_byte(c.tires.rear_right.radius.bits as int, i - 174)
    } else if i < 182 {
        le_byte(c.engine.fuel_remaining.bits as int, i - 178)
    } else if i < 186 {
        le_byte(c.engine.fuel_capacity.bits as int, i - 182)
    } else if i < 190 {
        le_byte(c.engine.rpm.bits as int, i - 186)
    } else if i < 194 {
        le_byte(c.engine.max_rpm.bits as int, i - 190)
    } else if i < 198 {
        le_byte(c.engine.throttle.bits as int, i - 194)
    } else {
        le_byte(c.engine.brake.bits as int, i - 198)
    }
}

/// Byte `j` of the 32-byte name field: the name, then zeros.
pub open spec fn name_byte(name: Seq<u8>, j: int) -> u8 {
    if j < name.len() {
        name[j]
    } else {
        0
    }
}

/// Byte `i` of an encoded frame within `[200, 258)`.
pub open spec fn track_byte(t: TrackInfo, i: int) -> u8 {
    if i < 204 {
        le_byte(t.track_data.track_id as int, i - 200)
    } else if i < 208 {
        le_byte(t.track_data.track_length.bits as int, i - 204)
    } else if i < 212 {
        le_byte(t.track_data.altitude.bits as int, i - 208)
    } else if i == 212 {
        weather_code(t.track_data.weather)
    } else if i < 217 {
        le_byte(t.track_data.road_temperature.bits as int, i - 213)
    } else if i < 221 {
        le_byte(t.track_data.air_temperature.bits as int, i - 217)
    } else if i == 221 {
        t.current_sector
    } else if i < 226 {
        le_byte(t.track_wetness.bits as int, i - 222)
    } else {
        name_byte(t.track_data.track_name_bytes@, i - 226)
    }
}

/// Byte `i` of the encoding of `p`.
///
/// The engine block's clutch, gears and fuel consumption sit where the track
/// section begins (bytes 200 to 211); there the track section is written,
/// and those engine fields are not carried on their own.
pub open spec fn frame_byte(p: GT7TelemetryPacket, i: int) -> u8 {
    if i < 17 {
        header_byte(p, i)
    } else if i < 50 {
        race_byte(p.game_state.race_info, i)
    } else if i < 200 {
        car_byte(p.car_info, i)
    } else if i < 258 {
        track_byte(p.track_info, i)
    } else if 280 <= i < 288 {
        le_byte(p.timestamp as int, i - 280)
    } else {
        0
    }
}

/// The 296 bytes that encode `p`.
pub open spec fn encode_frame(p: GT7TelemetryPacket) -> Seq<u8> {
    Seq::new(GT7_PACKET_SIZE as nat, |i: int| frame_byte(p, i))
}

/// `s` and `t` agree on `[lo, hi)`.
pub open spec fn agree_on(s: Seq<u8>, t: Seq<u8>, lo: int, hi: int) -> bool {
    forall|i: int| lo <= i < hi ==> s[i] == t[i]
}

impl GT7TelemetryPacket {
    /// Encodes the frame; see `frame_byte` for the layout.
    pub fn to_bytes(&self) -> (r: Vec<u8>)
        requires
            self.track_info.track_data.track_name_bytes@.len() <= TRACK_NAME_LEN,
        ensures
            r@ == encode_frame(*self),
    {
        let mut buf: Vec<u8> = vec![0u8; GT7_PACKET_SIZE];
        Self::write_header(&mut buf, self);
        Self::write_race(&mut buf, &self.game_state.race_info);
        Self::write_car(&mut buf, &self.car_info);
        Self::write_track(&mut buf, &self.track_info);
        write_u64_le(&mut buf, 280, self.timestamp);
        proof {
            assert(buf@ =~= encode_frame(*self));
        }
        buf
    }

    fn write_header(buf: &mut Vec<u8>, p: &GT7TelemetryPacket)
        requires
            old(buf)@.len() == GT7_PACKET_SIZE,
        ensures
            final(buf)@.len() == GT7_PACKET_SIZE,
            forall|i: int| 0 <= i < 17 ==> final(buf)@[i] == header_byte(*p, i),
            forall|i: int| 17 <= i < GT7_PACKET_SIZE ==> final(buf)@[i] == old(buf)@[i],
    {
        write_u32_le(buf, 0, GT7_MAGIC);
        write_u16_le(buf, 4, p.version);
        write_u32_le(buf, 6, p.packet_id);
        buf.set(10, p.game_state.state_type.code());
        buf.set(11, if p.game_state.is_paused { 1 } else { 0 });
        buf.set(12, if p.game_state.is_replay { 1 } else { 0 });
        write_u32_le(buf, 13, p.game_state.menu_id);
    }

    fn write_race(buf: &mut Vec<u8>, race: &Option<RaceInfo>)
        requires
            old(buf)@.len() == GT7_PACKET_SIZE,
            forall|i: int| 17 <= i < 50 ==> old(buf)@[i] == 0,
        ensures
            final(buf)@.len() == GT7_PACKET_SIZE,
            forall|i: int| 17 <= i < 50 ==> final(buf)@[i] == race_byte(*race, i),
            forall|i: int|
                0 <= i < GT7_PACKET_SIZE && !(17 <= i < 50) ==> final(buf)@[i] == old(buf)@[i],
    {
        match race {
            Some(r) => {
                write_u16_le(buf, 17, r.current_lap);
                write_u16_le(buf, 19, r.total_laps);
                buf.set(21, r.position);
                buf.set(22, r.total_participants);
                write_u32_le(buf, 23, lap_time_raw(r.best_lap_time));
                write_u32_le(buf, 27, lap_time_raw(r.last_lap_time));
                write_u32_le(buf, 31, r.current_lap_time);
                write_u32_le(buf, 35, r.track_progress.bits);
            },
            None => {},
        }
    }

    #[verifier::rlimit(50)]
    fn write_car(buf: &mut Vec<u8>, car: &CarInfo)
        requires
            old(buf)@.len() == GT7_PACKET_SIZE,
        ensures
            final(buf)@.len() == GT7_PACKET_SIZE,
            forall|i: int| 50 <= i < 200 ==> final(buf)@[i] == car_byte(*car, i),
            forall|i: int|
                0 <= i < GT7_PACKET_SIZE && !(50 <= i < 212) ==> final(buf)@[i] == old(buf)@[i],
    {
        write_u32_le(buf, 50, car.position.world.x.bits);
        write_u32_le(buf, 54, car.position.world.y.bits);
        write_u32_le(buf, 58, car.position.world.z.bits);
        write_u32_le(buf, 62, car.position.velocity.x.bits);
        write_u32_le(buf, 66, car.position.velocity.y.bits);
        write_u32_le(buf, 70, car.position.velocity.z.bits);
        write_u32_le(buf, 74, car.position.rotation.x.bits);
        write_u32_le(buf, 78, car.position.rotation.y.bits);
        write_u32_le(buf, 82, car.position.rotation.z.bits);
        write_u32_le(buf, 86, car.position.angular_velocity.x.bits);
        write_u32_le(buf, 90, car.position.angular_velocity.y.bits);
        write_u32_le(buf, 94, car.position.angular_velocity.z.bits);
        write_u32_le(buf, 98, car.tires.front_left.temperature.bits);
        write_u32_le(buf, 102, car.tires.front_left.wear.bits);
        write_u32_le(buf, 106, car.tires.front_left.suspension_travel.bits);
        write_u32_le(buf, 110, car.tires.front_left.wheel_speed.bits);
        write_u32_le(buf, 114, car.tires.front_left.radius.bits);
        write_u32_le(buf, 118, car.tires.front_right.temperature.bits);
        write_u32_le(buf, 122, car.tires.front_right.wear.bits);
        write_u32_le(buf, 126, car.tires.front_right.suspension_travel.bits);
        write_u32_le(buf, 130, car.tires.front_right.wheel_speed.bits);
        write_u32_le(buf, 134, car.tires.front_right.radius.bits);
        write_u32_le(buf, 138, car.tires.rear_left.temperature.bits);
        write_u32_le(buf, 142, car.tires.rear_left.wear.bits);
        write_u32_le(buf, 146, car.tires.rear_left.suspension_travel.bits);
        write_u32_le(buf, 150, car.tires.rear_left.wheel_speed.bits);
        write_u32_le(buf, 154, car.tires.rear_left.radius.bits);
        write_u32_le(buf, 158, car.tires.rear_right.temperature.bits);
        write_u32_le(buf, 162, car.tires.rear_right.wear.bits);
        write_u32_le(buf, 166, car.tires.rear_right.suspension_travel.bits);
        write_u32_le(buf, 170, car.tires.rear_right.wheel_speed.bits);
        write_u32_le(buf, 174, car.tires.rear_right.radius.bits);
        write_u32_le(buf, 178, car.engine.fuel_remaining.bits);
        write_u32_le(buf, 182, car.engine.fuel_capacity.bits);
        write_u32_le(buf, 186, car.engine.rpm.bits);
        write_u32_le(buf, 190, car.engine.max_rpm.bits);
        write_u32_le(buf, 194, car.engine.throttle.bits);
        write_u32_le(buf, 198, car.engine.brake.bits);
        write_u32_le(buf, 202, car.engine.clutch.bits);
        buf.set(206, byte_from_i8(car.engine.gear));
        buf.set(207, byte_from_i8(car.engine.suggested_gear));
        write_u32_le(buf, 208, car.engine.fuel_consumption.bits);
    }

    fn write_track(buf: &mut Vec<u8>, t: &TrackInfo)
        requires
            old(buf)@.len() == GT7_PACKET_SIZE,
            t.track_data.track_name_bytes@.len() <= TRACK_NAME_LEN,
        ensures
            final(buf)@.len() == GT7_PACKET_SIZE,
            forall|i: int| 200 <= i < 258 ==> final(buf)@[i] == track_byte(*t, i),
            forall|i: int|
                0 <= i < GT7_PACKET_SIZE && !(200 <= i < 258) ==> final(buf)@[i] == old(buf)@[i],
    {
        write_u32_le(buf, 200, t.track_data.track_id);
        write_u32_le(buf, 204, t.track_data.track_length.bits);
        write_u32_le(buf, 208, t.track_data.altitude.bits);
        buf.set(212, t.track_data.weather.code());
        write_u32_le(buf, 213, t.track_data.road_temperature.bits);
        write_u32_le(buf, 217, t.track_data.air_temperature.bits);
        buf.set(221, t.current_sector);
        write_u32_le(buf, 222, t.track_wetness.bits);
        let ghost before = buf@;
        assert(forall|i: int| 200 <= i < 226 ==> before[i] == track_byte(*t, i));
        assert(forall|i: int|
            0 <= i < GT7_PACKET_SIZE && !(200 <= i < 226) ==> before[i] == old(buf)@[i]);
        let name = &t.track_data.track_name_bytes;
        let mut j: usize = 0;
        while j < TRACK_NAME_LEN
            invariant
                j <= TRACK_NAME_LEN,
                name@.len() <= TRACK_NAME_LEN,
                buf@.len() == GT7_PACKET_SIZE,
                before.len() == GT7_PACKET_SIZE,
                forall|i: int| 226 <= i < 226 + j ==> buf@[i] == name_byte(name@, i - 226),
                forall|i: int|
                    0 <= i < GT7_PACKET_SIZE && !(226 <= i < 226 + j) ==> buf@[i] == before[i],
            decreases TRACK_NAME_LEN - j,
        {
            let v = if j < name.len() {
                name[j]
            } else {
                0
            };
            buf.set(TRACK_NAME_OFFSET + j, v);
            j = j + 1;
        }
        assert forall|i: int| 200 <= i < 258 implies buf@[i] == track_byte(*t, i) by {
            if i < 226 {
                assert(buf@[i] == before[i]);
            } else {
                assert(buf@[i] == name_byte(name@, i - 226));
            }
        }
        assert forall|i: int|
            0 <= i < GT7_PACKET_SIZE && !(200 <= i < 258) implies buf@[i] == old(buf)@[i] by {
            assert(buf@[i] == before[i]);
        }
    }
}

fn lap_time_raw(t: Option<u32>) -> (r: u32)
    ensures
        r == lap_raw(t),
{
    match t {
        Some(v) => v,
        None => 0,
    }
}

// ---------------------------------------------------------------------------
// Round trip
// ---------------------------------------------------------------------------

proof fn lemma_u16_bytes(b: Seq<u8>, off: int)
    requires
        0 <= off,
        off + 2 <= b.len(),
    ensures
        forall|j: int| 0 <= j < 2 ==> #[trigger] le_byte(u16_at(b, off) as int, j) == b[off + j],
{
    reveal_with_fuel(le_uint, 2);
    assert(le_uint(b, off, 0) == 0);
    assert(le_uint(b, off, 1) == b[off]);
    lemma_put_le_of_read(b, off, 2);
    assert(le_uint(b, off, 2) < 0x1_0000);
    assert forall|j: int| 0 <= j < 2 implies #[trigger] le_byte(u16_at(b, off) as int, j) == b[off
        + j] by {
        assert(put_le(b, off, 2, le_uint(b, off, 2))[off + j] == b[off + j]);
    }
}

proof fn lemma_u32_bytes(b: Seq<u8>, off: int)
    requires
        0 <= off,
        off + 4 <= b.len(),
    ensures
        forall|j: int| 0 <= j < 4 ==> #[trigger] le_byte(u32_at(b, off) as int, j) == b[off + j],
{
    reveal_with_fuel(le_uint, 2);
    assert(le_uint(b, off, 0) == 0);
    assert(le_uint(b, off, 1) == b[off]);
    lemma_put_le_of_read(b, off, 4);
    assert(le_uint(b, off, 1) == b[off]);
    assert(le_uint(b, off, 2) == b[off] + 0x100 * b[off + 1]);
    assert(le_uint(b, off, 3) == b[off] + 0x100 * b[off + 1] + 0x1_0000 * b[off + 2]);
    assert(le_uint(b, off, 4) < 0x1_0000_0000);
    assert forall|j: int| 0 <= j < 4 implies #[trigger] le_byte(u32_at(b, off) as int, j) == b[off
        + j] by {
        assert(put_le(b, off, 4, le_uint(b, off, 4))[off + j] == b[off + j]);
    }
}

proof fn lemma_u64_bytes(b: Seq<u8>, off: int)
    requires
        0 <= off,
        off + 8 <= b.len(),
    ensures
        forall|j: int| 0 <= j < 8 ==> #[trigger] le_byte(u64_at(b, off) as int, j) == b[off + j],
{
    reveal_with_fuel(le_uint, 2);
    lemma_put_le_of_read(b, off, 8);
    assert(le_uint(b, off, 0) == 0);
    assert(le_uint(b, off, 1) == b[off]);
    assert(le_uint(b, off, 2) == b[off] + 0x100 * b[off + 1]);
    assert(le_uint(b, off, 3) == b[off] + 0x100 * b[off + 1] + 0x1_0000 * b[off + 2]);
    assert(le_uint(b, off, 4) == b[off] + 0x100 * b[off + 1] + 0x1_0000 * b[off + 2] + 0x100_0000 * b[off + 3]);
    assert(le_uint(b, off, 5) == b[off] + 0x100 * b[off + 1] + 0x1_0000 * b[off + 2] + 0x100_0000 * b[off + 3] + 0x1_0000_0000 * b[off + 4]);
    assert(le_uint(b, off, 6) == b[off] + 0x100 * b[off + 1] + 0x1_0000 * b[off + 2] + 0x100_0000 * b[off + 3] + 0x1_0000_0000 * b[off + 4] + 0x100_0000_0000 * b[off + 5]);
    assert(le_uint(b, off, 7) == b[off] + 0x100 * b[off + 1] + 0x1_0000 * b[off + 2] + 0x100_0000 * b[off + 3] + 0x1_0000_0000 * b[off + 4] + 0x100_0000_0000 * b[off + 5] + 0x1_0000_0000_0000 * b[off + 6]);
    assert(le_uint(b, off, 8) < 0x1_0000_0000_0000_0000);
    assert forall|j: int| 0 <= j < 8 implies #[trigger] le_byte(u64_at(b, off) as int, j) == b[off
        + j] by {
        assert(put_le(b, off, 8, le_uint(b, off, 8))[off + j] == b[off + j]);
    }
}

proof fn lemma_le_uint_agree(s: Seq<u8>, t: Seq<u8>, off: int, width: nat)
    requires
        agree_on(s, t, off, off + width),
    ensures
        le_uint(s, off, width) == le_uint(t, off, width),
    decreases width,
{
    if width > 0 {
        lemma_le_uint_agree(s, t, off, (width - 1) as nat);
    }
}

/// Where two sequences agree on `[lo, hi)`, every integer stored inside
/// that range reads the same from both.
proof fn lemma_le_uint_agree_within(s: Seq<u8>, t: Seq<u8>, lo: int, hi: int)
    requires
        agree_on(s, t, lo, hi),
    ensures
        forall|off: int, width: nat|
            lo <= off && off + width <= hi ==> #[trigger] le_uint(s, off, width) == le_uint(
                t,
                off,
                width,
            ),
{
    assert forall|off: int, width: nat| lo <= off && off + width <= hi implies #[trigger] le_uint(
        s,
        off,
        width,
    ) == le_uint(t, off, width) by {
        lemma_le_uint_agree(s, t, off, width);
    }
}

proof fn lemma_trim_nul(s: Seq<u8>)
    ensures
        trim_nul(s).len() <= s.len(),
        forall|j: int| 0 <= j < trim_nul(s).len() ==> trim_nul(s)[j] == s[j],
        forall|j: int| trim_nul(s).len() <= j < s.len() ==> s[j] == 0,
    decreases s.len(),
{
    if s.len() > 0 && s.last() == 0 {
        let d = s.drop_last();
        lemma_trim_nul(d);
        assert(trim_nul(s) == trim_nul(d));
        assert forall|j: int| 0 <= j < trim_nul(s).len() implies trim_nul(s)[j] == s[j] by {
            assert(d[j] == s[j]);
        }
        assert forall|j: int| trim_nul(s).len() <= j < s.len() implies s[j] == 0 by {
            if j < d.len() {
                assert(d[j] == s[j]);
            }
        }
    }
}

proof fn lemma_state_code(s: GameStateType)
    ensures
        game_state_of(game_state_code(s)) == s,
{
}

proof fn lemma_weather_code(w: WeatherCondition)
    ensures
        weather_of(weather_code(w)) == w,
{
}

proof fn lemma_header_agrees(b: Seq<u8>, p: GT7TelemetryPacket)
    requires
        frame_valid(b),
        decodes_to(b, p),
    ensures
        agree_on(encode_frame(p), b, 0, 10),
        agree_on(encode_frame(p), b, 13, 17),
        game_state_of(game_state_code(p.game_state.state_type)) == game_state_of(b[10]),
        game_state_of(b[10]) == GameStateType::InRace ==> agree_on(encode_frame(p), b, 17, 39),
{
    lemma_u16_bytes(b, 4);
    lemma_u16_bytes(b, 17);
    lemma_u16_bytes(b, 19);
        lemma_u32_bytes(b, 0);
        lemma_u32_bytes(b, 6);
        lemma_u32_bytes(b, 13);
        lemma_u32_bytes(b, 23);
        lemma_u32_bytes(b, 27);
        lemma_u32_bytes(b, 31);
        lemma_u32_bytes(b, 35);
    lemma_state_code(game_state_of(b[10]));
}

proof fn lemma_car_agrees(b: Seq<u8>, p: GT7TelemetryPacket)
    requires
        frame_valid(b),
        decodes_to(b, p),
    ensures
        agree_on(encode_frame(p), b, 50, 200),
{
        lemma_u32_bytes(b, 50);
        lemma_u32_bytes(b, 54);
        lemma_u32_bytes(b, 58);
        lemma_u32_bytes(b, 62);
        lemma_u32_bytes(b, 66);
        lemma_u32_bytes(b, 70);
        lemma_u32_bytes(b, 74);
        lemma_u32_bytes(b, 78);
        lemma_u32_bytes(b, 82);
        lemma_u32_bytes(b, 86);
        lemma_u32_bytes(b, 90);
        lemma_u32_bytes(b, 94);
        lemma_u32_bytes(b, 98);
        lemma_u32_bytes(b, 102);
        lemma_u32_bytes(b, 106);
        lemma_u32_bytes(b, 110);
        lemma_u32_bytes(b, 114);
        lemma_u32_bytes(b, 118);
        lemma_u32_bytes(b, 122);
        lemma_u32_bytes(b, 126);
        lemma_u32_bytes(b, 130);
        lemma_u32_bytes(b, 134);
        lemma_u32_bytes(b, 138);
        lemma_u32_bytes(b, 142);
        lemma_u32_bytes(b, 146);
        lemma_u32_bytes(b, 150);
        lemma_u32_bytes(b, 154);
        lemma_u32_bytes(b, 158);
        lemma_u32_bytes(b, 162);
        lemma_u32_bytes(b, 166);
        lemma_u32_bytes(b, 170);
        lemma_u32_bytes(b, 174);
        lemma_u32_bytes(b, 178);
        lemma_u32_bytes(b, 182);
        lemma_u32_bytes(b, 186);
        lemma_u32_bytes(b, 190);
        lemma_u32_bytes(b, 194);
        lemma_u32_bytes(b, 198);
    assert(p.car_info.position == position_at(b));
    assert(p.car_info.tires == tires_at(b));
    assert(p.car_info.engine == engine_at(b));
        assert(p.car_info.position.world.x.bits == u32_at(b, 50));
        assert(p.car_info.position.world.y.bits == u32_at(b, 54));
        assert(p.car_info.position.world.z.bits == u32_at(b, 58));
        assert(p.car_info.position.velocity.x.bits == u32_at(b, 62));
        assert(p.car_info.position.velocity.y.bits == u32_at(b, 66));
        assert(p.car_info.position.velocity.z.bits == u32_at(b, 70));
        assert(p.car_info.position.rotation.x.bits == u32_at(b, 74));
        assert(p.car_info.position.rotation.y.bits == u32_at(b, 78));
        assert(p.car_info.position.rotation.z.bits == u32_at(b, 82));
        assert(p.car_info.position.angular_velocity.x.bits == u32_at(b, 86));
        assert(p.car_info.position.angular_velocity.y.bits == u32_at(b, 90));
        assert(p.car_info.position.angular_velocity.z.bits == u32_at(b, 94));
        assert(p.car_info.tires.front_left.temperature.bits == u32_at(b, 98));
        assert(p.car_info.tires.front_left.wear.bits == u32_at(b, 102));
        assert(p.car_info.tires.front_left.suspension_travel.bits == u32_at(b, 106));
        assert(p.car_info.tires.front_left.wheel_speed.bits == u32_at(b, 110));
        assert(p.car_info.tires.front_left.radius.bits == u32_at(b, 114));
        assert(p.car_info.tires.front_right.temperature.bits == u32_at(b, 118));
        assert(p.car_info.tires.front_right.wear.bits == u32_at(b, 122));
        assert(p.car_info.tires.front_right.suspension_travel.bits == u32_at(b, 126));
        assert(p.car_info.tires.front_right.wheel_speed.bits == u32_at(b, 130));
        assert(p.car_info.tires.front_right.radius.bits == u32_at(b, 134));
        assert(p.car_info.tires.rear_left.temperature.bits == u32_at(b, 138));
        assert(p.car_info.tires.rear_left.wear.bits == u32_at(b, 142));
        assert(p.car_info.tires.rear_left.suspension_travel.bits == u32_at(b, 146));
        assert(p.car_info.tires.rear_left.wheel_speed.bits == u32_at(b, 150));
        assert(p.car_info.tires.rear_left.radius.bits == u32_at(b, 154));
        assert(p.car_info.tires.rear_right.temperature.bits == u32_at(b, 158));
        assert(p.car_info.tires.rear_right.wear.bits == u32_at(b, 162));
        assert(p.car_info.tires.rear_right.suspension_travel.bits == u32_at(b, 166));
        assert(p.car_info.tires.rear_right.wheel_speed.bits == u32_at(b, 170));
        assert(p.car_info.tires.rear_right.radius.bits == u32_at(b, 174));
        assert(p.car_info.engine.fuel_remaining.bits == u32_at(b, 178));
        assert(p.car_info.engine.fuel_capacity.bits == u32_at(b, 182));
        assert(p.car_info.engine.rpm.bits == u32_at(b, 186));
        assert(p.car_info.engine.max_rpm.bits == u32_at(b, 190));
        assert(p.car_info.engine.throttle.bits == u32_at(b, 194));
        assert(p.car_info.engine.brake.bits == u32_at(b, 198));
}

proof fn lemma_track_agrees(b: Seq<u8>, p: GT7TelemetryPacket)
    requires
        frame_valid(b),
        decodes_to(b, p),
    ensures
        agree_on(encode_frame(p), b, 200, 212),
        agree_on(encode_frame(p), b, 213, 258),
        weather_of(weather_code(p.track_info.track_data.weather)) == weather_of(b[212]),
{
    let e = encode_frame(p);
        lemma_u32_bytes(b, 200);
        lemma_u32_bytes(b, 202);
        lemma_u32_bytes(b, 204);
        lemma_u32_bytes(b, 208);
        lemma_u32_bytes(b, 213);
        lemma_u32_bytes(b, 217);
        lemma_u32_bytes(b, 222);
    lemma_weather_code(weather_of(b[212]));
    let name = b.subrange(TRACK_NAME_OFFSET as int, TRACK_NAME_OFFSET + TRACK_NAME_LEN);
    lemma_trim_nul(name);
    assert forall|i: int| 226 <= i < 258 implies e[i] == b[i] by {
        assert(name[i - 226] == b[i]);
    }
}

/// Encoding a decoded frame and decoding the result gives the same record:
/// every field survives, and a lap time of 0 stays absent.
pub proof fn lemma_decode_encode_round_trip(b: Seq<u8>, p: GT7TelemetryPacket)
    requires
        frame_valid(b),
        decodes_to(b, p),
    ensures
        frame_valid(encode_frame(p)),
        decodes_to(encode_frame(p), p),
{
    let e = encode_frame(p);
    assert(e.len() == GT7_PACKET_SIZE);
    lemma_header_agrees(b, p);
    lemma_car_agrees(b, p);
    lemma_track_agrees(b, p);
    lemma_u64_bytes(b, 280);
    assert(agree_on(e, b, 280, 288));
    lemma_le_uint_agree_within(e, b, 0, 10);
    lemma_le_uint_agree_within(e, b, 13, 17);
    assert(agree_on(e, b, 50, 212));
    lemma_le_uint_agree_within(e, b, 50, 212);
    lemma_le_uint_agree_within(e, b, 213, 258);
    lemma_le_uint_agree_within(e, b, 280, 288);
    if game_state_of(b[10]) == GameStateType::InRace {
        lemma_le_uint_agree_within(e, b, 17, 39);
        assert(race_at(e) == race_at(b));
    }
    assert(game_state_at(e) == game_state_at(b));
    assert(e.subrange(TRACK_NAME_OFFSET as int, TRACK_NAME_OFFSET + TRACK_NAME_LEN) =~= b.subrange(
        TRACK_NAME_OFFSET as int,
        TRACK_NAME_OFFSET + TRACK_NAME_LEN,
    ));
    assert(position_at(e) == position_at(b));
    assert(tires_at(e) == tires_at(b));
    assert(engine_at(e) == engine_at(b));
}

/// Flipping any one bit of the four magic bytes of a frame whose magic is
/// right makes the magic wrong, so the frame is rejected.
pub proof fn lemma_magic_bit_flip(b: Seq<u8>, i: int, bit: u8)
    requires
        b.len() == GT7_PACKET_SIZE,
        magic_ok(b),
        0 <= i < 4,
        bit < 8,
    ensures
        !magic_ok(b.update(i, b[i] ^ (1u8 << bit))),
{
    let v = b[i];
    let flipped = b.update(i, v ^ (1u8 << bit));
    assert(v ^ (1u8 << bit) != v) by (bit_vector)
        requires
            bit < 8,
    ;
    lemma_u32_bytes(b, 0);
    lemma_u32_bytes(flipped, 0);
    if magic_ok(flipped) {
        assert(le_byte(u32_at(b, 0) as int, i) == b[i]);
        assert(le_byte(u32_at(flipped, 0) as int, i) == flipped[i]);
    }
}

/// In a race frame, a best lap of 0 on the wire decodes as absent and any
/// other value decodes as itself.
pub proof fn lemma_best_lap_time(b: Seq<u8>, p: GT7TelemetryPacket)
    requires
        frame_valid(b),
        decodes_to(b, p),
        game_state_of(b[10]) == GameStateType::InRace,
    ensures
        p.game_state.race_info is Some,
        u32_at(b, 23) == 0 ==> p.game_state.race_info.unwrap().best_lap_time is None,
        u32_at(b, 23) > 0 ==> p.game_state.race_info.unwrap().best_lap_time == Some(u32_at(b, 23)),
{
}

} // verus!
