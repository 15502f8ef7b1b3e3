//! The telemetry frame: checksum, decoding and the decoded record.
use chrono::TimeZone;
use vstd::prelude::*;

verus! {

/// The first running sum of the checksum over `s`: each byte added, modulo 256.
pub open spec fn ck_a_of(s: Seq<u8>) -> u8
    decreases s.len(),
{
    if s.len() == 0 {
        0
    } else {
        ((ck_a_of(s.drop_last()) + s.last()) % 256) as u8
    }
}

/// The second running sum of the checksum over `s`: the first sum after each
/// byte added, modulo 256.
pub open spec fn ck_b_of(s: Seq<u8>) -> u8
    decreases s.len(),
{
    if s.len() == 0 {
        0
    } else {
        ((ck_b_of(s.drop_last()) + ck_a_of(s)) % 256) as u8
    }
}

/// The bytes that the checksum covers: class, id, length and payload, that is
/// everything but the two sync bytes and the two trailing checksum bytes.
pub open spec fn checksummed_bytes(raw: Seq<u8>) -> Seq<u8>
    recommends
        raw.len() >= 4,
{
    raw.subrange(2, raw.len() - 2)
}

/// A frame carries a valid checksum when it has room for sync and checksum
/// bytes and its last two bytes equal the two sums over the bytes between.
pub open spec fn checksum_valid(raw: Seq<u8>) -> bool {
    &&& raw.len() >= 4
    &&& ck_a_of(checksummed_bytes(raw)) == raw[raw.len() - 2]
    &&& ck_b_of(checksummed_bytes(raw)) == raw[raw.len() - 1]
}

/// Checks the two trailing checksum bytes of a frame. A frame too short to
/// hold them is reported invalid.
pub fn rb_checksum(raw: &[u8]) -> (r: bool)
    ensures
        r == checksum_valid(raw@),
        raw@.len() < 4 ==> !r,
{
    let len = raw.len();
    if len < 4 {
        return false;
    }
    let mut ck_a: u8 = 0;
    let mut ck_b: u8 = 0;
    let mut i: usize = 2;
    while i < len - 2
        invariant
            len == raw@.len(),
            len >= 4,
            2 <= i <= len - 2,
            ck_a == ck_a_of(raw@.subrange(2, i as int)),
            ck_b == ck_b_of(raw@.subrange(2, i as int)),
        decreases len - 2 - i,
    {
        let ghost prev = raw@.subrange(2, i as int);
        let ghost next = raw@.subrange(2, i + 1);
        assert(next.drop_last() =~= prev);
        assert(next.last() == raw@[i as int]);
        ck_a = ck_a.wrapping_add(raw[i]);
        ck_b = ck_b.wrapping_add(ck_a);
        i = i + 1;
    }
    ck_a == raw[len - 2] && ck_b == raw[len - 1]
}


/// Number of bytes of a frame of this message: 6 header bytes, an 80-byte
/// payload and 2 checksum bytes.
pub const FRAME_LEN: usize = 88;

/// Bytes around the payload: sync, class/id and length before it, checksum
/// after it.
pub const FRAME_OVERHEAD: usize = 8;

/// The three header words: sync, class/id and payload length.
#[derive(Clone, Copy, Debug, PartialEq, Eq, Structural)]
pub struct RbHeader {
    pub start: u16,
    pub class: u16,
    pub length: u16,
}

/// A position, in degrees scaled by 10^7.
#[derive(Clone, Copy, Debug, PartialEq, Eq, Structural)]
pub struct Coordinates {
    pub longitude: i32,
    pub latitude: i32,
}

/// A UTC timestamp as sent by the device; month and day start at 1.
#[derive(Clone, Copy, Debug, PartialEq, Eq, Structural)]
pub struct Datetime {
    pub year: u16,
    pub month: u8,
    pub day: u8,
    pub hour: u8,
    pub minute: u8,
    pub second: u8,
}

/// The two checksum bytes, read as one little-endian word (CK_A low).
#[derive(Clone, Copy, Debug, PartialEq, Eq, Structural)]
pub struct RbChecksum {
    pub value: u16,
}

/// One decoded data message (class 0xFF, id 0x01), sent by the device 25
/// times a second.
#[derive(Clone, Copy, Debug, PartialEq, Eq, Structural)]
pub struct RbMessage {
    pub header: RbHeader,
    /// Milliseconds since the start of the GPS week.
    pub itow: u32,
    pub datetime: Datetime,
    /// Bit 0 valid date, bit 1 valid time, bit 2 fully resolved, bit 3 valid
    /// magnetic declination.
    pub validity: u8,
    /// Nanoseconds.
    pub time_accuracy: u32,
    /// Sub-second part of the timestamp; may be negative.
    pub nanoseconds: i32,
    /// 0 no fix, 2 a 2D fix, 3 a 3D fix; other values are passed on as sent.
    pub fix_status: u8,
    /// Bit 0 valid fix, bit 1 differential corrections applied, bits 4..2
    /// power state, bit 5 valid heading, bits 7..6 carrier phase solution.
    pub fix_status_flags: u8,
    /// Bit 4 confirmation available, bit 5 confirmed date, bit 6 confirmed
    /// time.
    pub date_time_flags: u8,
    /// Number of satellites used in the solution.
    pub number_of_svs: u8,
    pub coordinates: Coordinates,
    /// Millimetres above the WGS ellipsoid.
    pub wgs_altitude: i32,
    /// Millimetres above mean sea level.
    pub msl_altitude: i32,
    /// Millimetres.
    pub horizontal_accuracy: u32,
    /// Millimetres.
    pub vertical_accuracy: u32,
    /// Ground speed in millimetres per second.
    pub speed: i32,
    /// Direction of motion in degrees scaled by 10^5; zero is north.
    pub heading: i32,
    pub speed_accuracy: u32,
    pub heading_accuracy: u32,
    /// Position dilution of precision, scaled by 100.
    pub pdop: u16,
    /// Bit 0 set when position and altitudes are invalid; bits 4..1 the age
    /// of differential corrections.
    pub lat_lon_flags: u8,
    /// Bit 7 charging; bits 6..0 the battery level in percent.
    pub battery_status: u8,
    /// Acceleration in milli-g: front/back, right/left, up/down.
    pub g_force_x: i16,
    pub g_force_y: i16,
    pub g_force_z: i16,
    /// Rotation rate in centi-degrees per second: roll, pitch, yaw.
    pub rot_rate_x: i16,
    pub rot_rate_y: i16,
    pub rot_rate_z: i16,
    pub checksum: RbChecksum,
}

/// Why a buffer could not be decoded.
#[derive(Clone, Copy, Debug, PartialEq, Eq, Structural)]
pub enum FrameError {
    /// Shorter than a frame, or its length word disagrees with its size.
    MalformedFrame,
}

/// The unsigned little-endian word of two bytes at `at`.
pub open spec fn le_u16_at(raw: Seq<u8>, at: int) -> int {
    raw[at] + 256 * raw[at + 1]
}

/// The unsigned little-endian word of four bytes at `at`.
pub open spec fn le_u32_at(raw: Seq<u8>, at: int) -> int {
    raw[at] + 256 * raw[at + 1] + 65536 * raw[at + 2] + 16777216 * raw[at + 3]
}

/// The two's complement value of the two bytes at `at`.
pub open spec fn le_i16_at(raw: Seq<u8>, at: int) -> int {
    let u = le_u16_at(raw, at);
    if u < 0x8000 {
        u
    } else {
        u - 0x1_0000
    }
}

/// The two's complement value of the four bytes at `at`.
pub open spec fn le_i32_at(raw: Seq<u8>, at: int) -> int {
    let u = le_u32_at(raw, at);
    if u < 0x8000_0000 {
        u
    } else {
        u - 0x1_0000_0000
    }
}

/// A buffer decodes when it holds a whole frame and the payload length in its
/// header accounts for every byte of it.
pub open spec fn frame_well_formed(raw: Seq<u8>) -> bool {
    &&& raw.len() >= FRAME_LEN
    &&& le_u16_at(raw, 4) + FRAME_OVERHEAD == raw.len()
}

/// The record that a well-formed frame holds: every field little-endian at a
/// fixed offset, in the order of the record's fields.
pub open spec fn frame_record(raw: Seq<u8>) -> RbMessage {
    RbMessage {
        header: RbHeader {
            start: le_u16_at(raw, 0) as u16,
            class: le_u16_at(raw, 2) as u16,
            length: le_u16_at(raw, 4) as u16,
        },
        itow: le_u32_at(raw, 6) as u32,
        datetime: Datetime {
            year: le_u16_at(raw, 10) as u16,
            month: raw[12],
            day: raw[13],
            hour: raw[14],
            minute: raw[15],
            second: raw[16],
        },
        validity: raw[17],
        time_accuracy: le_u32_at(raw, 18) as u32,
        nanoseconds: le_i32_at(raw, 22) as i32,
        fix_status: raw[26],
        fix_status_flags: raw[27],
        date_time_flags: raw[28],
        number_of_svs: raw[29],
        coordinates: Coordinates {
            longitude: le_i32_at(raw, 30) as i32,
            latitude: le_i32_at(raw, 34) as i32,
        },
        wgs_altitude: le_i32_at(raw, 38) as i32,
        msl_altitude: le_i32_at(raw, 42) as i32,
        horizontal_accuracy: le_u32_at(raw, 46) as u32,
        vertical_accuracy: le_u32_at(raw, 50) as u32,
        speed: le_i32_at(raw, 54) as i32,
        heading: le_i32_at(raw, 58) as i32,
        speed_accuracy: le_u32_at(raw, 62) as u32,
        heading_accuracy: le_u32_at(raw, 66) as u32,
        pdop: le_u16_at(raw, 70) as u16,
        lat_lon_flags: raw[72],
        battery_status: raw[73],
        g_force_x: le_i16_at(raw, 74) as i16,
        g_force_y: le_i16_at(raw, 76) as i16,
        g_force_z: le_i16_at(raw, 78) as i16,
        rot_rate_x: le_i16_at(raw, 80) as i16,
        rot_rate_y: le_i16_at(raw, 82) as i16,
        rot_rate_z: le_i16_at(raw, 84) as i16,
        checksum: RbChecksum { value: le_u16_at(raw, 86) as u16 },
    }
}

/// What decoding `raw` gives: its record when it is well formed, else
/// `MalformedFrame`.
pub open spec fn frame_decoding(raw: Seq<u8>) -> Result<RbMessage, FrameError> {
    if frame_well_formed(raw) {
        Ok(frame_record(raw))
    } else {
        Err(FrameError::MalformedFrame)
    }
}

fn read_u16(raw: &[u8], at: usize) -> (r: u16)
    requires
        at + 2 <= raw@.len(),
    ensures
        r == le_u16_at(raw@, at as int),
{
    raw[at] as u16 + 256 * (raw[at + 1] as u16)
}

fn read_u32(raw: &[u8], at: usize) -> (r: u32)
    requires
        at + 4 <= raw@.len(),
    ensures
        r == le_u32_at(raw@, at as int),
{
    raw[at] as u32 + 256 * (raw[at + 1] as u32) + 65536 * (raw[at + 2] as u32) + 16777216 * (
    raw[at + 3] as u32)
}

fn read_i16(raw: &[u8], at: usize) -> (r: i16)
    requires
        at + 2 <= raw@.len(),
    ensures
        r == le_i16_at(raw@, at as int),
{
    let u = read_u16(raw, at);
    if u < 0x8000 {
        u as i16
    } else {
        (u - 0x8000) as i16 + i16::MIN
    }
}

fn read_i32(raw: &[u8], at: usize) -> (r: i32)
    requires
        at + 4 <= raw@.len(),
    ensures
        r == le_i32_at(raw@, at as int),
{
    let u = read_u32(raw, at);
    if u < 0x8000_0000 {
        u as i32
    } else {
        (u - 0x8000_0000) as i32 + i32::MIN
    }
}

/// Decodes one frame into its record. The checksum is not looked at: that is
/// `rb_checksum`'s work.
pub fn decode_rb_message(raw: &[u8]) -> (r: Result<RbMessage, FrameError>)
    ensures
        r == frame_decoding(raw@),
        raw@.len() < FRAME_LEN ==> r == Err::<RbMessage, FrameError>(FrameError::MalformedFrame),
{
    if raw.len() < FRAME_LEN {
        return Err(FrameError::MalformedFrame);
    }
    let length = read_u16(raw, 4);
    if length as usize + FRAME_OVERHEAD != raw.len() {
        return Err(FrameError::MalformedFrame);
    }
    let message = RbMessage {
        header: RbHeader { start: read_u16(raw, 0), class: read_u16(raw, 2), length },
        itow: read_u32(raw, 6),
        datetime: Datetime {
            year: read_u16(raw, 10),
            month: raw[12],
            day: raw[13],
            hour: raw[14],
            minute: raw[15],
            second: raw[16],
        },
        validity: raw[17],
        time_accuracy: read_u32(raw, 18),
        nanoseconds: read_i32(raw, 22),
        fix_status: raw[26],
        fix_status_flags: raw[27],
        date_time_flags: raw[28],
        number_of_svs: raw[29],
        coordinates: Coordinates { longitude: read_i32(raw, 30), latitude: read_i32(raw, 34) },
        wgs_altitude: read_i32(raw, 38),
        msl_altitude: read_i32(raw, 42),
        horizontal_accuracy: read_u32(raw, 46),
        vertical_accuracy: read_u32(raw, 50),
        speed: read_i32(raw, 54),
        heading: read_i32(raw, 58),
        speed_accuracy: read_u32(raw, 62),
        heading_accuracy: read_u32(raw, 66),
        pdop: read_u16(raw, 70),
        lat_lon_flags: raw[72],
        battery_status: raw[73],
        g_force_x: read_i16(raw, 74),
        g_force_y: read_i16(raw, 76),
        g_force_z: read_i16(raw, 78),
        rot_rate_x: read_i16(raw, 80),
        rot_rate_y: read_i16(raw, 82),
        rot_rate_z: read_i16(raw, 84),
        checksum: RbChecksum { value: read_u16(raw, 86) },
    };
    Ok(message)
}

/// Decoding depends on the bytes alone: two buffers with the same contents
/// decode to the same record, field for field, or fail alike.
pub proof fn decoding_is_deterministic(first: Seq<u8>, second: Seq<u8>)
    requires
        first == second,
    ensures
        frame_decoding(first) == frame_decoding(second),
{
}

/// Whether bit `n` of `flags` is set.
pub open spec fn bit_set(flags: u8, n: u8) -> bool {
    (flags >> n) & 1 == 1
}

/// A decimal angle: `negative`, `whole` degrees and `fraction` ten-millionths.
#[derive(Clone, Copy, Debug, PartialEq, Eq, Structural)]
pub struct Degrees {
    pub negative: bool,
    pub whole: u32,
    pub fraction: u32,
}

impl Degrees {
    /// The angle in ten-millionths of a degree.
    pub open spec fn scaled(self) -> int {
        let magnitude = self.whole * 10_000_000 + self.fraction;
        if self.negative {
            -magnitude
        } else {
            magnitude
        }
    }

    /// One way of writing each angle: the fraction below one degree, and no
    /// negative zero.
    pub open spec fn canonical(self) -> bool {
        &&& self.fraction < 10_000_000
        &&& self.negative ==> self.scaled() < 0
    }

    /// The angle of `raw` ten-millionths of a degree.
    pub fn from_scaled(raw: i32) -> (r: Degrees)
        ensures
            r.canonical(),
            r.scaled() == raw,
    {
        let negative = raw < 0;
        let magnitude: u32 = if negative {
            (-(raw as i64)) as u32
        } else {
            raw as u32
        };
        let whole = magnitude / 10_000_000;
        let fraction = magnitude % 10_000_000;
        Degrees { negative, whole, fraction }
    }
}

impl Coordinates {
    /// Longitude in degrees: the raw value divided by 10^7.
    pub fn longitude(&self) -> (r: Degrees)
        ensures
            r.canonical(),
            r.scaled() == self.longitude,
    {
        Degrees::from_scaled(self.longitude)
    }

    /// Latitude in degrees: the raw value divided by 10^7.
    pub fn latitude(&self) -> (r: Degrees)
        ensures
            r.canonical(),
            r.scaled() == self.latitude,
    {
        Degrees::from_scaled(self.latitude)
    }
}

/// The quality of the satellite fix.
#[derive(Clone, Copy, Debug, PartialEq, Eq, Structural)]
pub enum FixStatus {
    NoFix,
    Fix2D,
    Fix3D,
}

impl FixStatus {
    /// The fix that a raw status byte names: 0, 2 and 3; `None` for any other
    /// byte.
    pub fn from_raw(raw: u8) -> (r: Option<FixStatus>)
        ensures
            r == (if raw == 0 {
                Some(FixStatus::NoFix)
            } else if raw == 2 {
                Some(FixStatus::Fix2D)
            } else if raw == 3 {
                Some(FixStatus::Fix3D)
            } else {
                None::<FixStatus>
            }),
    {
        match raw {
            0 => Some(FixStatus::NoFix),
            2 => Some(FixStatus::Fix2D),
            3 => Some(FixStatus::Fix3D),
            _ => None,
        }
    }
}

impl RbMessage {
    /// The record with every field zero.
    pub open spec fn zeroed() -> RbMessage {
        RbMessage {
            header: RbHeader { start: 0, class: 0, length: 0 },
            itow: 0,
            datetime: Datetime { year: 0, month: 0, day: 0, hour: 0, minute: 0, second: 0 },
            validity: 0,
            time_accuracy: 0,
            nanoseconds: 0,
            fix_status: 0,
            fix_status_flags: 0,
            date_time_flags: 0,
            number_of_svs: 0,
            coordinates: Coordinates { longitude: 0, latitude: 0 },
            wgs_altitude: 0,
            msl_altitude: 0,
            horizontal_accuracy: 0,
            vertical_accuracy: 0,
            speed: 0,
            heading: 0,
            speed_accuracy: 0,
            heading_accuracy: 0,
            pdop: 0,
            lat_lon_flags: 0,
            battery_status: 0,
            g_force_x: 0,
            g_force_y: 0,
            g_force_z: 0,
            rot_rate_x: 0,
            rot_rate_y: 0,
            rot_rate_z: 0,
            checksum: RbChecksum { value: 0 },
        }
    }

    /// A record with every field zero.
    pub fn new() -> (r: RbMessage)
        ensures
            r == RbMessage::zeroed(),
    {
        RbMessage {
            header: RbHeader { start: 0, class: 0, length: 0 },
            itow: 0,
            datetime: Datetime { year: 0, month: 0, day: 0, hour: 0, minute: 0, second: 0 },
            validity: 0,
            time_accuracy: 0,
            nanoseconds: 0,
            fix_status: 0,
            fix_status_flags: 0,
            date_time_flags: 0,
            number_of_svs: 0,
            coordinates: Coordinates { longitude: 0, latitude: 0 },
            wgs_altitude: 0,
            msl_altitude: 0,
            horizontal_accuracy: 0,
            vertical_accuracy: 0,
            speed: 0,
            heading: 0,
            speed_accuracy: 0,
            heading_accuracy: 0,
            pdop: 0,
            lat_lon_flags: 0,
            battery_status: 0,
            g_force_x: 0,
            g_force_y: 0,
            g_force_z: 0,
            rot_rate_x: 0,
            rot_rate_y: 0,
            rot_rate_z: 0,
            checksum: RbChecksum { value: 0 },
        }
    }

    /// Validity bit 0.
    pub fn is_valid_date(&self) -> (r: bool)
        ensures
            r == bit_set(self.validity, 0),
    {
        (self.validity >> 0) & 1 == 1
    }

    /// Validity bit 1.
    pub fn is_valid_time(&self) -> (r: bool)
        ensures
            r == bit_set(self.validity, 1),
    {
        (self.validity >> 1) & 1 == 1
    }

    /// Validity bit 2.
    pub fn is_fully_resolved(&self) -> (r: bool)
        ensures
            r == bit_set(self.validity, 2),
    {
        (self.validity >> 2) & 1 == 1
    }

    /// Validity bit 3.
    pub fn is_valid_magnetic_declination(&self) -> (r: bool)
        ensures
            r == bit_set(self.validity, 3),
    {
        (self.validity >> 3) & 1 == 1
    }

    /// Fix status flag bit 0.
    pub fn is_valid_fix(&self) -> (r: bool)
        ensures
            r == bit_set(self.fix_status_flags, 0),
    {
        (self.fix_status_flags >> 0) & 1 == 1
    }

    /// Fix status flag bit 1.
    pub fn is_differential_corrections_applied(&self) -> (r: bool)
        ensures
            r == bit_set(self.fix_status_flags, 1),
    {
        (self.fix_status_flags >> 1) & 1 == 1
    }

    /// The power state (fix status flag bits 4..2) awaits the vendor's
    /// definition of its values; it is reported as unsupported, `false`.
    pub fn power_state(&self) -> (r: bool)
        ensures
            !r,
    {
        false
    }

    /// Fix status flag bit 5.
    pub fn is_valid_heading(&self) -> (r: bool)
        ensures
            r == bit_set(self.fix_status_flags, 5),
    {
        (self.fix_status_flags >> 5) & 1 == 1
    }

    /// The carrier phase range solution (fix status flag bits 7..6) awaits the
    /// vendor's definition of its values; it is reported as unsupported,
    /// `false`.
    pub fn carrier_phase_range_solution(&self) -> (r: bool)
        ensures
            !r,
    {
        false
    }

    /// Date/time flag bit 4: confirmation of date and time validity is
    /// available.
    pub fn is_confirmation_datetime_validity(&self) -> (r: bool)
        ensures
            r == bit_set(self.date_time_flags, 4),
    {
        (self.date_time_flags >> 4) & 1 == 1
    }

    /// Date/time flag bit 5: the UTC date is confirmed.
    pub fn is_confirmed_utc_date_validty(&self) -> (r: bool)
        ensures
            r == bit_set(self.date_time_flags, 5),
    {
        (self.date_time_flags >> 5) & 1 == 1
    }

    /// Date/time flag bit 6: the UTC time is confirmed.
    pub fn is_confirmed_utc_time_validty(&self) -> (r: bool)
        ensures
            r == bit_set(self.date_time_flags, 6),
    {
        (self.date_time_flags >> 6) & 1 == 1
    }

    /// Position and altitudes are valid unless lat/lon flag bit 0 is set.
    pub fn is_valid_position(&self) -> (r: bool)
        ensures
            r == !bit_set(self.lat_lon_flags, 0),
    {
        !((self.lat_lon_flags >> 0) & 1 == 1)
    }

    /// The age of differential corrections (lat/lon flag bits 4..1) awaits
    /// the vendor's definition of its values; it is reported as unsupported,
    /// `false`.
    pub fn differential_correction_age(&self) -> (r: bool)
        ensures
            !r,
    {
        false
    }

    pub fn gps_coordinates(&self) -> (r: Coordinates)
        ensures
            r == self.coordinates,
    {
        self.coordinates
    }

    /// Ground speed in ten-thousandths of a km/h: mm/s times 0.0036, kept
    /// exact.
    pub fn speed(&self) -> (r: i64)
        ensures
            r == self.speed * 36,
    {
        self.speed as i64 * 36
    }

    /// Sets the position; every other field keeps its value.
    pub fn update_coordinates(&mut self, longitude: i32, latitude: i32)
        ensures
            *final(self) == (RbMessage {
                coordinates: Coordinates { longitude, latitude },
                ..*old(self)
            }),
    {
        self.coordinates.longitude = longitude;
        self.coordinates.latitude = latitude;
    }

    pub fn datetime(&self) -> (r: Datetime)
        ensures
            r == self.datetime,
    {
        self.datetime
    }

    pub fn satelites(&self) -> (r: u8)
        ensures
            r == self.number_of_svs,
    {
        self.number_of_svs
    }

    /// Altitude above mean sea level, in millimetres.
    pub fn altitude(&self) -> (r: i32)
        ensures
            r == self.msl_altitude,
    {
        self.msl_altitude
    }

    pub fn horiz_accuracy(&self) -> (r: u32)
        ensures
            r == self.horizontal_accuracy,
    {
        self.horizontal_accuracy
    }

    pub fn vert_accuracy(&self) -> (r: u32)
        ensures
            r == self.vertical_accuracy,
    {
        self.vertical_accuracy
    }

    pub fn heading(&self) -> (r: i32)
        ensures
            r == self.heading,
    {
        self.heading
    }

    pub fn g_forces(&self) -> (r: (i16, i16, i16))
        ensures
            r == (self.g_force_x, self.g_force_y, self.g_force_z),
    {
        (self.g_force_x, self.g_force_y, self.g_force_z)
    }

    pub fn rot_rates(&self) -> (r: (i16, i16, i16))
        ensures
            r == (self.rot_rate_x, self.rot_rate_y, self.rot_rate_z),
    {
        (self.rot_rate_x, self.rot_rate_y, self.rot_rate_z)
    }
}

impl Default for RbMessage {
    fn default() -> (r: RbMessage)
        ensures
            r == RbMessage::zeroed(),
    {
        RbMessage::new()
    }
}

/// Leap years of the proleptic Gregorian calendar.
pub open spec fn is_leap_year(year: int) -> bool {
    (year % 4 == 0 && year % 100 != 0) || year % 400 == 0
}

/// Number of days of `month` (1 to 12) in `year`.
pub open spec fn days_in_month(year: int, month: int) -> int {
    if month == 2 {
        if is_leap_year(year) {
            29
        } else {
            28
        }
    } else if month == 4 || month == 6 || month == 9 || month == 11 {
        30
    } else {
        31
    }
}

/// The fields name an existing day of the Gregorian calendar and a time of
/// day before midnight, without leap second.
pub open spec fn civil_valid(year: u16, month: u8, day: u8, hour: u8, minute: u8, second: u8) -> bool {
    &&& 1 <= month <= 12
    &&& 1 <= day <= days_in_month(year as int, month as int)
    &&& hour < 24
    &&& minute < 60
    &&& second < 60
}

/// The text that chrono gives for a valid UTC timestamp.
pub uninterp spec fn utc_text(year: u16, month: u8, day: u8, hour: u8, minute: u8, second: u8) -> Seq<char>;

/// Relies on chrono's `Utc.with_ymd_and_hms`, which gives one time exactly
/// when `NaiveDate::from_ymd_opt` and `and_hms_opt` accept the fields (UTC has
/// neither gaps nor folds, and every `u16` year is in chrono's range), and on
/// the `Display` of `DateTime<Utc>` for the text.
#[verifier::external_body]
fn utc_timestamp_text(year: u16, month: u8, day: u8, hour: u8, minute: u8, second: u8) -> (r:
    Option<String>)
    ensures
        r is Some <==> civil_valid(year, month, day, hour, minute, second),
        r matches Some(t) ==> t@ == utc_text(year, month, day, hour, minute, second),
{
    match chrono::Utc.with_ymd_and_hms(
        year as i32,
        month as u32,
        day as u32,
        hour as u32,
        minute as u32,
        second as u32,
    ).single() {
        Some(dt) => Some(dt.to_string()),
        None => None,
    }
}

impl Datetime {
    /// The text for a timestamp whose calendar lookup gave `lookup`: the
    /// lookup's text, or a note that the fields name no time.
    pub fn text_from(lookup: Option<String>) -> (r: String)
        ensures
            r@ == (match lookup {
                Some(t) => t@,
                None => "No valid datetime"@,
            }),
    {
        match lookup {
            Some(text) => text,
            None => String::from_str("No valid datetime"),
        }
    }

    /// The timestamp as text, in chrono's UTC form, or a note that the
    /// fields name no time.
    pub fn to_string(&self) -> (r: String)
        ensures
            r@ == (if civil_valid(
                self.year,
                self.month,
                self.day,
                self.hour,
                self.minute,
                self.second,
            ) {
                utc_text(self.year, self.month, self.day, self.hour, self.minute, self.second)
            } else {
                "No valid datetime"@
            }),
    {
        Datetime::text_from(
            utc_timestamp_text(self.year, self.month, self.day, self.hour, self.minute, self.second),
        )
    }
}

} // verus!
