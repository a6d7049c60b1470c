//! The fixed header registry: every routing header the device emits, each
//! mapped to its telemetry stream, plus the debug-text header. Matching is
//! exact and case-sensitive on the header bytes; a header outside the
//! registry routes nowhere and its record is dropped.

use vstd::prelude::*;
use vstd::string::StringSliceAdditionalSpecFns;

verus! {

/// The telemetry streams of the device, one bounded queue and one sample
/// window each.
#[derive(Clone, Copy, Debug, PartialEq, Eq, Structural)]
pub enum StreamId {
    BusVoltage,
    BusCurrent,
    EncPos0,
    EncVel0,
    EncPos1,
    EncVel1,
    CtrlU0,
    StateX,
    StateTheta,
    StateXDot,
    StateThetaDot,
    ImuRoll,
    ImuPitch,
    ImuPitchDot,
    ImuYaw,
    AccX,
    AccY,
    AccZ,
    GyrX,
    GyrY,
    GyrZ,
}

/// How many telemetry streams the registry holds.
pub const STREAM_COUNT: usize = 21;

/// What a routing header names: a telemetry stream, the debug-text channel,
/// or nothing known.
#[derive(Clone, Copy, Debug, PartialEq, Eq, Structural)]
pub enum HeaderKind {
    Stream(StreamId),
    Debug,
    Unknown,
}

impl StreamId {
    /// The queue slot of this stream: a distinct index below
    /// [`STREAM_COUNT`].
    pub open spec fn spec_slot(self) -> int {
        match self {
            StreamId::BusVoltage => 0,
            StreamId::BusCurrent => 1,
            StreamId::EncPos0 => 2,
            StreamId::EncVel0 => 3,
            StreamId::EncPos1 => 4,
            StreamId::EncVel1 => 5,
            StreamId::CtrlU0 => 6,
            StreamId::StateX => 7,
            StreamId::StateTheta => 8,
            StreamId::StateXDot => 9,
            StreamId::StateThetaDot => 10,
            StreamId::ImuRoll => 11,
            StreamId::ImuPitch => 12,
            StreamId::ImuPitchDot => 13,
            StreamId::ImuYaw => 14,
            StreamId::AccX => 15,
            StreamId::AccY => 16,
            StreamId::AccZ => 17,
            StreamId::GyrX => 18,
            StreamId::GyrY => 19,
            StreamId::GyrZ => 20,
        }
    }

    /// The queue slot of this stream.
    pub fn slot(self) -> (r: usize)
        ensures
            r == self.spec_slot(),
            r < STREAM_COUNT,
    {
        match self {
            StreamId::BusVoltage => 0,
            StreamId::BusCurrent => 1,
            StreamId::EncPos0 => 2,
            StreamId::EncVel0 => 3,
            StreamId::EncPos1 => 4,
            StreamId::EncVel1 => 5,
            StreamId::CtrlU0 => 6,
            StreamId::StateX => 7,
            StreamId::StateTheta => 8,
            StreamId::StateXDot => 9,
            StreamId::StateThetaDot => 10,
            StreamId::ImuRoll => 11,
            StreamId::ImuPitch => 12,
            StreamId::ImuPitchDot => 13,
            StreamId::ImuYaw => 14,
            StreamId::AccX => 15,
            StreamId::AccY => 16,
            StreamId::AccZ => 17,
            StreamId::GyrX => 18,
            StreamId::GyrY => 19,
            StreamId::GyrZ => 20,
        }
    }

    /// The header bytes that route to this stream.
    pub open spec fn spec_header(self) -> Seq<u8> {
        match self {
            StreamId::BusVoltage => "bus_voltage".spec_bytes(),
            StreamId::BusCurrent => "bus_current".spec_bytes(),
            StreamId::EncPos0 => "enc_pos_0".spec_bytes(),
            StreamId::EncVel0 => "enc_vel_0".spec_bytes(),
            StreamId::EncPos1 => "enc_pos_1".spec_bytes(),
            StreamId::EncVel1 => "enc_vel_1".spec_bytes(),
            StreamId::CtrlU0 => "ctrl_u_0".spec_bytes(),
            StreamId::StateX => "x".spec_bytes(),
            StreamId::StateTheta => "theta".spec_bytes(),
            StreamId::StateXDot => "x_dot".spec_bytes(),
            StreamId::StateThetaDot => "theta_dot".spec_bytes(),
            StreamId::ImuRoll => "imu_r".spec_bytes(),
            StreamId::ImuPitch => "imu_p".spec_bytes(),
            StreamId::ImuPitchDot => "imu_p_dot".spec_bytes(),
            StreamId::ImuYaw => "imu_y".spec_bytes(),
            StreamId::AccX => "acc_x".spec_bytes(),
            StreamId::AccY => "acc_y".spec_bytes(),
            StreamId::AccZ => "acc_z".spec_bytes(),
            StreamId::GyrX => "gyr_x".spec_bytes(),
            StreamId::GyrY => "gyr_y".spec_bytes(),
            StreamId::GyrZ => "gyr_z".spec_bytes(),
        }
    }
}

/// The header bytes of the debug-text channel.
pub open spec fn spec_debug_header() -> Seq<u8> {
    "dbg_msg".spec_bytes()
}

/// Where a header routes: the first registry entry whose bytes match
/// exactly, or [`HeaderKind::Unknown`] when none does.
pub open spec fn spec_lookup(h: Seq<u8>) -> HeaderKind {
    if h == StreamId::BusVoltage.spec_header() {
        HeaderKind::Stream(StreamId::BusVoltage)
    } else if h == StreamId::BusCurrent.spec_header() {
        HeaderKind::Stream(StreamId::BusCurrent)
    } else if h == StreamId::EncPos0.spec_header() {
        HeaderKind::Stream(StreamId::EncPos0)
    } else if h == StreamId::EncVel0.spec_header() {
        HeaderKind::Stream(StreamId::EncVel0)
    } else if h == StreamId::EncPos1.spec_header() {
        HeaderKind::Stream(StreamId::EncPos1)
    } else if h == StreamId::EncVel1.spec_header() {
        HeaderKind::Stream(StreamId::EncVel1)
    } else if h == StreamId::CtrlU0.spec_header() {
        HeaderKind::Stream(StreamId::CtrlU0)
    } else if h == StreamId::StateX.spec_header() {
        HeaderKind::Stream(StreamId::StateX)
    } else if h == StreamId::StateTheta.spec_header() {
        HeaderKind::Stream(StreamId::StateTheta)
    } else if h == StreamId::StateXDot.spec_header() {
        HeaderKind::Stream(StreamId::StateXDot)
    } else if h == StreamId::StateThetaDot.spec_header() {
        HeaderKind::Stream(StreamId::StateThetaDot)
    } else if h == StreamId::ImuRoll.spec_header() {
        HeaderKind::Stream(StreamId::ImuRoll)
    } else if h == StreamId::ImuPitch.spec_header() {
        HeaderKind::Stream(StreamId::ImuPitch)
    } else if h == StreamId::ImuPitchDot.spec_header() {
        HeaderKind::Stream(StreamId::ImuPitchDot)
    } else if h == StreamId::ImuYaw.spec_header() {
        HeaderKind::Stream(StreamId::ImuYaw)
    } else if h == StreamId::AccX.spec_header() {
        HeaderKind::Stream(StreamId::AccX)
    } else if h == StreamId::AccY.spec_header() {
        HeaderKind::Stream(StreamId::AccY)
    } else if h == StreamId::AccZ.spec_header() {
        HeaderKind::Stream(StreamId::AccZ)
    } else if h == StreamId::GyrX.spec_header() {
        HeaderKind::Stream(StreamId::GyrX)
    } else if h == StreamId::GyrY.spec_header() {
        HeaderKind::Stream(StreamId::GyrY)
    } else if h == StreamId::GyrZ.spec_header() {
        HeaderKind::Stream(StreamId::GyrZ)
    } else if h == spec_debug_header() {
        HeaderKind::Debug
    } else {
        HeaderKind::Unknown
    }
}

/// Exact byte-sequence equality.
pub fn bytes_eq(a: &[u8], b: &[u8]) -> (r: bool)
    ensures
        r == (a@ == b@),
{
    if a.len() != b.len() {
        proof {
            assert(a@ != b@);
        }
        return false;
    }
    let mut i: usize = 0;
    while i < a.len()
        invariant
            i <= a@.len() == b@.len(),
            forall|j: int| 0 <= j < i ==> a@[j] == b@[j],
        decreases a@.len() - i,
    {
        if a[i] != b[i] {
            return false;
        }
        i += 1;
    }
    proof {
        assert(a@ =~= b@);
    }
    true
}

/// Looks a routing header up in the registry.
pub fn lookup_header(h: &[u8]) -> (r: HeaderKind)
    ensures
        r == spec_lookup(h@),
{
    if bytes_eq(h, "bus_voltage".as_bytes()) {
        HeaderKind::Stream(StreamId::BusVoltage)
    } else if bytes_eq(h, "bus_current".as_bytes()) {
        HeaderKind::Stream(StreamId::BusCurrent)
    } else if bytes_eq(h, "enc_pos_0".as_bytes()) {
        HeaderKind::Stream(StreamId::EncPos0)
    } else if bytes_eq(h, "enc_vel_0".as_bytes()) {
        HeaderKind::Stream(StreamId::EncVel0)
    } else if bytes_eq(h, "enc_pos_1".as_bytes()) {
        HeaderKind::Stream(StreamId::EncPos1)
    } else if bytes_eq(h, "enc_vel_1".as_bytes()) {
        HeaderKind::Stream(StreamId::EncVel1)
    } else if bytes_eq(h, "ctrl_u_0".as_bytes()) {
        HeaderKind::Stream(StreamId::CtrlU0)
    } else if bytes_eq(h, "x".as_bytes()) {
        HeaderKind::Stream(StreamId::StateX)
    } else if bytes_eq(h, "theta".as_bytes()) {
        HeaderKind::Stream(StreamId::StateTheta)
    } else if bytes_eq(h, "x_dot".as_bytes()) {
        HeaderKind::Stream(StreamId::StateXDot)
    } else if bytes_eq(h, "theta_dot".as_bytes()) {
        HeaderKind::Stream(StreamId::StateThetaDot)
    } else if bytes_eq(h, "imu_r".as_bytes()) {
        HeaderKind::Stream(StreamId::ImuRoll)
    } else if bytes_eq(h, "imu_p".as_bytes()) {
        HeaderKind::Stream(StreamId::ImuPitch)
    } else if bytes_eq(h, "imu_p_dot".as_bytes()) {
        HeaderKind::Stream(StreamId::ImuPitchDot)
    } else if bytes_eq(h, "imu_y".as_bytes()) {
        HeaderKind::Stream(StreamId::ImuYaw)
    } else if bytes_eq(h, "acc_x".as_bytes()) {
        HeaderKind::Stream(StreamId::AccX)
    } else if bytes_eq(h, "acc_y".as_bytes()) {
        HeaderKind::Stream(StreamId::AccY)
    } else if bytes_eq(h, "acc_z".as_bytes()) {
        HeaderKind::Stream(StreamId::AccZ)
    } else if bytes_eq(h, "gyr_x".as_bytes()) {
        HeaderKind::Stream(StreamId::GyrX)
    } else if bytes_eq(h, "gyr_y".as_bytes()) {
        HeaderKind::Stream(StreamId::GyrY)
    } else if bytes_eq(h, "gyr_z".as_bytes()) {
        HeaderKind::Stream(StreamId::GyrZ)
    } else if bytes_eq(h, "dbg_msg".as_bytes()) {
        HeaderKind::Debug
    } else {
        HeaderKind::Unknown
    }
}

} // verus!
