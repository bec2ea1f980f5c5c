use xsens_mti::mtdata2::acceleration::Acceleration;
use xsens_mti::mtdata2::altitude_ellipsoid::AltitudeEllipsoid;
use xsens_mti::mtdata2::euler_angles::EulerAngles;
use xsens_mti::mtdata2::lat_lon::LatLon;
use xsens_mti::mtdata2::magnetic_field::MagneticField;
use xsens_mti::mtdata2::packet_counter::PacketCounter;
use xsens_mti::mtdata2::position_ecef::PositionEcef;
use xsens_mti::mtdata2::rate_of_turn::RateOfTurn;
use xsens_mti::mtdata2::sample_time_coarse::SampleTimeCoarse;
use xsens_mti::mtdata2::sample_time_fine::SampleTimeFine;
use xsens_mti::mtdata2::status_word::StatusWord;
use xsens_mti::mtdata2::utc_time::{UtcTime, UtcTimeStatusFlags};
use xsens_mti::mtdata2::velocity_xyz::VelocityXYZ;
use xsens_mti::precision::{Float32Bits, Float64Bits};
use xsens_mti::wire::WireError;

// Big-endian 1.1f32, 2.2f32, 3.3f32
static F32_3: [u8; 12] = [
    0x3F, 0x8C, 0xCC, 0xCD, 0x40, 0x0C, 0xCC, 0xCD, 0x40, 0x53, 0x33, 0x33,
];

// Big-endian 1.1f64, 2.2f64
static F64_2: [u8; 16] = [
    0x3F, 0xF1, 0x99, 0x99, 0x99, 0x99, 0x99, 0x9A, 0x40, 0x01, 0x99, 0x99, 0x99, 0x99, 0x99,
    0x9A,
];

#[test]
fn acceleration_float32() {
    let a = Acceleration::<Float32Bits>::from_be_slice(&F32_3).unwrap();
    assert_eq!(f32::from_bits(a.x.0), 1.1);
    assert_eq!(f32::from_bits(a.y.0), 2.2);
    assert_eq!(f32::from_bits(a.z.0), 3.3);
    assert_eq!(Acceleration::<Float32Bits>::wire_size(), 12);
}

#[test]
fn acceleration_float64() {
    let mut bytes = F64_2.to_vec();
    bytes.extend_from_slice(&[0x40, 0x0A, 0x66, 0x66, 0x66, 0x66, 0x66, 0x66]);
    let a = Acceleration::<Float64Bits>::from_be_slice(&bytes).unwrap();
    assert_eq!(f64::from_bits(a.x.0), 1.1);
    assert_eq!(f64::from_bits(a.y.0), 2.2);
    assert_eq!(f64::from_bits(a.z.0), 3.3);
    assert_eq!(Acceleration::<Float64Bits>::wire_size(), 24);
}

#[test]
fn rate_of_turn_fp1220() {
    let bytes: [u8; 12] = [0, 0, 0, 1, 0, 0, 0, 2, 0, 0, 0, 3];
    let r = RateOfTurn::<u32>::from_be_slice(&bytes).unwrap();
    assert_eq!((r.x, r.y, r.z), (1, 2, 3));
}

#[test]
fn magnetic_field_fp1632() {
    let bytes: [u8; 24] = [
        0, 0, 0, 0, 0, 0, 0, 1, 0, 0, 0, 0, 0, 0, 0, 2, 0, 0, 0, 0, 0, 0, 0, 3,
    ];
    let m = MagneticField::<u64>::from_be_slice(&bytes).unwrap();
    assert_eq!((m.x, m.y, m.z), (1, 2, 3));
    assert_eq!(MagneticField::<u64>::wire_size(), 24);
}

#[test]
fn velocity_xyz_float32() {
    let v = VelocityXYZ::<Float32Bits>::from_be_slice(&F32_3).unwrap();
    assert_eq!(f32::from_bits(v.x.0), 1.1);
}

#[test]
fn euler_angles_float32() {
    let e = EulerAngles::<Float32Bits>::from_be_slice(&F32_3).unwrap();
    assert_eq!(f32::from_bits(e.roll.0), 1.1);
    assert_eq!(f32::from_bits(e.pitch.0), 2.2);
    assert_eq!(f32::from_bits(e.yaw.0), 3.3);
}

#[test]
fn lat_lon_float64() {
    let l = LatLon::<Float64Bits>::from_be_slice(&F64_2).unwrap();
    assert_eq!(f64::from_bits(l.lat.0), 1.1);
    assert_eq!(f64::from_bits(l.lon.0), 2.2);
    assert_eq!(LatLon::<Float64Bits>::wire_size(), 16);
}

#[test]
fn altitude_ellipsoid_float32() {
    let a = AltitudeEllipsoid::<Float32Bits>::from_be_slice(&F32_3[..4]).unwrap();
    assert_eq!(f32::from_bits(a.0 .0), 1.1);
    assert_eq!(AltitudeEllipsoid::<Float32Bits>::wire_size(), 4);
}

#[test]
fn position_ecef_floats_only() {
    let p = PositionEcef::<Float32Bits>::from_be_slice(&F32_3).unwrap();
    assert_eq!(f32::from_bits(p.x.0), 1.1);
    let mut bytes = F64_2.to_vec();
    bytes.extend_from_slice(&[0x40, 0x0A, 0x66, 0x66, 0x66, 0x66, 0x66, 0x66]);
    let p = PositionEcef::<Float64Bits>::from_be_slice(&bytes).unwrap();
    assert_eq!(f64::from_bits(p.z.0), 3.3);
}

#[test]
fn packet_counter_decode() {
    let p = PacketCounter::from_be_slice(&[0x01, 0x14]).unwrap();
    assert_eq!(p.0, 0x0114);
    assert_eq!(PacketCounter::from_be_slice(&[0x01]), Err(WireError::MissingBytes));
}

#[test]
fn sample_times_decode() {
    let f = SampleTimeFine::from_be_slice(&[0x00, 0x02, 0xAF, 0xCA]).unwrap();
    assert_eq!(f.0, 0x0002AFCA);
    let c = SampleTimeCoarse::from_be_slice(&[0x00, 0x00, 0x00, 0x2A]).unwrap();
    assert_eq!(c.0, 42);
    assert_eq!(SampleTimeFine::from_be_slice(&[0, 0, 0]), Err(WireError::MissingBytes));
    assert_eq!(SampleTimeCoarse::from_be_slice(&[]), Err(WireError::MissingBytes));
}

#[test]
fn status_word_flags() {
    let s = StatusWord::from_be_slice(&[0x00, 0x00, 0x00, 0x05]).unwrap();
    assert_eq!(s.0, 5);
    assert!(s.self_test());
    assert!(!s.filter_valid());
    assert!(s.gnss_fix());
    assert_eq!(StatusWord::from_be_slice(&[0, 0, 0]), Err(WireError::MissingBytes));
}

#[test]
fn utc_time_decode() {
    // The UtcTime packet payload of the reference MTData2 message.
    let bytes: [u8; 12] = [
        0x24, 0x34, 0x30, 0x40, 0x07, 0xB2, 0x01, 0x01, 0x00, 0x00, 0x11, 0x00,
    ];
    let t = UtcTime::from_be_slice(&bytes).unwrap();
    assert_eq!(t.ns, 0x24343040);
    assert_eq!(t.year, 1970);
    assert_eq!(t.month, 1);
    assert_eq!(t.day, 1);
    assert_eq!(t.hour, 0);
    assert_eq!(t.minute, 0);
    assert_eq!(t.second, 0x11);
    assert_eq!(t.flags, UtcTimeStatusFlags(0));
    assert_eq!(UtcTime::from_be_slice(&bytes[..11]), Err(WireError::MissingBytes));
}

#[test]
fn utc_time_flag_bits() {
    let flags = UtcTimeStatusFlags(0x05);
    assert!(flags.time_of_week_valid());
    assert!(!flags.week_number_valid());
    assert!(flags.utc_valid());
}

#[test]
fn short_slices_are_rejected() {
    assert_eq!(
        Acceleration::<Float32Bits>::from_be_slice(&F32_3[..11]),
        Err(WireError::MissingBytes)
    );
    assert_eq!(
        LatLon::<Float64Bits>::from_be_slice(&F64_2[..15]),
        Err(WireError::MissingBytes)
    );
    assert_eq!(
        AltitudeEllipsoid::<u64>::from_be_slice(&F32_3[..7]),
        Err(WireError::MissingBytes)
    );
}
