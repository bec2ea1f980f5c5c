//! Typed decoders for the MTData2 measurement data types: each is a plain
//! value with a `from_be_slice` decoder over the packet payload, selected
//! by the packet's data identifier.

pub mod acceleration;
pub mod altitude_ellipsoid;
pub mod euler_angles;
pub mod lat_lon;
pub mod magnetic_field;
pub mod packet_counter;
pub mod position_ecef;
pub mod rate_of_turn;
pub mod sample_time_coarse;
pub mod sample_time_fine;
pub mod status_word;
pub mod utc_time;
pub mod velocity_xyz;

pub use acceleration::Acceleration;
pub use altitude_ellipsoid::AltitudeEllipsoid;
pub use euler_angles::EulerAngles;
pub use lat_lon::LatLon;
pub use magnetic_field::MagneticField;
pub use packet_counter::PacketCounter;
pub use position_ecef::PositionEcef;
pub use rate_of_turn::RateOfTurn;
pub use sample_time_coarse::SampleTimeCoarse;
pub use sample_time_fine::SampleTimeFine;
pub use status_word::StatusWord;
pub use utc_time::{UtcTime, UtcTimeStatusFlags};
pub use velocity_xyz::VelocityXYZ;
