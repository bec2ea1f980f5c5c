//! The typed command and data messages of the protocol, tied to frames
//! through the message traits.

pub mod go_to_config;
pub mod go_to_measurement;
pub mod mtdata2;
pub mod set_output_config;

pub use go_to_config::{GoToConfig, GoToConfigAck};
pub use go_to_measurement::{GoToMeasurement, GoToMeasurementAck};
pub use mtdata2::MTData2;
pub use set_output_config::{
    SetOutputConfiguration,
    SetOutputConfigurationAck,
    TooManyOutputConifgurations,
};
