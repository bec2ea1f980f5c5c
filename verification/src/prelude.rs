//! The most commonly used items of the crate under one import.

pub use crate::decoder::Decoder;
pub use crate::message::{
    BusId,
    Frame,
    FrameError,
    MessageDecode,
    MessageEncode,
    MessageExt,
    MessageId,
    PayloadLength,
};
pub use crate::messages::{
    GoToConfig,
    GoToConfigAck,
    GoToMeasurement,
    GoToMeasurementAck,
    MTData2,
    SetOutputConfiguration,
    SetOutputConfigurationAck,
};
pub use crate::mtdata2::{
    Acceleration,
    AltitudeEllipsoid,
    EulerAngles,
    LatLon,
    MagneticField,
    PacketCounter,
    PositionEcef,
    RateOfTurn,
    SampleTimeCoarse,
    SampleTimeFine,
    StatusWord,
    UtcTime,
    VelocityXYZ,
};
pub use crate::precision::{Float32Bits, Float64Bits, PrecisionExt};
pub use crate::wire::{CoordinateSystem, DataId, DataType, Precision, WireError};
