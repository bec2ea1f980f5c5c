use xsens_mti::wire::data_id::{CoordinateSystem, DataId, DataType, Precision};
use xsens_mti::wire::output_config::{
    OutputConfiguration, OutputFrequency, WireOutputConfiguration, WireOutputConfigurationIterator,
};
use xsens_mti::wire::WireError;

static WIRE_BYTES: [u8; 4] = [0x40, 0x20, 0x01, 0x90];

static SEQ_BYTES: [u8; 16] = [
    0x10, 0x20, 0xFF, 0xFF,
    0x10, 0x60, 0xFF, 0xFF,
    0x20, 0x10, 0x00, 0x64,
    0x40, 0x20, 0x01, 0x90,
];

#[test]
fn output_config_buffer_len() {
    assert_eq!(WireOutputConfiguration::buffer_len(), 4);
    assert_eq!(WireOutputConfiguration::WIRE_SIZE, 4);
}

#[test]
fn output_config_construct() {
    let bytes = [0xFF_u8; 4];
    let mut w = WireOutputConfiguration::new_unchecked(bytes.to_vec());
    assert_eq!(w.check_len(), Ok(()));
    w.set_output_configuration(OutputConfiguration::new(
        DataId::new(DataType::Acceleration, Precision::Float32, CoordinateSystem::Enu),
        OutputFrequency(400),
    ));
    assert_eq!(&w.into_inner()[..], &WIRE_BYTES[..]);
}

#[test]
fn output_config_deconstruct() {
    let w = WireOutputConfiguration::new(WIRE_BYTES.to_vec()).unwrap();
    assert_eq!(
        w.output_configuration(),
        OutputConfiguration::new(
            DataId::new(DataType::Acceleration, Precision::Float32, CoordinateSystem::Enu),
            OutputFrequency(400),
        )
    );
}

#[test]
fn output_config_missing_bytes() {
    let bytes = [0xFF_u8; 4 - 1];
    assert_eq!(bytes.len(), WireOutputConfiguration::buffer_len() - 1);
    let w = WireOutputConfiguration::new(bytes.to_vec());
    assert_eq!(w.unwrap_err(), WireError::MissingBytes);
}

#[test]
fn seq_iter() {
    let expected = [
        OutputConfiguration::new(
            DataId::from_data_type(DataType::PacketCounter),
            OutputFrequency::max_frequency(),
        ),
        OutputConfiguration::new(
            DataId::from_data_type(DataType::SampleTimeFine),
            OutputFrequency::max_frequency(),
        ),
        OutputConfiguration::new(
            DataId::from_data_type(DataType::Quaternion),
            OutputFrequency(100),
        ),
        OutputConfiguration::new(
            DataId::from_data_type(DataType::Acceleration),
            OutputFrequency(400),
        ),
    ];
    let s = WireOutputConfigurationIterator::new(SEQ_BYTES.to_vec());
    for (a, b) in s.iter().iter().zip(expected.iter()) {
        assert_eq!(a, b);
    }
    assert_eq!(s.iter().len(), expected.len());
}
