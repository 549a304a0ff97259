use fdc1004::BusWrite;
use fdc1004::ConfigureMeasurement;
use fdc1004::FDCConfiguration;
use fdc1004::MeasurementConfiguration;
use fdc1004::MemoryBus;
use fdc1004::TransportError;
use fdc1004::CHANNEL;
use fdc1004::FDC1004;

#[test]
fn measurement_is_assembled_from_msb_then_lsb_register() {
    let mut bus = MemoryBus::new();
    bus.set_register(0x00, 0x1234);
    bus.set_register(0x01, 0x5678);
    let mut dev = FDC1004::new(bus);

    assert_eq!(dev.read_measurement_1(), Ok(0x12345678));

    // Exactly two read transactions, MSB register first, and no writes.
    let bus = dev.bus;
    assert_eq!(bus.reads.len(), 2);
    assert_eq!(bus.reads[0].register, 0x00);
    assert_eq!(bus.reads[1].register, 0x01);
    assert!(bus.writes.is_empty());
}

#[test]
fn each_slot_reads_its_own_register_pair() {
    let mut bus = MemoryBus::new();
    bus.set_register(0x02, 0xAAAA);
    bus.set_register(0x03, 0x5500);
    bus.set_register(0x04, 0x0102);
    bus.set_register(0x05, 0x0304);
    bus.set_register(0x06, 0xFFFF);
    bus.set_register(0x07, 0xFF00);
    let mut dev = FDC1004::new(bus);

    assert_eq!(dev.read_measurement_2(), Ok(0xAAAA5500));
    assert_eq!(dev.read_measurement_3(), Ok(0x01020304));
    assert_eq!(dev.read_measurement_4(), Ok(0xFFFFFF00));
}

#[test]
fn identity_registers_read_the_documented_constants() {
    let mut bus = MemoryBus::new();
    bus.set_register(0xFE, 0x5449);
    bus.set_register(0xFF, 0x1004);
    let mut dev = FDC1004::new(bus);

    assert_eq!(dev.manufacturer_id(), Ok(0x5449));
    assert_eq!(dev.device_id(), Ok(0x1004));
}

#[test]
fn configure_measurement_issues_one_exact_write() {
    let mut dev = FDC1004::new(MemoryBus::new());
    let config = MeasurementConfiguration {
        channel_positive: CHANNEL::CIN2,
        channel_negative: CHANNEL::CIN4,
        offset_capacitance: 21,
    };

    assert_eq!(dev.configure_measurement(config, ConfigureMeasurement::Measurement2), Ok(()));

    // One write transaction: slot 2's configuration register, then the
    // encoded value 0x0175 in big-endian order.
    let bus = dev.bus;
    assert_eq!(bus.writes.len(), 1);
    assert_eq!(
        bus.writes[0],
        BusWrite { address: 80, register: 0x09, msb: 0x01, lsb: 0x75 },
    );
    assert!(bus.reads.is_empty());
}

#[test]
fn each_slot_writes_its_own_configuration_register() {
    let mut dev = FDC1004::new(MemoryBus::new());
    let config = MeasurementConfiguration {
        channel_positive: CHANNEL::CIN1,
        channel_negative: CHANNEL::CIN2,
        offset_capacitance: 0,
    };

    assert_eq!(dev.configure_measurement(config, ConfigureMeasurement::Measurement1), Ok(()));
    assert_eq!(dev.configure_measurement(config, ConfigureMeasurement::Measurement3), Ok(()));
    assert_eq!(dev.configure_measurement(config, ConfigureMeasurement::Measurement4), Ok(()));

    let bus = dev.bus;
    assert_eq!(bus.writes.len(), 3);
    assert_eq!(bus.writes[0].register, 0x08);
    assert_eq!(bus.writes[1].register, 0x0A);
    assert_eq!(bus.writes[2].register, 0x0B);
}

#[test]
fn set_configuration_writes_the_control_register() {
    let mut dev = FDC1004::new(MemoryBus::new());
    let config = FDCConfiguration {
        done_4: false,
        done_3: false,
        done_2: false,
        done_1: false,
        meas_4: false,
        meas_3: false,
        meas_2: false,
        meas_1: true,
        repeat: true,
        rate: 2,
        reset: false,
    };

    assert_eq!(dev.set_configuration(config), Ok(()));

    let bus = dev.bus;
    assert_eq!(bus.writes.len(), 1);
    assert_eq!(
        bus.writes[0],
        BusWrite { address: 80, register: 0x0C, msb: 0x01, lsb: 0xA0 },
    );
}

#[test]
fn get_configuration_decodes_the_control_register() {
    let mut bus = MemoryBus::new();
    // Hardware image: every done flag set, meas_1, repeat, rate 2.
    bus.set_register(0x0C, 0xF1A0);
    let mut dev = FDC1004::new(bus);

    let config = dev.get_configuration().unwrap();
    assert!(config.done_4 && config.done_3 && config.done_2 && config.done_1);
    assert!(config.meas_1 && !config.meas_2 && !config.meas_3 && !config.meas_4);
    assert!(config.repeat && !config.reset);
    assert_eq!(config.rate, 2);
}

#[test]
fn configuration_written_back_never_echoes_done_flags() {
    let mut bus = MemoryBus::new();
    bus.set_register(0x0C, 0xF1A0);
    let mut dev = FDC1004::new(bus);

    // Read-modify-write: the done flags the device reported must not appear
    // in the written payload.
    let config = dev.get_configuration().unwrap();
    assert_eq!(dev.set_configuration(config), Ok(()));

    let bus = dev.bus;
    assert_eq!(bus.writes.len(), 1);
    assert_eq!(bus.writes[0].msb & 0xF0, 0);
    assert_eq!(bus.writes[0].msb, 0x01);
    assert_eq!(bus.writes[0].lsb, 0xA0);
}

#[test]
fn failure_on_second_read_yields_transport_error() {
    let mut bus = MemoryBus::new();
    bus.set_register(0x00, 0x1234);
    bus.set_register(0x01, 0x5678);
    // The first transaction succeeds, every later one fails.
    bus.fail_transactions_from(1);
    let mut dev = FDC1004::new(bus);

    assert_eq!(dev.read_measurement_1(), Err(TransportError));

    // The partial first read surfaced no value and only one read is on record.
    let bus = dev.bus;
    assert_eq!(bus.reads.len(), 1);
}

#[test]
fn every_operation_propagates_a_transport_failure() {
    let mut bus = MemoryBus::new();
    bus.fail_transactions_from(0);
    let mut dev = FDC1004::new(bus);
    let meas = MeasurementConfiguration {
        channel_positive: CHANNEL::CIN1,
        channel_negative: CHANNEL::CIN2,
        offset_capacitance: 1,
    };
    let ctrl = FDCConfiguration {
        done_4: false,
        done_3: false,
        done_2: false,
        done_1: false,
        meas_4: false,
        meas_3: false,
        meas_2: false,
        meas_1: false,
        repeat: false,
        rate: 1,
        reset: false,
    };

    assert_eq!(dev.get_configuration(), Err(TransportError));
    assert_eq!(dev.set_configuration(ctrl), Err(TransportError));
    assert_eq!(dev.configure_measurement(meas, ConfigureMeasurement::Measurement1), Err(TransportError));
    assert_eq!(dev.read_measurement_1(), Err(TransportError));
    assert_eq!(dev.read_measurement_2(), Err(TransportError));
    assert_eq!(dev.read_measurement_3(), Err(TransportError));
    assert_eq!(dev.read_measurement_4(), Err(TransportError));
    assert_eq!(dev.manufacturer_id(), Err(TransportError));
    assert_eq!(dev.device_id(), Err(TransportError));
}

#[test]
fn written_configuration_reads_back() {
    let mut dev = FDC1004::new(MemoryBus::new());
    let config = MeasurementConfiguration {
        channel_positive: CHANNEL::CIN3,
        channel_negative: CHANNEL::CIN1,
        offset_capacitance: 7,
    };

    assert_eq!(dev.configure_measurement(config, ConfigureMeasurement::Measurement4), Ok(()));

    // The register file now holds the encoding in the slot's register.
    let bus = dev.bus;
    assert_eq!(bus.registers[0x0B], config.into_bits());
}
