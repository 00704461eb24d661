//! The driver state machine end to end: configuration, read-back,
//! idempotence, failure surfacing, sampling.

use buskit::ErrorCode;
use buskit::component::Lsm303StaticBuffer;
use buskit::component::Lsm303dlhcI2CComponent;
use buskit::grant::GrantRegistry;
use buskit::lsm303dlhc::ClientEvent;
use buskit::lsm303dlhc::Lsm303dlhcI2C;
use buskit::lsm303dlhc::SensorConfig;
use buskit::lsm303xx::AccelDataRate;
use buskit::lsm303xx::MagnetoDataRate;
use buskit::lsm303xx::Range;
use buskit::lsm303xx::Scale;
use buskit::lsm303xx::decode_cra;
use buskit::lsm303xx::decode_crb;
use buskit::lsm303xx::decode_ctrl1;
use buskit::lsm303xx::decode_ctrl4;
use buskit::mux::BusStatus;
use buskit::mux::Completion;
use buskit::mux::Mux;
use buskit::sim::RegisterDevice;

/// A board for one sensor: the shared mux, the grant table, the storage
/// set holding the wired driver, and a simulated register file per logical
/// device.
struct Bench {
    mux: Mux,
    cells: Lsm303StaticBuffer,
    accel_device: RegisterDevice,
    mag_device: RegisterDevice,
}

fn bench() -> Bench {
    let mut mux = Mux::new();
    let mut grants = GrantRegistry::new();
    let mut cells = Lsm303StaticBuffer::new();
    let component = Lsm303dlhcI2CComponent::new(None, None, 0x60);
    component.finalize(&mut cells, &mut mux, &mut grants).unwrap();
    Bench {
        mux,
        cells,
        accel_device: RegisterDevice::new(0x40),
        mag_device: RegisterDevice::new(0x40),
    }
}

/// Plays the hardware: performs the in-flight transaction against the
/// addressed register file (only on success, as a real device that NACKed
/// leaves its registers unmodified) and reports the outcome to the mux.
fn step_bus(bench: &mut Bench, status: BusStatus) -> Completion {
    let txn = bench.mux.current_transaction().expect("no transaction in flight");
    let answer = if matches!(status, BusStatus::Success) {
        let device = if txn.address == 0x19 {
            &mut bench.accel_device
        } else {
            &mut bench.mag_device
        };
        device.transact(txn.kind, &txn.data, txn.data.len(), txn.read_len)
    } else {
        Vec::new()
    };
    bench.mux.bus_complete(status, answer).expect("bus was idle")
}

/// Runs one completion through the driver, routing like a board's dispatch
/// loop would.
fn pump(bench: &mut Bench, status: BusStatus) -> Option<ClientEvent> {
    let completion = step_bus(bench, status);
    let driver = bench.cells.lsm303dlhc.borrow_mut();
    assert!(driver.owns_device(completion.dev));
    driver.handle_completion(&mut bench.mux, completion)
}

fn sample_config() -> SensorConfig {
    SensorConfig {
        accel_data_rate: AccelDataRate::DataRate25Hz,
        low_power: false,
        scale: Scale::Scale2G,
        high_resolution: false,
        mag_data_rate: MagnetoDataRate::DataRate3_0Hz,
        range: Range::Range4_7G,
    }
}

fn registers(device: &RegisterDevice) -> Vec<u8> {
    let mut all = Vec::new();
    for i in 0..0x40 {
        all.push(device.register(i));
    }
    all
}

#[test]
fn configuration_round_trips() {
    let mut bench = bench();
    let config = sample_config();
    bench.cells.lsm303dlhc.borrow_mut().configure(&mut bench.mux, config).unwrap();
    // Accelerometer burst, then magnetometer burst, each awaited.
    assert_eq!(pump(&mut bench, BusStatus::Success), None);
    assert_eq!(
        pump(&mut bench, BusStatus::Success),
        Some(ClientEvent::ConfigurationDone { ok: true })
    );
    // Read-back yields exactly the rate and scale that were configured.
    let driver: &Lsm303dlhcI2C = bench.cells.lsm303dlhc.borrow();
    assert_eq!(driver.get_configuration(), Some(config));
    assert_eq!(bench.accel_device.register(0x20), 0x37);
    assert_eq!(
        decode_ctrl1(bench.accel_device.register(0x20)),
        Some((AccelDataRate::DataRate25Hz, false))
    );
    assert_eq!(decode_ctrl4(bench.accel_device.register(0x23)), Some((Scale::Scale2G, false)));
    assert_eq!(decode_cra(bench.mag_device.register(0x00)), Some(MagnetoDataRate::DataRate3_0Hz));
    assert_eq!(decode_crb(bench.mag_device.register(0x01)), Some(Range::Range4_7G));
    assert!(bench.mux.is_idle());
}

#[test]
fn configuring_twice_is_idempotent() {
    let mut bench = bench();
    let config = sample_config();
    bench.cells.lsm303dlhc.borrow_mut().configure(&mut bench.mux, config).unwrap();
    assert_eq!(pump(&mut bench, BusStatus::Success), None);
    let first_done = pump(&mut bench, BusStatus::Success);
    assert_eq!(first_done, Some(ClientEvent::ConfigurationDone { ok: true }));
    let accel_after_first = registers(&bench.accel_device);
    let mag_after_first = registers(&bench.mag_device);
    // The same configuration again: the device ends in the same state and
    // a second, independent success completion is reported.
    bench.cells.lsm303dlhc.borrow_mut().configure(&mut bench.mux, config).unwrap();
    assert_eq!(pump(&mut bench, BusStatus::Success), None);
    let second_done = pump(&mut bench, BusStatus::Success);
    assert_eq!(second_done, Some(ClientEvent::ConfigurationDone { ok: true }));
    assert_eq!(registers(&bench.accel_device), accel_after_first);
    assert_eq!(registers(&bench.mag_device), mag_after_first);
    assert_eq!(bench.cells.lsm303dlhc.borrow().get_configuration(), Some(config));
}

#[test]
fn nack_on_configuration_write_surfaces_failure_without_partial_state() {
    let mut bench = bench();
    let config = sample_config();
    bench.cells.lsm303dlhc.borrow_mut().configure(&mut bench.mux, config).unwrap();
    // The accelerometer NACKs the very first configuration write: the
    // failure reaches the upstream client, the data-rate register keeps
    // its prior value, and no configuration is cached.
    assert_eq!(
        pump(&mut bench, BusStatus::AddressNak),
        Some(ClientEvent::ConfigurationDone { ok: false })
    );
    assert_eq!(bench.accel_device.register(0x20), 0x00);
    assert_eq!(bench.mag_device.register(0x00), 0x00);
    assert_eq!(bench.cells.lsm303dlhc.borrow().get_configuration(), None);
    assert!(bench.mux.is_idle());
    // The driver is idle again and a retry can succeed.
    bench.cells.lsm303dlhc.borrow_mut().configure(&mut bench.mux, config).unwrap();
    assert_eq!(pump(&mut bench, BusStatus::Success), None);
    assert_eq!(
        pump(&mut bench, BusStatus::Success),
        Some(ClientEvent::ConfigurationDone { ok: true })
    );
}

#[test]
fn nack_on_magnetometer_burst_keeps_cached_config_unchanged() {
    let mut bench = bench();
    let config = sample_config();
    bench.cells.lsm303dlhc.borrow_mut().configure(&mut bench.mux, config).unwrap();
    assert_eq!(pump(&mut bench, BusStatus::Success), None);
    assert_eq!(
        pump(&mut bench, BusStatus::DataNak),
        Some(ClientEvent::ConfigurationDone { ok: false })
    );
    // The sequence did not complete: nothing is cached as applied.
    assert_eq!(bench.cells.lsm303dlhc.borrow().get_configuration(), None);
    assert_eq!(bench.mag_device.register(0x00), 0x00);
}

#[test]
fn configure_while_busy_is_rejected() {
    let mut bench = bench();
    let config = sample_config();
    bench.cells.lsm303dlhc.borrow_mut().configure(&mut bench.mux, config).unwrap();
    let second = bench.cells.lsm303dlhc.borrow_mut().configure(&mut bench.mux, config);
    assert_eq!(second, Err(ErrorCode::Busy));
}

#[test]
fn acceleration_sample_is_decoded_and_reported() {
    let mut bench = bench();
    // Preload the six output registers: x = -1, y = 0x1234, z = -32768,
    // little-endian low byte first, starting at register 0x28.
    let preload = vec![0xa8, 0xff, 0xff, 0x34, 0x12, 0x00, 0x80];
    bench.accel_device.transact(buskit::mux::OpKind::Write, &preload, 7, 0);
    bench.cells.lsm303dlhc.borrow_mut().read_acceleration(&mut bench.mux).unwrap();
    let event = pump(&mut bench, BusStatus::Success);
    assert_eq!(
        event,
        Some(ClientEvent::Acceleration { ok: true, x: -1, y: 0x1234, z: -32768 })
    );
    assert!(bench.mux.is_idle());
}

#[test]
fn magnetic_field_is_decoded_high_byte_first_in_x_z_y_order() {
    let mut bench = bench();
    // Registers 0x03..0x08 hold X, Z, Y, each high byte first:
    // x = 0x0102, z = -2 (0xfffe), y = 0x7fff.
    let preload = vec![0x83, 0x01, 0x02, 0xff, 0xfe, 0x7f, 0xff];
    bench.mag_device.transact(buskit::mux::OpKind::Write, &preload, 7, 0);
    bench.cells.lsm303dlhc.borrow_mut().read_magnetic_field(&mut bench.mux).unwrap();
    let event = pump(&mut bench, BusStatus::Success);
    assert_eq!(
        event,
        Some(ClientEvent::MagneticField { ok: true, x: 0x0102, y: 0x7fff, z: -2 })
    );
    assert!(bench.mux.is_idle());
}

#[test]
fn failed_field_read_is_reported_as_failure() {
    let mut bench = bench();
    bench.cells.lsm303dlhc.borrow_mut().read_magnetic_field(&mut bench.mux).unwrap();
    let event = pump(&mut bench, BusStatus::AddressNak);
    assert_eq!(event, Some(ClientEvent::MagneticField { ok: false, x: 0, y: 0, z: 0 }));
}

#[test]
fn failed_sample_read_is_reported_as_failure() {
    let mut bench = bench();
    bench.cells.lsm303dlhc.borrow_mut().read_acceleration(&mut bench.mux).unwrap();
    let event = pump(&mut bench, BusStatus::ArbitrationLost);
    assert_eq!(event, Some(ClientEvent::Acceleration { ok: false, x: 0, y: 0, z: 0 }));
    // Idle again: the buffer came home and a retry is accepted.
    assert_eq!(bench.cells.lsm303dlhc.borrow_mut().read_acceleration(&mut bench.mux), Ok(()));
}

#[test]
fn client_registration_is_last_writer_wins() {
    let mut bench = bench();
    let driver = bench.cells.lsm303dlhc.borrow_mut();
    driver.set_client(3);
    driver.set_client(4);
    assert_eq!(driver.registered_client(), Some(4));
}
