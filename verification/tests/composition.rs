//! One-shot construction, storage cells and the capability-gated grant
//! registry.

use buskit::ErrorCode;
use buskit::capability::CapabilityToken;
use buskit::component::Lsm303StaticBuffer;
use buskit::component::Lsm303dlhcI2CComponent;
use buskit::grant::GrantRegistry;
use buskit::mux::Mux;
use buskit::storage::StorageCell;

#[test]
fn storage_cell_initializes_once() {
    let mut cell: StorageCell<u32> = StorageCell::new();
    assert!(!cell.is_init());
    assert_eq!(cell.initialize(41), Ok(()));
    assert!(cell.is_init());
    assert_eq!(*cell.borrow(), 41);
    // The second write fails deterministically and hands the value back.
    assert_eq!(cell.initialize(99), Err(99));
    assert_eq!(*cell.borrow(), 41);
}

#[test]
fn storage_cell_borrow_mut_keeps_value_live() {
    let mut cell: StorageCell<u32> = StorageCell::new();
    cell.initialize(7).unwrap();
    *cell.borrow_mut() += 1;
    assert_eq!(*cell.borrow(), 8);
    assert!(cell.is_init());
}

#[test]
fn grant_requires_token_and_is_exclusive() {
    let mut grants = GrantRegistry::new();
    let token = CapabilityToken::create_capability();
    let first = grants.create_grant(4, &token).unwrap();
    assert_eq!(first.driver_num(), 4);
    assert_eq!(first.region(), 0);
    // A second request for the same driver number fails; it never returns
    // a different handle.
    assert_eq!(grants.create_grant(4, &token), Err(ErrorCode::Already));
    assert_eq!(grants.len(), 1);
    // Lookup is deterministic and returns the one handle created.
    assert_eq!(grants.lookup(4), Some(first));
    assert_eq!(grants.lookup(5), None);
    let second = grants.create_grant(5, &token).unwrap();
    assert_eq!(second.region(), 1);
    assert_eq!(grants.lookup(4), Some(first));
    assert_eq!(grants.lookup(5), Some(second));
}

#[test]
fn finalize_wires_driver_with_default_addresses() {
    let mut mux = Mux::new();
    let mut grants = GrantRegistry::new();
    let mut cells = Lsm303StaticBuffer::new();
    let component = Lsm303dlhcI2CComponent::new(None, None, 0x60);
    assert_eq!(component.finalize(&mut cells, &mut mux, &mut grants), Ok(()));
    let accel = cells.accelerometer_i2c.borrow();
    let mag = cells.magnetometer_i2c.borrow();
    assert_eq!(accel.address(), 0x19);
    assert_eq!(mag.address(), 0x1e);
    assert_ne!(accel.id(), mag.id());
    let driver = cells.lsm303dlhc.borrow();
    assert_eq!(driver.get_configuration(), None);
    assert_eq!(driver.registered_client(), None);
    assert!(driver.owns_device(accel.id()));
    assert!(driver.owns_device(mag.id()));
    assert!(grants.lookup(0x60).is_some());
}

#[test]
fn finalize_honors_supplied_addresses() {
    let mut mux = Mux::new();
    let mut grants = GrantRegistry::new();
    let mut cells = Lsm303StaticBuffer::new();
    let component = Lsm303dlhcI2CComponent::new(Some(0x30), Some(0x31), 9);
    assert_eq!(component.finalize(&mut cells, &mut mux, &mut grants), Ok(()));
    assert_eq!(cells.accelerometer_i2c.borrow().address(), 0x30);
    assert_eq!(cells.magnetometer_i2c.borrow().address(), 0x31);
}

#[test]
fn finalize_is_one_shot_per_storage_set() {
    let mut mux = Mux::new();
    let mut grants = GrantRegistry::new();
    let mut cells = Lsm303StaticBuffer::new();
    let first = Lsm303dlhcI2CComponent::new(None, None, 0x60);
    assert_eq!(first.finalize(&mut cells, &mut mux, &mut grants), Ok(()));
    // A second finalize over the same storage set fails deterministically,
    // whatever driver number it asks for.
    let again = Lsm303dlhcI2CComponent::new(None, None, 0x61);
    assert_eq!(again.finalize(&mut cells, &mut mux, &mut grants), Err(ErrorCode::Already));
    let devices_before = mux.is_idle();
    assert!(devices_before);
}

#[test]
fn finalize_rejects_taken_driver_number() {
    let mut mux = Mux::new();
    let mut grants = GrantRegistry::new();
    let mut cells = Lsm303StaticBuffer::new();
    let first = Lsm303dlhcI2CComponent::new(None, None, 0x60);
    assert_eq!(first.finalize(&mut cells, &mut mux, &mut grants), Ok(()));
    // Fresh cells, but the driver number already holds a grant: nothing is
    // mutated, and in particular no half-attached device handles remain.
    let mut other_cells = Lsm303StaticBuffer::new();
    let clash = Lsm303dlhcI2CComponent::new(None, None, 0x60);
    assert_eq!(clash.finalize(&mut other_cells, &mut mux, &mut grants), Err(ErrorCode::Already));
    assert!(!other_cells.accelerometer_i2c.is_init());
    assert!(!other_cells.lsm303dlhc.is_init());
    assert_eq!(grants.len(), 1);
}
