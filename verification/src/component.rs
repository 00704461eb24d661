//! The static component-construction protocol, exemplified by the
//! LSM303DLHC driver component.
//!
//! Board-assembly code creates the write-once storage cells
//! ([`Lsm303StaticBuffer`]), describes the driver with
//! [`Lsm303dlhcI2CComponent::new`] (addresses fall back to the documented
//! defaults when unspecified), and calls
//! [`Lsm303dlhcI2CComponent::finalize`] exactly once. Finalize consumes the
//! component description, mints the capability token, reserves the grant,
//! constructs two device handles bound to the shared mux, wires each
//! handle's completion routing to the driver's number, builds the driver
//! state machine over them, and writes everything into the storage cells.
//!
//! Construction is one-shot twice over: the component value is consumed, so
//! the same description cannot be finalized twice; and a storage set or a
//! driver number that is already taken makes `finalize` fail
//! deterministically with [`ErrorCode::Already`] before anything is mutated
//! ([`lemma_finalize_one_shot`]). Assembly code must treat that error as a
//! fatal assembly bug, not a runtime condition.

use vstd::prelude::*;
use vstd::pervasive::unreached;

verus! {

use crate::ErrorCode;
use crate::capability::CapabilityToken;
use crate::grant::GrantRegistry;
use crate::lsm303dlhc::Lsm303dlhcI2C;
use crate::lsm303xx::ACCELEROMETER_BASE_ADDRESS;
use crate::lsm303xx::MAGNETOMETER_BASE_ADDRESS;
use crate::mux::DeviceHandle;
use crate::mux::Mux;
use crate::mux::MuxDevice;
use crate::storage::StorageCell;

/// The storage set for one LSM303DLHC driver instance: one cell per
/// long-lived object the component constructs. The driver's 8-byte scratch
/// buffer lives inside the driver cell, owned by the state machine.
pub struct Lsm303StaticBuffer {
    /// Room for the accelerometer's device handle.
    pub accelerometer_i2c: StorageCell<DeviceHandle>,
    /// Room for the magnetometer's device handle.
    pub magnetometer_i2c: StorageCell<DeviceHandle>,
    /// Room for the driver state machine itself.
    pub lsm303dlhc: StorageCell<Lsm303dlhcI2C>,
}

impl Lsm303StaticBuffer {
    /// No cell has been written yet.
    pub open spec fn all_uninitialized(&self) -> bool {
        &&& !self.accelerometer_i2c.is_initialized()
        &&& !self.magnetometer_i2c.is_initialized()
        &&& !self.lsm303dlhc.is_initialized()
    }

    /// Every cell has been written.
    pub open spec fn all_initialized(&self) -> bool {
        &&& self.accelerometer_i2c.is_initialized()
        &&& self.magnetometer_i2c.is_initialized()
        &&& self.lsm303dlhc.is_initialized()
    }

    /// A fresh storage set, reserved by the board before assembly.
    pub fn new() -> (static_buffer: Lsm303StaticBuffer)
        ensures
            static_buffer.all_uninitialized(),
    {
        Lsm303StaticBuffer {
            accelerometer_i2c: StorageCell::new(),
            magnetometer_i2c: StorageCell::new(),
            lsm303dlhc: StorageCell::new(),
        }
    }
}

/// When `finalize` succeeds: every storage cell is still unwritten and the
/// driver number has no grant yet.
pub open spec fn finalize_accepts(
    static_buffer: Lsm303StaticBuffer,
    grants: GrantRegistry,
    driver_num: usize,
) -> bool {
    &&& static_buffer.all_uninitialized()
    &&& !grants.contains_driver(driver_num)
}

/// Description of one LSM303DLHC driver instance: where its two logical
/// devices sit on the bus and the number it registers under.
pub struct Lsm303dlhcI2CComponent {
    accelerometer_i2c_address: u8,
    magnetometer_i2c_address: u8,
    driver_num: usize,
}

impl Lsm303dlhcI2CComponent {
    /// The accelerometer's bus address.
    pub closed spec fn accel_address(&self) -> u8 {
        self.accelerometer_i2c_address
    }

    /// The magnetometer's bus address.
    pub closed spec fn mag_address(&self) -> u8 {
        self.magnetometer_i2c_address
    }

    /// The driver registration number the grant is keyed by.
    pub closed spec fn spec_driver_num(&self) -> usize {
        self.driver_num
    }

    /// Describes a driver instance. A missing address falls back to the
    /// documented default for that logical device.
    pub fn new(
        accelerometer_i2c_address: Option<u8>,
        magnetometer_i2c_address: Option<u8>,
        driver_num: usize,
    ) -> (component: Lsm303dlhcI2CComponent)
        ensures
            component.accel_address() == (match accelerometer_i2c_address {
                Some(address) => address,
                None => ACCELEROMETER_BASE_ADDRESS,
            }),
            component.mag_address() == (match magnetometer_i2c_address {
                Some(address) => address,
                None => MAGNETOMETER_BASE_ADDRESS,
            }),
            component.spec_driver_num() == driver_num,
    {
        Lsm303dlhcI2CComponent {
            accelerometer_i2c_address: accelerometer_i2c_address.unwrap_or(
                ACCELEROMETER_BASE_ADDRESS,
            ),
            magnetometer_i2c_address: magnetometer_i2c_address.unwrap_or(
                MAGNETOMETER_BASE_ADDRESS,
            ),
            driver_num,
        }
    }

    /// Builds the driver from the storage set: mints the capability token,
    /// reserves the grant, attaches both device handles to the shared mux,
    /// routes their completions to this driver's number, and writes the
    /// wired driver into its cell, idle and ready for a client. Consuming
    /// `self` makes a second finalize of the same description
    /// unrepresentable; a used storage set or taken driver number fails
    /// deterministically, before anything is mutated.
    pub fn finalize(
        self,
        static_buffer: &mut Lsm303StaticBuffer,
        mux: &mut Mux,
        grants: &mut GrantRegistry,
    ) -> (result: Result<(), ErrorCode>)
        requires
            old(mux).wf(),
            old(grants).wf(),
        ensures
            final(mux).wf(),
            final(grants).wf(),
            result is Ok <==> finalize_accepts(
                *old(static_buffer),
                *old(grants),
                self.spec_driver_num(),
            ),
            result is Err ==> *final(static_buffer) == *old(static_buffer) && *final(mux) == *old(
                mux,
            ) && *final(grants) == *old(grants) && result == Result::<(), ErrorCode>::Err(
                ErrorCode::Already,
            ),
            result is Ok ==> ({
                let driver = final(static_buffer).lsm303dlhc.value();
                &&& final(static_buffer).all_initialized()
                &&& driver.inv()
                &&& driver.spec_state() is Idle
                &&& driver.config() is None
                &&& driver.spec_client() is None
                &&& driver.accel().spec_id() == old(mux).devs().len()
                &&& driver.accel().spec_address() == self.accel_address()
                &&& driver.mag().spec_id() == old(mux).devs().len() + 1
                &&& driver.mag().spec_address() == self.mag_address()
                &&& driver.spec_grant().spec_driver_num() == self.spec_driver_num()
                &&& driver.spec_grant().spec_region() == old(grants).entries().len()
                &&& final(static_buffer).accelerometer_i2c.value() == driver.accel()
                &&& final(static_buffer).magnetometer_i2c.value() == driver.mag()
                &&& final(grants).entries() == old(grants).entries().push(driver.spec_grant())
                &&& final(mux).devs() == old(mux).devs().push(
                    (MuxDevice {
                        address: self.accel_address(),
                        client: Some(self.spec_driver_num()),
                        busy: false,
                    }),
                ).push(
                    (MuxDevice {
                        address: self.mag_address(),
                        client: Some(self.spec_driver_num()),
                        busy: false,
                    }),
                )
                &&& final(mux).current() == old(mux).current()
                &&& final(mux).pending() == old(mux).pending()
            }),
    {
        if static_buffer.accelerometer_i2c.is_init() || static_buffer.magnetometer_i2c.is_init()
            || static_buffer.lsm303dlhc.is_init() {
            return Err(ErrorCode::Already);
        }
        let grant_capability = CapabilityToken::create_capability();
        let grant = match grants.create_grant(self.driver_num, &grant_capability) {
            Ok(grant) => grant,
            Err(_) => {
                return Err(ErrorCode::Already);
            },
        };
        let accelerometer_i2c = mux.attach_device(self.accelerometer_i2c_address);
        let magnetometer_i2c = mux.attach_device(self.magnetometer_i2c_address);
        mux.set_client(&accelerometer_i2c, self.driver_num);
        mux.set_client(&magnetometer_i2c, self.driver_num);
        proof {
            assert(mux.devs() =~= old(mux).devs().push(
                (MuxDevice {
                    address: self.accel_address(),
                    client: Some(self.spec_driver_num()),
                    busy: false,
                }),
            ).push(
                (MuxDevice {
                    address: self.mag_address(),
                    client: Some(self.spec_driver_num()),
                    busy: false,
                }),
            ));
        }
        let mut buffer: Vec<u8> = Vec::new();
        let mut i: usize = 0;
        while i < 8
            invariant
                i <= 8,
                buffer@.len() == i,
            decreases 8 - i,
        {
            buffer.push(0);
            i += 1;
        }
        let driver = Lsm303dlhcI2C::new(accelerometer_i2c, magnetometer_i2c, buffer, grant);
        match static_buffer.accelerometer_i2c.initialize(accelerometer_i2c) {
            Ok(()) => {},
            Err(_) => unreached(),
        }
        match static_buffer.magnetometer_i2c.initialize(magnetometer_i2c) {
            Ok(()) => {},
            Err(_) => unreached(),
        }
        match static_buffer.lsm303dlhc.initialize(driver) {
            Ok(()) => {},
            Err(_) => unreached(),
        }
        Ok(())
    }
}

/// One-shot construction: a storage set that a successful finalize has
/// already filled — or a driver number that already holds a grant — can
/// never satisfy finalize's acceptance condition again, so a second attempt
/// fails deterministically.
pub proof fn lemma_finalize_one_shot(
    static_buffer: Lsm303StaticBuffer,
    grants: GrantRegistry,
    driver_num: usize,
)
    requires
        static_buffer.all_initialized() || grants.contains_driver(driver_num),
    ensures
        !finalize_accepts(static_buffer, grants, driver_num),
{
}

} // verus!
