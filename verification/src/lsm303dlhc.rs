//! The dual-sensor driver state machine.
//!
//! [`Lsm303dlhcI2C`] drives an LSM303DLHC-style chip: two logical devices
//! (accelerometer and magnetometer) behind two [`DeviceHandle`]s on one
//! shared mux, with a single 8-byte scratch buffer. The buffer is owned by
//! whichever transaction is in flight: it leaves the driver when a request
//! is issued and comes back in the completion, so two transactions can never
//! write it concurrently.
//!
//! The driver never polls; it advances only when a completion is handed to
//! [`Lsm303dlhcI2C::handle_completion`]. Configuration runs
//! `Idle -> ConfiguringAccel -> ConfiguringMag -> Idle`: one register burst
//! to the accelerometer (control registers 1 through 4), then one to the
//! magnetometer (registers A and B), each issued only after the previous
//! one completed. Sampling runs `Idle -> ReadingAccel -> Idle`: issue the
//! read, await completion, decode, report. On the final completion of a
//! sequence the driver reports to its registered upstream client with a
//! success or failure status; a bus failure is surfaced, not retried, and
//! the cached configuration is updated only when the whole sequence
//! succeeded.
//!
//! Client registration is last-writer-wins: a second `set_client` replaces
//! the first. This supports re-parenting while the component is being
//! assembled and must not be relied on afterwards.

use vstd::prelude::*;
use vstd::pervasive::unreached;

verus! {

use crate::ErrorCode;
use crate::grant::GrantHandle;
use crate::lsm303xx::AUTO_INCREMENT;
use crate::lsm303xx::AccelDataRate;
use crate::lsm303xx::CRA_REG_M;
use crate::lsm303xx::CRB_REG_M;
use crate::lsm303xx::CTRL_REG1_A;
use crate::lsm303xx::CTRL_REG4_A;
use crate::lsm303xx::MagnetoDataRate;
use crate::lsm303xx::OUT_X_H_M;
use crate::lsm303xx::OUT_X_L_A;
use crate::lsm303xx::Range;
use crate::lsm303xx::Scale;
use crate::lsm303xx::encode_cra;
use crate::lsm303xx::encode_crb;
use crate::lsm303xx::encode_ctrl1;
use crate::lsm303xx::encode_ctrl4;
use crate::lsm303xx::lemma_cra_round_trip;
use crate::lsm303xx::lemma_crb_round_trip;
use crate::lsm303xx::lemma_ctrl1_round_trip;
use crate::lsm303xx::lemma_ctrl4_round_trip;
use crate::lsm303xx::spec_decode_cra;
use crate::lsm303xx::spec_decode_crb;
use crate::lsm303xx::spec_decode_ctrl1;
use crate::lsm303xx::spec_decode_ctrl4;
use crate::lsm303xx::spec_encode_cra;
use crate::lsm303xx::spec_encode_crb;
use crate::lsm303xx::spec_encode_ctrl1;
use crate::lsm303xx::spec_encode_ctrl4;
use crate::mux::BusStatus;
use crate::mux::Completion;
use crate::mux::DeviceHandle;
use crate::mux::Mux;
use crate::mux::MuxDevice;
use crate::mux::MuxRequest;
use crate::mux::OpKind;
use crate::sim::lemma_apply_write_idempotent;
use crate::sim::spec_apply_write;

/// One complete sensor configuration: data rates, scale and range.
#[derive(Clone, Copy, Debug, PartialEq, Eq, Structural)]
pub struct SensorConfig {
    /// Accelerometer output data rate.
    pub accel_data_rate: AccelDataRate,
    /// Accelerometer low-power mode.
    pub low_power: bool,
    /// Accelerometer full-scale selection.
    pub scale: Scale,
    /// Accelerometer high-resolution mode.
    pub high_resolution: bool,
    /// Magnetometer output data rate.
    pub mag_data_rate: MagnetoDataRate,
    /// Magnetometer gain.
    pub range: Range,
}

/// Where the driver's protocol stands.
#[derive(Clone, Copy, Debug, PartialEq, Eq, Structural)]
pub enum State {
    /// No transaction outstanding; the driver holds its scratch buffer.
    Idle,
    /// The accelerometer configuration burst is outstanding.
    ConfiguringAccel,
    /// The magnetometer configuration burst is outstanding.
    ConfiguringMag,
    /// An accelerometer sample read is outstanding.
    ReadingAccel,
    /// A magnetometer sample read is outstanding.
    ReadingMag,
}

/// What the driver reports upward to its registered client.
#[derive(Clone, Copy, Debug, PartialEq, Eq, Structural)]
pub enum ClientEvent {
    /// A configuration sequence finished, successfully or not.
    ConfigurationDone { ok: bool },
    /// A sample read finished; the axes are valid only when `ok` holds.
    Acceleration { ok: bool, x: i32, y: i32, z: i32 },
    /// A field read finished; the axes are valid only when `ok` holds.
    MagneticField { ok: bool, x: i32, y: i32, z: i32 },
}

/// The accelerometer configuration burst: starting register, then control
/// registers 1 through 4 (2 and 3 keep their reset value of zero).
pub open spec fn spec_accel_config_bytes(config: SensorConfig) -> Seq<u8> {
    seq![
        CTRL_REG1_A | AUTO_INCREMENT,
        spec_encode_ctrl1(config.accel_data_rate, config.low_power),
        0u8,
        0u8,
        spec_encode_ctrl4(config.scale, config.high_resolution),
    ]
}

/// The magnetometer configuration burst: starting register, then registers
/// A and B.
pub open spec fn spec_mag_config_bytes(config: SensorConfig) -> Seq<u8> {
    seq![
        CRA_REG_M | AUTO_INCREMENT,
        spec_encode_cra(config.mag_data_rate),
        spec_encode_crb(config.range),
    ]
}

/// The sample-read request: select the first output register with
/// auto-increment, then read the six axis bytes.
pub open spec fn spec_sample_request_bytes() -> Seq<u8> {
    seq![OUT_X_L_A | AUTO_INCREMENT]
}

/// The field-read request: select the magnetometer's first output register
/// with auto-increment, then read the six axis bytes.
pub open spec fn spec_field_request_bytes() -> Seq<u8> {
    seq![OUT_X_H_M | AUTO_INCREMENT]
}

/// The signed 16-bit sample encoded little-endian by two output registers.
pub open spec fn spec_sample(low: u8, high: u8) -> int {
    let raw = high * 256 + low;
    if raw >= 32768 {
        raw - 65536
    } else {
        raw as int
    }
}

/// Decodes one little-endian signed 16-bit sample.
pub fn decode_sample(low: u8, high: u8) -> (value: i32)
    ensures
        value as int == spec_sample(low, high),
{
    let raw: i32 = (high as i32) * 256 + (low as i32);
    if raw >= 32768 {
        raw - 65536
    } else {
        raw
    }
}

/// A request carrying `bytes` in the first `write_len` slots of the
/// driver's 8-byte scratch buffer.
pub open spec fn request_matches(
    request: MuxRequest,
    dev: usize,
    kind: OpKind,
    bytes: Seq<u8>,
    write_len: int,
    read_len: int,
) -> bool {
    &&& request.dev == dev
    &&& request.kind == kind
    &&& request.write_len == write_len
    &&& request.read_len == read_len
    &&& request.buf@.len() == 8
    &&& request.buf@.take(write_len) == bytes
}

/// How a mux changes when the driver gets such a request accepted: the
/// device is marked busy and the request either takes the free bus or joins
/// the tail of the queue.
pub open spec fn issued(
    pre: Mux,
    post: Mux,
    dev: usize,
    kind: OpKind,
    bytes: Seq<u8>,
    write_len: int,
    read_len: int,
) -> bool {
    &&& post.devs() == pre.devs().update(
        dev as int,
        (MuxDevice { busy: true, ..pre.devs()[dev as int] }),
    )
    &&& (pre.current() is None ==> (post.current() matches Some(q) && request_matches(
        q,
        dev,
        kind,
        bytes,
        write_len,
        read_len,
    )) && post.pending() == pre.pending())
    &&& (pre.current() is Some ==> post.current() == pre.current() && post.pending().len()
        == pre.pending().len() + 1 && post.pending().drop_last() == pre.pending()
        && request_matches(post.pending().last(), dev, kind, bytes, write_len, read_len))
}

/// What a successful accelerometer configuration burst leaves in the
/// accelerometer's register file.
pub open spec fn accel_regs_after_config(registers: Seq<u8>, config: SensorConfig) -> Seq<u8> {
    spec_apply_write(registers, spec_accel_config_bytes(config), 5)
}

/// What a successful magnetometer configuration burst leaves in the
/// magnetometer's register file.
pub open spec fn mag_regs_after_config(registers: Seq<u8>, config: SensorConfig) -> Seq<u8> {
    spec_apply_write(registers, spec_mag_config_bytes(config), 3)
}

/// Configuration round trip at the device: after the two bursts for data
/// rate `R` and scale `S` (and the magnetometer settings), the control
/// registers decode back to exactly `R` and `S` — no silent coercion.
pub proof fn lemma_config_round_trip(
    accel_registers: Seq<u8>,
    mag_registers: Seq<u8>,
    config: SensorConfig,
)
    requires
        accel_registers.len() >= 0x40,
        mag_registers.len() >= 0x40,
    ensures
        ({
            let accel = accel_regs_after_config(accel_registers, config);
            let mag = mag_regs_after_config(mag_registers, config);
            &&& spec_decode_ctrl1(accel[CTRL_REG1_A as int]) == Some(
                (config.accel_data_rate, config.low_power),
            )
            &&& spec_decode_ctrl4(accel[CTRL_REG4_A as int]) == Some(
                (config.scale, config.high_resolution),
            )
            &&& spec_decode_cra(mag[CRA_REG_M as int]) == Some(config.mag_data_rate)
            &&& spec_decode_crb(mag[CRB_REG_M as int]) == Some(config.range)
        }),
{
    assert((spec_accel_config_bytes(config)[0] & 0x7f) == 0x20) by (bit_vector)
        requires
            spec_accel_config_bytes(config)[0] == 0x20u8 | 0x80u8,
    ;
    assert((spec_mag_config_bytes(config)[0] & 0x7f) == 0x00) by (bit_vector)
        requires
            spec_mag_config_bytes(config)[0] == 0x00u8 | 0x80u8,
    ;
    let accel = accel_regs_after_config(accel_registers, config);
    let mag = mag_regs_after_config(mag_registers, config);
    assert(accel[CTRL_REG1_A as int] == spec_encode_ctrl1(config.accel_data_rate,
        config.low_power));
    assert(accel[CTRL_REG4_A as int] == spec_encode_ctrl4(config.scale, config.high_resolution));
    assert(mag[CRA_REG_M as int] == spec_encode_cra(config.mag_data_rate));
    assert(mag[CRB_REG_M as int] == spec_encode_crb(config.range));
    lemma_ctrl1_round_trip(config.accel_data_rate, config.low_power);
    lemma_ctrl4_round_trip(config.scale, config.high_resolution);
    lemma_cra_round_trip(config.mag_data_rate);
    lemma_crb_round_trip(config.range);
}

/// Configuration idempotence at the device: issuing the same configuration
/// twice leaves both register files exactly as issuing it once does.
pub proof fn lemma_configure_idempotent(
    accel_registers: Seq<u8>,
    mag_registers: Seq<u8>,
    config: SensorConfig,
)
    requires
        accel_registers.len() >= 0x40,
        mag_registers.len() >= 0x40,
    ensures
        accel_regs_after_config(accel_regs_after_config(accel_registers, config), config)
            == accel_regs_after_config(accel_registers, config),
        mag_regs_after_config(mag_regs_after_config(mag_registers, config), config)
            == mag_regs_after_config(mag_registers, config),
{
    assert((spec_accel_config_bytes(config)[0] & 0x7f) == 0x20) by (bit_vector)
        requires
            spec_accel_config_bytes(config)[0] == 0x20u8 | 0x80u8,
    ;
    assert((spec_mag_config_bytes(config)[0] & 0x7f) == 0x00) by (bit_vector)
        requires
            spec_mag_config_bytes(config)[0] == 0x00u8 | 0x80u8,
    ;
    lemma_apply_write_idempotent(accel_registers, spec_accel_config_bytes(config), 5);
    lemma_apply_write_idempotent(mag_registers, spec_mag_config_bytes(config), 3);
}

/// The LSM303DLHC driver: two device handles, one scratch buffer, a grant
/// for per-process state, and the protocol position.
pub struct Lsm303dlhcI2C {
    accelerometer: DeviceHandle,
    magnetometer: DeviceHandle,
    buffer: Option<Vec<u8>>,
    grant: GrantHandle,
    state: State,
    applied_config: Option<SensorConfig>,
    pending_config: Option<SensorConfig>,
    client: Option<usize>,
}

impl Lsm303dlhcI2C {
    /// The accelerometer's device handle.
    pub closed spec fn accel(&self) -> DeviceHandle {
        self.accelerometer
    }

    /// The magnetometer's device handle.
    pub closed spec fn mag(&self) -> DeviceHandle {
        self.magnetometer
    }

    /// The scratch buffer, present exactly while no transaction is out.
    pub closed spec fn spec_buffer(&self) -> Option<Vec<u8>> {
        self.buffer
    }

    /// The driver's grant.
    pub closed spec fn spec_grant(&self) -> GrantHandle {
        self.grant
    }

    /// Where the protocol stands.
    pub closed spec fn spec_state(&self) -> State {
        self.state
    }

    /// The configuration whose full sequence last completed successfully.
    pub closed spec fn config(&self) -> Option<SensorConfig> {
        self.applied_config
    }

    /// The configuration currently being written to the device.
    pub closed spec fn pending(&self) -> Option<SensorConfig> {
        self.pending_config
    }

    /// The registered upstream client.
    pub closed spec fn spec_client(&self) -> Option<usize> {
        self.client
    }

    /// The driver's invariant: distinct handles; the scratch buffer is held
    /// exactly in the idle state and is 8 bytes; a configuration is pending
    /// exactly while a configuration burst is outstanding.
    pub open spec fn inv(&self) -> bool {
        &&& self.accel().spec_id() != self.mag().spec_id()
        &&& (self.spec_state() is Idle <==> self.spec_buffer() is Some)
        &&& (self.spec_buffer() matches Some(b) ==> b@.len() == 8)
        &&& (self.pending() is Some <==> (self.spec_state() is ConfiguringAccel
            || self.spec_state() is ConfiguringMag))
    }

    /// The handle whose completion the driver is waiting for.
    pub open spec fn expected_device(&self) -> usize {
        match self.spec_state() {
            State::ConfiguringMag => self.mag().spec_id(),
            State::ReadingMag => self.mag().spec_id(),
            _ => self.accel().spec_id(),
        }
    }

    /// Everything a completion never changes: the handles, the grant and
    /// the registered client.
    pub open spec fn same_identity(&self, other: &Lsm303dlhcI2C) -> bool {
        &&& other.accel() == self.accel()
        &&& other.mag() == self.mag()
        &&& other.spec_grant() == self.spec_grant()
        &&& other.spec_client() == self.spec_client()
    }

    /// A fresh driver over two distinct handles, an 8-byte scratch buffer
    /// and a grant: idle, unconfigured, with no client registered yet.
    pub fn new(
        accelerometer: DeviceHandle,
        magnetometer: DeviceHandle,
        buffer: Vec<u8>,
        grant: GrantHandle,
    ) -> (driver: Lsm303dlhcI2C)
        requires
            accelerometer.spec_id() != magnetometer.spec_id(),
            buffer@.len() == 8,
        ensures
            driver.inv(),
            driver.accel() == accelerometer,
            driver.mag() == magnetometer,
            driver.spec_buffer() == Some(buffer),
            driver.spec_grant() == grant,
            driver.spec_state() is Idle,
            driver.config() is None,
            driver.pending() is None,
            driver.spec_client() is None,
    {
        Lsm303dlhcI2C {
            accelerometer,
            magnetometer,
            buffer: Some(buffer),
            grant,
            state: State::Idle,
            applied_config: None,
            pending_config: None,
            client: None,
        }
    }

    /// Registers the upstream client that completion reports go to. Last
    /// writer wins: a second registration replaces the first.
    pub fn set_client(&mut self, client: usize)
        ensures
            final(self).spec_client() == Some(client),
            final(self).accel() == old(self).accel(),
            final(self).mag() == old(self).mag(),
            final(self).spec_buffer() == old(self).spec_buffer(),
            final(self).spec_grant() == old(self).spec_grant(),
            final(self).spec_state() == old(self).spec_state(),
            final(self).config() == old(self).config(),
            final(self).pending() == old(self).pending(),
            old(self).inv() ==> final(self).inv(),
    {
        self.client = Some(client);
    }

    /// The configuration whose full write sequence last completed
    /// successfully; `None` until one has.
    pub fn get_configuration(&self) -> (config: Option<SensorConfig>)
        ensures
            config == self.config(),
    {
        self.applied_config
    }

    /// The registered upstream client.
    pub fn registered_client(&self) -> (client: Option<usize>)
        ensures
            client == self.spec_client(),
    {
        self.client
    }

    /// Whether `dev` is one of this driver's handles, as the board's
    /// dispatch loop asks before routing a completion here.
    pub fn owns_device(&self, dev: usize) -> (owns: bool)
        ensures
            owns == (dev == self.accel().spec_id() || dev == self.mag().spec_id()),
    {
        dev == self.accelerometer.id() || dev == self.magnetometer.id()
    }

    /// Starts writing `config` to the sensor: accepted exactly when the
    /// driver is idle and its accelerometer handle is free, in which case
    /// the accelerometer burst goes out on the mux and the driver awaits
    /// its completion. Otherwise the driver and mux are left untouched and
    /// the caller must retry later.
    pub fn configure(&mut self, mux: &mut Mux, config: SensorConfig) -> (result: Result<
        (),
        ErrorCode,
    >)
        requires
            old(self).inv(),
            old(mux).wf(),
            old(self).accel().spec_id() < old(mux).devs().len(),
            old(self).mag().spec_id() < old(mux).devs().len(),
        ensures
            final(self).inv(),
            final(mux).wf(),
            old(self).same_identity(final(self)),
            result is Ok <==> (old(self).spec_state() is Idle && !old(mux).devs()[old(
                self,
            ).accel().spec_id() as int].busy),
            result is Err ==> *final(self) == *old(self) && *final(mux) == *old(mux) && result
                == Result::<(), ErrorCode>::Err(ErrorCode::Busy),
            result is Ok ==> final(self).spec_state() is ConfiguringAccel && final(self).pending()
                == Some(config) && final(self).config() == old(self).config() && issued(
                *old(mux),
                *final(mux),
                old(self).accel().spec_id(),
                OpKind::Write,
                spec_accel_config_bytes(config),
                5,
                0,
            ),
    {
        match self.state {
            State::Idle => {},
            _ => {
                return Err(ErrorCode::Busy);
            },
        }
        if mux.is_busy(&self.accelerometer) {
            return Err(ErrorCode::Busy);
        }
        let mut buf = match self.buffer.take() {
            Some(b) => b,
            None => unreached(),
        };
        buf[0] = CTRL_REG1_A | AUTO_INCREMENT;
        buf[1] = encode_ctrl1(config.accel_data_rate, config.low_power);
        buf[2] = 0;
        buf[3] = 0;
        buf[4] = encode_ctrl4(config.scale, config.high_resolution);
        proof {
            assert(buf@.take(5) =~= spec_accel_config_bytes(config));
        }
        match self.accelerometer.write(mux, buf, 5) {
            Ok(()) => {
                self.state = State::ConfiguringAccel;
                self.pending_config = Some(config);
                Ok(())
            },
            Err(_) => unreached(),
        }
    }

    /// Starts one accelerometer sample read: accepted exactly when the
    /// driver is idle and its accelerometer handle is free, in which case
    /// the six output registers are requested and the driver awaits the
    /// answer. Otherwise the driver and mux are left untouched.
    pub fn read_acceleration(&mut self, mux: &mut Mux) -> (result: Result<(), ErrorCode>)
        requires
            old(self).inv(),
            old(mux).wf(),
            old(self).accel().spec_id() < old(mux).devs().len(),
            old(self).mag().spec_id() < old(mux).devs().len(),
        ensures
            final(self).inv(),
            final(mux).wf(),
            old(self).same_identity(final(self)),
            result is Ok <==> (old(self).spec_state() is Idle && !old(mux).devs()[old(
                self,
            ).accel().spec_id() as int].busy),
            result is Err ==> *final(self) == *old(self) && *final(mux) == *old(mux) && result
                == Result::<(), ErrorCode>::Err(ErrorCode::Busy),
            result is Ok ==> final(self).spec_state() is ReadingAccel && final(self).pending()
                is None && final(self).config() == old(self).config() && issued(
                *old(mux),
                *final(mux),
                old(self).accel().spec_id(),
                OpKind::WriteRead,
                spec_sample_request_bytes(),
                1,
                6,
            ),
    {
        match self.state {
            State::Idle => {},
            _ => {
                return Err(ErrorCode::Busy);
            },
        }
        if mux.is_busy(&self.accelerometer) {
            return Err(ErrorCode::Busy);
        }
        let mut buf = match self.buffer.take() {
            Some(b) => b,
            None => unreached(),
        };
        buf[0] = OUT_X_L_A | AUTO_INCREMENT;
        proof {
            assert(buf@.take(1) =~= spec_sample_request_bytes());
        }
        match self.accelerometer.write_read(mux, buf, 1, 6) {
            Ok(()) => {
                self.state = State::ReadingAccel;
                Ok(())
            },
            Err(_) => unreached(),
        }
    }

    /// Starts one magnetometer field read: accepted exactly when the driver
    /// is idle and its magnetometer handle is free, in which case the six
    /// output registers are requested and the driver awaits the answer.
    /// Otherwise the driver and mux are left untouched.
    pub fn read_magnetic_field(&mut self, mux: &mut Mux) -> (result: Result<(), ErrorCode>)
        requires
            old(self).inv(),
            old(mux).wf(),
            old(self).accel().spec_id() < old(mux).devs().len(),
            old(self).mag().spec_id() < old(mux).devs().len(),
        ensures
            final(self).inv(),
            final(mux).wf(),
            old(self).same_identity(final(self)),
            result is Ok <==> (old(self).spec_state() is Idle && !old(mux).devs()[old(
                self,
            ).mag().spec_id() as int].busy),
            result is Err ==> *final(self) == *old(self) && *final(mux) == *old(mux) && result
                == Result::<(), ErrorCode>::Err(ErrorCode::Busy),
            result is Ok ==> final(self).spec_state() is ReadingMag && final(self).pending()
                is None && final(self).config() == old(self).config() && issued(
                *old(mux),
                *final(mux),
                old(self).mag().spec_id(),
                OpKind::WriteRead,
                spec_field_request_bytes(),
                1,
                6,
            ),
    {
        match self.state {
            State::Idle => {},
            _ => {
                return Err(ErrorCode::Busy);
            },
        }
        if mux.is_busy(&self.magnetometer) {
            return Err(ErrorCode::Busy);
        }
        let mut buf = match self.buffer.take() {
            Some(b) => b,
            None => unreached(),
        };
        buf[0] = OUT_X_H_M | AUTO_INCREMENT;
        proof {
            assert(buf@.take(1) =~= spec_field_request_bytes());
        }
        match self.magnetometer.write_read(mux, buf, 1, 6) {
            Ok(()) => {
                self.state = State::ReadingMag;
                Ok(())
            },
            Err(_) => unreached(),
        }
    }

    /// Advances the state machine on a completion dispatched back from the
    /// mux; this is the only way the driver moves. The scratch buffer comes
    /// home with the completion. Mid-sequence success issues the next burst;
    /// the end of a sequence — success or surfaced bus failure — returns the
    /// driver to idle and yields the event to report upstream. The cached
    /// configuration changes only when the whole sequence succeeded, so a
    /// failed sequence never leaves a half-updated read-back
    /// ([`ClientEvent::ConfigurationDone`] then carries `ok: false`).
    pub fn handle_completion(&mut self, mux: &mut Mux, completion: Completion) -> (event: Option<
        ClientEvent,
    >)
        requires
            old(self).inv(),
            old(mux).wf(),
            old(self).accel().spec_id() < old(mux).devs().len(),
            old(self).mag().spec_id() < old(mux).devs().len(),
            !(old(self).spec_state() is Idle),
            completion.dev == old(self).expected_device(),
            completion.buf@.len() == 8,
            old(self).spec_state() is ConfiguringAccel && completion.status is Success ==> !old(
                mux,
            ).devs()[old(self).mag().spec_id() as int].busy,
        ensures
            final(self).inv(),
            final(mux).wf(),
            old(self).same_identity(final(self)),
            (match (old(self).spec_state(), completion.status is Success) {
                (State::ConfiguringAccel, true) => {
                    &&& event is None
                    &&& final(self).spec_state() is ConfiguringMag
                    &&& final(self).pending() == old(self).pending()
                    &&& final(self).config() == old(self).config()
                    &&& issued(
                        *old(mux),
                        *final(mux),
                        old(self).mag().spec_id(),
                        OpKind::Write,
                        spec_mag_config_bytes(old(self).pending()->Some_0),
                        3,
                        0,
                    )
                },
                (State::ConfiguringAccel, false) => {
                    &&& event == Some(ClientEvent::ConfigurationDone { ok: false })
                    &&& final(self).spec_state() is Idle
                    &&& final(self).pending() is None
                    &&& final(self).config() == old(self).config()
                    &&& final(self).spec_buffer() == Some(completion.buf)
                    &&& *final(mux) == *old(mux)
                },
                (State::ConfiguringMag, true) => {
                    &&& event == Some(ClientEvent::ConfigurationDone { ok: true })
                    &&& final(self).spec_state() is Idle
                    &&& final(self).pending() is None
                    &&& final(self).config() == old(self).pending()
                    &&& final(self).spec_buffer() == Some(completion.buf)
                    &&& *final(mux) == *old(mux)
                },
                (State::ConfiguringMag, false) => {
                    &&& event == Some(ClientEvent::ConfigurationDone { ok: false })
                    &&& final(self).spec_state() is Idle
                    &&& final(self).pending() is None
                    &&& final(self).config() == old(self).config()
                    &&& final(self).spec_buffer() == Some(completion.buf)
                    &&& *final(mux) == *old(mux)
                },
                (State::ReadingAccel, success) => {
                    &&& (event matches Some(e) && e matches ClientEvent::Acceleration {
                        ok,
                        x,
                        y,
                        z,
                    } && ok == success && (success ==> x as int == spec_sample(
                        completion.buf@[0],
                        completion.buf@[1],
                    ) && y as int == spec_sample(completion.buf@[2], completion.buf@[3])
                        && z as int == spec_sample(completion.buf@[4], completion.buf@[5]))
                        && (!success ==> x == 0 && y == 0 && z == 0))
                    &&& final(self).spec_state() is Idle
                    &&& final(self).pending() is None
                    &&& final(self).config() == old(self).config()
                    &&& final(self).spec_buffer() == Some(completion.buf)
                    &&& *final(mux) == *old(mux)
                },
                (State::ReadingMag, success) => {
                    &&& (event matches Some(e) && e matches ClientEvent::MagneticField {
                        ok,
                        x,
                        y,
                        z,
                    } && ok == success && (success ==> x as int == spec_sample(
                        completion.buf@[1],
                        completion.buf@[0],
                    ) && z as int == spec_sample(completion.buf@[3], completion.buf@[2])
                        && y as int == spec_sample(completion.buf@[5], completion.buf@[4]))
                        && (!success ==> x == 0 && y == 0 && z == 0))
                    &&& final(self).spec_state() is Idle
                    &&& final(self).pending() is None
                    &&& final(self).config() == old(self).config()
                    &&& final(self).spec_buffer() == Some(completion.buf)
                    &&& *final(mux) == *old(mux)
                },
                (State::Idle, _) => false,
            }),
    {
        let success = matches!(completion.status, BusStatus::Success);
        match self.state {
            State::Idle => unreached(),
            State::ConfiguringAccel => {
                if success {
                    let config = match self.pending_config {
                        Some(c) => c,
                        None => unreached(),
                    };
                    let mut buf = completion.buf;
                    buf[0] = CRA_REG_M | AUTO_INCREMENT;
                    buf[1] = encode_cra(config.mag_data_rate);
                    buf[2] = encode_crb(config.range);
                    proof {
                        assert(buf@.take(3) =~= spec_mag_config_bytes(config));
                    }
                    match self.magnetometer.write(mux, buf, 3) {
                        Ok(()) => {
                            self.state = State::ConfiguringMag;
                            None
                        },
                        Err(_) => unreached(),
                    }
                } else {
                    self.state = State::Idle;
                    self.pending_config = None;
                    self.buffer = Some(completion.buf);
                    Some(ClientEvent::ConfigurationDone { ok: false })
                }
            },
            State::ConfiguringMag => {
                if success {
                    self.applied_config = self.pending_config;
                }
                self.state = State::Idle;
                self.pending_config = None;
                self.buffer = Some(completion.buf);
                Some(ClientEvent::ConfigurationDone { ok: success })
            },
            State::ReadingAccel => {
                let (x, y, z) = if success {
                    (
                        decode_sample(completion.buf[0], completion.buf[1]),
                        decode_sample(completion.buf[2], completion.buf[3]),
                        decode_sample(completion.buf[4], completion.buf[5]),
                    )
                } else {
                    (0i32, 0i32, 0i32)
                };
                self.state = State::Idle;
                self.buffer = Some(completion.buf);
                Some(ClientEvent::Acceleration { ok: success, x, y, z })
            },
            State::ReadingMag => {
                // The magnetometer answers high byte first, in X, Z, Y order.
                let (x, y, z) = if success {
                    (
                        decode_sample(completion.buf[1], completion.buf[0]),
                        decode_sample(completion.buf[5], completion.buf[4]),
                        decode_sample(completion.buf[3], completion.buf[2]),
                    )
                } else {
                    (0i32, 0i32, 0i32)
                };
                self.state = State::Idle;
                self.buffer = Some(completion.buf);
                Some(ClientEvent::MagneticField { ok: success, x, y, z })
            },
        }
    }
}

} // verus!
