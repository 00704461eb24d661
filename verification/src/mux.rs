//! The shared-bus virtualization layer.
//!
//! A [`Mux`] owns the single physical, address-addressed, request/response
//! bus and shares it among many logical clients. Each client holds a
//! [`DeviceHandle`]: a fixed target address plus one pending-request slot.
//! Requests from handles are serialized onto the physical bus: at most one
//! transaction is in flight at any instant, further accepted requests wait
//! in a FIFO queue (the queued design: a request from a handle that is
//! itself free is always accepted, even while the bus is held by another
//! handle), and a handle that already has a request outstanding is rejected
//! with [`ErrorCode::Busy`].
//!
//! The bus master's side is asynchronous: the hardware (or a simulated
//! device, see [`crate::sim`]) observes the in-flight transaction through
//! [`Mux::current_transaction`] and later reports its outcome through
//! [`Mux::bus_complete`], which hands the completion — status and the lent
//! buffer — back for the originating handle exactly once, synchronously
//! with the mux's transition back to idle, and starts the next queued
//! transaction. A physical-layer error is surfaced in the completion's
//! status, never retried here.
//!
//! Because a handle has at most one request outstanding
//! ([`lemma_handle_serialized`]) and the queue is promoted strictly in FIFO
//! order, each handle receives its completions in the order its requests
//! were accepted; no ordering across distinct handles is promised beyond
//! mutual exclusion on the bus ([`lemma_single_transaction`]).

use vstd::prelude::*;

verus! {

use crate::ErrorCode;

/// Outcome of one physical bus transaction, as the bus master reports it.
#[derive(Clone, Copy, Debug, PartialEq, Eq, Structural)]
pub enum BusStatus {
    /// The transaction completed.
    Success,
    /// No device acknowledged the target address.
    AddressNak,
    /// The device refused a data byte.
    DataNak,
    /// The bus was lost to another master mid-transaction.
    ArbitrationLost,
}

/// The kind of transaction a device handle may issue.
#[derive(Clone, Copy, Debug, PartialEq, Eq, Structural)]
pub enum OpKind {
    /// Send the first `write_len` buffer bytes to the device.
    Write,
    /// Fill the first `read_len` buffer bytes from the device.
    Read,
    /// Send `write_len` bytes, then read `read_len` bytes back, without
    /// releasing the bus in between.
    WriteRead,
}

/// A logical, address-bound client view of the mux. The target address is
/// fixed when the mux constructs the handle and never changes.
#[derive(Clone, Copy, Debug)]
pub struct DeviceHandle {
    id: usize,
    address: u8,
}

impl DeviceHandle {
    /// The handle's slot in the mux's device table.
    pub closed spec fn spec_id(&self) -> usize {
        self.id
    }

    /// The fixed bus address this handle targets.
    pub closed spec fn spec_address(&self) -> u8 {
        self.address
    }

    /// The handle's slot in the mux's device table.
    pub fn id(&self) -> (id: usize)
        ensures
            id == self.spec_id(),
    {
        self.id
    }

    /// The fixed bus address this handle targets.
    pub fn address(&self) -> (address: u8)
        ensures
            address == self.spec_address(),
    {
        self.address
    }

    /// Sends the first `write_len` buffer bytes to this handle's device:
    /// accepted, or rejected busy with the buffer handed back.
    pub fn write(&self, mux: &mut Mux, buf: Vec<u8>, write_len: usize) -> (result: Result<
        (),
        (ErrorCode, Vec<u8>),
    >)
        requires
            old(mux).wf(),
            self.spec_id() < old(mux).devs().len(),
            write_len <= buf.len(),
        ensures
            final(mux).wf(),
            Mux::request_post(
                *old(mux),
                *final(mux),
                self.spec_id(),
                OpKind::Write,
                buf,
                write_len,
                0,
                result,
            ),
    {
        mux.request(self, OpKind::Write, buf, write_len, 0)
    }

    /// Fills the first `read_len` buffer bytes from this handle's device:
    /// accepted, or rejected busy with the buffer handed back.
    pub fn read(&self, mux: &mut Mux, buf: Vec<u8>, read_len: usize) -> (result: Result<
        (),
        (ErrorCode, Vec<u8>),
    >)
        requires
            old(mux).wf(),
            self.spec_id() < old(mux).devs().len(),
            read_len <= buf.len(),
        ensures
            final(mux).wf(),
            Mux::request_post(
                *old(mux),
                *final(mux),
                self.spec_id(),
                OpKind::Read,
                buf,
                0,
                read_len,
                result,
            ),
    {
        mux.request(self, OpKind::Read, buf, 0, read_len)
    }

    /// Sends `write_len` bytes, then reads `read_len` bytes back, in one
    /// bus transaction: accepted, or rejected busy with the buffer handed
    /// back.
    pub fn write_read(
        &self,
        mux: &mut Mux,
        buf: Vec<u8>,
        write_len: usize,
        read_len: usize,
    ) -> (result: Result<(), (ErrorCode, Vec<u8>)>)
        requires
            old(mux).wf(),
            self.spec_id() < old(mux).devs().len(),
            write_len <= buf.len(),
            read_len <= buf.len(),
        ensures
            final(mux).wf(),
            Mux::request_post(
                *old(mux),
                *final(mux),
                self.spec_id(),
                OpKind::WriteRead,
                buf,
                write_len,
                read_len,
                result,
            ),
    {
        mux.request(self, OpKind::WriteRead, buf, write_len, read_len)
    }
}

/// One request accepted from a device handle: the lent buffer travels with
/// it and comes back in the completion.
pub struct MuxRequest {
    /// Slot of the originating device handle.
    pub dev: usize,
    /// What the transaction does on the bus.
    pub kind: OpKind,
    /// The buffer lent by the handle's owner for the transaction's lifetime.
    pub buf: Vec<u8>,
    /// How many leading buffer bytes are sent to the device.
    pub write_len: usize,
    /// How many leading buffer bytes the device's answer fills.
    pub read_len: usize,
    /// Acceptance stamp: the value of the mux's issue counter when this
    /// request was accepted. Requests are completed in stamp order.
    pub stamp: Ghost<nat>,
}

impl MuxRequest {
    /// The request refers to an attached device and stays inside its buffer.
    pub open spec fn valid(&self, n_devices: int) -> bool {
        &&& self.dev < n_devices
        &&& self.write_len <= self.buf.len()
        &&& self.read_len <= self.buf.len()
    }
}

/// Per-device bookkeeping inside the mux.
#[derive(Clone, Copy, Debug, PartialEq, Eq, Structural)]
pub struct MuxDevice {
    /// The bus address the device's handle targets.
    pub address: u8,
    /// The completion callback owner registered for the handle, if any.
    pub client: Option<usize>,
    /// Whether the device has a request outstanding (in flight or queued).
    pub busy: bool,
}

/// A finished transaction, dispatched back to the originating handle: its
/// owner regains exclusive access to the buffer it lent.
pub struct Completion {
    /// Slot of the handle whose request finished.
    pub dev: usize,
    /// The client registered on that handle when the transaction finished.
    pub client: Option<usize>,
    /// The outcome the bus master reported.
    pub status: BusStatus,
    /// The lent buffer; on a successful read its leading bytes hold the
    /// device's answer.
    pub buf: Vec<u8>,
}

/// What the bus master must do next: the in-flight transaction as seen from
/// the physical side.
pub struct BusTransaction {
    /// Target bus address.
    pub address: u8,
    /// What the transaction does on the bus.
    pub kind: OpKind,
    /// The bytes to send (the in-flight request's leading `write_len` bytes).
    pub data: Vec<u8>,
    /// How many bytes the device must answer with.
    pub read_len: usize,
}

/// Arbiter giving many logical device handles safe, serialized access to one
/// physical bus.
pub struct Mux {
    devices: Vec<MuxDevice>,
    in_flight: Option<MuxRequest>,
    queue: Vec<MuxRequest>,
    issued: Ghost<nat>,
}

impl Mux {
    /// The device table, one entry per handle this mux has constructed.
    pub closed spec fn devs(&self) -> Seq<MuxDevice> {
        self.devices@
    }

    /// How many requests the mux has accepted so far; each accepted request
    /// is stamped with the counter's value at acceptance.
    pub closed spec fn issue_count(&self) -> nat {
        self.issued@
    }

    /// The transaction currently holding the physical bus, if any.
    pub closed spec fn current(&self) -> Option<MuxRequest> {
        self.in_flight
    }

    /// Accepted requests waiting for the bus, oldest first.
    pub closed spec fn pending(&self) -> Seq<MuxRequest> {
        self.queue@
    }

    /// How many transactions hold the physical bus right now.
    pub open spec fn transactions_in_flight(&self) -> nat {
        match self.current() {
            Some(_) => 1nat,
            None => 0nat,
        }
    }

    /// Some request from device `dev` is in flight or queued.
    pub open spec fn dev_outstanding(&self, dev: usize) -> bool {
        ||| (self.current() matches Some(r) && r.dev == dev)
        ||| (exists|i: int| 0 <= i < self.pending().len() && (#[trigger] self.pending()[i]).dev == dev)
    }

    /// Device `dev` holds position `pos` of the mux: position -1 is the bus
    /// itself, positions 0.. are queue slots.
    pub open spec fn holds_position(&self, dev: usize, pos: int) -> bool {
        if pos == -1 {
            self.current() matches Some(r) && r.dev == dev
        } else {
            0 <= pos < self.pending().len() && self.pending()[pos].dev == dev
        }
    }

    /// The mux's invariant: every tracked request refers to an attached
    /// device and stays inside its buffer; the queue only holds requests
    /// while one is in flight; no device has two requests outstanding; and
    /// a device's busy flag says exactly whether it has one outstanding.
    pub open spec fn wf(&self) -> bool {
        &&& (self.current() matches Some(r) ==> r.valid(self.devs().len() as int))
        &&& (forall|i: int|
            0 <= i < self.pending().len()
                ==> (#[trigger] self.pending()[i]).valid(self.devs().len() as int))
        &&& (self.current() is None ==> self.pending().len() == 0)
        &&& (forall|i: int, j: int|
            0 <= i < j < self.pending().len()
                ==> self.pending()[i].dev != self.pending()[j].dev)
        &&& (forall|i: int|
            0 <= i < self.pending().len() ==> (self.current() matches Some(r) ==> r.dev != (
            #[trigger] self.pending()[i]).dev))
        &&& (forall|d: usize|
            d < self.devs().len()
                ==> ((#[trigger] self.devs()[d as int].busy) <==> self.dev_outstanding(d)))
        &&& (self.current() matches Some(r) ==> r.stamp@ < self.issue_count())
        &&& (forall|i: int|
            0 <= i < self.pending().len()
                ==> (#[trigger] self.pending()[i]).stamp@ < self.issue_count())
        &&& (forall|i: int, j: int|
            0 <= i < j < self.pending().len()
                ==> self.pending()[i].stamp@ < self.pending()[j].stamp@)
        &&& (forall|i: int|
            0 <= i < self.pending().len() ==> (self.current() matches Some(r) ==> r.stamp@ < (
            #[trigger] self.pending()[i]).stamp@))
    }

    /// An idle mux with no attached devices.
    pub fn new() -> (mux: Mux)
        ensures
            mux.wf(),
            mux.devs().len() == 0,
            mux.current() is None,
            mux.pending().len() == 0,
    {
        Mux { devices: Vec::new(), in_flight: None, queue: Vec::new(), issued: Ghost(0nat) }
    }

    /// Constructs a new logical device handle bound to `address`. The
    /// handle's address is fixed for good; its request slot starts free.
    pub fn attach_device(&mut self, address: u8) -> (handle: DeviceHandle)
        requires
            old(self).wf(),
        ensures
            final(self).wf(),
            handle.spec_id() == old(self).devs().len(),
            handle.spec_address() == address,
            final(self).devs() == old(self).devs().push(
                (MuxDevice { address, client: None, busy: false }),
            ),
            final(self).current() == old(self).current(),
            final(self).pending() == old(self).pending(),
    {
        let id = self.devices.len();
        self.devices.push(MuxDevice { address, client: None, busy: false });
        proof {
            assert forall|d: usize| d < self.devs().len() implies ((#[trigger] self.devs()[d as int].busy) <==> self.dev_outstanding(d)) by {
                if d < old(self).devs().len() {
                    assert(old(self).devs()[d as int].busy <==> old(self).dev_outstanding(d));
                    assert(self.dev_outstanding(d) == old(self).dev_outstanding(d));
                } else {
                    assert(!self.devs()[d as int].busy);
                    assert(!self.dev_outstanding(d));
                }
            }
        }
        DeviceHandle { id, address }
    }

    /// Registers `client` as the completion callback owner of `handle`'s
    /// slot. A second call replaces the registration: last writer wins.
    /// This supports re-parenting while a component is under construction
    /// and must not be relied on after assembly completes.
    pub fn set_client(&mut self, handle: &DeviceHandle, client: usize)
        requires
            old(self).wf(),
            handle.spec_id() < old(self).devs().len(),
        ensures
            final(self).wf(),
            final(self).devs() == old(self).devs().update(
                handle.spec_id() as int,
                (MuxDevice {
                    client: Some(client),
                    ..old(self).devs()[handle.spec_id() as int]
                }),
            ),
            final(self).current() == old(self).current(),
            final(self).pending() == old(self).pending(),
    {
        let id = handle.id();
        let address = self.devices[id].address;
        let busy = self.devices[id].busy;
        self.devices[id] = MuxDevice { address, client: Some(client), busy };
        proof {
            assert forall|d: usize| d < self.devs().len() implies ((#[trigger] self.devs()[d as int].busy) <==> self.dev_outstanding(d)) by {
                assert(self.devs()[d as int].busy == old(self).devs()[d as int].busy);
                assert(old(self).devs()[d as int].busy <==> old(self).dev_outstanding(d));
            }
        }
    }

    /// What issuing a transaction does, as stated by [`Mux::request`] and
    /// the [`DeviceHandle`] operations that forward to it: a busy handle is
    /// rejected and everything is left untouched; a free handle's request is
    /// accepted — stamped, the handle marked busy, and placed on the free
    /// bus or at the tail of the FIFO queue.
    pub open spec fn request_post(
        pre: Mux,
        post: Mux,
        dev: usize,
        kind: OpKind,
        buf: Vec<u8>,
        write_len: usize,
        read_len: usize,
        result: Result<(), (ErrorCode, Vec<u8>)>,
    ) -> bool {
        &&& (pre.devs()[dev as int].busy ==> post == pre && (result matches Err((code, rejected))
            && code == ErrorCode::Busy && rejected == buf))
        &&& (!pre.devs()[dev as int].busy ==> {
            let accepted = (if pre.current() is None {
                post.current()->Some_0
            } else {
                post.pending().last()
            });
            &&& result is Ok
            &&& post.devs() == pre.devs().update(
                dev as int,
                (MuxDevice { busy: true, ..pre.devs()[dev as int] }),
            )
            &&& accepted.dev == dev
            &&& accepted.kind == kind
            &&& accepted.buf == buf
            &&& accepted.write_len == write_len
            &&& accepted.read_len == read_len
            &&& accepted.stamp@ == pre.issue_count()
            &&& post.issue_count() == pre.issue_count() + 1
            &&& (pre.current() is None ==> post.current() is Some && post.pending()
                == pre.pending())
            &&& (pre.current() is Some ==> post.current() == pre.current()
                && post.pending().len() == pre.pending().len() + 1 && post.pending().drop_last()
                == pre.pending())
        })
    }

    /// Issues a transaction from `handle`. A handle with a request already
    /// outstanding is rejected with [`ErrorCode::Busy`] and gets its buffer
    /// back untouched; otherwise the request is accepted — it takes the bus
    /// if the bus is free, and joins the FIFO queue if not.
    pub fn request(
        &mut self,
        handle: &DeviceHandle,
        kind: OpKind,
        buf: Vec<u8>,
        write_len: usize,
        read_len: usize,
    ) -> (result: Result<(), (ErrorCode, Vec<u8>)>)
        requires
            old(self).wf(),
            handle.spec_id() < old(self).devs().len(),
            write_len <= buf.len(),
            read_len <= buf.len(),
        ensures
            final(self).wf(),
            Self::request_post(
                *old(self),
                *final(self),
                handle.spec_id(),
                kind,
                buf,
                write_len,
                read_len,
                result,
            ),
    {
        let id = handle.id();
        if self.devices[id].busy {
            return Err((ErrorCode::Busy, buf));
        }
        let address = self.devices[id].address;
        let client = self.devices[id].client;
        self.devices[id] = MuxDevice { address, client, busy: true };
        let request = MuxRequest {
            dev: id,
            kind,
            buf,
            write_len,
            read_len,
            stamp: Ghost(self.issued@),
        };
        self.issued = Ghost(self.issued@ + 1);
        let ghost accepted = request;
        if self.in_flight.is_none() {
            self.in_flight = Some(request);
        } else {
            self.queue.push(request);
            proof {
                assert(self.pending().drop_last() =~= old(self).pending());
            }
        }
        proof {
            self.lemma_request_wf(*old(self), handle.spec_id(), accepted);
        }
        Ok(())
    }

    /// Invariant bookkeeping for [`Mux::request`]'s accepted case.
    proof fn lemma_request_wf(&self, pre: Mux, id: usize, accepted: MuxRequest)
        requires
            pre.wf(),
            id < pre.devs().len(),
            !pre.devs()[id as int].busy,
            accepted.dev == id,
            accepted.valid(pre.devs().len() as int),
            accepted.stamp@ == pre.issue_count(),
            self.issue_count() == pre.issue_count() + 1,
            self.devs() == pre.devs().update(
                id as int,
                (MuxDevice { busy: true, ..pre.devs()[id as int] }),
            ),
            pre.current() is None ==> self.current() == Some(accepted) && self.pending()
                == pre.pending(),
            pre.current() is Some ==> self.current() == pre.current() && self.pending()
                == pre.pending().push(accepted),
        ensures
            self.wf(),
    {
        assert forall|d: usize| d < self.devs().len() implies ((#[trigger] self.devs()[d as int].busy) <==> self.dev_outstanding(d)) by {
            assert(pre.devs()[d as int].busy <==> pre.dev_outstanding(d));
            if d == id {
                if pre.current() is Some {
                    assert(self.pending()[self.pending().len() - 1].dev == d);
                }
                assert(self.dev_outstanding(d));
            } else {
                if pre.dev_outstanding(d) {
                    if pre.current() matches Some(r) && r.dev == d {
                        assert(self.dev_outstanding(d));
                    } else {
                        let i = choose|i: int|
                            0 <= i < pre.pending().len() && (#[trigger] pre.pending()[i]).dev == d;
                        assert(self.pending()[i].dev == d);
                    }
                } else {
                    if self.dev_outstanding(d) {
                        if self.current() matches Some(r) && r.dev == d {
                            assert(pre.dev_outstanding(d));
                        } else {
                            let i = choose|i: int|
                                0 <= i < self.pending().len() && (#[trigger] self.pending()[i]).dev == d;
                            assert(pre.pending()[i].dev == d);
                        }
                    }
                }
            }
        }
    }

    /// The in-flight transaction as the physical bus master sees it: target
    /// address, kind, the bytes to send, and how many to read back.
    pub fn current_transaction(&self) -> (result: Option<BusTransaction>)
        requires
            self.wf(),
        ensures
            result is Some <==> self.current() is Some,
            (match (result, self.current()) {
                (Some(txn), Some(r)) => {
                    &&& txn.address == self.devs()[r.dev as int].address
                    &&& txn.kind == r.kind
                    &&& txn.data@ == r.buf@.take(r.write_len as int)
                    &&& txn.read_len == r.read_len
                },
                (None, None) => true,
                _ => false,
            }),
    {
        match &self.in_flight {
            None => None,
            Some(r) => {
                let mut data: Vec<u8> = Vec::new();
                let mut i: usize = 0;
                while i < r.write_len
                    invariant
                        i <= r.write_len,
                        r.write_len <= r.buf.len(),
                        data@ == r.buf@.take(i as int),
                    decreases r.write_len - i,
                {
                    data.push(r.buf[i]);
                    proof {
                        assert(data@ == r.buf@.take(i + 1int));
                    }
                    i += 1;
                }
                Some(
                    BusTransaction {
                        address: self.devices[r.dev].address,
                        kind: r.kind,
                        data,
                        read_len: r.read_len,
                    },
                )
            },
        }
    }

    /// Whether the physical bus is free.
    pub fn is_idle(&self) -> (idle: bool)
        ensures
            idle == (self.current() is None),
    {
        self.in_flight.is_none()
    }

    /// How many accepted requests are waiting behind the in-flight one.
    pub fn pending_len(&self) -> (len: usize)
        ensures
            len == self.pending().len(),
    {
        self.queue.len()
    }

    /// Whether `handle` has a request outstanding.
    pub fn is_busy(&self, handle: &DeviceHandle) -> (busy: bool)
        requires
            handle.spec_id() < self.devs().len(),
        ensures
            busy == self.devs()[handle.spec_id() as int].busy,
    {
        self.devices[handle.id()].busy
    }

    /// The bus master reports the in-flight transaction's outcome. The
    /// completion is dispatched to the originating handle exactly once,
    /// synchronously with the mux's own transition: the handle's slot is
    /// freed, the oldest queued request (if any) takes the bus, and the lent
    /// buffer travels back — on a successful read with a well-sized answer,
    /// with its leading `read_len` bytes replaced by `read_data`. Reporting
    /// a completion while the bus is idle is refused.
    pub fn bus_complete(&mut self, status: BusStatus, read_data: Vec<u8>) -> (result: Result<
        Completion,
        ErrorCode,
    >)
        requires
            old(self).wf(),
        ensures
            final(self).wf(),
            final(self).issue_count() == old(self).issue_count(),
            result is Ok <==> old(self).current() is Some,
            old(self).current() is None ==> *final(self) == *old(self)
                && result == Result::<Completion, ErrorCode>::Err(ErrorCode::Idle),
            (match old(self).current() {
                Some(r) => {
                    &&& (result matches Ok(c)
                        && c.dev == r.dev
                        && c.client == old(self).devs()[r.dev as int].client
                        && c.status == status
                        && c.buf@.len() == r.buf@.len()
                        && (if Self::reads_back(status, r.kind, r.read_len, read_data@.len() as int) {
                            c.buf@ == read_data@ + r.buf@.skip(r.read_len as int)
                        } else {
                            c.buf@ == r.buf@
                        }))
                    &&& final(self).devs() == old(self).devs().update(
                        r.dev as int,
                        (MuxDevice { busy: false, ..old(self).devs()[r.dev as int] }),
                    )
                    &&& (old(self).pending().len() == 0 ==> final(self).current() is None
                        && final(self).pending().len() == 0)
                    &&& (old(self).pending().len() > 0 ==> final(self).current() == Some(
                        old(self).pending()[0],
                    ) && final(self).pending() == old(self).pending().skip(1))
                },
                None => true,
            }),
    {
        match self.in_flight.take() {
            None => Err(ErrorCode::Idle),
            Some(r) => {
                let id = r.dev;
                let address = self.devices[id].address;
                let client = self.devices[id].client;
                self.devices[id] = MuxDevice { address, client, busy: false };
                if self.queue.len() > 0 {
                    let next = self.queue.remove(0);
                    self.in_flight = Some(next);
                }
                let mut buf = r.buf;
                if matches!(status, BusStatus::Success) && !matches!(r.kind, OpKind::Write)
                    && read_data.len() == r.read_len {
                    let mut i: usize = 0;
                    while i < read_data.len()
                        invariant
                            read_data.len() <= buf.len(),
                            i <= read_data.len(),
                            buf@.len() == r.buf@.len(),
                            buf@ == read_data@.take(i as int) + r.buf@.skip(i as int),
                        decreases read_data.len() - i,
                    {
                        buf[i] = read_data[i];
                        proof {
                            assert(buf@ =~= read_data@.take(i + 1int) + r.buf@.skip(i + 1int));
                        }
                        i += 1;
                    }
                    proof {
                        assert(buf@ =~= read_data@ + r.buf@.skip(r.read_len as int));
                    }
                }
                proof {
                    Self::lemma_complete_wf(*old(self), *self, r);
                }
                Ok(Completion { dev: id, client, status, buf })
            },
        }
    }

    /// Whether a completed transaction hands device bytes back in the
    /// buffer: it succeeded, it reads, and the answer has the promised size.
    pub open spec fn reads_back(
        status: BusStatus,
        kind: OpKind,
        read_len: usize,
        answer_len: int,
    ) -> bool {
        &&& status is Success
        &&& !(kind is Write)
        &&& answer_len == read_len
    }

    /// Invariant bookkeeping for [`Mux::bus_complete`]: freeing the finished
    /// device and promoting the queue's head preserves the invariant.
    proof fn lemma_complete_wf(pre: Mux, post: Mux, r: MuxRequest)
        requires
            pre.wf(),
            pre.current() == Some(r),
            post.issue_count() == pre.issue_count(),
            post.devs() == pre.devs().update(
                r.dev as int,
                (MuxDevice { busy: false, ..pre.devs()[r.dev as int] }),
            ),
            pre.pending().len() == 0 ==> post.current() is None && post.pending().len() == 0,
            pre.pending().len() > 0 ==> post.current() == Some(pre.pending()[0])
                && post.pending() == pre.pending().skip(1),
        ensures
            post.wf(),
    {
        assert forall|d: usize| d < post.devs().len() implies ((#[trigger] post.devs()[d as int].busy) <==> post.dev_outstanding(d)) by {
            assert(pre.devs()[d as int].busy <==> pre.dev_outstanding(d));
            if d == r.dev {
                // The finished device had exactly this one outstanding
                // request, so it is outstanding nowhere afterwards.
                if post.dev_outstanding(d) {
                    if post.current() matches Some(n) && n.dev == d {
                        assert(pre.pending()[0].dev == r.dev);
                    } else {
                        let i = choose|i: int|
                            0 <= i < post.pending().len() && (#[trigger] post.pending()[i]).dev
                                == d;
                        assert(pre.pending()[i + 1].dev == d);
                    }
                }
            } else {
                if pre.dev_outstanding(d) {
                    let i = choose|i: int|
                        0 <= i < pre.pending().len() && (#[trigger] pre.pending()[i]).dev == d;
                    assert(pre.pending()[i].dev == d);
                    if i == 0 {
                        assert(post.current() matches Some(n) && n.dev == d);
                    } else {
                        assert(post.pending()[i - 1].dev == d);
                    }
                    assert(post.dev_outstanding(d));
                } else {
                    if post.dev_outstanding(d) {
                        if post.current() matches Some(n) && n.dev == d {
                            assert(pre.pending()[0].dev == d);
                        } else {
                            let i = choose|i: int|
                                0 <= i < post.pending().len() && (#[trigger] post.pending()[i]).dev == d;
                            assert(pre.pending()[i + 1].dev == d);
                        }
                        assert(pre.dev_outstanding(d));
                    }
                }
            }
        }
    }
}

/// Mutual exclusion on the physical bus: at any instant at most one
/// transaction is in flight, however many handles share the mux.
pub proof fn lemma_single_transaction(mux: &Mux)
    requires
        mux.wf(),
    ensures
        mux.transactions_in_flight() <= 1,
{
}

/// FIFO delivery: the transaction holding the bus is always the oldest
/// outstanding one, so [`Mux::bus_complete`] always completes the earliest
/// accepted request. In particular, each handle — which by
/// [`lemma_handle_serialized`] never has two requests outstanding — receives
/// its completions in the order its requests were accepted.
pub proof fn lemma_fifo_delivery(mux: &Mux, pos: int)
    requires
        mux.wf(),
        mux.current() is Some,
        0 <= pos < mux.pending().len(),
    ensures
        mux.current()->Some_0.stamp@ < mux.pending()[pos].stamp@,
{
}

/// Per-handle serialization: one device handle holds at most one position
/// in the mux — on the bus or in the queue, never twice. Together with the
/// FIFO promotion stated by [`Mux::bus_complete`], a handle's completions
/// arrive in the order its requests were accepted: a handle's next request
/// is only accepted after its previous one has completed.
pub proof fn lemma_handle_serialized(mux: &Mux, dev: usize, first: int, second: int)
    requires
        mux.wf(),
        mux.holds_position(dev, first),
        mux.holds_position(dev, second),
        first >= -1,
        second >= -1,
    ensures
        first == second,
{
    if first != second {
        if first == -1 || second == -1 {
            assert(false);
        } else {
            assert(mux.pending()[first].dev == mux.pending()[second].dev);
            assert(false);
        }
    }
}

} // verus!
