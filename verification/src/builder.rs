//! A builder for `Message`: named factories, one per predefined message
//! kind, and a fluent surface whose setters keep the TYPE bits and the
//! optional fields in lockstep. All cross-field rules of the protocol are
//! checked here, so every finished message is well formed.

use vstd::prelude::*;

use bytes::BytesMut;

use crate::bytebuf::{buf_len, buf_put_u8, buf_reserve, buf_view};
use crate::constants::MAX_PAYLOAD_SIZE;
use crate::message::{ExtendedHeader, Header, Message, MessageModel, Type};
use crate::types::{spec_id_from_byte, spec_id_to_byte, Bus, Id, Route};

verus! {

/// The ways a construction can be refused.
#[derive(Copy, Clone, Debug, PartialEq, Eq, Structural)]
pub enum MessageBuilderError {
    /// Returned by `route` when routing by other than the slot is requested
    /// for a device message whose ID byte is not 0.
    RouteError,
    /// Returned by `payload` when the payload is empty, not a whole number
    /// of octas, or longer than 256 octas; and by the sub-word write and
    /// reply factories when the given bytes are not exactly 1, 2 or 4.
    PayloadError,
    /// Returned by `new_interrupt` when the slot is not an interrupt
    /// number, that is, exceeds 63.
    SlotError,
}

/// A payload length the protocol accepts: a positive number of whole
/// octas, at most 256 of them.
pub open spec fn spec_payload_len_ok(n: int) -> bool {
    n % 8 == 0 && 8 <= n <= 2048
}

/// Whether `route` may be set to `route` on a message with this model:
/// routing by other than the slot asks for a bus message or an ID byte of 0.
pub open spec fn spec_route_allowed(m: MessageModel, route: Route) -> bool {
    route == Route::OtherRoute ==> spec_id_to_byte(m.header.id) == 0 || m.header.typ.bus
        == Bus::BusMessage
}

/// `n` zero bytes.
pub open spec fn spec_zero_bytes(n: nat) -> Seq<u8> {
    Seq::new(n, |i: int| 0u8)
}

/// The model of a device message without payload, routed by slot: the shape
/// shared by the read-style factories.
pub open spec fn spec_device_model(
    id: Id,
    timestamp: Option<u32>,
    address: u64,
    request: bool,
    lock: bool,
    slot: u8,
) -> MessageModel {
    MessageModel {
        header: Header {
            typ: Type {
                bus: Bus::DeviceMessage,
                time: timestamp is Some,
                address: true,
                route: Route::SlotRoute,
                payload: false,
                request,
                lock,
                unused: false,
            },
            size: 0,
            slot,
            id,
        },
        timestamp,
        address: Some(address),
        payload: None,
    }
}

/// The model of a device message with payload, routed by slot: the shape
/// shared by the write-style and reply-style factories.
pub open spec fn spec_device_payload_model(
    id: Id,
    timestamp: Option<u32>,
    address: u64,
    lock: bool,
    slot: u8,
    payload: Seq<u8>,
    size: u8,
) -> MessageModel {
    MessageModel {
        header: Header {
            typ: Type {
                bus: Bus::DeviceMessage,
                time: timestamp is Some,
                address: true,
                route: Route::SlotRoute,
                payload: true,
                request: false,
                lock,
                unused: false,
            },
            size,
            slot,
            id,
        },
        timestamp,
        address: Some(address),
        payload: Some(payload),
    }
}

/// The model of a bus message without payload: the shape shared by the
/// lifecycle factories.
pub open spec fn spec_bus_model(id: Id, timestamp: Option<u32>, lock: bool, slot: u8) -> MessageModel {
    MessageModel {
        header: Header {
            typ: Type {
                bus: Bus::BusMessage,
                time: timestamp is Some,
                address: false,
                route: Route::OtherRoute,
                payload: false,
                request: false,
                lock,
                unused: false,
            },
            size: 0,
            slot,
            id,
        },
        timestamp,
        address: None,
        payload: None,
    }
}

/// The model of a bus message with payload: the shape of a registration.
pub open spec fn spec_bus_payload_model(
    id: Id,
    timestamp: Option<u32>,
    lock: bool,
    slot: u8,
    payload: Seq<u8>,
    size: u8,
) -> MessageModel {
    MessageModel {
        header: Header {
            typ: Type {
                bus: Bus::BusMessage,
                time: timestamp is Some,
                address: false,
                route: Route::OtherRoute,
                payload: true,
                request: false,
                lock,
                unused: false,
            },
            size,
            slot,
            id,
        },
        timestamp,
        address: None,
        payload: Some(payload),
    }
}

/// Appends `count` zero bytes to the buffer.
fn pad_with_zeros(buf: &mut BytesMut, count: usize)
    requires
        buf_view(*old(buf)).len() + count <= usize::MAX,
    ensures
        buf_view(*final(buf)) == buf_view(*old(buf)) + spec_zero_bytes(count as nat),
{
    let mut i: usize = 0;
    while i < count
        invariant
            i <= count,
            buf_view(*old(buf)).len() + count <= usize::MAX,
            buf_view(*buf) == buf_view(*old(buf)) + spec_zero_bytes(i as nat),
        decreases count - i,
    {
        buf_put_u8(buf, 0);
        i += 1;
        proof {
            assert(buf_view(*buf) =~= buf_view(*old(buf)) + spec_zero_bytes(i as nat));
        }
    }
    proof {
        assert(buf_view(*buf) =~= buf_view(*old(buf)) + spec_zero_bytes(count as nat));
    }
}

/// A builder for VMB messages. The `new_` factories each construct one of
/// the predefined message kinds in a single call; the remaining methods
/// form a fluent surface around `new` and `finalize`.
#[derive(Clone, Debug, PartialEq, Eq)]
pub struct MessagerBuilder {
    message: Message,
}

impl View for MessagerBuilder {
    type V = MessageModel;

    closed spec fn view(&self) -> MessageModel {
        self.message@
    }
}

impl MessagerBuilder {
    /// Creates a builder with every bit clear, every optional field absent,
    /// and the ID byte 0.
    pub fn new() -> (r: Self)
        ensures
            r@ == (MessageModel {
                header: Header {
                    typ: Type {
                        bus: Bus::DeviceMessage,
                        time: false,
                        address: false,
                        route: Route::SlotRoute,
                        payload: false,
                        request: false,
                        lock: false,
                        unused: false,
                    },
                    size: 0,
                    slot: 0,
                    id: Id::Other(0),
                },
                timestamp: None,
                address: None,
                payload: None,
            }),
            r@.builder_wf(),
    {
        Self {
            message: Message {
                extended_header: ExtendedHeader {
                    header: Header {
                        typ: Type {
                            bus: Bus::DeviceMessage,
                            time: false,
                            address: false,
                            route: Route::SlotRoute,
                            payload: false,
                            request: false,
                            lock: false,
                            unused: false,
                        },
                        size: 0,
                        slot: 0,
                        id: Id::Other(0),
                    },
                    timestamp: None,
                    address: None,
                },
                payload: None,
            },
        }
    }

    /// Destructs the builder and returns the message built so far.
    pub fn finalize(self) -> (m: Message)
        ensures
            m@ == self@,
    {
        self.message
    }

    /// Sets the bus bit of the TYPE byte.
    pub fn bus(self, bus: Bus) -> (r: Self)
        ensures
            r@ == (MessageModel {
                header: Header {
                    typ: Type { bus, ..self@.header.typ },
                    ..self@.header
                },
                ..self@
            }),
            self@.builder_wf() ==> r@.builder_wf(),
    {
        let mut this = self;
        this.message.extended_header.header.typ.bus = bus;
        this
    }

    /// Sets the time bit of the TYPE byte and the timestamp with it.
    pub fn timestamp(self, timestamp: u32) -> (r: Self)
        ensures
            r@ == (MessageModel {
                header: Header {
                    typ: Type { time: true, ..self@.header.typ },
                    ..self@.header
                },
                timestamp: Some(timestamp),
                ..self@
            }),
            self@.builder_wf() ==> r@.builder_wf(),
    {
        let mut this = self;
        this.message.extended_header.header.typ.time = true;
        this.message.extended_header.timestamp = Some(timestamp);
        this
    }

    /// Sets the address bit of the TYPE byte and the address with it.
    pub fn address(self, address: u64) -> (r: Self)
        ensures
            r@ == (MessageModel {
                header: Header {
                    typ: Type { address: true, ..self@.header.typ },
                    ..self@.header
                },
                address: Some(address),
                ..self@
            }),
            self@.builder_wf() ==> r@.builder_wf(),
    {
        let mut this = self;
        this.message.extended_header.header.typ.address = true;
        this.message.extended_header.address = Some(address);
        this
    }

    /// Sets the route bit of the TYPE byte. Routing by other than the slot
    /// is refused unless the ID byte is 0 or the message is a bus message.
    pub fn route(self, route: Route) -> (r: Result<Self, MessageBuilderError>)
        ensures
            spec_route_allowed(self@, route) ==> r is Ok && r->Ok_0@ == (MessageModel {
                header: Header {
                    typ: Type { route, ..self@.header.typ },
                    ..self@.header
                },
                ..self@
            }),
            !spec_route_allowed(self@, route) ==> r is Err && r->Err_0
                == MessageBuilderError::RouteError,
            self@.builder_wf() && r is Ok ==> r->Ok_0@.builder_wf(),
    {
        let mut this = self;
        if route == Route::OtherRoute {
            let id_byte = u8::from(this.message.extended_header.header.id);
            if id_byte != 0 && this.message.extended_header.header.typ.bus != Bus::BusMessage {
                return Err(MessageBuilderError::RouteError);
            }
        }
        this.message.extended_header.header.typ.route = route;
        Ok(this)
    }

    /// Sets the payload bit of the TYPE byte, the payload itself, and the
    /// SIZE byte that describes its length. The payload must be a positive
    /// number of whole octas, at most 256 of them.
    pub fn payload(self, payload: BytesMut) -> (r: Result<Self, MessageBuilderError>)
        ensures
            spec_payload_len_ok(buf_view(payload).len() as int) ==> r is Ok && r->Ok_0@
                == (MessageModel {
                header: Header {
                    typ: Type { payload: true, ..self@.header.typ },
                    size: (buf_view(payload).len() / 8 - 1) as u8,
                    ..self@.header
                },
                payload: Some(buf_view(payload)),
                ..self@
            }),
            !spec_payload_len_ok(buf_view(payload).len() as int) ==> r is Err && r->Err_0
                == MessageBuilderError::PayloadError,
            self@.builder_wf() && r is Ok ==> r->Ok_0@.builder_wf(),
    {
        let len = buf_len(&payload);
        if len == 0 || len % 8 != 0 || len > MAX_PAYLOAD_SIZE as usize {
            return Err(MessageBuilderError::PayloadError);
        }
        let mut this = self;
        this.message.extended_header.header.typ.payload = true;
        this.message.extended_header.header.size = (len / 8 - 1) as u8;
        this.message.payload = Some(payload);
        Ok(this)
    }

    /// Sets the request bit of the TYPE byte.
    pub fn request(self) -> (r: Self)
        ensures
            r@ == (MessageModel {
                header: Header {
                    typ: Type { request: true, ..self@.header.typ },
                    ..self@.header
                },
                ..self@
            }),
            self@.builder_wf() ==> r@.builder_wf(),
    {
        let mut this = self;
        this.message.extended_header.header.typ.request = true;
        this
    }

    /// Sets the lock bit of the TYPE byte.
    pub fn lock(self) -> (r: Self)
        ensures
            r@ == (MessageModel {
                header: Header {
                    typ: Type { lock: true, ..self@.header.typ },
                    ..self@.header
                },
                ..self@
            }),
            self@.builder_wf() ==> r@.builder_wf(),
    {
        let mut this = self;
        this.message.extended_header.header.typ.lock = true;
        this
    }

    /// Sets the SLOT byte of the header.
    pub fn slot(self, slot: u8) -> (r: Self)
        ensures
            r@ == (MessageModel {
                header: Header { slot, ..self@.header },
                ..self@
            }),
            self@.builder_wf() ==> r@.builder_wf(),
    {
        let mut this = self;
        this.message.extended_header.header.slot = slot;
        this
    }

    /// Sets the ID byte of the header.
    pub fn id(self, id: Id) -> (r: Self)
        ensures
            r@ == (MessageModel {
                header: Header { id, ..self@.header },
                ..self@
            }),
            self@.builder_wf() ==> r@.builder_wf(),
    {
        let mut this = self;
        this.message.extended_header.header.id = id;
        this
    }

    /// Constructs an IGNORE message. An IGNORE message is always a device
    /// message, and its ID byte of 0 lets it take either route.
    pub fn new_ignore(
        timestamp: Option<u32>,
        address: Option<u64>,
        route: Route,
        lock: bool,
        slot: u8,
    ) -> (m: Message)
        ensures
            m@ == (MessageModel {
                header: Header {
                    typ: Type {
                        bus: Bus::DeviceMessage,
                        time: timestamp is Some,
                        address: address is Some,
                        route,
                        payload: false,
                        request: false,
                        lock,
                        unused: false,
                    },
                    size: 0,
                    slot,
                    id: Id::Ignore,
                },
                timestamp,
                address,
                payload: None,
            }),
            m@.wf(),
    {
        // The unwrap is fine: the ID byte of an IGNORE message is 0, so
        // either route is allowed.
        let mut builder = MessagerBuilder::new().bus(Bus::DeviceMessage).id(Id::Ignore).route(
            route,
        ).unwrap().slot(slot);
        if let Some(timestamp) = timestamp {
            builder = builder.timestamp(timestamp);
        }
        if let Some(address) = address {
            builder = builder.address(address);
        }
        if lock {
            builder = builder.lock();
        }
        builder.finalize()
    }

    /// Constructs a READ message.
    pub fn new_read(timestamp: Option<u32>, address: u64, lock: bool, slot: u8) -> (m: Message)
        ensures
            m@ == spec_device_model(Id::Read, timestamp, address, true, lock, slot),
            m@.wf(),
    {
        // The unwrap is fine: the slot route is always allowed.
        let mut builder = MessagerBuilder::new().bus(Bus::DeviceMessage).address(address).id(
            Id::Read,
        ).request().route(Route::SlotRoute).unwrap().slot(slot);
        if let Some(timestamp) = timestamp {
            builder = builder.timestamp(timestamp);
        }
        if lock {
            builder = builder.lock();
        }
        builder.finalize()
    }

    /// Constructs a WRITE message; the payload must be a positive number of
    /// whole octas, at most 256 of them.
    pub fn new_write(
        timestamp: Option<u32>,
        address: u64,
        lock: bool,
        slot: u8,
        payload: BytesMut,
    ) -> (r: Result<Message, MessageBuilderError>)
        ensures
            spec_payload_len_ok(buf_view(payload).len() as int) ==> r is Ok && r->Ok_0@
                == spec_device_payload_model(
                Id::Write,
                timestamp,
                address,
                lock,
                slot,
                buf_view(payload),
                (buf_view(payload).len() / 8 - 1) as u8,
            ) && r->Ok_0@.wf(),
            !spec_payload_len_ok(buf_view(payload).len() as int) ==> r is Err && r->Err_0
                == MessageBuilderError::PayloadError,
    {
        // The unwrap is fine: the slot route is always allowed.
        let mut builder = match MessagerBuilder::new().bus(Bus::DeviceMessage).address(address).id(
            Id::Write,
        ).route(Route::SlotRoute).unwrap().slot(slot).payload(payload) {
            Ok(builder) => builder,
            Err(e) => {
                return Err(e);
            },
        };
        if let Some(timestamp) = timestamp {
            builder = builder.timestamp(timestamp);
        }
        if lock {
            builder = builder.lock();
        }
        Ok(builder.finalize())
    }

    /// Constructs a READREPLY message; the payload must be a positive
    /// number of whole octas, at most 256 of them.
    pub fn new_readreply(
        timestamp: Option<u32>,
        address: u64,
        lock: bool,
        slot: u8,
        payload: BytesMut,
    ) -> (r: Result<Message, MessageBuilderError>)
        ensures
            spec_payload_len_ok(buf_view(payload).len() as int) ==> r is Ok && r->Ok_0@
                == spec_device_payload_model(
                Id::Readreply,
                timestamp,
                address,
                lock,
                slot,
                buf_view(payload),
                (buf_view(payload).len() / 8 - 1) as u8,
            ) && r->Ok_0@.wf(),
            !spec_payload_len_ok(buf_view(payload).len() as int) ==> r is Err && r->Err_0
                == MessageBuilderError::PayloadError,
    {
        // The unwrap is fine: the slot route is always allowed.
        let mut builder = match MessagerBuilder::new().bus(Bus::DeviceMessage).address(address).id(
            Id::Readreply,
        ).route(Route::SlotRoute).unwrap().slot(slot).payload(payload) {
            Ok(builder) => builder,
            Err(e) => {
                return Err(e);
            },
        };
        if let Some(timestamp) = timestamp {
            builder = builder.timestamp(timestamp);
        }
        if lock {
            builder = builder.lock();
        }
        Ok(builder.finalize())
    }

    /// Constructs a NOREPLY message.
    pub fn new_noreply(timestamp: Option<u32>, address: u64, lock: bool, slot: u8) -> (m: Message)
        ensures
            m@ == spec_device_model(Id::Noreply, timestamp, address, false, lock, slot),
            m@.wf(),
    {
        // The unwrap is fine: the slot route is always allowed.
        let mut builder = MessagerBuilder::new().bus(Bus::DeviceMessage).address(address).id(
            Id::Noreply,
        ).route(Route::SlotRoute).unwrap().slot(slot);
        if let Some(timestamp) = timestamp {
            builder = builder.timestamp(timestamp);
        }
        if lock {
            builder = builder.lock();
        }
        builder.finalize()
    }

    fn read_word_helper(timestamp: Option<u32>, address: u64, lock: bool, slot: u8, id: Id) -> (m:
        Message)
        requires
            id != Id::Interrupt,
            spec_id_from_byte(spec_id_to_byte(id)) == id,
        ensures
            m@ == spec_device_model(id, timestamp, address, true, lock, slot),
            m@.wf(),
    {
        // The unwrap is fine: the slot route is always allowed.
        let mut builder = MessagerBuilder::new().bus(Bus::DeviceMessage).address(address).id(
            id,
        ).route(Route::SlotRoute).unwrap().slot(slot).request();
        if let Some(timestamp) = timestamp {
            builder = builder.timestamp(timestamp);
        }
        if lock {
            builder = builder.lock();
        }
        builder.finalize()
    }

    /// Constructs a READBYTE message.
    pub fn new_readbyte(timestamp: Option<u32>, address: u64, lock: bool, slot: u8) -> (m: Message)
        ensures
            m@ == spec_device_model(Id::Readbyte, timestamp, address, true, lock, slot),
            m@.wf(),
    {
        MessagerBuilder::read_word_helper(timestamp, address, lock, slot, Id::Readbyte)
    }

    /// Constructs a READWYDE message.
    pub fn new_readwyde(timestamp: Option<u32>, address: u64, lock: bool, slot: u8) -> (m: Message)
        ensures
            m@ == spec_device_model(Id::Readwyde, timestamp, address, true, lock, slot),
            m@.wf(),
    {
        MessagerBuilder::read_word_helper(timestamp, address, lock, slot, Id::Readwyde)
    }

    /// Constructs a READTETRA message.
    pub fn new_readtetra(timestamp: Option<u32>, address: u64, lock: bool, slot: u8) -> (m:
        Message)
        ensures
            m@ == spec_device_model(Id::Readtetra, timestamp, address, true, lock, slot),
            m@.wf(),
    {
        MessagerBuilder::read_word_helper(timestamp, address, lock, slot, Id::Readtetra)
    }

    /// The callers have already padded the payload to one whole octa.
    fn write_word_helper(
        timestamp: Option<u32>,
        address: u64,
        payload: BytesMut,
        lock: bool,
        slot: u8,
        id: Id,
    ) -> (r: Result<Message, MessageBuilderError>)
        requires
            buf_view(payload).len() == 8,
            id != Id::Interrupt,
            spec_id_from_byte(spec_id_to_byte(id)) == id,
        ensures
            r is Ok,
            r->Ok_0@ == spec_device_payload_model(
                id,
                timestamp,
                address,
                lock,
                slot,
                buf_view(payload),
                0,
            ),
            r->Ok_0@.wf(),
    {
        // The unwrap is fine: the slot route is always allowed.
        let mut builder = MessagerBuilder::new().bus(Bus::DeviceMessage).address(address).id(
            id,
        ).route(Route::SlotRoute).unwrap().slot(slot);
        if let Some(timestamp) = timestamp {
            builder = builder.timestamp(timestamp);
        }
        if lock {
            builder = builder.lock();
        }
        let mut message = builder.finalize();
        message.extended_header.header.size = 0;
        message.extended_header.header.typ.payload = true;
        message.payload = Some(payload);
        Ok(message)
    }

    /// Constructs a WRITEBYTE message from a single byte of payload, right
    /// padded with zeros to one octa.
    pub fn new_writebyte(
        timestamp: Option<u32>,
        address: u64,
        payload: BytesMut,
        lock: bool,
        slot: u8,
    ) -> (r: Result<Message, MessageBuilderError>)
        ensures
            buf_view(payload).len() == 1 ==> r is Ok && r->Ok_0@ == spec_device_payload_model(
                Id::Writebyte,
                timestamp,
                address,
                lock,
                slot,
                buf_view(payload) + spec_zero_bytes(7),
                0,
            ) && r->Ok_0@.wf(),
            buf_view(payload).len() != 1 ==> r is Err && r->Err_0
                == MessageBuilderError::PayloadError,
    {
        let mut payload = payload;
        if buf_len(&payload) != 1 {
            return Err(MessageBuilderError::PayloadError);
        }
        buf_reserve(&mut payload, 7);
        pad_with_zeros(&mut payload, 7);
        MessagerBuilder::write_word_helper(timestamp, address, payload, lock, slot, Id::Writebyte)
    }

    /// Constructs a WRITEWYDE message from two bytes of payload, right
    /// padded with zeros to one octa.
    pub fn new_writewyde(
        timestamp: Option<u32>,
        address: u64,
        payload: BytesMut,
        lock: bool,
        slot: u8,
    ) -> (r: Result<Message, MessageBuilderError>)
        ensures
            buf_view(payload).len() == 2 ==> r is Ok && r->Ok_0@ == spec_device_payload_model(
                Id::Writewyde,
                timestamp,
                address,
                lock,
                slot,
                buf_view(payload) + spec_zero_bytes(6),
                0,
            ) && r->Ok_0@.wf(),
            buf_view(payload).len() != 2 ==> r is Err && r->Err_0
                == MessageBuilderError::PayloadError,
    {
        let mut payload = payload;
        if buf_len(&payload) != 2 {
            return Err(MessageBuilderError::PayloadError);
        }
        buf_reserve(&mut payload, 6);
        pad_with_zeros(&mut payload, 6);
        MessagerBuilder::write_word_helper(timestamp, address, payload, lock, slot, Id::Writewyde)
    }

    /// Constructs a WRITETETRA message from four bytes of payload, right
    /// padded with zeros to one octa.
    pub fn new_writetetra(
        timestamp: Option<u32>,
        address: u64,
        payload: BytesMut,
        lock: bool,
        slot: u8,
    ) -> (r: Result<Message, MessageBuilderError>)
        ensures
            buf_view(payload).len() == 4 ==> r is Ok && r->Ok_0@ == spec_device_payload_model(
                Id::Writetetra,
                timestamp,
                address,
                lock,
                slot,
                buf_view(payload) + spec_zero_bytes(4),
                0,
            ) && r->Ok_0@.wf(),
            buf_view(payload).len() != 4 ==> r is Err && r->Err_0
                == MessageBuilderError::PayloadError,
    {
        let mut payload = payload;
        if buf_len(&payload) != 4 {
            return Err(MessageBuilderError::PayloadError);
        }
        buf_reserve(&mut payload, 4);
        pad_with_zeros(&mut payload, 4);
        MessagerBuilder::write_word_helper(timestamp, address, payload, lock, slot, Id::Writetetra)
    }

    /// Constructs a BYTEREPLY message from a single byte of payload, right
    /// padded with zeros to one octa.
    pub fn new_bytereply(
        timestamp: Option<u32>,
        address: u64,
        payload: BytesMut,
        lock: bool,
        slot: u8,
    ) -> (r: Result<Message, MessageBuilderError>)
        ensures
            buf_view(payload).len() == 1 ==> r is Ok && r->Ok_0@ == spec_device_payload_model(
                Id::Bytereply,
                timestamp,
                address,
                lock,
                slot,
                buf_view(payload) + spec_zero_bytes(7),
                0,
            ) && r->Ok_0@.wf(),
            buf_view(payload).len() != 1 ==> r is Err && r->Err_0
                == MessageBuilderError::PayloadError,
    {
        let mut payload = payload;
        if buf_len(&payload) != 1 {
            return Err(MessageBuilderError::PayloadError);
        }
        buf_reserve(&mut payload, 7);
        pad_with_zeros(&mut payload, 7);
        MessagerBuilder::write_word_helper(timestamp, address, payload, lock, slot, Id::Bytereply)
    }

    /// Constructs a WYDEREPLY message from two bytes of payload, right
    /// padded with zeros to one octa.
    pub fn new_wydereply(
        timestamp: Option<u32>,
        address: u64,
        payload: BytesMut,
        lock: bool,
        slot: u8,
    ) -> (r: Result<Message, MessageBuilderError>)
        ensures
            buf_view(payload).len() == 2 ==> r is Ok && r->Ok_0@ == spec_device_payload_model(
                Id::Wydereply,
                timestamp,
                address,
                lock,
                slot,
                buf_view(payload) + spec_zero_bytes(6),
                0,
            ) && r->Ok_0@.wf(),
            buf_view(payload).len() != 2 ==> r is Err && r->Err_0
                == MessageBuilderError::PayloadError,
    {
        let mut payload = payload;
        if buf_len(&payload) != 2 {
            return Err(MessageBuilderError::PayloadError);
        }
        buf_reserve(&mut payload, 6);
        pad_with_zeros(&mut payload, 6);
        MessagerBuilder::write_word_helper(timestamp, address, payload, lock, slot, Id::Wydereply)
    }

    /// Constructs a TETRAREPLY message from four bytes of payload, right
    /// padded with zeros to one octa.
    pub fn new_tetrareply(
        timestamp: Option<u32>,
        address: u64,
        payload: BytesMut,
        lock: bool,
        slot: u8,
    ) -> (r: Result<Message, MessageBuilderError>)
        ensures
            buf_view(payload).len() == 4 ==> r is Ok && r->Ok_0@ == spec_device_payload_model(
                Id::Tetrareply,
                timestamp,
                address,
                lock,
                slot,
                buf_view(payload) + spec_zero_bytes(4),
                0,
            ) && r->Ok_0@.wf(),
            buf_view(payload).len() != 4 ==> r is Err && r->Err_0
                == MessageBuilderError::PayloadError,
    {
        let mut payload = payload;
        if buf_len(&payload) != 4 {
            return Err(MessageBuilderError::PayloadError);
        }
        buf_reserve(&mut payload, 4);
        pad_with_zeros(&mut payload, 4);
        MessagerBuilder::write_word_helper(timestamp, address, payload, lock, slot, Id::Tetrareply)
    }

    /// Constructs a TERMINATE message.
    pub fn new_terminate() -> (m: Message)
        ensures
            m@ == spec_bus_model(Id::Terminate, None, false, 0),
            m@.wf(),
    {
        // The unwrap is fine: this is a bus message, so either route is
        // allowed.
        let builder = MessagerBuilder::new().bus(Bus::BusMessage).id(Id::Terminate).route(
            Route::OtherRoute,
        ).unwrap();
        builder.finalize()
    }

    /// Constructs a REGISTER message; the payload must be a positive number
    /// of whole octas, at most 256 of them.
    pub fn new_register(timestamp: Option<u32>, lock: bool, slot: u8, payload: BytesMut) -> (r:
        Result<Message, MessageBuilderError>)
        ensures
            spec_payload_len_ok(buf_view(payload).len() as int) ==> r is Ok && r->Ok_0@
                == spec_bus_payload_model(
                Id::Register,
                timestamp,
                lock,
                slot,
                buf_view(payload),
                (buf_view(payload).len() / 8 - 1) as u8,
            ) && r->Ok_0@.wf(),
            !spec_payload_len_ok(buf_view(payload).len() as int) ==> r is Err && r->Err_0
                == MessageBuilderError::PayloadError,
    {
        // The unwrap is fine: this is a bus message, so either route is
        // allowed.
        let mut builder = match MessagerBuilder::new().bus(Bus::BusMessage).id(Id::Register).slot(
            slot,
        ).payload(payload) {
            Ok(builder) => builder,
            Err(e) => {
                return Err(e);
            },
        }.route(Route::OtherRoute).unwrap();
        if let Some(timestamp) = timestamp {
            builder = builder.timestamp(timestamp);
        }
        if lock {
            builder = builder.lock();
        }
        Ok(builder.finalize())
    }

    /// Constructs an UNREGISTER message.
    pub fn new_unregister(timestamp: Option<u32>, lock: bool, slot: u8) -> (m: Message)
        ensures
            m@ == spec_bus_model(Id::Unregister, timestamp, lock, slot),
            m@.wf(),
    {
        // The unwrap is fine: this is a bus message, so either route is
        // allowed.
        let mut builder = MessagerBuilder::new().bus(Bus::BusMessage).id(Id::Unregister).slot(
            slot,
        ).route(Route::OtherRoute).unwrap();
        if let Some(timestamp) = timestamp {
            builder = builder.timestamp(timestamp);
        }
        if lock {
            builder = builder.lock();
        }
        builder.finalize()
    }

    /// Constructs an INTERRUPT message. Interrupt numbers run from 0 to 63,
    /// so any larger slot is refused.
    pub fn new_interrupt(timestamp: Option<u32>, slot: u8) -> (r: Result<
        Message,
        MessageBuilderError,
    >)
        ensures
            slot <= 63 ==> r is Ok && r->Ok_0@ == spec_bus_model(
                Id::Interrupt,
                timestamp,
                false,
                slot,
            ) && r->Ok_0@.wf(),
            slot > 63 ==> r is Err && r->Err_0 == MessageBuilderError::SlotError,
    {
        if slot > 63 {
            return Err(MessageBuilderError::SlotError);
        }
        // The unwrap is fine: this is a bus message, so either route is
        // allowed.
        let mut builder = MessagerBuilder::new().bus(Bus::BusMessage).id(Id::Interrupt).slot(
            slot,
        ).route(Route::OtherRoute).unwrap();
        if let Some(timestamp) = timestamp {
            builder = builder.timestamp(timestamp);
        }
        Ok(builder.finalize())
    }

    /// Constructs a RESET message.
    pub fn new_reset(timestamp: Option<u32>, slot: u8) -> (m: Message)
        ensures
            m@ == spec_bus_model(Id::Reset, timestamp, false, slot),
            m@.wf(),
    {
        // The unwrap is fine: this is a bus message, so either route is
        // allowed.
        let mut builder = MessagerBuilder::new().bus(Bus::BusMessage).id(Id::Reset).slot(
            slot,
        ).route(Route::OtherRoute).unwrap();
        if let Some(timestamp) = timestamp {
            builder = builder.timestamp(timestamp);
        }
        builder.finalize()
    }

    /// Constructs a POWEROFF message.
    pub fn new_poweroff(timestamp: Option<u32>, slot: u8) -> (m: Message)
        ensures
            m@ == spec_bus_model(Id::Poweroff, timestamp, false, slot),
            m@.wf(),
    {
        // The unwrap is fine: this is a bus message, so either route is
        // allowed.
        let mut builder = MessagerBuilder::new().bus(Bus::BusMessage).id(Id::Poweroff).slot(
            slot,
        ).route(Route::OtherRoute).unwrap();
        if let Some(timestamp) = timestamp {
            builder = builder.timestamp(timestamp);
        }
        builder.finalize()
    }

    /// Constructs a POWERON message.
    pub fn new_poweron(timestamp: Option<u32>, slot: u8) -> (m: Message)
        ensures
            m@ == spec_bus_model(Id::Poweron, timestamp, false, slot),
            m@.wf(),
    {
        // The unwrap is fine: this is a bus message, so either route is
        // allowed.
        let mut builder = MessagerBuilder::new().bus(Bus::BusMessage).id(Id::Poweron).slot(
            slot,
        ).route(Route::OtherRoute).unwrap();
        if let Some(timestamp) = timestamp {
            builder = builder.timestamp(timestamp);
        }
        builder.finalize()
    }
}

} // verus!
