use vmb_proto::builder::MessagerBuilder;
use vmb_proto::types::{Bus, Id, Octa, Route};

use bytes::BufMut;
use bytes::BytesMut;

/// Returns a dummy payload plus the SIZE byte for this payload.
fn dummy_payload(length: usize) -> (BytesMut, usize) {
    let mut payload = BytesMut::with_capacity(length);
    for c in 0..length {
        payload.put_u8(c as u8);
    }
    // Since it is possible to write 1, 2 or 4 byte messages.
    if length > 4 {
        (payload, (length / 8) - 1)
    } else {
        (payload, 0)
    }
}

/// Pads the provided payload to a length of 8 so it can be compared with
/// what the sub-word write and reply factories build.
fn pad_payload_to_8(mut payload: BytesMut) -> BytesMut {
    let missing = 8 - payload.len();
    payload.reserve(missing);
    for _ in 0..missing {
        payload.put_u8(0);
    }
    payload
}

#[test]
fn test_ignore() {
    let message = MessagerBuilder::new_ignore(Some(120), Some(0xff), Route::from(true), true, 60);
    assert_eq!(message.extended_header.header.typ.bus, Bus::from(false));
    assert_eq!(message.extended_header.header.typ.time, true);
    assert_eq!(message.extended_header.header.typ.address, true);
    assert_eq!(message.extended_header.header.typ.route, Route::from(true));
    assert_eq!(message.extended_header.header.typ.payload, false);
    assert_eq!(message.extended_header.header.typ.request, false);
    assert_eq!(message.extended_header.header.typ.lock, true);
    assert_eq!(message.extended_header.header.slot, 60);
    assert_eq!(message.extended_header.header.id, Id::from(0));
    assert_eq!(message.extended_header.timestamp, Some(120));
    assert_eq!(message.extended_header.address, Some(0xff));
    assert_eq!(message.payload, None);
}

#[test]
fn test_read() {
    let message = MessagerBuilder::new_read(Some(120), 0xff, true, 60);
    assert_eq!(message.extended_header.header.typ.bus, Bus::from(false));
    assert_eq!(message.extended_header.header.typ.time, true);
    assert_eq!(message.extended_header.header.typ.address, true);
    assert_eq!(message.extended_header.header.typ.route, Route::SlotRoute);
    assert_eq!(message.extended_header.header.typ.payload, false);
    assert_eq!(message.extended_header.header.typ.request, true);
    assert_eq!(message.extended_header.header.typ.lock, true);
    assert_eq!(message.extended_header.header.slot, 60);
    assert_eq!(message.extended_header.header.id, Id::from(1));
    assert_eq!(message.extended_header.timestamp, Some(120));
    assert_eq!(message.extended_header.address, Some(0xff));
}

#[test]
fn test_write() {
    let (payload, size) = dummy_payload(10 * 8);
    let message = MessagerBuilder::new_write(Some(120), 0xff, true, 60, payload.clone()).unwrap();
    assert_eq!(message.extended_header.header.typ.bus, Bus::from(false));
    assert_eq!(message.extended_header.header.typ.time, true);
    assert_eq!(message.extended_header.header.typ.address, true);
    assert_eq!(message.extended_header.header.typ.route, Route::SlotRoute);
    assert_eq!(message.extended_header.header.typ.payload, true);
    assert_eq!(message.extended_header.header.typ.request, false);
    assert_eq!(message.extended_header.header.typ.lock, true);
    assert_eq!(message.extended_header.header.size, size as u8);
    assert_eq!(message.extended_header.header.slot, 60);
    assert_eq!(message.extended_header.header.id, Id::from(2));
    assert_eq!(message.extended_header.timestamp, Some(120));
    assert_eq!(message.extended_header.address, Some(0xff));
    assert_eq!(message.payload, Some(payload.clone()));
    assert_eq!(message.payload.unwrap().len(), (size + 1) * 8);
}

#[test]
fn test_readreply() {
    let (payload, size) = dummy_payload(10 * 8);
    let message = MessagerBuilder::new_readreply(Some(120), 0xff, true, 60, payload.clone()).unwrap();
    assert_eq!(message.extended_header.header.typ.bus, Bus::from(false));
    assert_eq!(message.extended_header.header.typ.time, true);
    assert_eq!(message.extended_header.header.typ.address, true);
    assert_eq!(message.extended_header.header.typ.route, Route::SlotRoute);
    assert_eq!(message.extended_header.header.typ.payload, true);
    assert_eq!(message.extended_header.header.typ.request, false);
    assert_eq!(message.extended_header.header.typ.lock, true);
    assert_eq!(message.extended_header.header.size, size as u8);
    assert_eq!(message.extended_header.header.slot, 60);
    assert_eq!(message.extended_header.header.id, Id::from(3));
    assert_eq!(message.extended_header.timestamp, Some(120));
    assert_eq!(message.extended_header.address, Some(0xff));
    assert_eq!(message.payload, Some(payload.clone()));
    assert_eq!(message.payload.unwrap().len(), (size + 1) * 8);
}

#[test]
fn test_noreply() {
    let message = MessagerBuilder::new_noreply(Some(120), 0xff, true, 60);
    assert_eq!(message.extended_header.header.typ.bus, Bus::from(false));
    assert_eq!(message.extended_header.header.typ.time, true);
    assert_eq!(message.extended_header.header.typ.address, true);
    assert_eq!(message.extended_header.header.typ.route, Route::SlotRoute);
    assert_eq!(message.extended_header.header.typ.payload, false);
    assert_eq!(message.extended_header.header.typ.request, false);
    assert_eq!(message.extended_header.header.typ.lock, true);
    assert_eq!(message.extended_header.header.slot, 60);
    assert_eq!(message.extended_header.header.id, Id::from(4));
    assert_eq!(message.extended_header.timestamp, Some(120));
    assert_eq!(message.extended_header.address, Some(0xff));
}

#[test]
fn test_readbyte() {
    let message = MessagerBuilder::new_readbyte(Some(120), 0xff, true, 60);
    assert_eq!(message.extended_header.header.typ.bus, Bus::from(false));
    assert_eq!(message.extended_header.header.typ.time, true);
    assert_eq!(message.extended_header.header.typ.address, true);
    assert_eq!(message.extended_header.header.typ.route, Route::SlotRoute);
    assert_eq!(message.extended_header.header.typ.payload, false);
    assert_eq!(message.extended_header.header.typ.request, true);
    assert_eq!(message.extended_header.header.typ.lock, true);
    assert_eq!(message.extended_header.header.slot, 60);
    assert_eq!(message.extended_header.header.id, Id::from(5));
    assert_eq!(message.extended_header.timestamp, Some(120));
    assert_eq!(message.extended_header.address, Some(0xff));
}

#[test]
fn test_readwyde() {
    let message = MessagerBuilder::new_readwyde(Some(120), 0xff, true, 60);
    assert_eq!(message.extended_header.header.typ.bus, Bus::from(false));
    assert_eq!(message.extended_header.header.typ.time, true);
    assert_eq!(message.extended_header.header.typ.address, true);
    assert_eq!(message.extended_header.header.typ.route, Route::SlotRoute);
    assert_eq!(message.extended_header.header.typ.payload, false);
    assert_eq!(message.extended_header.header.typ.request, true);
    assert_eq!(message.extended_header.header.typ.lock, true);
    assert_eq!(message.extended_header.header.slot, 60);
    assert_eq!(message.extended_header.header.id, Id::from(6));
    assert_eq!(message.extended_header.timestamp, Some(120));
    assert_eq!(message.extended_header.address, Some(0xff));
}

#[test]
fn test_readtetra() {
    let message = MessagerBuilder::new_readtetra(Some(120), 0xff, true, 60);
    assert_eq!(message.extended_header.header.typ.bus, Bus::from(false));
    assert_eq!(message.extended_header.header.typ.time, true);
    assert_eq!(message.extended_header.header.typ.address, true);
    assert_eq!(message.extended_header.header.typ.route, Route::SlotRoute);
    assert_eq!(message.extended_header.header.typ.payload, false);
    assert_eq!(message.extended_header.header.typ.request, true);
    assert_eq!(message.extended_header.header.typ.lock, true);
    assert_eq!(message.extended_header.header.slot, 60);
    assert_eq!(message.extended_header.header.id, Id::from(7));
    assert_eq!(message.extended_header.timestamp, Some(120));
    assert_eq!(message.extended_header.address, Some(0xff));
}

#[test]
fn test_writebyte() {
    let (payload, size) = dummy_payload(1);
    let message = MessagerBuilder::new_writebyte(Some(120), 0xff, payload.clone(), true, 60).unwrap();
    let payload = pad_payload_to_8(payload);
    assert_eq!(message.extended_header.header.typ.bus, Bus::from(false));
    assert_eq!(message.extended_header.header.typ.time, true);
    assert_eq!(message.extended_header.header.typ.address, true);
    assert_eq!(message.extended_header.header.typ.route, Route::SlotRoute);
    assert_eq!(message.extended_header.header.typ.payload, true);
    assert_eq!(message.extended_header.header.typ.request, false);
    assert_eq!(message.extended_header.header.typ.lock, true);
    assert_eq!(message.extended_header.header.size, size as u8);
    assert_eq!(message.extended_header.header.slot, 60);
    assert_eq!(message.extended_header.header.id, Id::from(8));
    assert_eq!(message.extended_header.timestamp, Some(120));
    assert_eq!(message.extended_header.address, Some(0xff));
    assert_eq!(message.payload, Some(payload.clone()));
    assert_eq!(message.payload.unwrap().len(), std::mem::size_of::<Octa>());
}

#[test]
fn test_writewyde() {
    let (payload, size) = dummy_payload(2);
    let message = MessagerBuilder::new_writewyde(Some(120), 0xff, payload.clone(), true, 60).unwrap();
    let payload = pad_payload_to_8(payload);
    assert_eq!(message.extended_header.header.typ.bus, Bus::from(false));
    assert_eq!(message.extended_header.header.typ.time, true);
    assert_eq!(message.extended_header.header.typ.address, true);
    assert_eq!(message.extended_header.header.typ.route, Route::SlotRoute);
    assert_eq!(message.extended_header.header.typ.payload, true);
    assert_eq!(message.extended_header.header.typ.request, false);
    assert_eq!(message.extended_header.header.typ.lock, true);
    assert_eq!(message.extended_header.header.size, size as u8);
    assert_eq!(message.extended_header.header.slot, 60);
    assert_eq!(message.extended_header.header.id, Id::from(9));
    assert_eq!(message.extended_header.timestamp, Some(120));
    assert_eq!(message.extended_header.address, Some(0xff));
    assert_eq!(message.payload, Some(payload.clone()));
    assert_eq!(message.payload.unwrap().len(), std::mem::size_of::<Octa>());
}

#[test]
fn test_writetetra() {
    let (payload, size) = dummy_payload(4);
    let message = MessagerBuilder::new_writetetra(Some(120), 0xff, payload.clone(), true, 60).unwrap();
    let payload = pad_payload_to_8(payload);
    assert_eq!(message.extended_header.header.typ.bus, Bus::from(false));
    assert_eq!(message.extended_header.header.typ.time, true);
    assert_eq!(message.extended_header.header.typ.address, true);
    assert_eq!(message.extended_header.header.typ.route, Route::SlotRoute);
    assert_eq!(message.extended_header.header.typ.payload, true);
    assert_eq!(message.extended_header.header.typ.request, false);
    assert_eq!(message.extended_header.header.typ.lock, true);
    assert_eq!(message.extended_header.header.size, size as u8);
    assert_eq!(message.extended_header.header.slot, 60);
    assert_eq!(message.extended_header.header.id, Id::from(10));
    assert_eq!(message.extended_header.timestamp, Some(120));
    assert_eq!(message.extended_header.address, Some(0xff));
    assert_eq!(message.payload, Some(payload.clone()));
    assert_eq!(message.payload.unwrap().len(), std::mem::size_of::<Octa>());
}

#[test]
fn test_bytereply() {
    let (payload, size) = dummy_payload(1);
    let message = MessagerBuilder::new_bytereply(Some(120), 0xff, payload.clone(), true, 60).unwrap();
    let payload = pad_payload_to_8(payload);
    assert_eq!(message.extended_header.header.typ.bus, Bus::from(false));
    assert_eq!(message.extended_header.header.typ.time, true);
    assert_eq!(message.extended_header.header.typ.address, true);
    assert_eq!(message.extended_header.header.typ.route, Route::SlotRoute);
    assert_eq!(message.extended_header.header.typ.payload, true);
    assert_eq!(message.extended_header.header.typ.request, false);
    assert_eq!(message.extended_header.header.typ.lock, true);
    assert_eq!(message.extended_header.header.size, size as u8);
    assert_eq!(message.extended_header.header.slot, 60);
    assert_eq!(message.extended_header.header.id, Id::from(11));
    assert_eq!(message.extended_header.timestamp, Some(120));
    assert_eq!(message.extended_header.address, Some(0xff));
    assert_eq!(message.payload, Some(payload.clone()));
    assert_eq!(message.payload.unwrap().len(), std::mem::size_of::<Octa>());
}

#[test]
fn test_wydereply() {
    let (payload, size) = dummy_payload(2);
    let message = MessagerBuilder::new_wydereply(Some(120), 0xff, payload.clone(), true, 60).unwrap();
    let payload = pad_payload_to_8(payload);
    assert_eq!(message.extended_header.header.typ.bus, Bus::from(false));
    assert_eq!(message.extended_header.header.typ.time, true);
    assert_eq!(message.extended_header.header.typ.address, true);
    assert_eq!(message.extended_header.header.typ.route, Route::SlotRoute);
    assert_eq!(message.extended_header.header.typ.payload, true);
    assert_eq!(message.extended_header.header.typ.request, false);
    assert_eq!(message.extended_header.header.typ.lock, true);
    assert_eq!(message.extended_header.header.size, size as u8);
    assert_eq!(message.extended_header.header.slot, 60);
    assert_eq!(message.extended_header.header.id, Id::from(12));
    assert_eq!(message.extended_header.timestamp, Some(120));
    assert_eq!(message.extended_header.address, Some(0xff));
    assert_eq!(message.payload, Some(payload.clone()));
    assert_eq!(message.payload.unwrap().len(), std::mem::size_of::<Octa>());
}

#[test]
fn test_tetrareply() {
    let (payload, size) = dummy_payload(4);
    let message = MessagerBuilder::new_tetrareply(Some(120), 0xff, payload.clone(), true, 60).unwrap();
    let payload = pad_payload_to_8(payload);
    assert_eq!(message.extended_header.header.typ.bus, Bus::from(false));
    assert_eq!(message.extended_header.header.typ.time, true);
    assert_eq!(message.extended_header.header.typ.address, true);
    assert_eq!(message.extended_header.header.typ.route, Route::SlotRoute);
    assert_eq!(message.extended_header.header.typ.payload, true);
    assert_eq!(message.extended_header.header.typ.request, false);
    assert_eq!(message.extended_header.header.typ.lock, true);
    assert_eq!(message.extended_header.header.size, size as u8);
    assert_eq!(message.extended_header.header.slot, 60);
    assert_eq!(message.extended_header.header.id, Id::from(13));
    assert_eq!(message.extended_header.timestamp, Some(120));
    assert_eq!(message.extended_header.address, Some(0xff));
    assert_eq!(message.payload, Some(payload.clone()));
    assert_eq!(message.payload.unwrap().len(), std::mem::size_of::<Octa>());
}

#[test]
fn test_terminate() {
    let message = MessagerBuilder::new_terminate();
    assert_eq!(message.extended_header.header.typ.bus, Bus::from(true));
    assert_eq!(message.extended_header.header.typ.time, false);
    assert_eq!(message.extended_header.header.typ.address, false);
    assert_eq!(message.extended_header.header.typ.route, Route::from(false));
    assert_eq!(message.extended_header.header.typ.payload, false);
    assert_eq!(message.extended_header.header.typ.request, false);
    assert_eq!(message.extended_header.header.typ.lock, false);
    assert_eq!(message.extended_header.header.size, 0);
    assert_eq!(message.extended_header.header.slot, 0);
    assert_eq!(message.extended_header.header.id, Id::from(0xF9));
    assert_eq!(message.extended_header.timestamp, None);
    assert_eq!(message.extended_header.address, None);
}

#[test]
fn test_register() {
    let (payload, size) = dummy_payload(32);
    let message = MessagerBuilder::new_register(Some(120), true, 60, payload.clone()).unwrap();
    assert_eq!(message.extended_header.header.typ.bus, Bus::from(true));
    assert_eq!(message.extended_header.header.typ.time, true);
    assert_eq!(message.extended_header.header.typ.address, false);
    assert_eq!(message.extended_header.header.typ.route, Route::from(false));
    assert_eq!(message.extended_header.header.typ.payload, true);
    assert_eq!(message.extended_header.header.typ.request, false);
    assert_eq!(message.extended_header.header.typ.lock, true);
    assert_eq!(message.extended_header.header.size, size as u8);
    assert_eq!(message.extended_header.header.slot, 60);
    assert_eq!(message.extended_header.header.id, Id::from(0xFA));
    assert_eq!(message.extended_header.timestamp, Some(120));
    assert_eq!(message.extended_header.address, None);
    assert_eq!(message.payload, Some(payload.clone()));
    assert_eq!(message.payload.unwrap().len(), (size + 1) * 8);
}

#[test]
fn test_unregister() {
    let message = MessagerBuilder::new_unregister(Some(120), true, 60);
    assert_eq!(message.extended_header.header.typ.bus, Bus::from(true));
    assert_eq!(message.extended_header.header.typ.time, true);
    assert_eq!(message.extended_header.header.typ.address, false);
    assert_eq!(message.extended_header.header.typ.route, Route::from(false));
    assert_eq!(message.extended_header.header.typ.payload, false);
    assert_eq!(message.extended_header.header.typ.request, false);
    assert_eq!(message.extended_header.header.typ.lock, true);
    assert_eq!(message.extended_header.header.slot, 60);
    assert_eq!(message.extended_header.header.id, Id::from(0xFB));
    assert_eq!(message.extended_header.timestamp, Some(120));
    assert_eq!(message.extended_header.address, None);
}

#[test]
fn test_interrupt() {
    let message = MessagerBuilder::new_interrupt(Some(120), 60).unwrap();
    assert_eq!(message.extended_header.header.typ.bus, Bus::from(true));
    assert_eq!(message.extended_header.header.typ.time, true);
    assert_eq!(message.extended_header.header.typ.address, false);
    assert_eq!(message.extended_header.header.typ.route, Route::from(false));
    assert_eq!(message.extended_header.header.typ.payload, false);
    assert_eq!(message.extended_header.header.typ.request, false);
    assert_eq!(message.extended_header.header.typ.lock, false);
    assert_eq!(message.extended_header.header.slot, 60);
    assert_eq!(message.extended_header.header.id, Id::from(0xFC));
    assert_eq!(message.extended_header.timestamp, Some(120));
    assert_eq!(message.extended_header.address, None);
}

#[test]
fn test_reset() {
    let message = MessagerBuilder::new_reset(Some(120), 60);
    assert_eq!(message.extended_header.header.typ.bus, Bus::from(true));
    assert_eq!(message.extended_header.header.typ.time, true);
    assert_eq!(message.extended_header.header.typ.address, false);
    assert_eq!(message.extended_header.header.typ.route, Route::from(false));
    assert_eq!(message.extended_header.header.typ.payload, false);
    assert_eq!(message.extended_header.header.typ.request, false);
    assert_eq!(message.extended_header.header.typ.lock, false);
    assert_eq!(message.extended_header.header.slot, 60);
    assert_eq!(message.extended_header.header.id, Id::from(0xfd));
    assert_eq!(message.extended_header.timestamp, Some(120));
    assert_eq!(message.extended_header.address, None);
}

#[test]
fn test_poweroff() {
    let message = MessagerBuilder::new_poweroff(Some(120), 60);
    assert_eq!(message.extended_header.header.typ.bus, Bus::from(true));
    assert_eq!(message.extended_header.header.typ.time, true);
    assert_eq!(message.extended_header.header.typ.address, false);
    assert_eq!(message.extended_header.header.typ.route, Route::from(false));
    assert_eq!(message.extended_header.header.typ.payload, false);
    assert_eq!(message.extended_header.header.typ.request, false);
    assert_eq!(message.extended_header.header.typ.lock, false);
    assert_eq!(message.extended_header.header.slot, 60);
    assert_eq!(message.extended_header.header.id, Id::from(0xfe));
    assert_eq!(message.extended_header.timestamp, Some(120));
    assert_eq!(message.extended_header.address, None);
}

#[test]
fn test_poweron() {
    let message = MessagerBuilder::new_poweron(Some(120), 60);
    assert_eq!(message.extended_header.header.typ.bus, Bus::from(true));
    assert_eq!(message.extended_header.header.typ.time, true);
    assert_eq!(message.extended_header.header.typ.address, false);
    assert_eq!(message.extended_header.header.typ.route, Route::from(false));
    assert_eq!(message.extended_header.header.typ.payload, false);
    assert_eq!(message.extended_header.header.typ.request, false);
    assert_eq!(message.extended_header.header.typ.lock, false);
    assert_eq!(message.extended_header.header.slot, 60);
    assert_eq!(message.extended_header.header.id, Id::from(0xff));
    assert_eq!(message.extended_header.timestamp, Some(120));
    assert_eq!(message.extended_header.address, None);
}
