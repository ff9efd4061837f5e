use probe_rs::probe::cmsisdap::commands::general::disconnect::{
    DisconnectRequest, DisconnectResponse,
};
use probe_rs::probe::cmsisdap::commands::swj::clock::{SWJClockRequest, SWJClockResponse};
use probe_rs::probe::cmsisdap::commands::{Request, SendError, Status};

#[test]
fn disconnect_has_no_payload() {
    let mut buffer = [0xAAu8; 4];
    assert_eq!(DisconnectRequest.to_bytes(&mut buffer), Ok(0));
    assert_eq!(buffer, [0xAA; 4]);
    let mut empty: [u8; 0] = [];
    assert_eq!(DisconnectRequest.to_bytes(&mut empty), Ok(0));
    assert_eq!(DisconnectRequest::CATEGORY, 0x03);
}

#[test]
fn disconnect_response_is_its_status() {
    assert_eq!(DisconnectRequest.from_bytes(&[0x00]), Ok(DisconnectResponse(Status::DAPOk)));
    assert_eq!(
        DisconnectRequest.from_bytes(&[0xFF, 0x12]),
        Ok(DisconnectResponse(Status::DAPError))
    );
    assert_eq!(DisconnectRequest.from_bytes(&[0x01]), Err(SendError::UnexpectedAnswer));
}

#[test]
fn clock_is_written_least_significant_byte_first() {
    let mut buffer = [0xAAu8; 6];
    assert_eq!(SWJClockRequest(0x1234_5678).to_bytes(&mut buffer), Ok(4));
    assert_eq!(buffer, [0x78, 0x56, 0x34, 0x12, 0xAA, 0xAA]);
    let mut buffer = [0xAAu8; 4];
    assert_eq!(SWJClockRequest(1_000_000).to_bytes(&mut buffer), Ok(4));
    assert_eq!(buffer, [0x40, 0x42, 0x0F, 0x00]);
    assert_eq!(SWJClockRequest::CATEGORY, 0x11);
}

#[test]
fn clock_response_is_its_status() {
    let request = SWJClockRequest(1);
    assert_eq!(request.from_bytes(&[0x00, 0x00]), Ok(SWJClockResponse(Status::DAPOk)));
    assert_eq!(request.from_bytes(&[0xFF]), Ok(SWJClockResponse(Status::DAPError)));
    assert_eq!(request.from_bytes(&[0x7F]), Err(SendError::UnexpectedAnswer));
}

#[test]
fn status_bytes() {
    assert_eq!(Status::from_byte(0x00), Ok(Status::DAPOk));
    assert_eq!(Status::from_byte(0xFF), Ok(Status::DAPError));
    for byte in 1..=0xFEu8 {
        assert_eq!(Status::from_byte(byte), Err(SendError::UnexpectedAnswer));
    }
}
