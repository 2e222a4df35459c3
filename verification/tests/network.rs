use hapi::network::{data_length_of, request_status_of, Method, NetworkRequest, RequestStatus};

#[test]
fn method_wire_numbers() {
    assert_eq!(Method::Get.to_code(), 0);
    assert_eq!(Method::Head.to_code(), 1);
    assert_eq!(Method::Post.to_code(), 2);
    assert_eq!(Method::Put.to_code(), 3);
    assert_eq!(Method::Delete.to_code(), 4);
    assert_eq!(Method::Connect.to_code(), 5);
    assert_eq!(Method::Options.to_code(), 6);
    assert_eq!(Method::Trace.to_code(), 7);
    assert_eq!(Method::Patch.to_code(), 8);
}

#[test]
fn request_statuses() {
    assert_eq!(request_status_of(0), Some(RequestStatus::Pending));
    assert_eq!(request_status_of(1), Some(RequestStatus::Succeeded));
    assert_eq!(request_status_of(2), Some(RequestStatus::Failed));
    assert_eq!(request_status_of(3), Some(RequestStatus::Pending));
    assert_eq!(request_status_of(-1), None);
    assert_eq!(request_status_of(4), None);
}

#[test]
fn data_lengths() {
    assert_eq!(data_length_of(0), Some(0));
    assert_eq!(data_length_of(123), Some(123));
    assert_eq!(data_length_of(-1), None);
}

#[test]
fn request_from_wire() {
    let mut buf = vec![b'r'; 36];
    buf.push(0);
    let q = NetworkRequest::from_wire(&buf).unwrap();
    assert_eq!(q.id().bytes().as_slice(), &buf[..36]);
    assert!(NetworkRequest::from_wire(&buf[..20]).is_none());
    assert!(NetworkRequest::from_wire(&vec![b'r'; 40]).is_none());
}
