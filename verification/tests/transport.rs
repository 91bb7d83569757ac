use presence::{read_receive, TransportFault, RECEIVE_BUFFER_CAPACITY};

#[test]
fn buffer_holds_1024_bytes() {
    assert_eq!(RECEIVE_BUFFER_CAPACITY, 1024);
}

#[test]
fn received_datagram_is_the_front_of_the_buffer() {
    let buffer = [1u8, 2, 3, 4, 5];
    assert_eq!(read_receive(&buffer, Ok(3)), Ok(Some(&buffer[..3])));
    assert_eq!(read_receive(&buffer, Ok(0)), Ok(Some(&buffer[..0])));
    assert_eq!(read_receive(&buffer, Ok(5)), Ok(Some(&buffer[..])));
}

#[test]
fn size_beyond_the_buffer_gives_the_whole_buffer() {
    let buffer = [7u8; 4];
    assert_eq!(read_receive(&buffer, Ok(9)), Ok(Some(&buffer[..])));
}

#[test]
fn nothing_pending_is_no_error() {
    let buffer = [0u8; RECEIVE_BUFFER_CAPACITY];
    assert_eq!(read_receive(&buffer, Err(TransportFault::WouldBlock)), Ok(None));
    assert_eq!(read_receive(&buffer, Err(TransportFault::TimedOut)), Ok(None));
}

#[test]
fn other_faults_stay_errors() {
    let buffer = [0u8; 16];
    for fault in [
        TransportFault::Interrupted,
        TransportFault::ConnectionRefused,
        TransportFault::ConnectionReset,
        TransportFault::NotConnected,
        TransportFault::InvalidInput,
        TransportFault::Other,
    ] {
        assert_eq!(read_receive(&buffer, Err(fault)), Err(fault));
    }
}

#[test]
fn faults_are_classified() {
    assert!(TransportFault::WouldBlock.is_no_data());
    assert!(TransportFault::TimedOut.is_no_data());
    assert!(!TransportFault::Interrupted.is_no_data());
    assert!(!TransportFault::Other.is_no_data());
    assert!(TransportFault::NotConnected.is_socket_unusable());
    assert!(TransportFault::InvalidInput.is_socket_unusable());
    assert!(!TransportFault::WouldBlock.is_socket_unusable());
    assert!(!TransportFault::ConnectionRefused.is_socket_unusable());
    assert!(!TransportFault::ConnectionReset.is_socket_unusable());
    assert!(!TransportFault::Other.is_socket_unusable());
}
