use wifi_nina::error::{Error, TcpError};
use wifi_nina::frame::ReplyError;
use wifi_nina::handle::{
    check_data_sent_reply, check_data_sent_request, config_request, get_connection_state_reply,
    get_connection_state_request, get_current_rssi_reply, get_data_buf_reply, get_data_buf_request,
    get_firmware_version_reply, get_firmware_version_request, get_host_by_name_reply,
    get_host_by_name_request, get_mac_address_reply, get_network_data_reply,
    get_scanned_network_rssi_reply, get_scanned_networks_reply, get_socket_reply,
    get_socket_request, pin_mode_request, request_host_by_name_reply, request_host_by_name_request,
    send_data_reply, send_data_request, set_key_request, set_network_reply, set_network_request,
    set_passphrase_request, start_client_by_addr_reply, start_client_by_addr_request,
    get_client_state_reply, get_current_encryption_type_reply,
};
use wifi_nina::socket::{flush_step, TcpSocket, WriteStep};
use wifi_nina::types::{
    ConnectionState, EncryptionType, Ipv4Addr, NetworkData, PinMode, ProtocolMode, Socket,
    SocketAddr, TcpState,
};
use wifi_nina::wifi::{join_reply, join_request, NetworkConfig};
use wifi_nina::handle::{
    avail_data_reply, avail_data_request, get_remote_data_reply, stop_client_reply,
    stop_client_request,
};
use wifi_nina::types::RemoteData;
use wifi_nina::handle::{get_current_ssid_reply, FIRMWARE_VERSION_CAPACITY, SCAN_CAPACITY, SSID_CAPACITY};
use wifi_nina::handle::{
    digital_write_reply, digital_write_request, disconnect_reply, disconnect_request,
    set_dns_request, set_hostname_reply, set_hostname_request,
};

#[test]
fn firmware_version() {
    assert_eq!(get_firmware_version_request(), vec![0xE0, 0x37, 0x01, 0x01, 0x00, 0xEE, 0xFF, 0xFF]);
    let reply = vec![0xE0, 0xB7, 0x01, 0x05, b'1', b'.', b'2', b'.', b'3', 0xEE, 0xFF, 0xFF];
    assert_eq!(get_firmware_version_reply(reply), Ok(b"1.2.3".to_vec()));
    let with_zero = vec![0xE0, 0xB7, 0x01, 0x06, b'1', b'.', b'2', b'.', b'3', 0x00, 0xEE];
    assert_eq!(get_firmware_version_reply(with_zero), Ok(b"1.2.3".to_vec()));
}

#[test]
fn connection_status() {
    assert_eq!(get_connection_state_request(), vec![0xE0, 0x20, 0x00, 0xEE]);
    let reply = vec![0xE0, 0xA0, 0x01, 0x01, 0x03, 0xEE];
    assert_eq!(get_connection_state_reply(reply), Ok(ConnectionState::Connected));
    assert_eq!(ConnectionState::Connected.to_u8(), 3);
}

#[test]
fn connection_status_bad_byte() {
    let reply = vec![0xE0, 0xA0, 0x01, 0x01, 42, 0xEE];
    assert_eq!(
        get_connection_state_reply(reply),
        Err(Error::Tcp(TcpError::BadConnectionStatus(42)))
    );
}

#[test]
fn start_tcp_client() {
    let addr = SocketAddr::V4(Ipv4Addr(0x0A00_0001), 443);
    let req = start_client_by_addr_request(addr, Socket(0), ProtocolMode::Tcp).unwrap();
    assert_eq!(
        req,
        vec![
            0xE0, 0x2D, 0x04, 0x04, 0x0A, 0x00, 0x00, 0x01, 0x02, 0x01, 0xBB, 0x01, 0x00, 0x01,
            0x00, 0xEE
        ]
    );
    assert_eq!(start_client_by_addr_reply(vec![0xE0, 0xAD, 0x01, 0x01, 0x01, 0xEE]), Ok(()));
    assert_eq!(
        start_client_by_addr_reply(vec![0xE0, 0xAD, 0x01, 0x01, 0x00, 0xEE]),
        Err(Error::StartClientByIp)
    );
}

#[test]
fn start_client_needs_ipv4() {
    let addr = SocketAddr::V6(80);
    assert!(!addr.is_ipv4());
    assert_eq!(
        start_client_by_addr_request(addr, Socket(0), ProtocolMode::Tcp),
        Err(Error::NotIpv4)
    );
}

#[test]
fn resolve_name() {
    let req = request_host_by_name_request(&b"a.b".to_vec()).unwrap();
    assert_eq!(
        req,
        vec![0xE0, 0x34, 0x01, 0x04, b'a', b'.', b'b', 0x00, 0xEE, 0xFF, 0xFF, 0xFF]
    );
    assert_eq!(request_host_by_name_reply(vec![0xE0, 0xB4, 0x01, 0x01, 0x01, 0xEE]), Ok(()));
    assert_eq!(
        request_host_by_name_reply(vec![0xE0, 0xB4, 0x01, 0x01, 0x00, 0xEE]),
        Err(Error::ReqHostByName)
    );
    assert_eq!(get_host_by_name_request(), vec![0xE0, 0x35, 0x00, 0xEE]);
    let reply = vec![0xE0, 0xB5, 0x01, 0x04, 192, 168, 1, 2, 0xEE];
    assert_eq!(get_host_by_name_reply(reply), Ok(Ipv4Addr(0xC0A8_0102)));
}

#[test]
fn host_name_too_long() {
    assert_eq!(
        request_host_by_name_request(&vec![b'a'; 255]),
        Err(Error::Tcp(TcpError::DataTooLong))
    );
    assert!(request_host_by_name_request(&vec![b'a'; 254]).is_ok());
}

#[test]
fn send_over_socket() {
    let mut sock = TcpSocket::with_default_capacity(Socket(1));
    let data: Vec<u8> = (0..8192usize).map(|i| i as u8).collect();
    assert_eq!(sock.write_step(&data, 0), WriteStep::FlushThenContinue(4096));
    let first = sock.pending_bytes();
    assert_eq!(first, data[..4096].to_vec());
    assert_eq!(flush_step(&first, 0, 0), (0, Some(first.clone())));
    assert_eq!(flush_step(&first, 0, 4096), (4096, None));
    sock.clear_pending();
    assert_eq!(sock.write_step(&data, 4096), WriteStep::Done(8192));
    let rest = sock.pending_bytes();
    assert_eq!(rest, data[4096..].to_vec());
    assert_eq!(flush_step(&rest, 0, 0), (0, Some(rest.clone())));
    let during_write = vec![first];
    for chunk in [&during_write[0], &rest] {
        let req = send_data_request(Socket(1), chunk).unwrap();
        assert_eq!(&req[..9], &[0xE0, 0x44, 0x02, 0x00, 0x01, 0x01, 0x10, 0x00, chunk[0]]);
        assert_eq!(req.len() % 4, 0);
        assert_eq!(req[4104], 0xEE);
        assert_eq!(req.len(), 4108);
        assert_eq!(check_data_sent_request(Socket(1)), vec![0xE0, 0x2A, 0x01, 0x01, 0x01, 0xEE, 0xFF, 0xFF]);
    }
    assert_eq!(send_data_reply(vec![0xE0, 0xC4, 0x01, 0x02, 0x00, 0x10, 0xEE]), Ok(4096));
    assert_eq!(check_data_sent_reply(vec![0xE0, 0xAA, 0x01, 0x01, 0x01, 0xEE]), Ok(()));
    assert_eq!(
        check_data_sent_reply(vec![0xE0, 0xAA, 0x01, 0x01, 0x00, 0xEE]),
        Err(Error::CheckDataSent)
    );
}

#[test]
fn error_path() {
    assert_eq!(
        get_connection_state_reply(vec![0xEF, 0xA0, 0x00, 0xEE]),
        Err(Error::Transport(ReplyError::ErrorResponse))
    );
    assert_eq!(
        get_connection_state_reply(vec![0xE0, 0xB7, 0x01, 0x01, 0x03, 0xEE]),
        Err(Error::Transport(ReplyError::UnexpectedReplyByte(0xB7, 1)))
    );
}

#[test]
fn join_networks() {
    let open = NetworkConfig::Open { ssid: b"net".to_vec() };
    assert_eq!(join_request(&open), set_network_request(&b"net".to_vec()));
    assert_eq!(
        join_request(&open).unwrap(),
        vec![0xE0, 0x10, 0x01, 0x04, b'n', b'e', b't', 0x00, 0xEE, 0xFF, 0xFF, 0xFF]
    );
    assert_eq!(join_reply(&open, vec![0xE0, 0x90, 0x01, 0x01, 0x00, 0xEE]), Err(Error::SetNetwork));
    let secured = NetworkConfig::Password { ssid: b"n".to_vec(), password: b"pw".to_vec() };
    assert_eq!(
        join_request(&secured).unwrap(),
        vec![0xE0, 0x11, 0x02, 0x02, b'n', 0x00, 0x03, b'p', b'w', 0x00, 0xEE, 0xFF]
    );
    assert_eq!(set_passphrase_request(&b"n".to_vec(), &b"pw".to_vec()), join_request(&secured));
    assert_eq!(join_reply(&secured, vec![0xE0, 0x91, 0x01, 0x01, 0x01, 0xEE]), Ok(()));
    assert_eq!(set_network_reply(vec![0xE0, 0x90, 0x01, 0x01, 0x01, 0xEE]), Ok(()));
}

#[test]
fn wep_key_is_not_terminated() {
    let req = set_key_request(&b"s".to_vec(), 2, &vec![0xAB, 0xCD]).unwrap();
    assert_eq!(
        req,
        vec![0xE0, 0x12, 0x03, 0x02, b's', 0x00, 0x01, 0x02, 0x02, 0xAB, 0xCD, 0xEE]
    );
}

#[test]
fn static_configuration() {
    let req = config_request(1, Ipv4Addr(0x0A00_0002), Ipv4Addr(0x0A00_0001), Ipv4Addr(0xFFFF_FF00));
    assert_eq!(
        req,
        vec![
            0xE0, 0x14, 0x04, 0x01, 0x01, 0x04, 0x0A, 0x00, 0x00, 0x02, 0x04, 0x0A, 0x00, 0x00,
            0x01, 0x04, 0xFF, 0xFF, 0xFF, 0x00, 0xEE, 0xFF, 0xFF, 0xFF
        ]
    );
}

#[test]
fn network_data_reply() {
    let reply = vec![
        0xE0, 0xA1, 0x03, 0x04, 10, 0, 0, 2, 0x04, 255, 255, 255, 0, 0x04, 10, 0, 0, 1, 0xEE,
    ];
    assert_eq!(
        get_network_data_reply(reply),
        Ok(NetworkData {
            ip: Ipv4Addr(0x0A00_0002),
            mask: Ipv4Addr(0xFFFF_FF00),
            gateway: Ipv4Addr(0x0A00_0001)
        })
    );
}

#[test]
fn mac_address_needs_six_bytes() {
    let reply = vec![0xE0, 0xA2, 0x01, 0x06, 1, 2, 3, 4, 5, 6, 0xEE];
    assert_eq!(get_mac_address_reply(reply), Ok([1, 2, 3, 4, 5, 6]));
    let short = vec![0xE0, 0xA2, 0x01, 0x02, 1, 2, 0xEE];
    assert_eq!(get_mac_address_reply(short), Err(Error::BadLength));
}

#[test]
fn rssi_byte_orders() {
    let le = vec![0xE0, 0xB2, 0x01, 0x04, 0xC4, 0xFF, 0xFF, 0xFF, 0xEE];
    assert_eq!(get_scanned_network_rssi_reply(le), Ok(-60));
    let be = vec![0xE0, 0xA5, 0x01, 0x04, 0xFF, 0xFF, 0xFF, 0xC4, 0xEE];
    assert_eq!(get_current_rssi_reply(be), Ok(-60));
}

#[test]
fn enum_replies() {
    assert_eq!(
        get_client_state_reply(vec![0xE0, 0xAF, 0x01, 0x01, 0x04, 0xEE]),
        Ok(TcpState::Established)
    );
    assert_eq!(
        get_client_state_reply(vec![0xE0, 0xAF, 0x01, 0x01, 0x11, 0xEE]),
        Err(Error::Tcp(TcpError::BadTcpState(0x11)))
    );
    assert_eq!(
        get_current_encryption_type_reply(vec![0xE0, 0xA6, 0x01, 0x01, 0x04, 0xEE]),
        Ok(EncryptionType::Ccmp)
    );
    assert_eq!(
        get_current_encryption_type_reply(vec![0xE0, 0xA6, 0x01, 0x01, 0x03, 0xEE]),
        Err(Error::Tcp(TcpError::BadEncryptionType(3)))
    );
}

#[test]
fn socket_and_data_buffers() {
    assert_eq!(get_socket_request(), vec![0xE0, 0x3F, 0x00, 0xEE]);
    assert_eq!(get_socket_reply(vec![0xE0, 0xBF, 0x01, 0x01, 0x02, 0xEE]), Ok(Socket(2)));
    assert_eq!(
        get_data_buf_request(Socket(2), 4096).unwrap(),
        vec![0xE0, 0x45, 0x02, 0x00, 0x01, 0x02, 0x00, 0x02, 0x00, 0x10, 0xEE, 0xFF]
    );
    assert_eq!(get_data_buf_request(Socket(2), 70000), Err(Error::Tcp(TcpError::DataTooLong)));
    let reply = vec![0xE0, 0xC5, 0x01, 0x00, 0x03, 7, 8, 9, 0xEE];
    assert_eq!(get_data_buf_reply(reply), Ok(vec![7, 8, 9]));
}

#[test]
fn scanned_networks() {
    let reply = vec![0xE0, 0xA7, 0x02, 0x02, b'a', b'b', 0x01, b'c', 0xEE];
    assert_eq!(get_scanned_networks_reply(reply), Ok(vec![b"ab".to_vec(), b"c".to_vec()]));
}

#[test]
fn pin_mode_frame() {
    assert_eq!(
        pin_mode_request(25, PinMode::Output),
        vec![0xE0, 0x50, 0x02, 0x01, 25, 0x01, 0x01, 0xEE]
    );
}

#[test]
fn tcp_error_converts() {
    let e: Error<()> = Error::from(TcpError::DataTooLong);
    assert_eq!(e, Error::Tcp(TcpError::DataTooLong));
}

#[test]
fn start_client_by_ip_matches_addr() {
    let by_ip = wifi_nina::handle::start_client_by_ip_request(Ipv4Addr(0x7F00_0001), 80, Socket(3), ProtocolMode::Udp);
    let by_addr = start_client_by_addr_request(SocketAddr::V4(Ipv4Addr(0x7F00_0001), 80), Socket(3), ProtocolMode::Udp);
    assert_eq!(Ok(by_ip.clone()), by_addr);
    assert_eq!(by_ip[1], 0x2D);
    assert_eq!(&by_ip[8..11], &[0x02, 0x00, 0x50]);
    assert_eq!(&by_ip[11..15], &[0x01, 0x03, 0x01, 0x01]);
}

#[test]
fn socket_commands() {
    assert_eq!(stop_client_request(Socket(4)), vec![0xE0, 0x2E, 0x01, 0x01, 0x04, 0xEE, 0xFF, 0xFF]);
    assert_eq!(stop_client_reply(vec![0xE0, 0xAE, 0x01, 0x01, 0x02, 0xEE]), Err(Error::StopClient));
    assert_eq!(avail_data_request(Socket(4)), vec![0xE0, 0x2B, 0x01, 0x01, 0x04, 0xEE, 0xFF, 0xFF]);
    assert_eq!(avail_data_reply(vec![0xE0, 0xAB, 0x01, 0x02, 0x34, 0x12, 0xEE]), Ok(0x1234));
    let reply = vec![0xE0, 0xBA, 0x02, 0x04, 1, 2, 3, 4, 0x04, 0, 0, 0x1F, 0x90, 0xEE];
    assert_eq!(
        get_remote_data_reply(reply),
        Ok(RemoteData { ip: Ipv4Addr(0x0102_0304), port: 8080 })
    );
}

#[test]
fn wifi_commands() {
    assert_eq!(disconnect_request(), vec![0xE0, 0x30, 0x01, 0x01, 0x00, 0xEE, 0xFF, 0xFF]);
    assert_eq!(disconnect_reply(vec![0xE0, 0xB0, 0x01, 0x01, 0x00, 0xEE]), Err(Error::Disconnect));
    assert_eq!(
        set_hostname_request(&b"nina".to_vec()).unwrap(),
        vec![0xE0, 0x16, 0x01, 0x05, b'n', b'i', b'n', b'a', 0x00, 0xEE, 0xFF, 0xFF]
    );
    assert_eq!(set_hostname_reply(vec![0xE0, 0x96, 0x01, 0x01, 0x01, 0xEE]), Ok(()));
    let dns = set_dns_request(1, Ipv4Addr(0x0808_0808), Ipv4Addr(0x0101_0101));
    assert_eq!(dns[..4], [0xE0, 0x15, 0x03, 0x01]);
    assert_eq!(dns.len(), 16);
    assert_eq!(digital_write_request(13, 1), vec![0xE0, 0x51, 0x02, 0x01, 13, 0x01, 0x01, 0xEE]);
    assert_eq!(digital_write_reply(vec![0xE0, 0xD1, 0x01, 0x01, 0x00, 0xEE]), Err(Error::DigitalWrite));
}

#[test]
fn replies_beyond_capacity() {
    let mut fw = vec![0xE0, 0xB7, 0x01, 17];
    fw.extend_from_slice(&[b'9'; 17]);
    fw.push(0xEE);
    assert_eq!(FIRMWARE_VERSION_CAPACITY, 16);
    assert_eq!(get_firmware_version_reply(fw), Err(Error::BadLength));

    let mut ssid = vec![0xE0, 0xA3, 0x01, 33];
    ssid.extend_from_slice(&[b's'; 33]);
    ssid.push(0xEE);
    assert_eq!(SSID_CAPACITY, 32);
    assert_eq!(get_current_ssid_reply(ssid), Err(Error::BadLength));
    let ok = vec![0xE0, 0xA3, 0x01, 0x02, b'h', b'i', 0xEE];
    assert_eq!(get_current_ssid_reply(ok), Ok(b"hi".to_vec()));

    assert_eq!(SCAN_CAPACITY, 32);
    let mut scan = vec![0xE0, 0xA7, (SCAN_CAPACITY + 1) as u8];
    for _ in 0..=SCAN_CAPACITY {
        scan.extend_from_slice(&[0x01, b'n']);
    }
    scan.push(0xEE);
    assert_eq!(get_scanned_networks_reply(scan), Err(Error::BadLength));
}

#[test]
fn retag_keeps_non_transport_errors() {
    let e: Error<ReplyError> = Error::NotIpv4;
    assert_eq!(e.retag::<()>(), Some(Error::NotIpv4));
    let t: Error<ReplyError> = Error::Transport(ReplyError::ErrorResponse);
    assert_eq!(t.retag::<()>(), None);
}
