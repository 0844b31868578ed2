use tuifs::transport::{
    download_request, getfiles_request, upload_request, ConnectError, CustomHTTPClient, IpAndPort,
};

#[test]
fn new_client_splits_host_and_port() {
    let c = CustomHTTPClient::new("127.0.0.1:3333").unwrap();
    assert_eq!(c.address, "127.0.0.1:3333");
    assert_eq!(c.host, "127.0.0.1");
    assert_eq!(c.port, 3333);
}

#[test]
fn new_client_defaults_to_port_80() {
    let c = CustomHTTPClient::new("example.com").unwrap();
    assert_eq!(c.host, "example.com");
    assert_eq!(c.port, 80);
}

#[test]
fn new_client_reads_full_urls() {
    let c = CustomHTTPClient::new("http://example.com:8080/x").unwrap();
    assert_eq!(c.host, "example.com");
    assert_eq!(c.port, 8080);
}

#[test]
fn new_client_refuses_hostless_addresses() {
    assert_eq!(CustomHTTPClient::new("").unwrap_err(), ConnectError::BadAddress);
    assert_eq!(CustomHTTPClient::new("/nohost").unwrap_err(), ConnectError::BadAddress);
}

#[test]
fn getfiles_request_is_bare() {
    let r = getfiles_request();
    assert_eq!(r.path, "/getfiles");
    assert!(r.headers.is_empty());
    assert!(r.body.is_empty());
}

#[test]
fn download_request_names_the_file() {
    let r = download_request("report.txt");
    assert_eq!(r.path, "/downloadfile");
    assert_eq!(r.headers, vec![("file".to_string(), "report.txt".to_string())]);
    assert!(r.body.is_empty());
}

#[test]
fn upload_request_splits_name_and_extension() {
    let r = upload_request("/tmp/report.txt").unwrap();
    assert_eq!(r.path, "/addfile");
    assert_eq!(
        r.headers,
        vec![
            ("file_name".to_string(), "report".to_string()),
            ("file_type".to_string(), "txt".to_string()),
        ]
    );
    assert!(r.body.is_empty());
}

#[test]
fn upload_request_needs_an_extension() {
    assert!(upload_request("/tmp/noext").is_none());
    assert!(upload_request("").is_none());
}

#[test]
fn ip_and_port_splits_at_the_first_colon() {
    let a = IpAndPort::new("127.0.0.1:3333".to_string());
    assert_eq!(a.ip, "127.0.0.1");
    assert_eq!(a.port, 3333);
}

#[test]
fn ip_and_port_default_is_local() {
    let a = IpAndPort::default();
    assert_eq!(a.ip, "127.0.0.1");
    assert_eq!(a.port, 3333);
}

#[test]
fn address_string_joins_ip_and_port() {
    let a = IpAndPort { ip: "10.0.0.2".to_string(), port: 80 };
    assert_eq!(a.address_string(), "10.0.0.2:80");
    assert_eq!(IpAndPort::default().address_string(), "127.0.0.1:3333");
}
