use tuifs::protocol::{route_of, HttpRequest, Route};
use tuifs::server::{FileEntry, RouterStep, Server};

fn test_server() -> Server {
    Server::new("server1", 3333, "/srv/storage".to_string())
}

fn request(path: &str, headers: &[(&str, &str)], body: &[u8]) -> HttpRequest {
    HttpRequest {
        path: path.to_string(),
        headers: headers
            .iter()
            .map(|(k, v)| (k.to_string(), v.to_string()))
            .collect(),
        body: body.to_vec(),
    }
}

#[test]
fn route_of_maps_the_three_paths() {
    assert_eq!(route_of("/addfile"), Route::AddFile);
    assert_eq!(route_of("/getfiles"), Route::GetFiles);
    assert_eq!(route_of("/downloadfile"), Route::DownloadFile);
}

#[test]
fn route_of_rejects_everything_else() {
    assert_eq!(route_of("/"), Route::NotFound);
    assert_eq!(route_of(""), Route::NotFound);
    assert_eq!(route_of("/addfile/"), Route::NotFound);
    assert_eq!(route_of("/ADDFILE"), Route::NotFound);
    assert_eq!(route_of("/getfile"), Route::NotFound);
    assert_eq!(route_of("/files"), Route::NotFound);
}

#[test]
fn unknown_path_is_answered_404_not_found() {
    let s = test_server();
    let step = s.handle_request(request("/whatever", &[], b""));
    match step {
        RouterStep::Respond { response } => {
            assert_eq!(response.status, 404);
            assert_eq!(response.body, b"Not Found".to_vec());
        }
        _ => panic!("an unserved path must be answered directly"),
    }
}

#[test]
fn handle_std_request_is_404_not_found() {
    let s = test_server();
    let r = s.handle_std_request();
    assert_eq!(r.status, 404);
    assert_eq!(r.body, b"Not Found".to_vec());
}

#[test]
fn addfile_writes_named_file_with_body() {
    let s = test_server();
    let step = s.handle_request(request(
        "/addfile",
        &[("file_name", "report"), ("file_type", "txt")],
        b"hello bytes",
    ));
    match step {
        RouterStep::WriteFile { write, response } => {
            assert_eq!(write.path, "/srv/storage/report.txt");
            assert_eq!(write.content, b"hello bytes".to_vec());
            assert_eq!(response.status, 200);
            assert!(response.body.is_empty());
        }
        _ => panic!("an upload must become a file write"),
    }
}

#[test]
fn addfile_without_name_headers_is_bad_request() {
    let s = test_server();
    let step = s.handle_request(request("/addfile", &[("file_name", "report")], b"x"));
    match step {
        RouterStep::Respond { response } => {
            assert_eq!(response.status, 400);
            assert!(response.body.is_empty());
        }
        _ => panic!("an upload without its headers must be refused"),
    }
}

#[test]
fn addfile_with_a_traversing_name_is_refused() {
    let s = test_server();
    for (name, ty) in [("../evil", "sh"), ("a/b", "txt"), ("", "."), ("/etc/x", "conf")] {
        let step = s.handle_request(request(
            "/addfile",
            &[("file_name", name), ("file_type", ty)],
            b"x",
        ));
        match step {
            RouterStep::Respond { response } => {
                assert_eq!(response.status, 400);
                assert!(response.body.is_empty());
            }
            _ => panic!("a name that leaves the storage directory must be refused"),
        }
    }
}

#[test]
fn downloadfile_with_a_traversing_name_is_refused() {
    let s = test_server();
    for name in ["../x", "a/b", "..", ".", "", "/etc/passwd"] {
        let step = s.handle_request(request("/downloadfile", &[("file", name)], b""));
        match step {
            RouterStep::Respond { response } => {
                assert_eq!(response.status, 400);
                assert!(response.body.is_empty());
            }
            _ => panic!("a name that leaves the storage directory must be refused"),
        }
    }
}

#[test]
fn storage_failure_is_an_empty_500() {
    let s = test_server();
    let r = s.storage_failure_response();
    assert_eq!(r.status, 500);
    assert!(r.body.is_empty());
}

#[test]
fn getfiles_asks_for_the_directory() {
    let s = test_server();
    match s.handle_request(request("/getfiles", &[], b"")) {
        RouterStep::ListDir => {}
        _ => panic!("a listing request must read the directory"),
    }
}

#[test]
fn getfiles_lists_exactly_the_entries() {
    let s = test_server();
    let entries = vec![
        FileEntry { stem: "a".to_string(), ext: "txt".to_string() },
        FileEntry { stem: "b".to_string(), ext: "png".to_string() },
    ];
    let r = s.handle_getfiles(&entries);
    assert_eq!(r.status, 200);
    assert_eq!(r.body, br#"["a.txt","b.png"]"#.to_vec());
}

#[test]
fn getfiles_of_empty_directory_is_an_empty_listing() {
    let s = test_server();
    let r = s.handle_getfiles(&Vec::new());
    assert_eq!(r.status, 200);
    assert_eq!(r.body, b"[]".to_vec());
}

#[test]
fn downloadfile_reads_the_named_file() {
    let s = test_server();
    let step = s.handle_request(request("/downloadfile", &[("file", "report.txt")], b""));
    match step {
        RouterStep::ReadFile { read } => {
            assert_eq!(read.path, "/srv/storage/report.txt");
        }
        _ => panic!("a download must become a file read"),
    }
}

#[test]
fn downloadfile_without_file_header_is_bad_request() {
    let s = test_server();
    match s.handle_request(request("/downloadfile", &[], b"")) {
        RouterStep::Respond { response } => assert_eq!(response.status, 400),
        _ => panic!("a download without its header must be refused"),
    }
}

#[test]
fn download_response_carries_the_bytes_unchanged() {
    let s = test_server();
    let r = s.download_response(vec![0, 1, 2, 255]);
    assert_eq!(r.status, 200);
    assert_eq!(r.body, vec![0, 1, 2, 255]);
}

#[test]
fn addfolder_is_a_placeholder() {
    let s = test_server();
    let r = s.handle_addfolder();
    assert_eq!(r.status, 200);
    assert_eq!(r.body, b"to be implemented".to_vec());
}

#[test]
fn set_storage_dir_repoints_the_server() {
    let mut s = test_server();
    s.set_storage_dir("/elsewhere");
    let read = s.handle_downloadfile("x.bin");
    assert_eq!(read.path, "/elsewhere/x.bin");
    assert_eq!(s.name, "server1");
    assert_eq!(s.port, 3333);
}
