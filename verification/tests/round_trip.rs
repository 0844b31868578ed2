use tuifs::app::App;
use tuifs::protocol::HttpRequest;
use tuifs::server::{FileEntry, RouterStep, Server};
use tuifs::transport::{download_request, upload_request};

/// Uploading `report.txt`, listing, and downloading it again: the file is
/// stored and listed under its own name, and the downloaded bytes are the
/// uploaded bytes.
#[test]
fn upload_then_list_then_download_round_trip() {
    let server = Server::new("server1", 3333, "/srv/storage".to_string());
    let payload = b"the report's bytes \x00\xff".to_vec();

    // The client derives the upload request from its local path.
    let plan = upload_request("/home/me/report.txt").unwrap();
    let step = server.handle_request(HttpRequest {
        path: plan.path,
        headers: plan.headers,
        body: payload.clone(),
    });
    let stored = match step {
        RouterStep::WriteFile { write, response } => {
            assert_eq!(response.status, 200);
            assert_eq!(write.path, "/srv/storage/report.txt");
            assert_eq!(write.content, payload);
            write
        }
        _ => panic!("the upload must become a file write"),
    };

    // Listing the directory that now holds the file shows the client its
    // name.
    let entries = vec![FileEntry { stem: "report".to_string(), ext: "txt".to_string() }];
    let listing = server.handle_getfiles(&entries);
    let mut app = App::new(None);
    app.apply_listing_response(listing.status, &listing.body).unwrap();
    assert_eq!(app.server_files.items, vec!["report.txt".to_string()]);

    // Downloading the listed entry reads the same path and returns the
    // same bytes.
    let plan = download_request(&app.server_files.items[0]);
    let step = server.handle_request(HttpRequest {
        path: plan.path,
        headers: plan.headers,
        body: Vec::new(),
    });
    match step {
        RouterStep::ReadFile { read } => assert_eq!(read.path, stored.path),
        _ => panic!("the download must become a file read"),
    }
    let answer = server.download_response(stored.content);
    assert_eq!(answer.status, 200);
    assert_eq!(answer.body, payload);
}
