//! The server side: one storage directory, the handlers for the three
//! served paths, and the dispatcher that maps a request onto a storage
//! step. Reading and writing the files themselves is the caller's part;
//! the handlers fix the paths, the contents and the responses.

use vstd::prelude::*;
use vstd::string::*;
use vstd::utf8::encode_utf8;
use crate::json::{encode_listing, json_list_bytes};
use crate::names::{is_safe_name, join_path, make_file_name, safe_name_spec};
use crate::protocol::{header_spec, header_value, route_of, route_spec, HttpRequest, HttpResponse,
    Route};

verus! {

/// One directory entry of the storage directory, as the listing shows it:
/// the file's stem and its extension.
pub struct FileEntry {
    pub stem: String,
    pub ext: String,
}

impl FileEntry {
    /// The one display string the listing holds for this entry.
    pub open spec fn display_spec(self) -> Seq<char> {
        self.stem@ + seq!['.'] + self.ext@
    }
}

/// A whole-file write the dispatcher asks the caller to perform.
pub struct FileWrite {
    pub path: String,
    pub content: Vec<u8>,
}

/// A whole-file read the dispatcher asks the caller to perform.
pub struct FileRead {
    pub path: String,
}

/// What serving one request takes: a file write with its response, a
/// directory listing, a file read, or a finished response.
pub enum RouterStep {
    WriteFile { write: FileWrite, response: HttpResponse },
    ListDir,
    ReadFile { read: FileRead },
    Respond { response: HttpResponse },
}

/// The file server: a name, a port, and the one directory all file
/// operations are confined to.
pub struct Server {
    pub name: String,
    pub port: u16,
    pub storage_dir: String,
}

impl Server {
    /// Builds a server over an already-resolved storage directory.
    pub fn new(name: &str, port: u16, storage_dir: String) -> (r: Self)
        ensures
            r.name@ == name@,
            r.port == port,
            r.storage_dir == storage_dir,
    {
        Self { name: name.to_owned(), port, storage_dir }
    }

    /// Points the server at another storage directory; creating it on disk
    /// is the caller's part.
    pub fn set_storage_dir(&mut self, storage_dir: &str)
        ensures
            final(self).storage_dir@ == storage_dir@,
            final(self).name == old(self).name,
            final(self).port == old(self).port,
    {
        self.storage_dir = storage_dir.to_owned();
    }

    /// Stores an uploaded file: the write targets `storage_dir/name.ext`,
    /// carries the request body unchanged, and is answered with an empty
    /// 200 response. The combined name must be a plain file name, so the
    /// write stays inside the storage directory.
    pub fn handle_addfile(&self, file_name: &str, file_type: &str, content: Vec<u8>) -> (r: (
        FileWrite,
        HttpResponse,
    ))
        requires
            safe_name_spec(file_name@ + seq!['.'] + file_type@),
        ensures
            r.0.path@ == self.storage_dir@ + seq!['/'] + file_name@ + seq!['.'] + file_type@,
            r.0.content == content,
            r.1.status == 200,
            r.1.body@.len() == 0,
    {
        let target = make_file_name(file_name, file_type);
        let path = join_path(self.storage_dir.as_str(), target.as_str());
        proof {
            assert(path@ =~= self.storage_dir@ + seq!['/'] + file_name@ + seq!['.']
                + file_type@);
        }
        (FileWrite { path, content }, HttpResponse { status: 200, body: Vec::new() })
    }

    /// Resolves a requested download to its path under the storage
    /// directory; the caller reads that file and answers with
    /// `download_response`. The name must be a plain file name, so the
    /// read stays inside the storage directory.
    pub fn handle_downloadfile(&self, file_name: &str) -> (r: FileRead)
        requires
            safe_name_spec(file_name@),
        ensures
            r.path@ == self.storage_dir@ + seq!['/'] + file_name@,
    {
        FileRead { path: join_path(self.storage_dir.as_str(), file_name) }
    }

    /// Answers a download with the named file's bytes, unchanged, under
    /// status 200.
    pub fn download_response(&self, content: Vec<u8>) -> (r: HttpResponse)
        ensures
            r.status == 200,
            r.body == content,
    {
        HttpResponse { status: 200, body: content }
    }

    /// Folder upload is not served yet; the placeholder answer says so.
    pub fn handle_addfolder(&self) -> (r: HttpResponse)
        ensures
            r.status == 200,
            r.body@ == encode_utf8("to be implemented"@),
    {
        HttpResponse { status: 200, body: "to be implemented".as_bytes_vec() }
    }

    /// Turns the storage directory's entries into the listing: one display
    /// string for each entry, in the given order, encoded as a JSON array
    /// of strings, under status 200.
    pub fn handle_getfiles(&self, entries: &Vec<FileEntry>) -> (r: HttpResponse)
        ensures
            r.status == 200,
            r.body@ == json_list_bytes(
                entries@.map_values(|e: FileEntry| e.display_spec()),
            ),
    {
        let n = entries.len();
        let mut names: Vec<String> = Vec::new();
        let mut i: usize = 0;
        while i < n
            invariant
                i <= n,
                n == entries@.len(),
                names.deep_view() =~= entries@.take(i as int).map_values(
                    |e: FileEntry| e.display_spec(),
                ),
            decreases n - i,
        {
            let entry = &entries[i];
            names.push(make_file_name(entry.stem.as_str(), entry.ext.as_str()));
            proof {
                assert(entries@.take(i + 1).map_values(|e: FileEntry| e.display_spec())
                    =~= entries@.take(i as int).map_values(|e: FileEntry| e.display_spec()).push(
                    entries@[i as int].display_spec(),
                ));
            }
            i = i + 1;
        }
        proof {
            assert(entries@.take(n as int) =~= entries@);
        }
        let body = encode_listing(&names);
        HttpResponse { status: 200, body }
    }

    /// Every path the router does not serve is answered with status 404
    /// and the body `Not Found`.
    pub fn handle_std_request(&self) -> (r: HttpResponse)
        ensures
            r.status == 404,
            r.body@ == encode_utf8("Not Found"@),
    {
        HttpResponse { status: 404, body: "Not Found".as_bytes_vec() }
    }

    /// A storage failure while serving a request — the directory or a
    /// file could not be read or written — is answered with an empty 500:
    /// the defect is the server's, not the client's. A download whose
    /// named file is simply absent is answered with `handle_std_request`
    /// instead: that name is not served.
    pub fn storage_failure_response(&self) -> (r: HttpResponse)
        ensures
            r.status == 500,
            r.body@.len() == 0,
    {
        HttpResponse { status: 500, body: Vec::new() }
    }
}

/// A refused request — a served path whose name headers are missing, or
/// whose name would leave the storage directory — is answered with an
/// empty 400.
pub open spec fn refused_step(r: RouterStep) -> bool {
    match r {
        RouterStep::Respond { response } => response.status == 400 && response.body@.len() == 0,
        _ => false,
    }
}

/// What dispatching `req` against `s` yields, for every path and header
/// shape: the three served paths reach their handlers; a served path with
/// its name headers missing, or with a name that is no plain file name —
/// a slash, `.` or `..`, which could climb out of the storage directory —
/// is answered with an empty 400; and every other path with the 404
/// answer.
pub open spec fn router_step_spec(s: Server, req: HttpRequest, r: RouterStep) -> bool {
    match route_spec(req.path@) {
        Route::AddFile => match (
            header_spec(req.headers@, "file_name"@),
            header_spec(req.headers@, "file_type"@),
        ) {
            (Option::Some(n), Option::Some(t)) => if safe_name_spec(n + seq!['.'] + t) {
                match r {
                    RouterStep::WriteFile { write, response } => {
                        &&& write.path@ == s.storage_dir@ + seq!['/'] + n + seq!['.'] + t
                        &&& write.content@ == req.body@
                        &&& response.status == 200
                        &&& response.body@.len() == 0
                    },
                    _ => false,
                }
            } else {
                refused_step(r)
            },
            _ => refused_step(r),
        },
        Route::GetFiles => r is ListDir,
        Route::DownloadFile => match header_spec(req.headers@, "file"@) {
            Option::Some(f) => if safe_name_spec(f) {
                match r {
                    RouterStep::ReadFile { read } => read.path@ == s.storage_dir@ + seq!['/'] + f,
                    _ => false,
                }
            } else {
                refused_step(r)
            },
            Option::None => refused_step(r),
        },
        Route::NotFound => match r {
            RouterStep::Respond { response } => response.status == 404 && response.body@
                == encode_utf8("Not Found"@),
            _ => false,
        },
    }
}

impl Server {
    /// Maps one inbound request onto the storage step that serves it.
    pub fn handle_request(&self, req: HttpRequest) -> (r: RouterStep)
        ensures
            router_step_spec(*self, req, r),
    {
        match route_of(req.path.as_str()) {
            Route::AddFile => {
                let name = match header_value(&req.headers, "file_name") {
                    Option::Some(v) => Option::Some(v.clone()),
                    Option::None => Option::None,
                };
                let ty = match header_value(&req.headers, "file_type") {
                    Option::Some(v) => Option::Some(v.clone()),
                    Option::None => Option::None,
                };
                match (name, ty) {
                    (Option::Some(n), Option::Some(t)) => {
                        let target = make_file_name(n.as_str(), t.as_str());
                        if is_safe_name(target.as_str()) {
                            let (write, response) = self.handle_addfile(
                                n.as_str(),
                                t.as_str(),
                                req.body,
                            );
                            RouterStep::WriteFile { write, response }
                        } else {
                            RouterStep::Respond {
                                response: HttpResponse { status: 400, body: Vec::new() },
                            }
                        }
                    },
                    _ => RouterStep::Respond {
                        response: HttpResponse { status: 400, body: Vec::new() },
                    },
                }
            },
            Route::GetFiles => RouterStep::ListDir,
            Route::DownloadFile => match header_value(&req.headers, "file") {
                Option::Some(f) => {
                    let f = f.clone();
                    if is_safe_name(f.as_str()) {
                        RouterStep::ReadFile { read: self.handle_downloadfile(f.as_str()) }
                    } else {
                        RouterStep::Respond {
                            response: HttpResponse { status: 400, body: Vec::new() },
                        }
                    }
                },
                Option::None => RouterStep::Respond {
                    response: HttpResponse { status: 400, body: Vec::new() },
                },
            },
            Route::NotFound => RouterStep::Respond { response: self.handle_std_request() },
        }
    }
}

/// Every file operation the router orders stays inside the storage
/// directory: its target is `storage_dir/name` for a plain file name —
/// no slash, no `.` or `..` — so no request-supplied name climbs out.
pub proof fn lemma_file_operations_confined(s: Server, req: HttpRequest, r: RouterStep)
    requires
        router_step_spec(s, req, r),
    ensures
        match r {
            RouterStep::WriteFile { write, response } => exists|name: Seq<char>|
                #[trigger] safe_name_spec(name) && write.path@ == s.storage_dir@ + seq!['/']
                    + name,
            RouterStep::ReadFile { read } => exists|name: Seq<char>|
                #[trigger] safe_name_spec(name) && read.path@ == s.storage_dir@ + seq!['/']
                    + name,
            _ => true,
        },
{
    match r {
        RouterStep::WriteFile { write, response } => {
            let n = header_spec(req.headers@, "file_name"@).unwrap();
            let t = header_spec(req.headers@, "file_type"@).unwrap();
            let name = n + seq!['.'] + t;
            assert(write.path@ =~= s.storage_dir@ + seq!['/'] + name);
            assert(safe_name_spec(name) && write.path@ == s.storage_dir@ + seq!['/'] + name);
        },
        RouterStep::ReadFile { read } => {
            let name = header_spec(req.headers@, "file"@).unwrap();
            assert(safe_name_spec(name) && read.path@ == s.storage_dir@ + seq!['/'] + name);
        },
        _ => {},
    }
}

/// Any path other than the three served ones is answered with status 404
/// and the body `Not Found`, whatever else the request holds.
pub proof fn lemma_unknown_path_not_found(s: Server, req: HttpRequest, r: RouterStep)
    requires
        router_step_spec(s, req, r),
        req.path@ != "/addfile"@,
        req.path@ != "/getfiles"@,
        req.path@ != "/downloadfile"@,
    ensures
        match r {
            RouterStep::Respond { response } => response.status == 404 && response.body@
                == encode_utf8("Not Found"@),
            _ => false,
        },
{
}

} // verus!
