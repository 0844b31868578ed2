//! The client's transport model: the address a connection is made to, the
//! requests the client sends, and the errors the caller can meet. The
//! socket itself and the streaming live with the caller; what is sent, and
//! to where, is fixed here.

use vstd::prelude::*;
use vstd::string::*;
use crate::names::{base_name_spec, file_name_of_path, split_base_ext};
use crate::protocol::HttpRequest;
use crate::textutil::{all_digits, dec_digits, dec_value, first_index_of, last_index_of, find_char,
    parse_u16, u16_to_decimal};

verus! {

/// Connecting failed: the address did not parse, the host could not be
/// reached, or the handshake broke off.
#[derive(Clone, Copy, PartialEq, Eq, Structural, Debug)]
pub enum ConnectError {
    BadAddress,
    Unreachable,
    Handshake,
}

/// Fetching the listing failed: the server answered with a non-success
/// status, or the body did not decode as a listing.
#[derive(Clone, Copy, PartialEq, Eq, Structural, Debug)]
pub enum ListError {
    Status(u16),
    Decode,
}

/// Uploading failed: the local path could not be opened as a file, or the
/// transfer itself broke off.
#[derive(Clone, Copy, PartialEq, Eq, Structural, Debug)]
pub enum UploadError {
    CannotOpen,
    Transport,
}

/// Downloading failed: the local file could not be created, or the
/// transfer itself broke off.
#[derive(Clone, Copy, PartialEq, Eq, Structural, Debug)]
pub enum DownloadError {
    CreateFile,
    Transport,
}

/// What hyper's URI parser yields for an address string: the host and the
/// explicit port when the string parses as a URI that has a host, nothing
/// otherwise.
pub uninterp spec fn uri_host_port(s: Seq<char>) -> Option<(Seq<char>, Option<u16>)>;

/// Relies on hyper::Uri — str::parse::<Uri>, Uri::host and Uri::port_u16,
/// one parse pipeline — whose outcome is a function of the address string
/// alone.
#[verifier::external_body]
fn parse_uri_host_port(address: &str) -> (r: Option<(String, Option<u16>)>)
    ensures
        r is Some <==> uri_host_port(address@) is Some,
        r is Some ==> ({
            let (h, p) = uri_host_port(address@).unwrap();
            r.unwrap().0@ == h && r.unwrap().1 == p
        }),
{
    match address.parse::<hyper::Uri>() {
        Ok(uri) => match uri.host() {
            Some(h) => Some((h.to_string(), uri.port_u16())),
            None => None,
        },
        Err(_) => None,
    }
}

/// The client's side of one connection: the address it was asked for, and
/// the host and port that address resolves to. The open socket lives with
/// the caller; a reconfigured address makes a whole new value, never a
/// mutated one.
#[derive(Debug)]
pub struct CustomHTTPClient {
    pub address: String,
    pub host: String,
    pub port: u16,
}

impl CustomHTTPClient {
    /// Fixes the connection's host and port from `address`, port 80 when
    /// the address names none; an address hyper's parser yields no host
    /// for is refused. Opening the socket is the caller's part.
    pub fn new(address: &str) -> (r: Result<CustomHTTPClient, ConnectError>)
        ensures
            r is Ok <==> uri_host_port(address@) is Some,
            r is Ok ==> ({
                let (h, p) = uri_host_port(address@).unwrap();
                &&& r.unwrap().address@ == address@
                &&& r.unwrap().host@ == h
                &&& r.unwrap().port == (match p {
                    Option::Some(q) => q,
                    Option::None => 80u16,
                })
            }),
            r is Err ==> r.unwrap_err() == ConnectError::BadAddress,
    {
        match parse_uri_host_port(address) {
            Option::Some((host, p)) => {
                let port: u16 = match p {
                    Option::Some(q) => q,
                    Option::None => 80,
                };
                Result::Ok(CustomHTTPClient { address: address.to_owned(), host, port })
            },
            Option::None => Result::Err(ConnectError::BadAddress),
        }
    }
}

/// The listing request: `GET /getfiles`, no headers, no body.
pub fn getfiles_request() -> (r: HttpRequest)
    ensures
        r.path@ == "/getfiles"@,
        r.headers@.len() == 0,
        r.body@.len() == 0,
{
    HttpRequest { path: "/getfiles".to_owned(), headers: Vec::new(), body: Vec::new() }
}

/// The download request for one listed file: `/downloadfile` with the
/// file's name under the `file` header.
pub fn download_request(file_name: &str) -> (r: HttpRequest)
    ensures
        r.path@ == "/downloadfile"@,
        r.headers@.len() == 1,
        r.headers@[0].0@ == "file"@,
        r.headers@[0].1@ == file_name@,
        r.body@.len() == 0,
{
    let mut headers: Vec<(String, String)> = Vec::new();
    headers.push(("file".to_owned(), file_name.to_owned()));
    HttpRequest { path: "/downloadfile".to_owned(), headers, body: Vec::new() }
}

/// The upload request for a local path: `/addfile` with the file's stem
/// and extension under the `file_name` and `file_type` headers. The body
/// is streamed by the caller, not carried here. A path whose file name has
/// no extension yields nothing.
pub fn upload_request(path: &str) -> (r: Option<HttpRequest>)
    ensures
        r is Some <==> last_index_of(base_name_spec(path@), '.') >= 0,
        r is Some ==> ({
            let name = base_name_spec(path@);
            let i = last_index_of(name, '.');
            &&& r.unwrap().path@ == "/addfile"@
            &&& r.unwrap().headers@.len() == 2
            &&& r.unwrap().headers@[0].0@ == "file_name"@
            &&& r.unwrap().headers@[0].1@ == name.subrange(0, i)
            &&& r.unwrap().headers@[1].0@ == "file_type"@
            &&& r.unwrap().headers@[1].1@ == name.subrange(i + 1, name.len() as int)
            &&& r.unwrap().body@.len() == 0
        }),
{
    let name = file_name_of_path(path);
    match split_base_ext(name.as_str()) {
        Option::Some((stem, ext)) => {
            let mut headers: Vec<(String, String)> = Vec::new();
            headers.push(("file_name".to_owned(), stem));
            headers.push(("file_type".to_owned(), ext));
            Option::Some(
                HttpRequest { path: "/addfile".to_owned(), headers, body: Vec::new() },
            )
        },
        Option::None => Option::None,
    }
}

/// The address a launch argument names: the text before the first colon,
/// and a port read from what stands between that colon and the next one,
/// or the end.
pub struct IpAndPort {
    pub ip: String,
    pub port: u16,
}

/// The digits the port of an `ip:port` argument is read from: what stands
/// between the first colon and the next one, or the end.
pub open spec fn port_segment(s: Seq<char>) -> Seq<char> {
    let i = first_index_of(s, ':');
    let rest = s.subrange(i + 1, s.len() as int);
    let j = first_index_of(rest, ':');
    if j == -1 {
        rest
    } else {
        rest.take(j)
    }
}

impl Default for IpAndPort {
    /// The launch default: the local host, port 3333.
    fn default() -> (r: Self)
        ensures
            r.ip@ == "127.0.0.1"@,
            r.port == 3333,
    {
        IpAndPort { ip: "127.0.0.1".to_owned(), port: 3333 }
    }
}

impl IpAndPort {
    /// Splits an `ip:port` argument at its first colon. The argument must
    /// carry a colon and a port of plain digits that fits sixteen bits.
    pub fn new(ip_and_port: String) -> (r: Self)
        requires
            first_index_of(ip_and_port@, ':') >= 0,
            port_segment(ip_and_port@).len() > 0,
            all_digits(port_segment(ip_and_port@)),
            dec_value(port_segment(ip_and_port@)) <= u16::MAX,
        ensures
            r.ip@ == ip_and_port@.take(first_index_of(ip_and_port@, ':')),
            r.port as nat == dec_value(port_segment(ip_and_port@)),
    {
        let s = ip_and_port.as_str();
        let n = s.unicode_len();
        let i = match find_char(s, ':') {
            Option::Some(i) => i,
            Option::None => 0,
        };
        proof {
            crate::textutil::lemma_first_index_of_props(ip_and_port@, ':');
        }
        let ip = s.substring_char(0, i).to_owned();
        let rest = s.substring_char(i + 1, n);
        proof {
            crate::textutil::lemma_first_index_of_props(rest@, ':');
        }
        let seg = match find_char(rest, ':') {
            Option::Some(j) => rest.substring_char(0, j),
            Option::None => rest,
        };
        proof {
            if first_index_of(rest@, ':') == -1 {
                assert(rest@.take(rest@.len() as int) =~= rest@);
            }
            assert(seg@ == port_segment(ip_and_port@));
        }
        let port = match parse_u16(seg) {
            Option::Some(p) => p,
            Option::None => 0,
        };
        IpAndPort { ip, port }
    }

    /// The address as one string, `ip:port`, as it is shown and passed on.
    pub fn address_string(&self) -> (r: String)
        ensures
            r@ == self.ip@ + seq![':'] + dec_digits(self.port as nat),
    {
        proof {
            reveal_strlit(":");
        }
        let mut s = self.ip.clone();
        s.append(":");
        let p = u16_to_decimal(self.port);
        s.append(p.as_str());
        proof {
            assert(s@ =~= self.ip@ + seq![':'] + dec_digits(self.port as nat));
        }
        s
    }
}

} // verus!
