//! The client interaction state machine: screens, key handling and the
//! actions the surrounding loop must perform. Every transition is a pure
//! step from the current state and one key, or from the outcome of an
//! action the loop carried out; the loop itself does the reading, the
//! rendering and the network work.

use vstd::prelude::*;
use vstd::string::*;
use crate::json::{decode_listing, json_parse_list};
use crate::navlist::StatefulList;
use crate::transport::{uri_host_port, CustomHTTPClient, DownloadError, ListError};

verus! {

/// The one active screen of the interface.
#[derive(Clone, Copy, PartialEq, Eq, Structural, Debug)]
pub enum CurrentScreen {
    Start,
    ServerFiles,
    Uploading,
    Downloading,
    Configuring,
}

impl Default for CurrentScreen {
    /// The interface opens on the Start screen.
    fn default() -> (r: Self)
        ensures
            r == CurrentScreen::Start,
    {
        CurrentScreen::Start
    }
}

/// What the Configuring screen is asking for.
#[derive(Clone, Copy, PartialEq, Eq, Structural, Debug)]
pub enum CurrentlyConfiguring {
    DownloadLocation,
    ServerLocation,
    UploadLocation,
}

impl Default for CurrentlyConfiguring {
    /// Configuration opens on the server address.
    fn default() -> (r: Self)
        ensures
            r == CurrentlyConfiguring::ServerLocation,
    {
        CurrentlyConfiguring::ServerLocation
    }
}

/// One key press, as the state machine reads it.
#[derive(Clone, Copy, PartialEq, Eq, Structural, Debug)]
pub enum KeyInput {
    Char(char),
    Enter,
    Backspace,
    Esc,
    Up,
    Down,
    Other,
}

/// What the surrounding loop must perform after a transition: nothing, a
/// listing fetch, a fresh connection, a look at a local path, a streamed
/// upload, or a download into a directory.
#[derive(Debug)]
pub enum Action {
    Idle,
    FetchListing { address: String },
    Connect { address: String },
    CheckUploadPath { path: String },
    Upload { path: String, address: String },
    Download { file_name: String, directory: String, address: String },
}

/// Whether `a` asks for a listing fetch from `addr`.
pub open spec fn is_fetch_to(a: Action, addr: Seq<char>) -> bool {
    match a {
        Action::FetchListing { address } => address@ == addr,
        _ => false,
    }
}

/// Whether `a` asks for a fresh connection to `addr`.
pub open spec fn is_connect_to(a: Action, addr: Seq<char>) -> bool {
    match a {
        Action::Connect { address } => address@ == addr,
        _ => false,
    }
}

/// Whether `a` asks for a look at the local path `p`.
pub open spec fn is_check_of(a: Action, p: Seq<char>) -> bool {
    match a {
        Action::CheckUploadPath { path } => path@ == p,
        _ => false,
    }
}

/// Whether `a` asks for an upload of `p` to `addr`.
pub open spec fn is_upload_of(a: Action, p: Seq<char>, addr: Seq<char>) -> bool {
    match a {
        Action::Upload { path, address } => path@ == p && address@ == addr,
        _ => false,
    }
}

/// Whether `a` asks for a download of `file` into `dir` from `addr`.
pub open spec fn is_download_of(a: Action, file: Seq<char>, dir: Seq<char>, addr: Seq<char>) -> bool {
    match a {
        Action::Download { file_name, directory, address } => file_name@ == file && directory@
            == dir && address@ == addr,
        _ => false,
    }
}

/// The whole client-side state: the screens, the input buffer, the remote
/// listing, the connection model and the session's directories.
#[derive(Debug)]
pub struct App {
    pub title: String,
    pub input: String,
    pub server_files: StatefulList<String>,
    pub client: Option<CustomHTTPClient>,
    pub exit: bool,
    pub current_screen: CurrentScreen,
    pub currently_configuring: Option<CurrentlyConfiguring>,
    pub download_location: String,
}

impl App {
    /// The machine's one structural invariant: the listing's cursor is
    /// sound.
    pub open spec fn wf(self) -> bool {
        self.server_files.wf()
    }

    /// The address every subsequent request targets, while a client is
    /// configured.
    pub open spec fn target_address(self) -> Option<Seq<char>> {
        match self.client {
            Option::Some(c) => Option::Some(c.address@),
            Option::None => Option::None,
        }
    }

    /// Whether `pre` and `post` agree on everything but the input buffer.
    pub open spec fn same_but_input(pre: App, post: App) -> bool {
        &&& post.title == pre.title
        &&& post.server_files == pre.server_files
        &&& post.client == pre.client
        &&& post.exit == pre.exit
        &&& post.current_screen == pre.current_screen
        &&& post.currently_configuring == pre.currently_configuring
        &&& post.download_location == pre.download_location
    }

    /// A fresh session around an optional already-connected client: empty
    /// buffers, an empty listing, the Start screen.
    pub fn new(client: Option<CustomHTTPClient>) -> (r: App)
        ensures
            r.title@ == "tuifs"@,
            r.input@.len() == 0,
            r.server_files.items@.len() == 0,
            r.server_files.cursor() is None,
            r.client == client,
            r.exit == false,
            r.current_screen == CurrentScreen::Start,
            r.currently_configuring is None,
            r.download_location@.len() == 0,
            r.wf(),
    {
        App {
            title: "tuifs".to_owned(),
            input: String::new(),
            server_files: StatefulList::new(),
            client,
            exit: false,
            current_screen: CurrentScreen::Start,
            currently_configuring: Option::None,
            download_location: String::new(),
        }
    }

    /// The machine's first step: with a client the listing is fetched at
    /// once; with none the machine goes straight to configuring the server
    /// address.
    pub fn initialize(&mut self) -> (a: Action)
        requires
            old(self).wf(),
        ensures
            final(self).wf(),
            match old(self).client {
                Option::Some(c) => *final(self) == *old(self) && is_fetch_to(a, c.address@),
                Option::None => a is Idle && *final(self) == (App {
                    current_screen: CurrentScreen::Configuring,
                    currently_configuring: Option::Some(CurrentlyConfiguring::ServerLocation),
                    ..*old(self)
                }),
            },
    {
        match &self.client {
            Option::Some(c) => Action::FetchListing { address: c.address.clone() },
            Option::None => {
                self.current_screen = CurrentScreen::Configuring;
                self.currently_configuring = Option::Some(CurrentlyConfiguring::ServerLocation);
                Action::Idle
            },
        }
    }

    /// Marks the session as finished; the loop stops at the next turn.
    fn exit(&mut self)
        ensures
            *final(self) == (App { exit: true, ..*old(self) }),
    {
        self.exit = true;
    }

    /// Remembers where downloads go.
    fn change_download_location(&mut self, location: String)
        ensures
            *final(self) == (App { download_location: location, ..*old(self) }),
    {
        self.download_location = location;
    }
}

/// Whether the session data — title, listing, client, exit flag and
/// download directory — is unchanged between `pre` and `post`.
pub open spec fn same_session_data(pre: App, post: App) -> bool {
    &&& post.title == pre.title
    &&& post.server_files == pre.server_files
    &&& post.client == pre.client
    &&& post.exit == pre.exit
    &&& post.download_location == pre.download_location
}

/// One transition of the Start screen: `q` exits, `u`, `d` and `c` open
/// the matching configuration, `g` opens the listing and asks for a
/// fetch; every other key changes nothing.
pub open spec fn start_step(pre: App, post: App, key: KeyInput, a: Action) -> bool {
    match key {
        KeyInput::Char(c) => if c == 'q' {
            post == (App { exit: true, ..pre }) && a is Idle
        } else if c == 'u' {
            post == (App {
                current_screen: CurrentScreen::Configuring,
                currently_configuring: Option::Some(CurrentlyConfiguring::UploadLocation),
                ..pre
            }) && a is Idle
        } else if c == 'd' {
            post == (App {
                current_screen: CurrentScreen::Configuring,
                currently_configuring: Option::Some(CurrentlyConfiguring::DownloadLocation),
                ..pre
            }) && a is Idle
        } else if c == 'c' {
            post == (App {
                current_screen: CurrentScreen::Configuring,
                currently_configuring: Option::Some(CurrentlyConfiguring::ServerLocation),
                ..pre
            }) && a is Idle
        } else if c == 'g' {
            post == (App { current_screen: CurrentScreen::ServerFiles, ..pre }) && (match
                pre.client {
                Option::Some(cl) => is_fetch_to(a, cl.address@),
                Option::None => a is Idle,
            })
        } else {
            post == pre && a is Idle
        },
        _ => post == pre && a is Idle,
    }
}

/// One transition of the listing screen: the arrows and `j`/`k` move the
/// cursor, `d` or Enter open the download-directory prompt for the
/// selected file, `c` the address prompt, Esc goes back, `q` exits.
pub open spec fn server_files_step(pre: App, post: App, key: KeyInput, a: Action) -> bool {
    match key {
        KeyInput::Char(c) => if c == 'q' {
            post == (App { exit: true, ..pre }) && a is Idle
        } else if c == 'd' {
            post == (App {
                current_screen: CurrentScreen::Configuring,
                currently_configuring: Option::Some(CurrentlyConfiguring::DownloadLocation),
                ..pre
            }) && a is Idle
        } else if c == 'c' {
            post == (App {
                current_screen: CurrentScreen::Configuring,
                currently_configuring: Option::Some(CurrentlyConfiguring::ServerLocation),
                ..pre
            }) && a is Idle
        } else if c == 'k' {
            post == (App { server_files: pre.server_files.stepped_previous(), ..pre }) && a is Idle
        } else if c == 'j' {
            post == (App { server_files: pre.server_files.stepped_next(), ..pre }) && a is Idle
        } else {
            post == pre && a is Idle
        },
        KeyInput::Enter => post == (App {
            current_screen: CurrentScreen::Configuring,
            currently_configuring: Option::Some(CurrentlyConfiguring::DownloadLocation),
            ..pre
        }) && a is Idle,
        KeyInput::Up => post == (App { server_files: pre.server_files.stepped_previous(), ..pre })
            && a is Idle,
        KeyInput::Down => post == (App { server_files: pre.server_files.stepped_next(), ..pre })
            && a is Idle,
        KeyInput::Esc => post == (App {
            currently_configuring: Option::None,
            current_screen: CurrentScreen::Start,
            ..pre
        }) && a is Idle,
        _ => post == pre && a is Idle,
    }
}

/// One transition of the Uploading screen: `q` exits, Esc goes back to
/// Start, `c` opens the address prompt, `g` opens the listing with a
/// fetch.
pub open spec fn uploading_step(pre: App, post: App, key: KeyInput, a: Action) -> bool {
    match key {
        KeyInput::Char(c) => if c == 'q' {
            post == (App { exit: true, ..pre }) && a is Idle
        } else if c == 'c' {
            post == (App {
                current_screen: CurrentScreen::Configuring,
                currently_configuring: Option::Some(CurrentlyConfiguring::ServerLocation),
                ..pre
            }) && a is Idle
        } else if c == 'g' {
            post == (App { current_screen: CurrentScreen::ServerFiles, ..pre }) && (match
                pre.client {
                Option::Some(cl) => is_fetch_to(a, cl.address@),
                Option::None => a is Idle,
            })
        } else {
            post == pre && a is Idle
        },
        KeyInput::Esc => post == (App { current_screen: CurrentScreen::Start, ..pre }) && a
            is Idle,
        _ => post == pre && a is Idle,
    }
}

/// One transition of the Downloading screen: `q` exits, Esc goes back to
/// Start, `c` opens the address prompt.
pub open spec fn downloading_step(pre: App, post: App, key: KeyInput, a: Action) -> bool {
    match key {
        KeyInput::Char(c) => if c == 'q' {
            post == (App { exit: true, ..pre }) && a is Idle
        } else if c == 'c' {
            post == (App {
                current_screen: CurrentScreen::Configuring,
                currently_configuring: Option::Some(CurrentlyConfiguring::ServerLocation),
                ..pre
            }) && a is Idle
        } else {
            post == pre && a is Idle
        },
        KeyInput::Esc => post == (App { current_screen: CurrentScreen::Start, ..pre }) && a
            is Idle,
        _ => post == pre && a is Idle,
    }
}

/// One transition of the Configuring screen: characters grow the input
/// buffer and Backspace shrinks it; Esc discards the buffer and goes back
/// to Start; Enter commits the buffer to whatever is being configured —
/// the download directory with the selected file's download, the server
/// address with a fresh connection, or the upload path with a look at
/// that path. An address the parser yields no host for leaves the state
/// as it stands.
pub open spec fn configuring_step(pre: App, post: App, key: KeyInput, a: Action) -> bool {
    match key {
        KeyInput::Esc => {
            &&& same_session_data(pre, post)
            &&& post.input@.len() == 0
            &&& post.current_screen == CurrentScreen::Start
            &&& post.currently_configuring is None
            &&& a is Idle
        },
        KeyInput::Backspace => {
            &&& same_session_data(pre, post)
            &&& post.current_screen == pre.current_screen
            &&& post.currently_configuring == pre.currently_configuring
            &&& post.input@ == if pre.input@.len() > 0 {
                pre.input@.drop_last()
            } else {
                pre.input@
            }
            &&& a is Idle
        },
        KeyInput::Char(c) => {
            &&& same_session_data(pre, post)
            &&& post.current_screen == pre.current_screen
            &&& post.currently_configuring == pre.currently_configuring
            &&& post.input@ == pre.input@.push(c)
            &&& a is Idle
        },
        KeyInput::Enter => match pre.currently_configuring {
            Option::None => post == (App { current_screen: CurrentScreen::ServerFiles, ..pre })
                && a is Idle,
            Option::Some(CurrentlyConfiguring::DownloadLocation) => {
                &&& post.title == pre.title
                &&& post.exit == pre.exit
                &&& post.client == pre.client
                &&& post.server_files == pre.server_files
                &&& post.download_location == pre.input
                &&& post.input@.len() == 0
                &&& post.currently_configuring is None
                &&& post.current_screen == CurrentScreen::ServerFiles
                &&& match (pre.client, pre.server_files.cursor()) {
                    (Option::Some(cl), Option::Some(i)) => is_download_of(
                        a,
                        pre.server_files.items@[i as int]@,
                        pre.input@,
                        cl.address@,
                    ),
                    _ => a is Idle,
                }
            },
            Option::Some(CurrentlyConfiguring::ServerLocation) => match uri_host_port(
                pre.input@,
            ) {
                Option::Some(hp) => {
                    &&& post.title == pre.title
                    &&& post.exit == pre.exit
                    &&& post.server_files == pre.server_files
                    &&& post.download_location == pre.download_location
                    &&& post.client is Some
                    &&& post.client.unwrap().address@ == pre.input@
                    &&& post.client.unwrap().host@ == hp.0
                    &&& post.client.unwrap().port == (match hp.1 {
                        Option::Some(q) => q,
                        Option::None => 80u16,
                    })
                    &&& post.input@.len() == 0
                    &&& post.currently_configuring is None
                    &&& post.current_screen == CurrentScreen::ServerFiles
                    &&& is_connect_to(a, pre.input@)
                },
                Option::None => post == pre && a is Idle,
            },
            Option::Some(CurrentlyConfiguring::UploadLocation) => post == pre && is_check_of(
                a,
                pre.input@,
            ),
        },
        _ => post == pre && a is Idle,
    }
}

/// What applying a listing response yields: errors leave everything as it
/// stands; a decoded listing replaces the items and resets the cursor.
pub open spec fn listing_applied(
    pre: App,
    post: App,
    status: u16,
    body: Seq<u8>,
    r: Result<(), ListError>,
) -> bool {
    if status != 200 {
        r == Result::<(), ListError>::Err(ListError::Status(status)) && post == pre
    } else {
        match json_parse_list(body) {
            Option::None => r == Result::<(), ListError>::Err(ListError::Decode) && post == pre,
            Option::Some(names) => {
                &&& r is Ok
                &&& post.server_files.items.deep_view() == names
                &&& post.server_files.cursor() == (if names.len() > 0 {
                    Option::<usize>::Some(0)
                } else {
                    Option::<usize>::None
                })
                &&& post.title == pre.title
                &&& post.input == pre.input
                &&& post.client == pre.client
                &&& post.exit == pre.exit
                &&& post.current_screen == pre.current_screen
                &&& post.currently_configuring == pre.currently_configuring
                &&& post.download_location == pre.download_location
            },
        }
    }
}

/// What applying a connection attempt yields: success keeps the state and
/// asks for a listing fetch from the configured address; failure drops
/// the client and forces the address prompt again.
pub open spec fn connect_applied(pre: App, post: App, ok: bool, a: Action) -> bool {
    if ok {
        post == pre && (match pre.client {
            Option::Some(c) => is_fetch_to(a, c.address@),
            Option::None => a is Idle,
        })
    } else {
        a is Idle && post == (App {
            client: Option::None,
            current_screen: CurrentScreen::Configuring,
            currently_configuring: Option::Some(CurrentlyConfiguring::ServerLocation),
            ..pre
        })
    }
}

/// The words written into the input buffer when an upload path cannot be
/// opened as a file.
pub open spec fn upload_open_error_text() -> Seq<char> {
    "Error Uploading: cannot open the file"@
}

/// The words written into the input buffer when an upload is committed
/// with no server configured.
pub open spec fn upload_no_client_text() -> Seq<char> {
    "Error Uploading: no server configured"@
}

/// The words written into the input buffer when an upload's transfer
/// broke off.
pub open spec fn upload_transport_error_text() -> Seq<char> {
    "Error Uploading: the transfer failed"@
}

/// What applying the look at an upload path yields: an unopenable path
/// gets no action and the error in the input buffer, the screens where
/// they were; an openable file advances to Uploading and asks for the
/// upload.
pub open spec fn upload_check_applied(
    pre: App,
    post: App,
    path: Seq<char>,
    openable: bool,
    a: Action,
) -> bool {
    if !openable {
        &&& a is Idle
        &&& App::same_but_input(pre, post)
        &&& post.input@ == upload_open_error_text()
    } else {
        match pre.client {
            Option::Some(cl) => {
                &&& is_upload_of(a, path, cl.address@)
                &&& post.title == pre.title
                &&& post.server_files == pre.server_files
                &&& post.client == pre.client
                &&& post.exit == pre.exit
                &&& post.download_location == pre.download_location
                &&& post.input@.len() == 0
                &&& post.currently_configuring is None
                &&& post.current_screen == CurrentScreen::Uploading
            },
            Option::None => {
                &&& a is Idle
                &&& App::same_but_input(pre, post)
                &&& post.input@ == upload_no_client_text()
            },
        }
    }
}

/// The words written into the input buffer when a download's local file
/// could not be created.
pub open spec fn download_create_error_text() -> Seq<char> {
    "Error Downloading: cannot create the file"@
}

/// The words written into the input buffer when a download's transfer
/// broke off.
pub open spec fn download_transport_error_text() -> Seq<char> {
    "Error Downloading: the transfer failed"@
}

/// What applying a download's outcome yields: success changes nothing — a
/// partial local file from a failure may remain with the caller — and a
/// failure is reported in the input buffer, with no retry.
pub open spec fn download_result_applied(
    pre: App,
    post: App,
    r: Result<(), DownloadError>,
    a: Action,
) -> bool {
    match r {
        Result::Ok(()) => post == pre && a is Idle,
        Result::Err(DownloadError::CreateFile) => {
            &&& a is Idle
            &&& App::same_but_input(pre, post)
            &&& post.input@ == download_create_error_text()
        },
        Result::Err(DownloadError::Transport) => {
            &&& a is Idle
            &&& App::same_but_input(pre, post)
            &&& post.input@ == download_transport_error_text()
        },
    }
}

/// What applying an upload's outcome yields: success asks for a fresh
/// listing; a broken transfer is reported in the input buffer, with no
/// retry.
pub open spec fn upload_result_applied(pre: App, post: App, ok: bool, a: Action) -> bool {
    if ok {
        post == pre && (match pre.client {
            Option::Some(c) => is_fetch_to(a, c.address@),
            Option::None => a is Idle,
        })
    } else {
        &&& a is Idle
        &&& App::same_but_input(pre, post)
        &&& post.input@ == upload_transport_error_text()
    }
}

/// An upload whose local path cannot be opened as a file — a directory,
/// or an unreadable entry — never reaches the transport: the machine
/// answers the check with no action at all, and the input buffer reflects
/// the error while the screen stays where it was.
pub proof fn lemma_unopenable_upload_never_sent(pre: App, post: App, path: Seq<char>, a: Action)
    requires
        upload_check_applied(pre, post, path, false, a),
    ensures
        a is Idle,
        post.input@ == upload_open_error_text(),
        post.current_screen == pre.current_screen,
{
}

/// Committing a new server address discards the previous connection and
/// targets the new address only: the client is replaced by one for the
/// typed address, the one action asked for is a connection to it, and the
/// fetch that follows a successful connection goes there too.
pub proof fn lemma_reconfigure_targets_new_address(
    pre: App,
    mid: App,
    post: App,
    a1: Action,
    a2: Action,
)
    requires
        pre.currently_configuring == Option::Some(CurrentlyConfiguring::ServerLocation),
        uri_host_port(pre.input@) is Some,
        configuring_step(pre, mid, KeyInput::Enter, a1),
        connect_applied(mid, post, true, a2),
    ensures
        is_connect_to(a1, pre.input@),
        mid.target_address() == Option::Some(pre.input@),
        is_fetch_to(a2, pre.input@),
        post.target_address() == Option::Some(pre.input@),
{
}

impl App {
    /// Handles one key on the Start screen.
    pub fn handle_start_screen(&mut self, key: KeyInput) -> (a: Action)
        requires
            old(self).wf(),
        ensures
            final(self).wf(),
            start_step(*old(self), *final(self), key, a),
    {
        match key {
            KeyInput::Char(c) => {
                if c == 'q' {
                    self.exit();
                    Action::Idle
                } else if c == 'u' {
                    self.current_screen = CurrentScreen::Configuring;
                    self.currently_configuring = Option::Some(
                        CurrentlyConfiguring::UploadLocation,
                    );
                    Action::Idle
                } else if c == 'd' {
                    self.current_screen = CurrentScreen::Configuring;
                    self.currently_configuring = Option::Some(
                        CurrentlyConfiguring::DownloadLocation,
                    );
                    Action::Idle
                } else if c == 'c' {
                    self.current_screen = CurrentScreen::Configuring;
                    self.currently_configuring = Option::Some(
                        CurrentlyConfiguring::ServerLocation,
                    );
                    Action::Idle
                } else if c == 'g' {
                    self.current_screen = CurrentScreen::ServerFiles;
                    match &self.client {
                        Option::Some(cl) => Action::FetchListing { address: cl.address.clone() },
                        Option::None => Action::Idle,
                    }
                } else {
                    Action::Idle
                }
            },
            _ => Action::Idle,
        }
    }

    /// Handles one key on the listing screen.
    pub fn handle_server_files_screen(&mut self, key: KeyInput) -> (a: Action)
        requires
            old(self).wf(),
        ensures
            final(self).wf(),
            server_files_step(*old(self), *final(self), key, a),
    {
        match key {
            KeyInput::Char(c) => {
                if c == 'q' {
                    self.exit();
                } else if c == 'd' {
                    self.current_screen = CurrentScreen::Configuring;
                    self.currently_configuring = Option::Some(
                        CurrentlyConfiguring::DownloadLocation,
                    );
                } else if c == 'c' {
                    self.current_screen = CurrentScreen::Configuring;
                    self.currently_configuring = Option::Some(
                        CurrentlyConfiguring::ServerLocation,
                    );
                } else if c == 'k' {
                    self.server_files.previous();
                } else if c == 'j' {
                    self.server_files.next();
                }
                Action::Idle
            },
            KeyInput::Enter => {
                self.current_screen = CurrentScreen::Configuring;
                self.currently_configuring = Option::Some(
                    CurrentlyConfiguring::DownloadLocation,
                );
                Action::Idle
            },
            KeyInput::Up => {
                self.server_files.previous();
                Action::Idle
            },
            KeyInput::Down => {
                self.server_files.next();
                Action::Idle
            },
            KeyInput::Esc => {
                self.currently_configuring = Option::None;
                self.current_screen = CurrentScreen::Start;
                Action::Idle
            },
            _ => Action::Idle,
        }
    }

    /// Handles one key on the Uploading screen.
    pub fn handle_uploading_screen(&mut self, key: KeyInput) -> (a: Action)
        requires
            old(self).wf(),
        ensures
            final(self).wf(),
            uploading_step(*old(self), *final(self), key, a),
    {
        match key {
            KeyInput::Char(c) => {
                if c == 'q' {
                    self.exit();
                    Action::Idle
                } else if c == 'c' {
                    self.current_screen = CurrentScreen::Configuring;
                    self.currently_configuring = Option::Some(
                        CurrentlyConfiguring::ServerLocation,
                    );
                    Action::Idle
                } else if c == 'g' {
                    self.current_screen = CurrentScreen::ServerFiles;
                    match &self.client {
                        Option::Some(cl) => Action::FetchListing { address: cl.address.clone() },
                        Option::None => Action::Idle,
                    }
                } else {
                    Action::Idle
                }
            },
            KeyInput::Esc => {
                self.current_screen = CurrentScreen::Start;
                Action::Idle
            },
            _ => Action::Idle,
        }
    }

    /// Handles one key on the Downloading screen.
    pub fn handle_downloading_screen(&mut self, key: KeyInput) -> (a: Action)
        requires
            old(self).wf(),
        ensures
            final(self).wf(),
            downloading_step(*old(self), *final(self), key, a),
    {
        match key {
            KeyInput::Char(c) => {
                if c == 'q' {
                    self.exit();
                } else if c == 'c' {
                    self.current_screen = CurrentScreen::Configuring;
                    self.currently_configuring = Option::Some(
                        CurrentlyConfiguring::ServerLocation,
                    );
                }
                Action::Idle
            },
            KeyInput::Esc => {
                self.current_screen = CurrentScreen::Start;
                Action::Idle
            },
            _ => Action::Idle,
        }
    }

    /// Handles one key on the Configuring screen.
    pub fn handle_configuring_screen(&mut self, key: KeyInput) -> (a: Action)
        requires
            old(self).wf(),
        ensures
            final(self).wf(),
            configuring_step(*old(self), *final(self), key, a),
    {
        match key {
            KeyInput::Esc => {
                self.input = String::new();
                self.currently_configuring = Option::None;
                self.current_screen = CurrentScreen::Start;
                Action::Idle
            },
            KeyInput::Backspace => {
                let n = self.input.as_str().unicode_len();
                if n > 0 {
                    let shortened = self.input.as_str().substring_char(0, n - 1).to_owned();
                    self.input = shortened;
                    proof {
                        assert(self.input@ =~= old(self).input@.drop_last());
                    }
                }
                Action::Idle
            },
            KeyInput::Char(c) => {
                crate::textutil::push_char(&mut self.input, c);
                Action::Idle
            },
            KeyInput::Enter => match self.currently_configuring {
                Option::None => {
                    self.current_screen = CurrentScreen::ServerFiles;
                    Action::Idle
                },
                Option::Some(CurrentlyConfiguring::DownloadLocation) => {
                    let location = self.input.clone();
                    let a = match (&self.client, self.server_files.selected()) {
                        (Option::Some(cl), Option::Some(name)) => Action::Download {
                            file_name: name.clone(),
                            directory: location.clone(),
                            address: cl.address.clone(),
                        },
                        _ => Action::Idle,
                    };
                    self.change_download_location(location);
                    self.currently_configuring = Option::None;
                    self.input = String::new();
                    self.current_screen = CurrentScreen::ServerFiles;
                    a
                },
                Option::Some(CurrentlyConfiguring::ServerLocation) => {
                    match CustomHTTPClient::new(self.input.as_str()) {
                        Result::Ok(client) => {
                            let address = self.input.clone();
                            self.client = Option::Some(client);
                            self.currently_configuring = Option::None;
                            self.input = String::new();
                            self.current_screen = CurrentScreen::ServerFiles;
                            Action::Connect { address }
                        },
                        Result::Err(_) => Action::Idle,
                    }
                },
                Option::Some(CurrentlyConfiguring::UploadLocation) => Action::CheckUploadPath {
                    path: self.input.clone(),
                },
            },
            _ => Action::Idle,
        }
    }

    /// Applies what a listing fetch brought back: a non-success status or
    /// an undecodable body is an error that leaves the prior listing
    /// untouched; a decoded listing replaces the items and resets the
    /// cursor to the first entry.
    pub fn apply_listing_response(&mut self, status: u16, body: &Vec<u8>) -> (r: Result<
        (),
        ListError,
    >)
        requires
            old(self).wf(),
        ensures
            final(self).wf(),
            listing_applied(*old(self), *final(self), status, body@, r),
    {
        if status != 200 {
            return Result::Err(ListError::Status(status));
        }
        match decode_listing(body.as_slice()) {
            Result::Ok(names) => {
                self.server_files.replace(names);
                Result::Ok(())
            },
            Result::Err(_) => Result::Err(ListError::Decode),
        }
    }

    /// Applies a connection attempt's outcome: success is followed at once
    /// by a listing fetch from the new address; failure drops the client
    /// and forces the address prompt again.
    pub fn apply_connect_result(&mut self, ok: bool) -> (a: Action)
        requires
            old(self).wf(),
        ensures
            final(self).wf(),
            connect_applied(*old(self), *final(self), ok, a),
    {
        if ok {
            match &self.client {
                Option::Some(cl) => Action::FetchListing { address: cl.address.clone() },
                Option::None => Action::Idle,
            }
        } else {
            self.client = Option::None;
            self.current_screen = CurrentScreen::Configuring;
            self.currently_configuring = Option::Some(CurrentlyConfiguring::ServerLocation);
            Action::Idle
        }
    }

    /// Applies what the look at an upload path found: a path that is no
    /// openable file — a directory, or unreadable — is answered with no
    /// action and the error written into the input buffer; an openable
    /// file clears the prompt, shows the Uploading screen and asks for the
    /// streamed upload.
    pub fn apply_upload_path_check(&mut self, path: String, openable: bool) -> (a: Action)
        requires
            old(self).wf(),
        ensures
            final(self).wf(),
            upload_check_applied(*old(self), *final(self), path@, openable, a),
    {
        if !openable {
            self.input = "Error Uploading: cannot open the file".to_owned();
            Action::Idle
        } else {
            match &self.client {
                Option::Some(cl) => {
                    let address = cl.address.clone();
                    self.input = String::new();
                    self.currently_configuring = Option::None;
                    self.current_screen = CurrentScreen::Uploading;
                    Action::Upload { path, address }
                },
                Option::None => {
                    self.input = "Error Uploading: no server configured".to_owned();
                    Action::Idle
                },
            }
        }
    }

    /// Applies an upload's outcome: success is followed by a fresh listing
    /// fetch; a broken transfer is written into the input buffer, with no
    /// retry.
    pub fn apply_upload_result(&mut self, ok: bool) -> (a: Action)
        requires
            old(self).wf(),
        ensures
            final(self).wf(),
            upload_result_applied(*old(self), *final(self), ok, a),
    {
        if ok {
            match &self.client {
                Option::Some(cl) => Action::FetchListing { address: cl.address.clone() },
                Option::None => Action::Idle,
            }
        } else {
            self.input = "Error Uploading: the transfer failed".to_owned();
            Action::Idle
        }
    }

    /// Applies a download's outcome: nothing follows success, and a
    /// failure — the local file refused, or a broken transfer — is
    /// written into the input buffer, with no retry.
    pub fn apply_download_result(&mut self, r: Result<(), DownloadError>) -> (a: Action)
        requires
            old(self).wf(),
        ensures
            final(self).wf(),
            download_result_applied(*old(self), *final(self), r, a),
    {
        match r {
            Result::Ok(()) => Action::Idle,
            Result::Err(DownloadError::CreateFile) => {
                self.input = "Error Downloading: cannot create the file".to_owned();
                Action::Idle
            },
            Result::Err(DownloadError::Transport) => {
                self.input = "Error Downloading: the transfer failed".to_owned();
                Action::Idle
            },
        }
    }

    /// Handles one key against the current screen.
    pub fn handle_key_event(&mut self, key: KeyInput) -> (a: Action)
        requires
            old(self).wf(),
        ensures
            final(self).wf(),
            match old(self).current_screen {
                CurrentScreen::Start => start_step(*old(self), *final(self), key, a),
                CurrentScreen::ServerFiles => server_files_step(*old(self), *final(self), key, a),
                CurrentScreen::Uploading => uploading_step(*old(self), *final(self), key, a),
                CurrentScreen::Downloading => downloading_step(*old(self), *final(self), key, a),
                CurrentScreen::Configuring => configuring_step(*old(self), *final(self), key, a),
            },
    {
        match self.current_screen {
            CurrentScreen::Start => self.handle_start_screen(key),
            CurrentScreen::ServerFiles => self.handle_server_files_screen(key),
            CurrentScreen::Uploading => self.handle_uploading_screen(key),
            CurrentScreen::Downloading => self.handle_downloading_screen(key),
            CurrentScreen::Configuring => self.handle_configuring_screen(key),
        }
    }
}

} // verus!
