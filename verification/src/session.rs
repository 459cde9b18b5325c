//! The per-attempt session state machine.
//!
//! A session is one connection attempt's worth of state toward a single
//! remote host. Its phase decides which operations are legal: options may be
//! set only before connecting, the banner and the key probe exist only while
//! connected, and a disconnected session returns to the setup phase for
//! reuse. Phase transitions consume the old session value and carry its
//! handle slot forward unchanged, so the one slot a session was born with is
//! released exactly once — by `free`, or by a failed `connect` — no matter
//! which path the attempt takes.
//!
//! The network transport is an external collaborator: its numeric answers
//! (the connect result, the banner, the key-probe code) enter here as plain
//! arguments, and everything decided on them is verified.

use core::marker::PhantomData;

use vstd::prelude::*;
use vstd::string::StringExecFns;

use crate::handles::HandleTable;
use crate::text::{no_nul, str_no_nul};

verus! {

/// The connection phases a session moves through.
pub trait SessionStatus {

}

/// Freshly created or disconnected: options may be set, `connect` is legal.
#[derive(Debug)]
pub struct Setup;

/// The handshake has completed up through server identification.
#[derive(Debug)]
pub struct Connected;

/// A full authentication has completed. The key probe never reaches this
/// phase: it only asks whether a key would be accepted.
#[derive(Debug)]
pub struct Authenticated;

impl SessionStatus for Setup {

}

impl SessionStatus for Connected {

}

impl SessionStatus for Authenticated {

}

/// The model of a session: its handle slot, the options recorded so far,
/// and the server banner once connected.
pub ghost struct SessionModel {
    pub handle: int,
    pub host: Option<Seq<char>>,
    pub port: Option<Seq<char>>,
    pub user: Option<Seq<char>>,
    pub banner: Option<Seq<char>>,
}

/// An option value the transport layer would reject: recoverable, so that
/// one misconfigured host cannot end a whole fleet scan.
#[derive(Debug)]
pub struct ConfigError {
    pub message: String,
}

/// The diagnostic for an option value that does not convert to a native
/// string.
pub open spec fn nul_message() -> Seq<char> {
    "option value contains an interior NUL byte"@
}

/// The transport's closed set of answers to a public-key probe.
#[derive(Clone, Copy, Debug, PartialEq, Eq, Structural)]
pub enum AuthResponse {
    Success,
    Denied,
    Partial,
    Info,
    Again,
    Error,
}

/// The meaning of the transport's numeric probe answer; `None` for a number
/// outside the documented closed set.
pub open spec fn auth_code_classified(code: i32) -> Option<AuthResponse> {
    if code == 0 {
        Some(AuthResponse::Success)
    } else if code == 1 {
        Some(AuthResponse::Denied)
    } else if code == 2 {
        Some(AuthResponse::Partial)
    } else if code == 3 {
        Some(AuthResponse::Info)
    } else if code == 4 {
        Some(AuthResponse::Again)
    } else if code == -1 {
        Some(AuthResponse::Error)
    } else {
        None
    }
}

/// One SSH session: a single connection to one server, exclusively owned by
/// the worker that created it. The phase parameter fixes which operations
/// exist on the value.
#[derive(Debug)]
pub struct SSHSession<T: SessionStatus> {
    handle: usize,
    host: Option<String>,
    port: Option<String>,
    user: Option<String>,
    banner: Option<String>,
    phase: PhantomData<T>,
}

impl<T: SessionStatus> View for SSHSession<T> {
    type V = SessionModel;

    closed spec fn view(&self) -> SessionModel {
        SessionModel {
            handle: self.handle as int,
            host: self.host.deep_view(),
            port: self.port.deep_view(),
            user: self.user.deep_view(),
            banner: self.banner.deep_view(),
        }
    }
}

impl<T: SessionStatus> SSHSession<T> {
    /// A session is tied to a live slot of the handle table it was created
    /// against.
    pub open spec fn wf(&self, handles: &HandleTable) -> bool {
        handles.is_live(self@.handle)
    }

    /// Releases the session's native handle. Every session ends here (or in
    /// a failed `connect`) exactly once; the table refuses a second release.
    pub fn free(self, handles: &mut HandleTable)
        requires
            self.wf(old(handles)),
        ensures
            final(handles)@ =~= old(handles)@.update(self@.handle, false),
    {
        handles.release(self.handle);
    }
}

/// Checks that an option value converts to a native string.
fn check_option_value(value: &str) -> (r: Result<(), ConfigError>)
    ensures
        r is Ok <==> no_nul(value@),
        (r matches Err(e) ==> e.message@ == nul_message()),
{
    if str_no_nul(value) {
        Ok(())
    } else {
        Err(ConfigError { message: String::from_str("option value contains an interior NUL byte") })
    }
}

impl SSHSession<Setup> {
    /// Returns a new session in the setup phase, owning a fresh handle slot.
    /// Use the `options_set_*` functions to configure it before `connect`.
    pub fn new(handles: &mut HandleTable) -> (s: SSHSession<Setup>)
        ensures
            final(handles)@ =~= old(handles)@.push(true),
            s@.handle == old(handles)@.len() as int,
            s@.host is None,
            s@.port is None,
            s@.user is None,
            s@.banner is None,
            s.wf(final(handles)),
    {
        let handle = handles.allocate();
        SSHSession {
            handle,
            host: None,
            port: None,
            user: None,
            banner: None,
            phase: PhantomData,
        }
    }

    /// Records the host to connect to when running `connect`.
    pub fn options_set_host(&mut self, host: &str) -> (r: Result<(), ConfigError>)
        ensures
            r is Ok <==> no_nul(host@),
            r is Ok ==> final(self)@ == (SessionModel { host: Some(host@), ..old(self)@ }),
            (r matches Err(e) ==> final(self)@ == old(self)@ && e.message@ == nul_message()),
    {
        check_option_value(host)?;
        self.host = Some(host.to_owned());
        Ok(())
    }

    /// Records the port to use when running `connect`, given as text.
    pub fn options_set_port_str(&mut self, port_str: &str) -> (r: Result<(), ConfigError>)
        ensures
            r is Ok <==> no_nul(port_str@),
            r is Ok ==> final(self)@ == (SessionModel { port: Some(port_str@), ..old(self)@ }),
            (r matches Err(e) ==> final(self)@ == old(self)@ && e.message@ == nul_message()),
    {
        check_option_value(port_str)?;
        self.port = Some(port_str.to_owned());
        Ok(())
    }

    /// Records the username to use when running `connect`.
    pub fn options_set_user(&mut self, user: &str) -> (r: Result<(), ConfigError>)
        ensures
            r is Ok <==> no_nul(user@),
            r is Ok ==> final(self)@ == (SessionModel { user: Some(user@), ..old(self)@ }),
            (r matches Err(e) ==> final(self)@ == old(self)@ && e.message@ == nul_message()),
    {
        check_option_value(user)?;
        self.user = Some(user.to_owned());
        Ok(())
    }

    /// Moves to the connected phase on the transport's answer to the
    /// handshake: zero for success, any other number for failure.
    ///
    /// On success the handle moves forward into the connected session and
    /// stays live; on failure the attempt is over and the handle is
    /// released here, once.
    pub fn connect(self, handles: &mut HandleTable, code: i32) -> (r: Result<
        SSHSession<Connected>,
        i32,
    >)
        requires
            self.wf(old(handles)),
        ensures
            code == 0 ==> final(handles)@ == old(handles)@ && (r matches Ok(s) && s@
                == (SessionModel { banner: None, ..self@ }) && s.wf(final(handles))),
            code != 0 ==> r == Err::<SSHSession<Connected>, i32>(code) && final(handles)@
                =~= old(handles)@.update(self@.handle, false),
    {
        if code == 0 {
            Ok(
                SSHSession {
                    handle: self.handle,
                    host: self.host,
                    port: self.port,
                    user: self.user,
                    banner: None,
                    phase: PhantomData,
                },
            )
        } else {
            self.free(handles);
            Err(code)
        }
    }
}

impl SSHSession<Connected> {
    /// Records the banner the server sent during the handshake, or `None`
    /// when the server omitted it.
    pub fn record_server_banner(&mut self, banner: Option<String>)
        ensures
            final(self)@ == (SessionModel { banner: banner.deep_view(), ..old(self)@ }),
    {
        self.banner = banner;
    }

    /// Returns the server's banner — its identification string, such as
    /// `SSH-2.0-OpenSSH_8.4p1` — or an error when the server sent none.
    pub fn get_server_banner(&self) -> (r: Result<&str, ()>)
        ensures
            (match self@.banner {
                Some(b) => r matches Ok(s) && s@ == b,
                None => r is Err,
            }),
    {
        match &self.banner {
            Some(s) => Ok(s.as_str()),
            None => Err(()),
        }
    }

    /// One non-interactive probe of the credential: would this key be
    /// accepted? The transport's numeric answer is taken as an argument and
    /// classified; a number outside the documented closed set yields `None`
    /// and must be treated as a contract violation by the caller.
    pub fn userauth_try_publickey(&self, key: &crate::key::PubKey, code: i32) -> (r: Option<
        AuthResponse,
    >)
        requires
            key.wf(),
        ensures
            r == auth_code_classified(code),
    {
        if code == 0 {
            Some(AuthResponse::Success)
        } else if code == 1 {
            Some(AuthResponse::Denied)
        } else if code == 2 {
            Some(AuthResponse::Partial)
        } else if code == 3 {
            Some(AuthResponse::Info)
        } else if code == 4 {
            Some(AuthResponse::Again)
        } else if code == -1 {
            Some(AuthResponse::Error)
        } else {
            None
        }
    }

    /// Disconnects gracefully (a protocol-level close) and returns the
    /// session to the setup phase; the handle stays live for reuse.
    pub fn disconnect(self) -> (s: SSHSession<Setup>)
        ensures
            s@ == (SessionModel { banner: None, ..self@ }),
    {
        SSHSession {
            handle: self.handle,
            host: self.host,
            port: self.port,
            user: self.user,
            banner: None,
            phase: PhantomData,
        }
    }

    /// Disconnects immediately (the socket is closed without a protocol
    /// farewell) and returns the session to the setup phase; the handle
    /// stays live for reuse.
    pub fn silent_disconnect(self) -> (s: SSHSession<Setup>)
        ensures
            s@ == (SessionModel { banner: None, ..self@ }),
    {
        SSHSession {
            handle: self.handle,
            host: self.host,
            port: self.port,
            user: self.user,
            banner: None,
            phase: PhantomData,
        }
    }
}

} // verus!
