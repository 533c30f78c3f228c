use vstd::prelude::*;
use vstd::string::*;

use crate::error::Error;
use crate::text::str_eq;

verus! {

/// A server named in a request: by its name, the server answering, or the
/// calling server.
pub enum ServerReq {
    ServerName(String),
    ServerHost,
    ServerClient,
}

/// The name a request gives a server, the answering server's for
/// `ServerHost`; `None` for the calling server.
pub open spec fn named(req: &ServerReq, local: Seq<char>) -> Option<Seq<char>> {
    match req {
        ServerReq::ServerName(n) => Some(n@),
        ServerReq::ServerHost => Some(local),
        ServerReq::ServerClient => None,
    }
}

/// Asking for a server's signing keys: only the answering server's own
/// are served; asking for the caller's, or another server's, is not
/// supported yet.
pub fn keys_target(req: &ServerReq, local: &str) -> (res: Result<(), Error>)
    ensures
        named(req, local@) == Some(local@) ==> res is Ok,
        named(req, local@) != Some(local@) ==> res matches Err(Error::Unimplemented),
{
    match req {
        ServerReq::ServerName(n) => {
            if str_eq(n.as_str(), local) {
                Ok(())
            } else {
                Err(Error::Unimplemented)
            }
        },
        ServerReq::ServerHost => Ok(()),
        ServerReq::ServerClient => Err(Error::Unimplemented),
    }
}

/// A server connecting to this one must name this one.
pub fn connect_target(req: &ServerReq, local: &str) -> (res: Result<(), Error>)
    ensures
        named(req, local@) == Some(local@) ==> res is Ok,
        named(req, local@) is None ==> (res matches Err(Error::BadRequest(m)) && m@
            == "invalid target hostname"@),
        named(req, local@) is Some && named(req, local@) != Some(local@) ==> (res matches Err(
            Error::BadRequest(m),
        ) && m@ == "wrong target hostname"@),
{
    match req {
        ServerReq::ServerName(n) => {
            if str_eq(n.as_str(), local) {
                Ok(())
            } else {
                Err(Error::BadRequest(String::from_str("wrong target hostname")))
            }
        },
        ServerReq::ServerHost => Ok(()),
        ServerReq::ServerClient => Err(Error::BadRequest(String::from_str("invalid target hostname"))),
    }
}

/// Which server a ping goes to.
pub enum PingTarget {
    /// This server answers itself.
    Local,
    /// The ping is passed on to the named server.
    Remote(String),
}

/// The server a ping is for: the named one, this one, or (for the calling
/// server, which only a federated caller has) the caller.
pub fn ping_target(req: &ServerReq, local: &str, origin: Option<&str>) -> (res: Result<
    PingTarget,
    Error,
>)
    ensures
        ({
            let target = match named(req, local@) {
                Some(n) => Some(n),
                None => match origin {
                    Some(o) => Some(o@),
                    None => None,
                },
            };
            match target {
                None => res matches Err(Error::BadRequest(m)) && m@
                    == "ServerClient requires federation auth"@,
                Some(t) => if t == local@ {
                    res matches Ok(PingTarget::Local)
                } else {
                    res matches Ok(PingTarget::Remote(r)) && r@ == t
                },
            }
        }),
{
    let target: &str = match req {
        ServerReq::ServerName(n) => n.as_str(),
        ServerReq::ServerHost => local,
        ServerReq::ServerClient => match origin {
            Some(o) => o,
            None => {
                return Err(
                    Error::BadRequest(String::from_str("ServerClient requires federation auth")),
                )
            },
        },
    };
    if str_eq(target, local) {
        Ok(PingTarget::Local)
    } else {
        Ok(PingTarget::Remote(String::from_str(target)))
    }
}

/// The voice server's connection: voice must be configured, and the
/// request must carry `Server <token>` as its authorization (a header that
/// is missing or not visible text is passed as missing).
pub fn internal_auth_gate(voice_token: Option<&str>, authorization: Option<&str>) -> (res: Result<
    (),
    Error,
>)
    ensures
        voice_token is None ==> res matches Err(Error::Unimplemented),
        voice_token matches Some(t) ==> match authorization {
            None => res matches Err(Error::MissingAuth),
            Some(a) => if a@ == "Server "@ + t@ {
                res is Ok
            } else {
                res matches Err(Error::MissingAuth)
            },
        },
{
    let token = match voice_token {
        None => return Err(Error::Unimplemented),
        Some(t) => t,
    };
    let given = match authorization {
        None => return Err(Error::MissingAuth),
        Some(a) => a,
    };
    let mut expected = String::from_str("Server ");
    expected.append(token);
    if str_eq(given, expected.as_str()) {
        Ok(())
    } else {
        Err(Error::MissingAuth)
    }
}

} // verus!
