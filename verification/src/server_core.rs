//! The server build plan: everything the HTTP server needs to start.

use vstd::prelude::*;
use vstd::string::*;
use std::path::PathBuf;
use crate::sink::WriteResult;
use crate::uri::{browse_url, compose_url, lemma_browse_url_injective, prefix_accepted};

verus! {

/// An IPv4 address and a port to bind a listening socket to.
#[derive(Clone, Copy, Debug, PartialEq, Eq)]
pub struct BindAddress {
    /// The four octets of the address, most significant first.
    pub octets: (u8, u8, u8, u8),
    pub port: u16,
}

/// Certificate chain and private key for HTTPS, both as PEM bytes.
#[derive(Debug)]
pub struct Ssl {
    pub server_crt: Vec<u8>,
    pub server_key: Vec<u8>,
}

/// What an [`Ssl`] holds.
pub struct SslView {
    pub server_crt: Seq<u8>,
    pub server_key: Seq<u8>,
}

impl View for Ssl {
    type V = SslView;

    open spec fn view(&self) -> SslView {
        SslView { server_crt: self.server_crt@, server_key: self.server_key@ }
    }
}

/// The validated, ready-to-run server configuration.
#[derive(Debug)]
pub struct HappyServerBuilder {
    pub socket_addr: BindAddress,
    pub distribution_dir: PathBuf,
    pub uri_prefix: String,
    pub ssl: Option<Ssl>,
}

/// What a [`HappyServerBuilder`] holds.
pub struct HappyServerBuilderView {
    pub socket_addr: BindAddress,
    pub distribution_dir: PathBuf,
    pub uri_prefix: Seq<char>,
    pub ssl: Option<SslView>,
}

impl View for HappyServerBuilder {
    type V = HappyServerBuilderView;

    open spec fn view(&self) -> HappyServerBuilderView {
        HappyServerBuilderView {
            socket_addr: self.socket_addr,
            distribution_dir: self.distribution_dir,
            uri_prefix: self.uri_prefix@,
            ssl: match self.ssl {
                Some(ssl) => Some(ssl@),
                None => None,
            },
        }
    }
}

impl HappyServerBuilderView {
    /// The URL under which the planned server is browsed.
    pub open spec fn url(self) -> Seq<char> {
        browse_url(self.ssl is Some, self.socket_addr.port, self.uri_prefix)
    }
}

/// The capability to show how starting and stopping the server went.
pub trait HappyServerViewer: Sized {
    /// What one call of [`Self::output_start_server`] does: how the viewer
    /// `after` the call and the `outcome` relate to the viewer `before` it
    /// and to what was shown. A viewer that promises nothing leaves this as
    /// it is.
    open spec fn shows_start(
        before: &Self,
        started: bool,
        hs_builder: HappyServerBuilderView,
        copied: bool,
        after: &Self,
        outcome: WriteResult,
    ) -> bool {
        true
    }

    /// What one call of [`Self::output_server_stop`] does. A viewer that
    /// promises nothing leaves this as it is.
    open spec fn shows_stop(before: &Self, after: &Self, outcome: WriteResult) -> bool {
        true
    }

    /// Shows how the start of the server planned by `hs_builder` went.
    /// `started` says whether the server runs; `copied` says whether the
    /// browse URL was put on the clipboard.
    fn output_start_server(
        &mut self,
        started: bool,
        hs_builder: &HappyServerBuilder,
        copied: bool,
    ) -> (outcome: WriteResult)
        ensures
            Self::shows_start(old(self), started, hs_builder@, copied, final(self), outcome),
    ;

    /// Shows that the server has stopped.
    fn output_server_stop(&mut self) -> (outcome: WriteResult)
        ensures
            Self::shows_stop(old(self), final(self), outcome),
    ;
}

/// How the server is to be run.
#[derive(Debug)]
pub enum Mode {
    Http(HappyServerBuilder),
}

/// The transport a plan asks for.
#[derive(Clone, Copy, Debug, PartialEq, Eq, Structural)]
pub enum Transport {
    /// Plain HTTP.
    Plain,
    /// HTTP over TLS, offering `h2` and `http/1.1`.
    Tls,
}

impl HappyServerBuilder {
    /// The invariant of a plan: its URI prefix obeys the prefix rules.
    pub open spec fn well_formed(&self) -> bool {
        prefix_accepted(self.uri_prefix@)
    }

    /// The URL under which the planned server is browsed:
    /// `https` exactly when the plan carries TLS material, the port left out
    /// exactly when it is the scheme's default, and the prefix behind a
    /// single slash exactly when it is not empty.
    pub fn browse_url(&self) -> (url: String)
        ensures
            url@ == self@.url(),
    {
        compose_url(self.ssl.is_some(), self.socket_addr.port, self.uri_prefix.as_str())
    }

    /// The URL path under which the distribution directory is mounted: a
    /// slash followed by the URI prefix.
    pub fn mount_path(&self) -> (path: String)
        ensures
            path@ == "/"@ + self.uri_prefix@,
    {
        let mut path = String::from_str("/");
        path.append(self.uri_prefix.as_str());
        path
    }

    /// Decides how to start the planned server. `tls_available` says whether
    /// this build can speak TLS. A plan without TLS material runs over plain
    /// HTTP; one with TLS material runs over TLS where that is available and
    /// cannot be started where it is not.
    pub fn transport(&self, tls_available: bool) -> (chosen: Option<Transport>)
        ensures
            self.ssl is None ==> chosen == Some(Transport::Plain),
            self.ssl is Some ==> chosen == if tls_available {
                Some(Transport::Tls)
            } else {
                None
            },
    {
        match &self.ssl {
            None => Some(Transport::Plain),
            Some(_) => if tls_available {
                Some(Transport::Tls)
            } else {
                None
            },
        }
    }
}

/// Two plans that are browsed under the same URL agree in scheme, port and
/// URI prefix; so plans that differ in port or prefix have different URLs.
pub proof fn lemma_url_tells_plans_apart(a: HappyServerBuilderView, b: HappyServerBuilderView)
    requires
        a.url() == b.url(),
    ensures
        (a.ssl is Some) == (b.ssl is Some),
        a.socket_addr.port == b.socket_addr.port,
        a.uri_prefix == b.uri_prefix,
{
    lemma_browse_url_injective(
        a.ssl is Some,
        a.socket_addr.port,
        a.uri_prefix,
        b.ssl is Some,
        b.socket_addr.port,
        b.uri_prefix,
    );
}

} // verus!
