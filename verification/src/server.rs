//! How a mail server is reached.

use vstd::prelude::*;
use crate::text::{lowercase, lowercase_of, same_text};

verus! {

/// How the connection to a server is secured.
#[allow(non_camel_case_types)]
#[derive(Clone, Copy, Debug, PartialEq, Eq, Structural)]
pub enum Encryption {
    /// TLS from the first byte.
    tls,
    /// A plain connection that is upgraded by STARTTLS.
    starttls,
}

impl Encryption {
    /// The scheme that a name in lower case stands for: `tls` for TLS, any
    /// other name for STARTTLS.
    pub open spec fn spec_of_lowercase(lower: Seq<char>) -> Encryption {
        if lower == "tls"@ {
            Encryption::tls
        } else {
            Encryption::starttls
        }
    }

    /// The scheme that a name in lower case stands for.
    pub fn of_lowercase(lower: &str) -> (r: Encryption)
        ensures
            r == Self::spec_of_lowercase(lower@),
    {
        if same_text(lower, "tls") {
            Encryption::tls
        } else {
            Encryption::starttls
        }
    }

    /// The scheme that a name stands for, whatever its case. A name that is
    /// not known stands for STARTTLS.
    pub fn parse(value: &str) -> (r: Encryption)
        ensures
            r == Self::spec_of_lowercase(lowercase_of(value@)),
    {
        let lower = lowercase(value);
        Self::of_lowercase(lower.as_str())
    }
}

/// The mathematical value of a [`ServerConfig`].
pub struct ServerView {
    pub port: u16,
    pub host: Seq<char>,
    pub encryption: Encryption,
    pub user: Seq<char>,
    pub password: Seq<char>,
}

impl ServerView {
    /// A server not yet configured: no host, port 0, STARTTLS.
    pub open spec fn unset() -> ServerView {
        ServerView {
            port: 0,
            host: Seq::empty(),
            encryption: Encryption::starttls,
            user: Seq::empty(),
            password: Seq::empty(),
        }
    }
}

/// Address and credentials of one mail server.
#[derive(Debug)]
pub struct ServerConfig {
    pub port: u16,
    pub host: String,
    pub encryption: Encryption,
    pub user: String,
    pub password: String,
}

impl View for ServerConfig {
    type V = ServerView;

    open spec fn view(&self) -> ServerView {
        ServerView {
            port: self.port,
            host: self.host@,
            encryption: self.encryption,
            user: self.user@,
            password: self.password@,
        }
    }
}

impl ServerConfig {
    /// A server not yet configured.
    pub fn new() -> (r: ServerConfig)
        ensures
            r@ == ServerView::unset(),
    {
        ServerConfig {
            port: 0,
            host: String::new(),
            encryption: Encryption::starttls,
            user: String::new(),
            password: String::new(),
        }
    }
}

} // verus!
