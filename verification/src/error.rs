//! The library's error types, with their user-visible messages and the
//! HTTP status class each one maps to.

use vstd::prelude::*;

verus! {

/// Errors of the login flow and of token validation.
#[derive(Debug, Clone, PartialEq, Eq)]
pub enum LoginError {
    WrongCredentials,
    TokenCreation,
    ContextNotLoaded,
    InvalidToken,
}

impl LoginError {
    /// The message shown to the HTTP caller.
    pub open spec fn spec_message(self) -> Seq<char> {
        match self {
            LoginError::WrongCredentials => "Incorrect username and/or password"@,
            LoginError::TokenCreation => "Couldn't create token"@,
            LoginError::ContextNotLoaded => "Context wasn't loaded for some reason"@,
            LoginError::InvalidToken => "Invalid token"@,
        }
    }

    pub fn message(&self) -> (r: String)
        ensures
            r@ == self.spec_message(),
    {
        match self {
            LoginError::WrongCredentials => String::from_str("Incorrect username and/or password"),
            LoginError::TokenCreation => String::from_str("Couldn't create token"),
            LoginError::ContextNotLoaded => String::from_str(
                "Context wasn't loaded for some reason",
            ),
            LoginError::InvalidToken => String::from_str("Invalid token"),
        }
    }

    /// The HTTP status this error is answered with: authentication failures
    /// are 401, everything else 500.
    pub fn status_code(&self) -> (r: u16)
        ensures
            (self is WrongCredentials || self is InvalidToken) ==> r == 401,
            !(self is WrongCredentials || self is InvalidToken) ==> r == 500,
    {
        match self {
            LoginError::WrongCredentials => 401,
            LoginError::TokenCreation => 500,
            LoginError::ContextNotLoaded => 500,
            LoginError::InvalidToken => 401,
        }
    }
}

/// Error of constructing the online poller (the UDP socket could not be
/// made); it carries the I/O error's text.
#[derive(Debug, Clone, PartialEq, Eq)]
pub enum OnlinePollerError {
    Create(String),
}

impl OnlinePollerError {
    pub open spec fn spec_message(self) -> Seq<char> {
        match self {
            OnlinePollerError::Create(m) => "Couldn't create the watcher: "@ + m@,
        }
    }

    pub fn message(&self) -> (r: String)
        ensures
            r@ == self.spec_message(),
    {
        match self {
            OnlinePollerError::Create(m) => String::from_str("Couldn't create the watcher: ")
                .concat(m.as_str()),
        }
    }
}

/// Errors the HTTP layer sees when handing a request to the proxy task.
#[derive(Debug, Clone, PartialEq, Eq)]
pub enum ProxyMessageError {
    ChannelClosed,
    IncomingChannelClosed,
}

impl ProxyMessageError {
    pub open spec fn spec_message(self) -> Seq<char> {
        match self {
            ProxyMessageError::ChannelClosed => "Couldn't send message to Minecraft server"@,
            ProxyMessageError::IncomingChannelClosed => "Couldn't receive response from Minecraft server"@,
        }
    }

    pub fn message(&self) -> (r: String)
        ensures
            r@ == self.spec_message(),
    {
        match self {
            ProxyMessageError::ChannelClosed => String::from_str(
                "Couldn't send message to Minecraft server",
            ),
            ProxyMessageError::IncomingChannelClosed => String::from_str(
                "Couldn't receive response from Minecraft server",
            ),
        }
    }
}

/// Errors of the proxy loop. The three `McServer` variants and `Spam` are
/// client errors answered on the reply handle; the channel variants are
/// fatal to the loop; `McShutdown` belongs to the termination tail.
#[derive(Debug, Clone, PartialEq, Eq)]
pub enum ProxyResponseError {
    ResponseChannelClosed,
    IncomingChannelClosed,
    Spam,
    McServerConnect(String),
    McServerAuth(String),
    McServerCommand(String),
    McShutdown(String),
}

impl ProxyResponseError {
    pub open spec fn spec_message(self) -> Seq<char> {
        match self {
            ProxyResponseError::ResponseChannelClosed => "Response channel from the proxy server to the web layer is closed"@,
            ProxyResponseError::IncomingChannelClosed => "Incoming channel from the web layer is closed"@,
            ProxyResponseError::Spam => "Sending messages to the server too often"@,
            ProxyResponseError::McServerConnect(m) => "Can't connect to MC server: "@ + m@,
            ProxyResponseError::McServerAuth(m) => "Couldn't authenticate to MC server: "@ + m@,
            ProxyResponseError::McServerCommand(m) => "Couldn't send command to MC server: "@
                + m@,
            ProxyResponseError::McShutdown(m) => "Couldn't shutdown MC server: "@ + m@,
        }
    }

    pub fn message(&self) -> (r: String)
        ensures
            r@ == self.spec_message(),
    {
        match self {
            ProxyResponseError::ResponseChannelClosed => String::from_str(
                "Response channel from the proxy server to the web layer is closed",
            ),
            ProxyResponseError::IncomingChannelClosed => String::from_str(
                "Incoming channel from the web layer is closed",
            ),
            ProxyResponseError::Spam => String::from_str(
                "Sending messages to the server too often",
            ),
            ProxyResponseError::McServerConnect(m) => String::from_str(
                "Can't connect to MC server: ",
            ).concat(m.as_str()),
            ProxyResponseError::McServerAuth(m) => String::from_str(
                "Couldn't authenticate to MC server: ",
            ).concat(m.as_str()),
            ProxyResponseError::McServerCommand(m) => String::from_str(
                "Couldn't send command to MC server: ",
            ).concat(m.as_str()),
            ProxyResponseError::McShutdown(m) => String::from_str(
                "Couldn't shutdown MC server: ",
            ).concat(m.as_str()),
        }
    }

    /// True of the errors that are reported to the requesting client while
    /// the proxy loop keeps running.
    pub open spec fn spec_client_error(self) -> bool {
        self is Spam || self is McServerConnect || self is McServerAuth || self is McServerCommand
    }

    pub fn is_client_error(&self) -> (r: bool)
        ensures
            r == self.spec_client_error(),
    {
        match self {
            ProxyResponseError::Spam => true,
            ProxyResponseError::McServerConnect(_) => true,
            ProxyResponseError::McServerAuth(_) => true,
            ProxyResponseError::McServerCommand(_) => true,
            _ => false,
        }
    }
}

} // verus!
