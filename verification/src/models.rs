//! The request bodies of the moderation endpoints, and their translation
//! into proxy messages. The HTTP layer decodes its JSON into copies of
//! these and converts; the translation itself is exact.

use vstd::prelude::*;

use crate::proxy_service::ProxyMessage;

verus! {

pub struct Ban {
    pub nickname: String,
    pub reason: Option<String>,
}

impl Ban {
    pub fn to_message(self) -> (r: ProxyMessage)
        ensures
            r == (ProxyMessage::Ban { nickname: self.nickname, reason: self.reason }),
    {
        ProxyMessage::Ban { nickname: self.nickname, reason: self.reason }
    }
}

pub struct Pardon {
    pub nickname: String,
}

impl Pardon {
    pub fn to_message(self) -> (r: ProxyMessage)
        ensures
            r == (ProxyMessage::Pardon { nickname: self.nickname }),
    {
        ProxyMessage::Pardon { nickname: self.nickname }
    }
}

pub struct Kick {
    pub nickname: String,
    pub reason: Option<String>,
}

impl Kick {
    pub fn to_message(self) -> (r: ProxyMessage)
        ensures
            r == (ProxyMessage::Kick { nickname: self.nickname, reason: self.reason }),
    {
        ProxyMessage::Kick { nickname: self.nickname, reason: self.reason }
    }
}

pub struct WhitelistAdd {
    pub nickname: String,
}

impl WhitelistAdd {
    pub fn to_message(self) -> (r: ProxyMessage)
        ensures
            r == (ProxyMessage::WhitelistAdd { nickname: self.nickname }),
    {
        ProxyMessage::WhitelistAdd { nickname: self.nickname }
    }
}

pub struct WhitelistRemove {
    pub nickname: String,
}

impl WhitelistRemove {
    pub fn to_message(self) -> (r: ProxyMessage)
        ensures
            r == (ProxyMessage::WhitelistRemove { nickname: self.nickname }),
    {
        ProxyMessage::WhitelistRemove { nickname: self.nickname }
    }
}

pub struct GenerateWorld {
    pub radius: u16,
}

impl GenerateWorld {
    pub fn to_message(self) -> (r: ProxyMessage)
        ensures
            r == (ProxyMessage::GenerateWorld { radius: self.radius }),
    {
        ProxyMessage::GenerateWorld { radius: self.radius }
    }
}

} // verus!
