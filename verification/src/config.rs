use vstd::prelude::*;
use vstd::string::StringExecFns;

verus! {

/// Where the store listens, and the credentials to present to it.
#[derive(Debug, Clone)]
pub struct Config {
    pub addr: String,
    pub username: String,
    pub password: String,
}

/// The connection string for `addr`, with `username` and `password` put in
/// front of it unless both are empty.
pub open spec fn url_of(addr: Seq<char>, username: Seq<char>, password: Seq<char>) -> Seq<char> {
    if username.len() == 0 && password.len() == 0 {
        "redis://"@ + addr
    } else {
        "redis://"@ + username + ":"@ + password + "@"@ + addr
    }
}

impl Config {
    /// The connection string that the store's client is opened with.
    pub fn get_url(&self) -> (url: String)
        ensures
            url@ == url_of(self.addr@, self.username@, self.password@),
    {
        let scheme = String::from_str("redis://");
        if self.username.as_str().is_empty() && self.password.as_str().is_empty() {
            scheme.concat(self.addr.as_str())
        } else {
            let mut url = scheme.concat(self.username.as_str());
            url.append(":");
            url.append(self.password.as_str());
            url.append("@");
            url.append(self.addr.as_str());
            url
        }
    }
}

} // verus!
