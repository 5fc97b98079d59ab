//! Configuration builder for a `Client`.

use vstd::prelude::*;
use crate::errors::Error;
use crate::v2::Client;

verus! {

/// Configuration for a `Client`.
#[derive(Debug, Clone, PartialEq, Eq)]
pub struct Config {
    pub index: String,
    pub insecure_registry: bool,
    pub user_agent: Option<String>,
    pub username: Option<String>,
    pub password: Option<String>,
}

impl Config {
    /// Initialize `Config` with default values.
    pub fn default() -> (r: Config)
        ensures
            r.index@ == "registry-1.docker.io"@,
            r.insecure_registry == false,
            r.user_agent matches Some(u) && u@ == "camallo-dkregistry/0.0"@,
            r.username is None,
            r.password is None,
    {
        Config {
            index: String::from_str("registry-1.docker.io"),
            insecure_registry: false,
            user_agent: Some(crate::user_agent_default()),
            username: None,
            password: None,
        }
    }

    /// Set registry service to use (vhost or IP).
    pub fn registry(self, reg: &str) -> (r: Config)
        ensures
            r.index@ == reg@,
            r.insecure_registry == self.insecure_registry,
            r.user_agent == self.user_agent,
            r.username == self.username,
            r.password == self.password,
    {
        Config { index: reg.to_owned(), ..self }
    }

    /// Whether to use an insecure HTTP connection to the registry.
    pub fn insecure_registry(self, insecure: bool) -> (r: Config)
        ensures
            r.index == self.index,
            r.insecure_registry == insecure,
            r.user_agent == self.user_agent,
            r.username == self.username,
            r.password == self.password,
    {
        Config { insecure_registry: insecure, ..self }
    }

    /// Set the user-agent to be used for registry authentication.
    pub fn user_agent(self, user_agent: Option<String>) -> (r: Config)
        ensures
            r.index == self.index,
            r.insecure_registry == self.insecure_registry,
            r.user_agent == user_agent,
            r.username == self.username,
            r.password == self.password,
    {
        Config { user_agent, ..self }
    }

    /// Set the username to be used for registry authentication.
    pub fn username(self, user: Option<String>) -> (r: Config)
        ensures
            r.index == self.index,
            r.insecure_registry == self.insecure_registry,
            r.user_agent == self.user_agent,
            r.username == user,
            r.password == self.password,
    {
        Config { username: user, ..self }
    }

    /// Set the password to be used for registry authentication.
    pub fn password(self, password: Option<String>) -> (r: Config)
        ensures
            r.index == self.index,
            r.insecure_registry == self.insecure_registry,
            r.user_agent == self.user_agent,
            r.username == self.username,
            r.password == password,
    {
        Config { password, ..self }
    }

    /// Read credentials from the bytes of a JSON config file: when the
    /// file holds a usable entry for the index, take its username and
    /// password; on any failure they are left as they were.
    pub fn read_credentials(self, bytes: &Vec<u8>) -> (r: Config)
        ensures
            r.index == self.index,
            r.insecure_registry == self.insecure_registry,
            r.user_agent == self.user_agent,
            match crate::spec_config_credentials(bytes@, self.index@) {
                Option::Some(sp) => (match r.username {
                    Some(u) => sp.0 == Option::Some(u@),
                    None => sp.0 is None,
                }) && (match r.password {
                    Some(p) => sp.1 == Option::Some(p@),
                    None => sp.1 is None,
                }),
                Option::None => r.username == self.username && r.password == self.password,
            },
    {
        let creds = crate::get_credentials(bytes, self.index.as_str());
        match creds {
            Ok((u, p)) => Config { username: u, password: p, ..self },
            Err(_) => self,
        }
    }

    /// Return a `Client` to interact with a v2 registry.
    pub fn build(self) -> (r: Result<Client, Error>)
        ensures
            match r {
                Ok(c) => {
                    &&& c.base_url@ == (if self.insecure_registry {
                        "http://"@
                    } else {
                        "https://"@
                    }) + self.index@
                    &&& c.index == self.index
                    &&& c.user_agent == self.user_agent
                    &&& c.token is None
                    &&& (match (self.username, self.password) {
                        (Option::None, Option::None) => c.credentials is None,
                        (u, p) => c.credentials matches Some((cu, cp)) && cu@ == (match u {
                            Some(x) => x@,
                            None => Seq::<char>::empty(),
                        }) && cp@ == (match p {
                            Some(x) => x@,
                            None => Seq::<char>::empty(),
                        }),
                    })
                },
                Err(_) => false,
            },
    {
        let scheme = if self.insecure_registry {
            "http://"
        } else {
            "https://"
        };
        let base = String::from_str(scheme).concat(self.index.as_str());
        let creds: Option<(String, String)> = match (self.username, self.password) {
            (Option::None, Option::None) => None,
            (u, p) => {
                let cu = match u {
                    Some(x) => x,
                    None => String::new(),
                };
                let cp = match p {
                    Some(x) => x,
                    None => String::new(),
                };
                Some((cu, cp))
            },
        };
        Ok(
            Client {
                base_url: base,
                credentials: creds,
                index: self.index,
                user_agent: self.user_agent,
                token: None,
            },
        )
    }
}

} // verus!
