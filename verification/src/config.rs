//! Where the remote query service is found and how to log in to it.

use vstd::prelude::*;

verus! {

/// The settings of the connection to the remote query service.
#[derive(Debug)]
pub struct Config {
    ts3_host: String,
    ts3_port: u16,
    ts3_server_id: u64,
    user: String,
    password: String,
}

/// Mathematical value of a [`Config`].
pub struct ConfigView {
    pub ts3_host: Seq<char>,
    pub ts3_port: u16,
    pub ts3_server_id: u64,
    pub user: Seq<char>,
    pub password: Seq<char>,
}

impl View for Config {
    type V = ConfigView;

    closed spec fn view(&self) -> ConfigView {
        ConfigView {
            ts3_host: self.ts3_host@,
            ts3_port: self.ts3_port,
            ts3_server_id: self.ts3_server_id,
            user: self.user@,
            password: self.password@,
        }
    }
}

impl Clone for Config {
    fn clone(&self) -> (copy: Self)
        ensures
            copy@ == self@,
    {
        Config {
            ts3_host: self.ts3_host.clone(),
            ts3_port: self.ts3_port,
            ts3_server_id: self.ts3_server_id,
            user: self.user.clone(),
            password: self.password.clone(),
        }
    }
}

impl Config {
    /// Settings made of the five values.
    pub fn new(
        ts3_host: String,
        ts3_port: u16,
        ts3_server_id: u64,
        user: String,
        password: String,
    ) -> (config: Config)
        ensures
            config@ == (ConfigView {
                ts3_host: ts3_host@,
                ts3_port,
                ts3_server_id,
                user: user@,
                password: password@,
            }),
    {
        Config { ts3_host, ts3_port, ts3_server_id, user, password }
    }

    /// The host name or address of the query service.
    pub fn ts3_host(&self) -> (host: &str)
        ensures
            host@ == self@.ts3_host,
    {
        self.ts3_host.as_str()
    }

    /// The port of the query service.
    pub fn ts3_port(&self) -> (port: u16)
        ensures
            port == self@.ts3_port,
    {
        self.ts3_port
    }

    /// The id of the virtual server to report on.
    pub fn ts3_server_id(&self) -> (id: u64)
        ensures
            id == self@.ts3_server_id,
    {
        self.ts3_server_id
    }

    /// The name to log in with.
    pub fn user(&self) -> (user: &str)
        ensures
            user@ == self@.user,
    {
        self.user.as_str()
    }

    /// The password to log in with.
    pub fn password(&self) -> (password: &str)
        ensures
            password@ == self@.password,
    {
        self.password.as_str()
    }
}

} // verus!
