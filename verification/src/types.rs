//! Shared session types: configuration, sub-identity, error kinds, and the
//! lifecycle phase of the logon state machine.

use vstd::prelude::*;

verus! {

/// Logical session role. A quote session and a trading session connect to
/// different ports of the same venue host.
#[derive(Clone, Copy, Debug, PartialEq, Eq, Structural)]
pub enum SubID {
    QUOTE,
    TRADE,
}

/// Error kinds reported by session operations.
///
/// `ProtocolViolation` is reserved: unmatched message types are discarded
/// rather than rejected, so no operation currently raises it.
#[derive(Clone, Copy, Debug, PartialEq, Eq, Structural)]
pub enum Error {
    ConnectionError,
    IOError,
    ProtocolViolation,
}

/// Phase of the logon handshake state machine.
#[derive(Clone, Copy, Debug, PartialEq, Eq, Structural)]
pub enum Phase {
    Idle,
    AwaitingLogonAck,
    Active,
}

/// Mathematical model of a session configuration.
pub ghost struct ConfigModel {
    pub host: Seq<char>,
    pub login: Seq<char>,
    pub password: Seq<char>,
    pub broker: Seq<char>,
    pub heart_beat: u32,
}

/// Session configuration: immutable after construction.
pub struct Config {
    host: String,
    login: String,
    password: String,
    broker: String,
    heart_beat: u32,
}

impl View for Config {
    type V = ConfigModel;

    closed spec fn view(&self) -> ConfigModel {
        ConfigModel {
            host: self.host@,
            login: self.login@,
            password: self.password@,
            broker: self.broker@,
            heart_beat: self.heart_beat,
        }
    }
}

impl Config {
    pub fn new(host: String, login: String, password: String, broker: String, heart_beat: u32) -> (r: Self)
        ensures
            r@ == (ConfigModel {
                host: host@,
                login: login@,
                password: password@,
                broker: broker@,
                heart_beat,
            }),
    {
        Config { host, login, password, broker, heart_beat }
    }

    pub fn host(&self) -> (r: &String)
        ensures
            r@ == self@.host,
    {
        &self.host
    }

    pub fn login(&self) -> (r: &String)
        ensures
            r@ == self@.login,
    {
        &self.login
    }

    pub fn password(&self) -> (r: &String)
        ensures
            r@ == self@.password,
    {
        &self.password
    }

    pub fn broker(&self) -> (r: &String)
        ensures
            r@ == self@.broker,
    {
        &self.broker
    }

    pub fn heart_beat(&self) -> (r: u32)
        ensures
            r == self@.heart_beat,
    {
        self.heart_beat
    }
}

impl Clone for Config {
    fn clone(&self) -> (r: Self)
        ensures
            r@ == self@,
    {
        Config {
            host: self.host.clone(),
            login: self.login.clone(),
            password: self.password.clone(),
            broker: self.broker.clone(),
            heart_beat: self.heart_beat,
        }
    }
}

} // verus!
