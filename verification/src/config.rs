use vstd::prelude::*;
use crate::consts::{HOST, MAX_RETRIES, MAX_SIGNIN_ROUNDS, RETRY_TIMEOUT};

verus! {

/// What a session is set up with.
#[derive(Debug)]
pub struct Config {
    /// The address of the service.
    pub host: String,
    /// How often the results container is looked at before a search gives
    /// up waiting for results.
    pub max_retries: u32,
    /// The pause after a look that found the results container empty, in
    /// milliseconds.
    pub retry_interval: u64,
    /// How often one search signs in before it gives up.
    pub max_signin_rounds: u32,
}

/// The mathematical value of a [`Config`].
pub struct ConfigView {
    pub host: Seq<char>,
    pub max_retries: u32,
    pub retry_interval: u64,
    pub max_signin_rounds: u32,
}

impl View for Config {
    type V = ConfigView;

    open spec fn view(&self) -> ConfigView {
        ConfigView {
            host: self.host@,
            max_retries: self.max_retries,
            retry_interval: self.retry_interval,
            max_signin_rounds: self.max_signin_rounds,
        }
    }
}

impl ConfigView {
    /// The setup of a session that is given none.
    pub open spec fn standard() -> ConfigView {
        ConfigView {
            host: HOST@,
            max_retries: MAX_RETRIES,
            retry_interval: RETRY_TIMEOUT,
            max_signin_rounds: MAX_SIGNIN_ROUNDS,
        }
    }
}

impl Default for Config {
    fn default() -> (config: Config)
        ensures
            config@ == ConfigView::standard(),
    {
        Config {
            host: HOST.to_owned(),
            max_retries: MAX_RETRIES,
            retry_interval: RETRY_TIMEOUT,
            max_signin_rounds: MAX_SIGNIN_ROUNDS,
        }
    }
}

impl Config {
    /// A copy of the setup.
    pub fn copy(&self) -> (config: Config)
        ensures
            config@ == self@,
    {
        Config {
            host: self.host.clone(),
            max_retries: self.max_retries,
            retry_interval: self.retry_interval,
            max_signin_rounds: self.max_signin_rounds,
        }
    }
}

} // verus!
