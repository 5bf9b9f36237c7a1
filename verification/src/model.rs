//! What the agent and a pairing client exchange during registration.

use crate::clock::Timestamp;
use dashmap::DashMap;
use vstd::prelude::*;

verus! {

/// One app instance that has registered with the agent.
#[derive(Debug, Clone)]
pub struct Registration {
    pub registered_at: Timestamp,
    /// The shared secret that client and agent established during
    /// registration, in lowercase base16. It protects the traffic between
    /// them.
    pub shared_secret_b16: String,
}

/// The registered app instances, each under its identifier.
#[derive(Debug)]
pub struct Registrations {
    pub registrations: DashMap<String, Registration>,
}

/// What a second instance of the agent hands to the one that is running.
#[derive(Clone)]
pub struct Payload {
    args: Vec<String>,
    cwd: String,
}

/// A `Payload` as a value.
pub struct PayloadView {
    pub args: Seq<Seq<char>>,
    pub cwd: Seq<char>,
}

impl View for Payload {
    type V = PayloadView;

    closed spec fn view(&self) -> PayloadView {
        PayloadView { args: self.args.deep_view(), cwd: self.cwd@ }
    }
}

impl Payload {
    /// The payload of an instance that was started with `args` in the
    /// directory `cwd`.
    pub fn new(args: Vec<String>, cwd: String) -> (payload: Payload)
        ensures
            payload@.args == args.deep_view(),
            payload@.cwd == cwd@,
    {
        Payload { args, cwd }
    }

    /// The arguments that the instance was started with.
    pub fn args(&self) -> (args: &Vec<String>)
        ensures
            args.deep_view() == self@.args,
    {
        &self.args
    }

    /// The directory that the instance was started in.
    pub fn cwd(&self) -> (cwd: &String)
        ensures
            cwd@ == self@.cwd,
    {
        &self.cwd
    }
}

/// The answer to a presence check: it tells a client that an agent listens.
#[derive(Debug)]
pub struct HandshakeResponse {
    #[allow(non_snake_case)]
    pub __hoppscotch__agent__: bool,
    pub status: String,
    pub agent_version: String,
}

/// What a client sends to confirm its registration.
#[derive(Debug)]
pub struct ConfirmedRegistrationRequest {
    pub registration: String,
    /// The client's public key in lowercase base16, from which the agent
    /// derives the shared secret.
    pub client_public_key_b16: String,
}

/// What the agent answers to a confirmed registration.
#[derive(Debug)]
pub struct AuthKeyResponse {
    pub auth_key: String,
    pub created_at: Timestamp,
    /// The agent's public key in lowercase base16, from which the client
    /// derives the shared secret.
    pub agent_public_key_b16: String,
}

} // verus!
