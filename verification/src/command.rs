//! The commands of the control client, as plain values.

use vstd::prelude::*;
use crate::config::ConnectionOpts;

verus! {

/// How results are shown.
#[derive(Debug, Clone, Copy, PartialEq, Eq, Structural)]
pub enum OutputKind {
    Text,
    Json,
}

/// The output settings of a command.
#[derive(Debug, Clone, Copy, PartialEq, Eq, Structural)]
pub struct Output {
    pub kind: OutputKind,
}

/// Apply a manifest file to a target host.
#[derive(Debug, Clone, PartialEq, Eq)]
pub struct ApplyCommand {
    pub host_key: String,
    pub path: String,
    pub expand_env: bool,
    pub opts: ConnectionOpts,
    pub output: Output,
}

/// Query established links.
#[derive(Debug, Clone, PartialEq, Eq)]
pub struct LinkQueryCommand {
    pub opts: ConnectionOpts,
    pub output: Output,
}

/// Delete a link definition.
#[derive(Debug, Clone, PartialEq, Eq)]
pub struct LinkDelCommand {
    pub opts: ConnectionOpts,
    pub output: Output,
    pub actor_id: String,
    pub contract_id: String,
    pub link_name: Option<String>,
}

/// Establish a link definition.
#[derive(Debug, Clone, PartialEq, Eq)]
pub struct LinkPutCommand {
    pub opts: ConnectionOpts,
    pub output: Output,
    pub actor_id: String,
    pub provider_id: String,
    pub contract_id: String,
    pub link_name: Option<String>,
    pub values: Vec<String>,
}

/// Query the lattice for running hosts.
#[derive(Debug, Clone, PartialEq, Eq)]
pub struct GetHostsCommand {
    pub opts: ConnectionOpts,
    pub output: Output,
}

/// Query a single host for its inventory.
#[derive(Debug, Clone, PartialEq, Eq)]
pub struct GetHostInventoryCommand {
    pub opts: ConnectionOpts,
    pub output: Output,
    pub host_id: String,
}

/// Query the lattice for its claims cache.
#[derive(Debug, Clone, PartialEq, Eq)]
pub struct GetClaimsCommand {
    pub opts: ConnectionOpts,
    pub output: Output,
}

/// Launch an actor in a host.
#[derive(Debug, Clone, PartialEq, Eq)]
pub struct StartActorCommand {
    pub opts: ConnectionOpts,
    pub output: Output,
    pub host_id: Option<String>,
    pub actor_ref: String,
    pub constraints: Option<Vec<String>>,
    pub auction_timeout_ms: Option<u64>,
}

/// Launch a provider in a host.
#[derive(Debug, Clone, PartialEq, Eq)]
pub struct StartProviderCommand {
    pub opts: ConnectionOpts,
    pub output: Output,
    pub host_id: Option<String>,
    pub provider_ref: String,
    pub link_name: String,
    pub constraints: Option<Vec<String>>,
    pub auction_timeout_ms: Option<u64>,
}

/// Stop an actor running in a host.
#[derive(Debug, Clone, PartialEq, Eq)]
pub struct StopActorCommand {
    pub opts: ConnectionOpts,
    pub output: Output,
    pub host_id: String,
    pub actor_id: String,
    pub count: u16,
}

/// Stop a provider running in a host.
#[derive(Debug, Clone, PartialEq, Eq)]
pub struct StopProviderCommand {
    pub opts: ConnectionOpts,
    pub output: Output,
    pub host_id: String,
    pub provider_id: String,
    pub link_name: String,
    pub contract_id: String,
}

/// Purge and stop a running host.
#[derive(Debug, Clone, PartialEq, Eq)]
pub struct StopHostCommand {
    pub opts: ConnectionOpts,
    pub output: Output,
    pub host_id: String,
    pub host_shutdown_timeout: Option<u64>,
}

/// Update an actor running in a host to a new actor.
#[derive(Debug, Clone, PartialEq, Eq)]
pub struct UpdateActorCommand {
    pub opts: ConnectionOpts,
    pub output: Output,
    pub host_id: String,
    pub actor_id: String,
    pub new_actor_ref: String,
}

/// Retrieve information about the lattice.
#[derive(Debug, Clone, PartialEq, Eq)]
pub enum GetCommand {
    Hosts(GetHostsCommand),
    HostInventory(GetHostInventoryCommand),
    Claims(GetClaimsCommand),
}

/// Link an actor and a provider.
#[derive(Debug, Clone, PartialEq, Eq)]
pub enum LinkCommand {
    Query(LinkQueryCommand),
    Put(LinkPutCommand),
    Del(LinkDelCommand),
}

/// Start an actor or a provider.
#[derive(Debug, Clone, PartialEq, Eq)]
pub enum StartCommand {
    Actor(StartActorCommand),
    Provider(StartProviderCommand),
}

/// Stop an actor, a provider or a host.
#[derive(Debug, Clone, PartialEq, Eq)]
pub enum StopCommand {
    Actor(StopActorCommand),
    Provider(StopProviderCommand),
    Host(StopHostCommand),
}

/// Update a running actor.
#[derive(Debug, Clone, PartialEq, Eq)]
pub enum UpdateCommand {
    Actor(UpdateActorCommand),
}

/// Every command of the client.
#[derive(Debug, Clone, PartialEq, Eq)]
pub enum CtlCliCommand {
    Get(GetCommand),
    Link(LinkCommand),
    Start(StartCommand),
    Stop(StopCommand),
    Update(UpdateCommand),
    Apply(ApplyCommand),
}

/// One invocation of the client.
#[derive(Debug, Clone, PartialEq, Eq)]
pub struct CtlCli {
    pub command: CtlCliCommand,
}

impl CtlCli {
    /// The command of this invocation.
    pub fn command(self) -> (c: CtlCliCommand)
        ensures
            c == self.command,
    {
        self.command
    }
}

impl CtlCliCommand {
    /// The output settings that the command carries.
    pub open spec fn output_of(self) -> Output {
        match self {
            CtlCliCommand::Apply(c) => c.output,
            CtlCliCommand::Get(GetCommand::Hosts(c)) => c.output,
            CtlCliCommand::Get(GetCommand::HostInventory(c)) => c.output,
            CtlCliCommand::Get(GetCommand::Claims(c)) => c.output,
            CtlCliCommand::Link(LinkCommand::Del(c)) => c.output,
            CtlCliCommand::Link(LinkCommand::Put(c)) => c.output,
            CtlCliCommand::Link(LinkCommand::Query(c)) => c.output,
            CtlCliCommand::Start(StartCommand::Actor(c)) => c.output,
            CtlCliCommand::Start(StartCommand::Provider(c)) => c.output,
            CtlCliCommand::Stop(StopCommand::Actor(c)) => c.output,
            CtlCliCommand::Stop(StopCommand::Provider(c)) => c.output,
            CtlCliCommand::Stop(StopCommand::Host(c)) => c.output,
            CtlCliCommand::Update(UpdateCommand::Actor(c)) => c.output,
        }
    }

    /// The output settings that the command carries.
    pub fn output(&self) -> (o: Output)
        ensures
            o == self.output_of(),
    {
        match self {
            CtlCliCommand::Apply(c) => c.output,
            CtlCliCommand::Get(GetCommand::Hosts(c)) => c.output,
            CtlCliCommand::Get(GetCommand::HostInventory(c)) => c.output,
            CtlCliCommand::Get(GetCommand::Claims(c)) => c.output,
            CtlCliCommand::Link(LinkCommand::Del(c)) => c.output,
            CtlCliCommand::Link(LinkCommand::Put(c)) => c.output,
            CtlCliCommand::Link(LinkCommand::Query(c)) => c.output,
            CtlCliCommand::Start(StartCommand::Actor(c)) => c.output,
            CtlCliCommand::Start(StartCommand::Provider(c)) => c.output,
            CtlCliCommand::Stop(StopCommand::Actor(c)) => c.output,
            CtlCliCommand::Stop(StopCommand::Provider(c)) => c.output,
            CtlCliCommand::Stop(StopCommand::Host(c)) => c.output,
            CtlCliCommand::Update(UpdateCommand::Actor(c)) => c.output,
        }
    }
}

} // verus!
