//! What each command asks of the control plane and what is told to the user
//! while it runs and when it is done.

use vstd::prelude::*;
use vstd::string::*;
use crate::command::{
    ApplyCommand, CtlCliCommand, GetClaimsCommand, GetCommand, GetHostInventoryCommand,
    GetHostsCommand, LinkCommand, LinkDelCommand, LinkPutCommand, LinkQueryCommand, Output,
    OutputKind, StartActorCommand, StartCommand, StartProviderCommand, StopActorCommand,
    StopCommand, StopHostCommand, StopProviderCommand, UpdateActorCommand, UpdateCommand,
};
use crate::config::{ConnectionOpts, ConnectionOptsView, DEFAULT_NATS_TIMEOUT};
use crate::labels::{
    all_well_formed, first_malformed, labels_of, malformed_text, merged, parse_mapping,
    LabelError,
};
use crate::manifest::{
    effective_link_name, labels_view, link_name_or_default, planned, HostManifest, Label,
    LabelView,
};
use crate::orchestrator::Orchestrator;
use crate::outcome::{OperationOutcomeView, Reply, ReplyView};
use crate::placement::{
    default_start_timeout, set_or, start_timeout_ms, PlacementRequest, WorkloadKind,
};
use crate::text::{copy_opt, join2, join3, join4, join5, opt_text, text_or_empty};

verus! {

/// One request to the control plane that a command makes by itself.
#[derive(Debug, Clone, PartialEq, Eq)]
pub enum ControlRequest {
    GetHosts { timeout_ms: u64 },
    GetHostInventory { host_id: String },
    GetClaims,
    QueryLinks,
    RemoveLink { actor_id: String, contract_id: String, link_name: String },
    AdvertiseLink {
        actor_id: String,
        provider_id: String,
        contract_id: String,
        link_name: String,
        values: Vec<Label>,
    },
    StopProvider { host_id: String, provider_id: String, link_name: String, contract_id: String },
    StopActor { host_id: String, actor_id: String, count: u16 },
    StopHost { host_id: String, shutdown_timeout_ms: Option<u64> },
    UpdateActor { host_id: String, actor_id: String, new_actor_ref: String },
}

/// What a [`ControlRequest`] stands for in contracts, with texts as sequences of
/// characters.
pub enum ControlRequestView {
    GetHosts { timeout_ms: u64 },
    GetHostInventory { host_id: Seq<char> },
    GetClaims,
    QueryLinks,
    RemoveLink { actor_id: Seq<char>, contract_id: Seq<char>, link_name: Seq<char> },
    AdvertiseLink {
        actor_id: Seq<char>,
        provider_id: Seq<char>,
        contract_id: Seq<char>,
        link_name: Seq<char>,
        values: Seq<LabelView>,
    },
    StopProvider {
        host_id: Seq<char>,
        provider_id: Seq<char>,
        link_name: Seq<char>,
        contract_id: Seq<char>,
    },
    StopActor { host_id: Seq<char>, actor_id: Seq<char>, count: u16 },
    StopHost { host_id: Seq<char>, shutdown_timeout_ms: Option<u64> },
    UpdateActor { host_id: Seq<char>, actor_id: Seq<char>, new_actor_ref: Seq<char> },
}

impl View for ControlRequest {
    type V = ControlRequestView;

    open spec fn view(&self) -> ControlRequestView {
        match *self {
            ControlRequest::GetHosts { timeout_ms } => ControlRequestView::GetHosts { timeout_ms },
            ControlRequest::GetHostInventory { host_id } => ControlRequestView::GetHostInventory {
                host_id: host_id@,
            },
            ControlRequest::GetClaims => ControlRequestView::GetClaims,
            ControlRequest::QueryLinks => ControlRequestView::QueryLinks,
            ControlRequest::RemoveLink { actor_id, contract_id, link_name } => {
                ControlRequestView::RemoveLink {
                    actor_id: actor_id@,
                    contract_id: contract_id@,
                    link_name: link_name@,
                }
            },
            ControlRequest::AdvertiseLink { actor_id, provider_id, contract_id, link_name, values } => {
                ControlRequestView::AdvertiseLink {
                    actor_id: actor_id@,
                    provider_id: provider_id@,
                    contract_id: contract_id@,
                    link_name: link_name@,
                    values: labels_view(values@),
                }
            },
            ControlRequest::StopProvider { host_id, provider_id, link_name, contract_id } => {
                ControlRequestView::StopProvider {
                    host_id: host_id@,
                    provider_id: provider_id@,
                    link_name: link_name@,
                    contract_id: contract_id@,
                }
            },
            ControlRequest::StopActor { host_id, actor_id, count } => ControlRequestView::StopActor {
                host_id: host_id@,
                actor_id: actor_id@,
                count,
            },
            ControlRequest::StopHost { host_id, shutdown_timeout_ms } => {
                ControlRequestView::StopHost { host_id: host_id@, shutdown_timeout_ms }
            },
            ControlRequest::UpdateActor { host_id, actor_id, new_actor_ref } => {
                ControlRequestView::UpdateActor {
                    host_id: host_id@,
                    actor_id: actor_id@,
                    new_actor_ref: new_actor_ref@,
                }
            },
        }
    }
}

/// The query for the running hosts, which waits as long as the command's
/// timeout says, or the built-in timeout where it says nothing.
pub fn get_hosts(cmd: &GetHostsCommand) -> (r: ControlRequest)
    ensures
        r@ == (ControlRequestView::GetHosts {
            timeout_ms: set_or(cmd.opts.timeout_ms, DEFAULT_NATS_TIMEOUT),
        }),
{
    let timeout_ms = match cmd.opts.timeout_ms {
        Some(t) => t,
        None => DEFAULT_NATS_TIMEOUT,
    };
    ControlRequest::GetHosts { timeout_ms }
}

/// The query for the inventory of the command's host.
pub fn get_host_inventory(cmd: &GetHostInventoryCommand) -> (r: ControlRequest)
    ensures
        r@ == (ControlRequestView::GetHostInventory { host_id: cmd.host_id@ }),
{
    ControlRequest::GetHostInventory { host_id: cmd.host_id.clone() }
}

/// The query for the claims cache.
pub fn get_claims(cmd: &GetClaimsCommand) -> (r: ControlRequest)
    ensures
        r@ == ControlRequestView::GetClaims,
{
    ControlRequest::GetClaims
}

/// The query for the established links.
pub fn link_query(cmd: &LinkQueryCommand) -> (r: ControlRequest)
    ensures
        r@ == ControlRequestView::QueryLinks,
{
    ControlRequest::QueryLinks
}

/// The request that deletes a link; a link without a name is the one named
/// `default`.
pub fn link_del(cmd: &LinkDelCommand) -> (r: ControlRequest)
    ensures
        r@ == (ControlRequestView::RemoveLink {
            actor_id: cmd.actor_id@,
            contract_id: cmd.contract_id@,
            link_name: effective_link_name(opt_text(cmd.link_name)),
        }),
{
    ControlRequest::RemoveLink {
        actor_id: cmd.actor_id.clone(),
        contract_id: cmd.contract_id.clone(),
        link_name: link_name_or_default(&cmd.link_name),
    }
}

/// The request that puts a link, with its values read as a mapping from
/// `label=value` arguments; a link without a name is put under the name
/// `default`. A value without `=` fails the command before anything is sent.
pub fn link_put(cmd: &LinkPutCommand) -> (r: Result<ControlRequest, LabelError>)
    ensures
        r is Ok <==> all_well_formed(cmd.values@),
        r matches Ok(req) ==> req@ == (ControlRequestView::AdvertiseLink {
            actor_id: cmd.actor_id@,
            provider_id: cmd.provider_id@,
            contract_id: cmd.contract_id@,
            link_name: effective_link_name(opt_text(cmd.link_name)),
            values: merged(labels_of(cmd.values@)),
        }),
        r matches Err(LabelError::Malformed { index, argument }) ==> first_malformed(
            cmd.values@,
            index,
            argument,
        ),
{
    match parse_mapping(&cmd.values) {
        Ok(values) => Ok(
            ControlRequest::AdvertiseLink {
                actor_id: cmd.actor_id.clone(),
                provider_id: cmd.provider_id.clone(),
                contract_id: cmd.contract_id.clone(),
                link_name: link_name_or_default(&cmd.link_name),
                values,
            },
        ),
        Err(e) => Err(e),
    }
}

/// The request that stops a provider.
pub fn stop_provider(cmd: &StopProviderCommand) -> (r: ControlRequest)
    ensures
        r@ == (ControlRequestView::StopProvider {
            host_id: cmd.host_id@,
            provider_id: cmd.provider_id@,
            link_name: cmd.link_name@,
            contract_id: cmd.contract_id@,
        }),
{
    ControlRequest::StopProvider {
        host_id: cmd.host_id.clone(),
        provider_id: cmd.provider_id.clone(),
        link_name: cmd.link_name.clone(),
        contract_id: cmd.contract_id.clone(),
    }
}

/// The request that stops instances of an actor.
pub fn stop_actor(cmd: &StopActorCommand) -> (r: ControlRequest)
    ensures
        r@ == (ControlRequestView::StopActor {
            host_id: cmd.host_id@,
            actor_id: cmd.actor_id@,
            count: cmd.count,
        }),
{
    ControlRequest::StopActor {
        host_id: cmd.host_id.clone(),
        actor_id: cmd.actor_id.clone(),
        count: cmd.count,
    }
}

/// The request that stops a host.
pub fn stop_host(cmd: &StopHostCommand) -> (r: ControlRequest)
    ensures
        r@ == (ControlRequestView::StopHost {
            host_id: cmd.host_id@,
            shutdown_timeout_ms: cmd.host_shutdown_timeout,
        }),
{
    ControlRequest::StopHost {
        host_id: cmd.host_id.clone(),
        shutdown_timeout_ms: cmd.host_shutdown_timeout,
    }
}

/// The request that replaces a running actor by a new one.
pub fn update_actor(cmd: &UpdateActorCommand) -> (r: ControlRequest)
    ensures
        r@ == (ControlRequestView::UpdateActor {
            host_id: cmd.host_id@,
            actor_id: cmd.actor_id@,
            new_actor_ref: cmd.new_actor_ref@,
        }),
{
    ControlRequest::UpdateActor {
        host_id: cmd.host_id.clone(),
        actor_id: cmd.actor_id.clone(),
        new_actor_ref: cmd.new_actor_ref.clone(),
    }
}

/// The explicit settings with the timeout replaced.
pub open spec fn with_timeout(o: ConnectionOptsView, timeout_ms: u64) -> ConnectionOptsView {
    ConnectionOptsView { timeout_ms: Some(timeout_ms), ..o }
}

/// The explicit settings of a start: as the caller gave them, but with the
/// start timeout of the workload's kind where the caller set no timeout.
pub fn start_opts(kind: WorkloadKind, opts: &ConnectionOpts) -> (r: ConnectionOpts)
    ensures
        r@ == with_timeout(opts@, set_or(opts.timeout_ms, default_start_timeout(kind))),
{
    ConnectionOpts {
        ctl_host: copy_opt(&opts.ctl_host),
        ctl_port: copy_opt(&opts.ctl_port),
        ctl_jwt: copy_opt(&opts.ctl_jwt),
        ctl_seed: copy_opt(&opts.ctl_seed),
        ctl_credsfile: copy_opt(&opts.ctl_credsfile),
        lattice_prefix: copy_opt(&opts.lattice_prefix),
        timeout_ms: Some(start_timeout_ms(kind, opts.timeout_ms)),
        context: copy_opt(&opts.context),
    }
}

/// What a start command comes to before anything is sent: the settings to
/// connect with and the placement to resolve.
#[derive(Debug, Clone, PartialEq, Eq)]
pub struct StartPlan {
    pub opts: ConnectionOpts,
    pub placement: PlacementRequest,
}

/// The arguments of an optional list, or none.
pub open spec fn given(args: Option<Vec<String>>) -> Seq<String> {
    match args {
        Some(v) => v@,
        None => Seq::empty(),
    }
}

/// The placement that a start command asks for. With a named host the
/// constraints are not looked at and the placement holds none.
pub open spec fn placement_matches(
    p: PlacementRequest,
    kind: WorkloadKind,
    host_id: Option<String>,
    workload_ref: String,
    link_name: Option<Seq<char>>,
    constraints: Option<Vec<String>>,
    auction_timeout_ms: Option<u64>,
) -> bool {
    &&& p.kind == kind
    &&& opt_text(p.explicit_host) == opt_text(host_id)
    &&& p.workload_ref@ == workload_ref@
    &&& opt_text(p.link_name) == link_name
    &&& p.auction_window_ms == auction_timeout_ms
    &&& labels_view(p.constraints@) == if host_id is Some {
        Seq::<LabelView>::empty()
    } else {
        merged(labels_of(given(constraints)))
    }
}

fn read_constraints(host_id: &Option<String>, constraints: &Option<Vec<String>>) -> (r: Result<
    Vec<Label>,
    LabelError,
>)
    ensures
        r is Ok <==> host_id is Some || all_well_formed(given(*constraints)),
        r matches Ok(labels) ==> labels_view(labels@) == if host_id is Some {
            Seq::<LabelView>::empty()
        } else {
            merged(labels_of(given(*constraints)))
        },
        r matches Err(LabelError::Malformed { index, argument }) ==> first_malformed(
            given(*constraints),
            index,
            argument,
        ),
{
    if host_id.is_some() {
        let labels: Vec<Label> = Vec::new();
        assert(labels_view(labels@) =~= Seq::<LabelView>::empty());
        return Ok(labels);
    }
    match constraints {
        Some(args) => parse_mapping(args),
        None => {
            let labels: Vec<Label> = Vec::new();
            assert(labels_view(labels@) =~= merged(labels_of(Seq::<String>::empty())));
            Ok(labels)
        },
    }
}

/// What starting an actor comes to: the settings with the actor start
/// timeout filled in, and the placement of the actor. It fails only where an
/// auction is needed and a constraint holds no `=`.
pub fn start_actor(cmd: &StartActorCommand) -> (r: Result<StartPlan, LabelError>)
    ensures
        r is Ok <==> cmd.host_id is Some || all_well_formed(given(cmd.constraints)),
        r matches Ok(plan) ==> plan.opts@ == with_timeout(
            cmd.opts@,
            set_or(cmd.opts.timeout_ms, default_start_timeout(WorkloadKind::Actor)),
        ) && placement_matches(
            plan.placement,
            WorkloadKind::Actor,
            cmd.host_id,
            cmd.actor_ref,
            None,
            cmd.constraints,
            cmd.auction_timeout_ms,
        ),
        r matches Err(LabelError::Malformed { index, argument }) ==> first_malformed(
            given(cmd.constraints),
            index,
            argument,
        ),
{
    match read_constraints(&cmd.host_id, &cmd.constraints) {
        Ok(constraints) => Ok(
            StartPlan {
                opts: start_opts(WorkloadKind::Actor, &cmd.opts),
                placement: PlacementRequest {
                    kind: WorkloadKind::Actor,
                    explicit_host: copy_opt(&cmd.host_id),
                    workload_ref: cmd.actor_ref.clone(),
                    link_name: None,
                    constraints,
                    auction_window_ms: cmd.auction_timeout_ms,
                },
            },
        ),
        Err(e) => Err(e),
    }
}

/// What starting a provider comes to: the settings with the provider start
/// timeout filled in, and the placement of the provider under its link name.
/// It fails only where an auction is needed and a constraint holds no `=`.
pub fn start_provider(cmd: &StartProviderCommand) -> (r: Result<StartPlan, LabelError>)
    ensures
        r is Ok <==> cmd.host_id is Some || all_well_formed(given(cmd.constraints)),
        r matches Ok(plan) ==> plan.opts@ == with_timeout(
            cmd.opts@,
            set_or(cmd.opts.timeout_ms, default_start_timeout(WorkloadKind::Provider)),
        ) && placement_matches(
            plan.placement,
            WorkloadKind::Provider,
            cmd.host_id,
            cmd.provider_ref,
            Some(cmd.link_name@),
            cmd.constraints,
            cmd.auction_timeout_ms,
        ),
        r matches Err(LabelError::Malformed { index, argument }) ==> first_malformed(
            given(cmd.constraints),
            index,
            argument,
        ),
{
    match read_constraints(&cmd.host_id, &cmd.constraints) {
        Ok(constraints) => Ok(
            StartPlan {
                opts: start_opts(WorkloadKind::Provider, &cmd.opts),
                placement: PlacementRequest {
                    kind: WorkloadKind::Provider,
                    explicit_host: copy_opt(&cmd.host_id),
                    workload_ref: cmd.provider_ref.clone(),
                    link_name: Some(cmd.link_name.clone()),
                    constraints,
                    auction_window_ms: cmd.auction_timeout_ms,
                },
            },
        ),
        Err(e) => Err(e),
    }
}

/// The application of a manifest that was read for the command, on the
/// command's host, with nothing issued yet.
pub fn apply_manifest(cmd: &ApplyCommand, manifest: &HostManifest) -> (o: Orchestrator)
    ensures
        o.wf(),
        o.plan_view() == planned(cmd.host_key@, manifest@),
        o.recorded() == Seq::<OperationOutcomeView>::empty(),
        o.reported() == Seq::<Seq<char>>::empty(),
{
    Orchestrator::new(cmd.host_key.as_str(), manifest)
}

/// What reading the manifest comes to for an application on the host
/// `host_key`. A manifest that was read is applied from its first item, with
/// nothing issued yet. One that could not be read ends the command with the
/// description of the failure, and there is no plan: nothing is issued.
pub fn apply_loaded(host_key: &str, loaded: Result<HostManifest, String>) -> (r: Result<
    Orchestrator,
    String,
>)
    ensures
        match loaded {
            Ok(m) => r matches Ok(o) && o.wf() && o.plan_view() == planned(host_key@, m@)
                && o.recorded() == Seq::<OperationOutcomeView>::empty() && o.reported() == Seq::<
                Seq<char>,
            >::empty(),
            Err(e) => r matches Err(msg) && msg@ == "Failed to load manifest: "@ + e@,
        },
{
    match loaded {
        Ok(m) => Ok(Orchestrator::new(host_key, &m)),
        Err(e) => Err(manifest_load_failure(e.as_str())),
    }
}

/// The description of a manifest that could not be read.
pub fn manifest_load_failure(reason: &str) -> (m: String)
    ensures
        m@ == "Failed to load manifest: "@ + reason@,
{
    join2("Failed to load manifest: ", reason)
}

/// What is shown while a command runs.
pub open spec fn progress_text(c: CtlCliCommand) -> Seq<char> {
    match c {
        CtlCliCommand::Apply(_) => " Applying manifest ..."@,
        CtlCliCommand::Get(GetCommand::Hosts(_)) => " Retrieving Hosts ..."@,
        CtlCliCommand::Get(GetCommand::HostInventory(c)) => " Retrieving inventory for host "@
            + c.host_id@ + " ..."@,
        CtlCliCommand::Get(GetCommand::Claims(_)) => " Retrieving claims ... "@,
        CtlCliCommand::Link(LinkCommand::Del(c)) => "Deleting link for "@ + c.actor_id@ + " on "@
            + c.contract_id@ + " ("@ + effective_link_name(opt_text(c.link_name)) + ") ... "@,
        CtlCliCommand::Link(LinkCommand::Put(c)) => "Defining link between "@ + c.actor_id@
            + " and "@ + c.provider_id@ + " ... "@,
        CtlCliCommand::Link(LinkCommand::Query(_)) => "Querying Links ... "@,
        CtlCliCommand::Start(StartCommand::Actor(c)) => " Starting actor "@ + c.actor_ref@
            + " ... "@,
        CtlCliCommand::Start(StartCommand::Provider(c)) => " Starting provider "@ + c.provider_ref@
            + " ... "@,
        CtlCliCommand::Stop(StopCommand::Actor(c)) => " Stopping actor "@ + c.actor_id@ + " ... "@,
        CtlCliCommand::Stop(StopCommand::Provider(c)) => " Stopping provider "@ + c.provider_id@
            + " ... "@,
        CtlCliCommand::Stop(StopCommand::Host(c)) => " Stopping host "@ + c.host_id@ + " ... "@,
        CtlCliCommand::Update(UpdateCommand::Actor(c)) => " Updating Actor "@ + c.actor_id@
            + " to "@ + c.new_actor_ref@ + " ... "@,
    }
}

/// What is shown while `command` runs.
pub fn progress_message(command: &CtlCliCommand) -> (m: String)
    ensures
        m@ == progress_text(*command),
{
    match command {
        CtlCliCommand::Apply(_) => String::from_str(" Applying manifest ..."),
        CtlCliCommand::Get(GetCommand::Hosts(_)) => String::from_str(" Retrieving Hosts ..."),
        CtlCliCommand::Get(GetCommand::HostInventory(c)) => join3(
            " Retrieving inventory for host ",
            c.host_id.as_str(),
            " ...",
        ),
        CtlCliCommand::Get(GetCommand::Claims(_)) => String::from_str(" Retrieving claims ... "),
        CtlCliCommand::Link(LinkCommand::Del(c)) => {
            let link_name = link_name_or_default(&c.link_name);
            let mut m = join5(
                "Deleting link for ",
                c.actor_id.as_str(),
                " on ",
                c.contract_id.as_str(),
                " (",
            );
            m.append(link_name.as_str());
            m.append(") ... ");
            m
        },
        CtlCliCommand::Link(LinkCommand::Put(c)) => join5(
            "Defining link between ",
            c.actor_id.as_str(),
            " and ",
            c.provider_id.as_str(),
            " ... ",
        ),
        CtlCliCommand::Link(LinkCommand::Query(_)) => String::from_str("Querying Links ... "),
        CtlCliCommand::Start(StartCommand::Actor(c)) => join3(
            " Starting actor ",
            c.actor_ref.as_str(),
            " ... ",
        ),
        CtlCliCommand::Start(StartCommand::Provider(c)) => join3(
            " Starting provider ",
            c.provider_ref.as_str(),
            " ... ",
        ),
        CtlCliCommand::Stop(StopCommand::Actor(c)) => join3(
            " Stopping actor ",
            c.actor_id.as_str(),
            " ... ",
        ),
        CtlCliCommand::Stop(StopCommand::Provider(c)) => join3(
            " Stopping provider ",
            c.provider_id.as_str(),
            " ... ",
        ),
        CtlCliCommand::Stop(StopCommand::Host(c)) => join3(
            " Stopping host ",
            c.host_id.as_str(),
            " ... ",
        ),
        CtlCliCommand::Update(UpdateCommand::Actor(c)) => join5(
            " Updating Actor ",
            c.actor_id.as_str(),
            " to ",
            c.new_actor_ref.as_str(),
            " ... ",
        ),
    }
}

/// What is said when the host took up the one operation of a command; none
/// for the commands that show a result of their own.
pub open spec fn success_text(c: CtlCliCommand) -> Option<Seq<char>> {
    match c {
        CtlCliCommand::Start(StartCommand::Actor(c)) => Some(
            "Actor "@ + c.actor_ref@ + " started successfully"@,
        ),
        CtlCliCommand::Start(StartCommand::Provider(c)) => Some(
            "Provider "@ + c.provider_ref@ + " started successfully"@,
        ),
        CtlCliCommand::Stop(StopCommand::Actor(c)) => Some(
            "Actor "@ + c.actor_id@ + " stopped successfully"@,
        ),
        CtlCliCommand::Stop(StopCommand::Provider(c)) => Some(
            "Provider "@ + c.provider_id@ + " stopped successfully"@,
        ),
        CtlCliCommand::Stop(StopCommand::Host(c)) => Some(
            "Host "@ + c.host_id@ + " acknowledged stop request"@,
        ),
        CtlCliCommand::Update(UpdateCommand::Actor(c)) => Some(
            "Actor "@ + c.actor_id@ + " updated to "@ + c.new_actor_ref@,
        ),
        _ => None,
    }
}

/// What is said when the host took up the one operation of `command`.
pub fn success_message(command: &CtlCliCommand) -> (m: Option<String>)
    ensures
        opt_text(m) == success_text(*command),
{
    match command {
        CtlCliCommand::Start(StartCommand::Actor(c)) => Some(
            join3("Actor ", c.actor_ref.as_str(), " started successfully"),
        ),
        CtlCliCommand::Start(StartCommand::Provider(c)) => Some(
            join3("Provider ", c.provider_ref.as_str(), " started successfully"),
        ),
        CtlCliCommand::Stop(StopCommand::Actor(c)) => Some(
            join3("Actor ", c.actor_id.as_str(), " stopped successfully"),
        ),
        CtlCliCommand::Stop(StopCommand::Provider(c)) => Some(
            join3("Provider ", c.provider_id.as_str(), " stopped successfully"),
        ),
        CtlCliCommand::Stop(StopCommand::Host(c)) => Some(
            join3("Host ", c.host_id.as_str(), " acknowledged stop request"),
        ),
        CtlCliCommand::Update(UpdateCommand::Actor(c)) => Some(
            join4("Actor ", c.actor_id.as_str(), " updated to ", c.new_actor_ref.as_str()),
        ),
        _ => None,
    }
}

/// What becomes of the progress display when a message is to be shown.
#[derive(Debug, Clone, Copy, PartialEq, Eq, Structural)]
pub enum SpinnerStep {
    /// A display is running: it gets the new message.
    Retitle,
    /// None is running and the output is text: one is opened.
    Open,
    /// None is running and the output is for a machine: none is opened, as it
    /// would corrupt the output.
    Silent,
}

/// Decides what becomes of the progress display when a message is to be
/// shown.
pub fn update_spinner_message(running: bool, output: &Output) -> (s: SpinnerStep)
    ensures
        s == if running {
            SpinnerStep::Retitle
        } else if output.kind == OutputKind::Text {
            SpinnerStep::Open
        } else {
            SpinnerStep::Silent
        },
{
    if running {
        SpinnerStep::Retitle
    } else {
        match output.kind {
            OutputKind::Text => SpinnerStep::Open,
            OutputKind::Json => SpinnerStep::Silent,
        }
    }
}

/// What the dispatcher does with a command, once it has told the user that
/// the command runs.
#[derive(Debug, Clone, PartialEq, Eq)]
pub enum Dispatch {
    /// Read the manifest at `path`, then apply it to the host `host_key`.
    Apply { host_key: String, path: String, expand_env: bool },
    /// Send one request and show what comes back.
    Call(ControlRequest),
    /// Resolve the placement, then start the workload.
    Start(StartPlan),
    /// Send nothing: the command has run to its end with this to show.
    Show(Shown),
}

/// Routes a command: which way of running it applies, and with what. A start
/// with a constraint that holds no `=` fails before anything is sent. A link
/// put with a value that holds no `=` sends nothing either, but the command
/// runs to its end and shows the link's failure, in the words of the label
/// error.
pub fn handle_command(command: &CtlCliCommand) -> (r: Result<Dispatch, LabelError>)
    ensures
        match *command {
            CtlCliCommand::Apply(c) => r matches Ok(Dispatch::Apply { host_key, path, expand_env })
                && host_key@ == c.host_key@ && path@ == c.path@ && expand_env == c.expand_env,
            CtlCliCommand::Link(LinkCommand::Put(c)) => {
                &&& r is Ok
                &&& all_well_formed(c.values@) ==> (r matches Ok(Dispatch::Call(req)) && req@
                    == (ControlRequestView::AdvertiseLink {
                    actor_id: c.actor_id@,
                    provider_id: c.provider_id@,
                    contract_id: c.contract_id@,
                    link_name: effective_link_name(opt_text(c.link_name)),
                    values: merged(labels_of(c.values@)),
                }))
                &&& !all_well_formed(c.values@) ==> (r matches Ok(Dispatch::Show(shown))
                    && exists|index: usize, argument: String| #[trigger]
                    first_malformed(c.values@, index, argument) && shown@ == ShownView::Failed(
                        malformed_text(argument@),
                    ))
            },
            CtlCliCommand::Start(StartCommand::Actor(c)) => {
                &&& r is Ok <==> c.host_id is Some || all_well_formed(given(c.constraints))
                &&& r matches Ok(d) ==> d matches Dispatch::Start(plan) && plan.opts@
                    == with_timeout(
                    c.opts@,
                    set_or(c.opts.timeout_ms, default_start_timeout(WorkloadKind::Actor)),
                ) && placement_matches(
                    plan.placement,
                    WorkloadKind::Actor,
                    c.host_id,
                    c.actor_ref,
                    None,
                    c.constraints,
                    c.auction_timeout_ms,
                )
                &&& r matches Err(LabelError::Malformed { index, argument }) ==> first_malformed(
                    given(c.constraints),
                    index,
                    argument,
                )
            },
            CtlCliCommand::Start(StartCommand::Provider(c)) => {
                &&& r is Ok <==> c.host_id is Some || all_well_formed(given(c.constraints))
                &&& r matches Ok(d) ==> d matches Dispatch::Start(plan) && plan.opts@
                    == with_timeout(
                    c.opts@,
                    set_or(c.opts.timeout_ms, default_start_timeout(WorkloadKind::Provider)),
                ) && placement_matches(
                    plan.placement,
                    WorkloadKind::Provider,
                    c.host_id,
                    c.provider_ref,
                    Some(c.link_name@),
                    c.constraints,
                    c.auction_timeout_ms,
                )
                &&& r matches Err(LabelError::Malformed { index, argument }) ==> first_malformed(
                    given(c.constraints),
                    index,
                    argument,
                )
            },
            CtlCliCommand::Get(GetCommand::Hosts(c)) => r matches Ok(Dispatch::Call(req))
                && req@ == (ControlRequestView::GetHosts {
                timeout_ms: set_or(c.opts.timeout_ms, DEFAULT_NATS_TIMEOUT),
            }),
            CtlCliCommand::Get(GetCommand::HostInventory(c)) => r matches Ok(Dispatch::Call(req))
                && req@ == (ControlRequestView::GetHostInventory { host_id: c.host_id@ }),
            CtlCliCommand::Get(GetCommand::Claims(c)) => r matches Ok(Dispatch::Call(req))
                && req@ == ControlRequestView::GetClaims,
            CtlCliCommand::Link(LinkCommand::Query(c)) => r matches Ok(Dispatch::Call(req))
                && req@ == ControlRequestView::QueryLinks,
            CtlCliCommand::Link(LinkCommand::Del(c)) => r matches Ok(Dispatch::Call(req)) && req@
                == (ControlRequestView::RemoveLink {
                actor_id: c.actor_id@,
                contract_id: c.contract_id@,
                link_name: effective_link_name(opt_text(c.link_name)),
            }),
            CtlCliCommand::Stop(StopCommand::Actor(c)) => r matches Ok(Dispatch::Call(req))
                && req@ == (ControlRequestView::StopActor {
                host_id: c.host_id@,
                actor_id: c.actor_id@,
                count: c.count,
            }),
            CtlCliCommand::Stop(StopCommand::Provider(c)) => r matches Ok(Dispatch::Call(req))
                && req@ == (ControlRequestView::StopProvider {
                host_id: c.host_id@,
                provider_id: c.provider_id@,
                link_name: c.link_name@,
                contract_id: c.contract_id@,
            }),
            CtlCliCommand::Stop(StopCommand::Host(c)) => r matches Ok(Dispatch::Call(req)) && req@
                == (ControlRequestView::StopHost {
                host_id: c.host_id@,
                shutdown_timeout_ms: c.host_shutdown_timeout,
            }),
            CtlCliCommand::Update(UpdateCommand::Actor(c)) => r matches Ok(Dispatch::Call(req))
                && req@ == (ControlRequestView::UpdateActor {
                host_id: c.host_id@,
                actor_id: c.actor_id@,
                new_actor_ref: c.new_actor_ref@,
            }),
        },
{
    match command {
        CtlCliCommand::Apply(c) => Ok(
            Dispatch::Apply {
                host_key: c.host_key.clone(),
                path: c.path.clone(),
                expand_env: c.expand_env,
            },
        ),
        CtlCliCommand::Get(GetCommand::Hosts(c)) => Ok(Dispatch::Call(get_hosts(c))),
        CtlCliCommand::Get(GetCommand::HostInventory(c)) => Ok(
            Dispatch::Call(get_host_inventory(c)),
        ),
        CtlCliCommand::Get(GetCommand::Claims(c)) => Ok(Dispatch::Call(get_claims(c))),
        CtlCliCommand::Link(LinkCommand::Del(c)) => Ok(Dispatch::Call(link_del(c))),
        CtlCliCommand::Link(LinkCommand::Put(c)) => match link_put(c) {
            Ok(req) => Ok(Dispatch::Call(req)),
            Err(e) => Ok(Dispatch::Show(Shown::Failed(e.message()))),
        },
        CtlCliCommand::Link(LinkCommand::Query(c)) => Ok(Dispatch::Call(link_query(c))),
        CtlCliCommand::Start(StartCommand::Actor(c)) => match start_actor(c) {
            Ok(plan) => Ok(Dispatch::Start(plan)),
            Err(e) => Err(e),
        },
        CtlCliCommand::Start(StartCommand::Provider(c)) => match start_provider(c) {
            Ok(plan) => Ok(Dispatch::Start(plan)),
            Err(e) => Err(e),
        },
        CtlCliCommand::Stop(StopCommand::Actor(c)) => Ok(Dispatch::Call(stop_actor(c))),
        CtlCliCommand::Stop(StopCommand::Provider(c)) => Ok(Dispatch::Call(stop_provider(c))),
        CtlCliCommand::Stop(StopCommand::Host(c)) => Ok(Dispatch::Call(stop_host(c))),
        CtlCliCommand::Update(UpdateCommand::Actor(c)) => Ok(Dispatch::Call(update_actor(c))),
    }
}

/// What is shown when the one operation of a command has ended.
#[derive(Debug, Clone, PartialEq, Eq)]
pub enum Shown {
    /// The host took the operation up.
    Accepted(Option<String>),
    /// The operation was not carried out, for the reason given; the command
    /// itself has run to its end.
    Failed(String),
}

/// What a [`Shown`] stands for in contracts, with texts as sequences of
/// characters.
pub enum ShownView {
    Accepted(Option<Seq<char>>),
    Failed(Seq<char>),
}

impl View for Shown {
    type V = ShownView;

    open spec fn view(&self) -> ShownView {
        match *self {
            Shown::Accepted(m) => ShownView::Accepted(opt_text(m)),
            Shown::Failed(reason) => ShownView::Failed(reason@),
        }
    }
}

/// Whether a command puts or deletes a link.
pub open spec fn is_link_change(c: CtlCliCommand) -> bool {
    c matches CtlCliCommand::Link(LinkCommand::Put(_)) || c matches CtlCliCommand::Link(
        LinkCommand::Del(_),
    )
}

/// What an error in the course of a command comes to, be it in the settings,
/// in the connection or in the request: for a link that was to be put or
/// deleted it is shown as the link's failure and the command has run to its
/// end; for every other command it is the command's error.
pub open spec fn failure_for(c: CtlCliCommand, description: Seq<char>) -> Result<
    ShownView,
    Seq<char>,
> {
    if is_link_change(c) {
        Ok(ShownView::Failed(description))
    } else {
        Err(description)
    }
}

/// What the end of a command's one operation comes to. An accepted operation
/// is shown with the command's words of success. A declined one is shown
/// with the host's explanation, and the command has still run to its end. A
/// request that got no answer is the command's error, except for a link that
/// was to be put or deleted, where it is shown as the link's failure.
pub open spec fn shown_for(c: CtlCliCommand, reply: ReplyView) -> Result<ShownView, Seq<char>> {
    match reply {
        ReplyView::Answered(ack) => if ack.accepted {
            Ok(ShownView::Accepted(success_text(c)))
        } else {
            Ok(ShownView::Failed(text_or_empty(ack.error)))
        },
        ReplyView::Failed(reason) => failure_for(c, reason),
    }
}

/// A result of `finish_operation`, by view.
pub open spec fn shown_view(r: Result<Shown, String>) -> Result<ShownView, Seq<char>> {
    match r {
        Ok(s) => Ok(s@),
        Err(e) => Err(e@),
    }
}

/// Decides what an error in the course of `command` comes to: the failure
/// shown for a link that was to be put or deleted, the command's error
/// otherwise.
pub fn command_failure(command: &CtlCliCommand, description: String) -> (r: Result<Shown, String>)
    ensures
        shown_view(r) == failure_for(*command, description@),
{
    match command {
        CtlCliCommand::Link(LinkCommand::Put(_)) => Ok(Shown::Failed(description)),
        CtlCliCommand::Link(LinkCommand::Del(_)) => Ok(Shown::Failed(description)),
        _ => Err(description),
    }
}

/// Decides what to show when the one operation of `command` has ended with
/// `reply`, or that the command has failed.
pub fn finish_operation(command: &CtlCliCommand, reply: &Reply) -> (r: Result<Shown, String>)
    ensures
        shown_view(r) == shown_for(*command, reply@),
{
    match reply {
        Reply::Answered(ack) => {
            if ack.accepted {
                Ok(Shown::Accepted(success_message(command)))
            } else {
                match &ack.error {
                    Some(e) => Ok(Shown::Failed(e.clone())),
                    None => Ok(Shown::Failed(String::new())),
                }
            }
        },
        Reply::Failed(reason) => command_failure(command, reason.clone()),
    }
}

} // verus!
