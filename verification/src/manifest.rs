//! Applying a host manifest: the operations it stands for, in the order in
//! which they are issued, and what is recorded of each reply.
//!
//! Every actor is started first, then every capability provider, then every
//! link is put, each group in document order. A reply never changes what is
//! issued next: a failed item is recorded and the batch goes on.

use vstd::prelude::*;
use vstd::string::*;
use crate::text::{copy_opt, opt_text, parts_at, split_at_first};

verus! {

/// One `key=value` pair: a link setting or a placement constraint.
#[derive(Debug, Clone, PartialEq, Eq)]
pub struct Label {
    pub key: String,
    pub value: String,
}

/// What a [`Label`] stands for in contracts, with texts as sequences of
/// characters.
pub struct LabelView {
    pub key: Seq<char>,
    pub value: Seq<char>,
}

impl View for Label {
    type V = LabelView;

    open spec fn view(&self) -> LabelView {
        LabelView { key: self.key@, value: self.value@ }
    }
}

/// The pairs of a list, each by its view.
pub open spec fn labels_view(labels: Seq<Label>) -> Seq<LabelView> {
    Seq::new(labels.len(), |i: int| labels[i]@)
}

/// An owned copy of a list of pairs.
pub fn copy_labels(labels: &Vec<Label>) -> (r: Vec<Label>)
    ensures
        labels_view(r@) == labels_view(labels@),
{
    let mut r: Vec<Label> = Vec::new();
    let mut i: usize = 0;
    while i < labels.len()
        invariant
            i <= labels.len(),
            r@.len() == i,
            forall|j: int| 0 <= j < i ==> r@[j]@ == labels@[j]@,
        decreases labels.len() - i,
    {
        r.push(Label { key: labels[i].key.clone(), value: labels[i].value.clone() });
        i = i + 1;
    }
    assert(labels_view(r@) =~= labels_view(labels@));
    r
}

/// A capability provider to start.
#[derive(Debug, Clone, PartialEq, Eq)]
pub struct Capability {
    pub image_ref: String,
    pub link_name: Option<String>,
}

/// What a [`Capability`] stands for in contracts, with texts as sequences of
/// characters.
pub struct CapabilityView {
    pub image_ref: Seq<char>,
    pub link_name: Option<Seq<char>>,
}

impl View for Capability {
    type V = CapabilityView;

    open spec fn view(&self) -> CapabilityView {
        CapabilityView { image_ref: self.image_ref@, link_name: opt_text(self.link_name) }
    }
}

/// A link between an actor and a provider under a contract.
#[derive(Debug, Clone, PartialEq, Eq)]
pub struct LinkEntry {
    pub actor: String,
    pub provider_id: String,
    pub contract_id: String,
    pub link_name: Option<String>,
    pub values: Option<Vec<Label>>,
}

/// What a [`LinkEntry`] stands for in contracts, with texts as sequences of
/// characters.
pub struct LinkEntryView {
    pub actor: Seq<char>,
    pub provider_id: Seq<char>,
    pub contract_id: Seq<char>,
    pub link_name: Option<Seq<char>>,
    pub values: Option<Seq<LabelView>>,
}

impl View for LinkEntry {
    type V = LinkEntryView;

    open spec fn view(&self) -> LinkEntryView {
        LinkEntryView {
            actor: self.actor@,
            provider_id: self.provider_id@,
            contract_id: self.contract_id@,
            link_name: opt_text(self.link_name),
            values: match self.values {
                Some(v) => Some(labels_view(v@)),
                None => None,
            },
        }
    }
}

/// A parsed manifest: what to start on one host and what to link.
#[derive(Debug, Clone, PartialEq, Eq)]
pub struct HostManifest {
    pub actors: Vec<String>,
    pub capabilities: Vec<Capability>,
    pub links: Vec<LinkEntry>,
}

/// What a [`HostManifest`] stands for in contracts, with texts as sequences of
/// characters.
pub struct HostManifestView {
    pub actors: Seq<Seq<char>>,
    pub capabilities: Seq<CapabilityView>,
    pub links: Seq<LinkEntryView>,
}

impl View for HostManifest {
    type V = HostManifestView;

    open spec fn view(&self) -> HostManifestView {
        HostManifestView {
            actors: Seq::new(self.actors@.len(), |i: int| self.actors@[i]@),
            capabilities: Seq::new(self.capabilities@.len(), |i: int| self.capabilities@[i]@),
            links: Seq::new(self.links@.len(), |i: int| self.links@[i]@),
        }
    }
}

/// The group an operation belongs to.
#[derive(Debug, Clone, Copy, PartialEq, Eq, Structural)]
pub enum OperationKind {
    StartActor,
    StartProvider,
    PutLink,
}

/// One request to the control plane.
#[derive(Debug, Clone, PartialEq, Eq)]
pub enum Operation {
    StartActor { host_id: String, actor_ref: String },
    StartProvider { host_id: String, image_ref: String, link_name: Option<String> },
    PutLink {
        actor: String,
        provider_id: String,
        contract_id: String,
        link_name: String,
        values: Vec<Label>,
    },
}

/// What a [`Operation`] stands for in contracts, with texts as sequences of
/// characters.
pub enum OperationView {
    StartActor { host_id: Seq<char>, actor_ref: Seq<char> },
    StartProvider { host_id: Seq<char>, image_ref: Seq<char>, link_name: Option<Seq<char>> },
    PutLink {
        actor: Seq<char>,
        provider_id: Seq<char>,
        contract_id: Seq<char>,
        link_name: Seq<char>,
        values: Seq<LabelView>,
    },
}

impl View for Operation {
    type V = OperationView;

    open spec fn view(&self) -> OperationView {
        match *self {
            Operation::StartActor { host_id, actor_ref } => OperationView::StartActor {
                host_id: host_id@,
                actor_ref: actor_ref@,
            },
            Operation::StartProvider { host_id, image_ref, link_name } => {
                OperationView::StartProvider {
                    host_id: host_id@,
                    image_ref: image_ref@,
                    link_name: opt_text(link_name),
                }
            },
            Operation::PutLink { actor, provider_id, contract_id, link_name, values } => {
                OperationView::PutLink {
                    actor: actor@,
                    provider_id: provider_id@,
                    contract_id: contract_id@,
                    link_name: link_name@,
                    values: labels_view(values@),
                }
            },
        }
    }
}

/// The operations of a list, each by its view.
pub open spec fn operations_view(ops: Seq<Operation>) -> Seq<OperationView> {
    Seq::new(ops.len(), |i: int| ops[i]@)
}

/// The name a link goes by when the manifest gives none.
pub open spec fn default_link_name() -> Seq<char> {
    "default"@
}

/// The link name that is sent: the one supplied, else `default`.
pub open spec fn effective_link_name(supplied: Option<Seq<char>>) -> Seq<char> {
    match supplied {
        Some(name) => name,
        None => default_link_name(),
    }
}

/// The request that starts one actor of the manifest.
pub open spec fn start_actor_op(host: Seq<char>, actor_ref: Seq<char>) -> OperationView {
    OperationView::StartActor { host_id: host, actor_ref }
}

/// The request that starts one capability provider of the manifest.
pub open spec fn start_provider_op(host: Seq<char>, cap: CapabilityView) -> OperationView {
    OperationView::StartProvider {
        host_id: host,
        image_ref: cap.image_ref,
        link_name: cap.link_name,
    }
}

/// The request that puts one link of the manifest: a missing name becomes
/// `default`, missing values become the empty list.
pub open spec fn put_link_op(link: LinkEntryView) -> OperationView {
    OperationView::PutLink {
        actor: link.actor,
        provider_id: link.provider_id,
        contract_id: link.contract_id,
        link_name: effective_link_name(link.link_name),
        values: match link.values {
            Some(v) => v,
            None => Seq::empty(),
        },
    }
}

/// How many operations a manifest stands for: one for each item.
pub open spec fn operation_count(m: HostManifestView) -> nat {
    m.actors.len() + m.capabilities.len() + m.links.len()
}

/// The operation issued at position `i`: actors come first, then
/// capabilities, then links, each group in document order.
pub open spec fn operation_at(host: Seq<char>, m: HostManifestView, i: int) -> OperationView {
    if i < m.actors.len() {
        start_actor_op(host, m.actors[i])
    } else if i < m.actors.len() + m.capabilities.len() {
        start_provider_op(host, m.capabilities[i - m.actors.len()])
    } else {
        put_link_op(m.links[i - m.actors.len() - m.capabilities.len()])
    }
}

/// Everything that applying the manifest to `host` issues, in order.
pub open spec fn planned(host: Seq<char>, m: HostManifestView) -> Seq<OperationView> {
    Seq::new(operation_count(m), |i: int| operation_at(host, m, i))
}

/// The link name to send for an optional supplied one.
pub fn link_name_or_default(supplied: &Option<String>) -> (r: String)
    ensures
        r@ == effective_link_name(opt_text(*supplied)),
{
    match supplied {
        Some(name) => name.clone(),
        None => String::from_str("default"),
    }
}

/// The operations that applying `manifest` to the host `host_id` issues, in
/// the order in which they are issued.
pub fn plan(host_id: &str, manifest: &HostManifest) -> (ops: Vec<Operation>)
    ensures
        operations_view(ops@) == planned(host_id@, manifest@),
{
    let mut ops: Vec<Operation> = Vec::new();
    let ghost m = manifest@;
    let ghost host = host_id@;
    let mut i: usize = 0;
    while i < manifest.actors.len()
        invariant
            i <= manifest.actors.len(),
            m == manifest@,
            host == host_id@,
            ops@.len() == i,
            forall|j: int| 0 <= j < i ==> (#[trigger] ops@[j])@ == operation_at(host, m, j),
        decreases manifest.actors.len() - i,
    {
        let op = Operation::StartActor {
            host_id: String::from_str(host_id),
            actor_ref: manifest.actors[i].clone(),
        };
        assert(op@ == operation_at(host, m, i as int));
        ops.push(op);
        i = i + 1;
    }
    let mut k: usize = 0;
    while k < manifest.capabilities.len()
        invariant
            k <= manifest.capabilities.len(),
            m == manifest@,
            host == host_id@,
            ops@.len() == manifest.actors.len() + k,
            forall|j: int| 0 <= j < ops@.len() ==> (#[trigger] ops@[j])@ == operation_at(host, m, j),
        decreases manifest.capabilities.len() - k,
    {
        let cap = &manifest.capabilities[k];
        let op = Operation::StartProvider {
            host_id: String::from_str(host_id),
            image_ref: cap.image_ref.clone(),
            link_name: copy_opt(&cap.link_name),
        };
        assert(op@ == operation_at(host, m, manifest.actors.len() + k));
        ops.push(op);
        k = k + 1;
    }
    let mut n: usize = 0;
    while n < manifest.links.len()
        invariant
            n <= manifest.links.len(),
            m == manifest@,
            host == host_id@,
            ops@.len() == manifest.actors.len() + manifest.capabilities.len() + n,
            forall|j: int| 0 <= j < ops@.len() ==> (#[trigger] ops@[j])@ == operation_at(host, m, j),
        decreases manifest.links.len() - n,
    {
        let link = &manifest.links[n];
        let values = match &link.values {
            Some(v) => copy_labels(v),
            None => Vec::new(),
        };
        assert(labels_view(Seq::<Label>::empty()) =~= Seq::<LabelView>::empty());
        let op = Operation::PutLink {
            actor: link.actor.clone(),
            provider_id: link.provider_id.clone(),
            contract_id: link.contract_id.clone(),
            link_name: link_name_or_default(&link.link_name),
            values,
        };
        assert(op@ == operation_at(
            host,
            m,
            manifest.actors.len() + manifest.capabilities.len() + n,
        ));
        ops.push(op);
        n = n + 1;
    }
    assert(operations_view(ops@) =~= planned(host, m));
    ops
}

/// The two halves of a contract id such as `wasmcloud:httpserver`: the
/// namespace before its first colon and the package after it. An id without
/// a colon is a namespace with an empty package.
pub open spec fn contract_parts(contract_id: Seq<char>) -> (Seq<char>, Seq<char>) {
    match parts_at(contract_id, ':') {
        Some(p) => p,
        None => (contract_id, Seq::empty()),
    }
}

/// The namespace and the package of a contract id.
pub fn split_contract(contract_id: &str) -> (r: (String, String))
    ensures
        (r.0@, r.1@) == contract_parts(contract_id@),
{
    match split_at_first(contract_id, ':') {
        Some(p) => p,
        None => (String::from_str(contract_id), String::new()),
    }
}

} // verus!
