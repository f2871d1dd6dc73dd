//! Walking through a manifest one request at a time.
//!
//! The caller sends what [`Orchestrator::pending`] hands out, waits for the
//! request to end and gives the reply to [`Orchestrator::record`]. Nothing is
//! retried and nothing stops the walk: each item is issued exactly once, in
//! plan order, whatever became of the items before it.

use vstd::prelude::*;
use crate::manifest::{
    operation_at, operation_count, operations_view, plan, planned, put_link_op, start_actor_op,
    start_provider_op, HostManifest, HostManifestView, Operation, OperationView,
};
use crate::outcome::{
    describe, kind_of, outcome_for, outcomes_view, replies_view, report_for, OperationOutcome,
    OperationOutcomeView, Reply, ReplyView,
};

verus! {

/// The outcomes of the first `n` planned operations under the given replies.
pub open spec fn outcomes_of(
    ops: Seq<OperationView>,
    replies: Seq<ReplyView>,
    n: int,
) -> Seq<OperationOutcomeView> {
    Seq::new(n as nat, |i: int| outcome_for(ops[i], replies[i]))
}

/// The lines reported for the first `n` planned operations under the given
/// replies.
pub open spec fn reports_of(
    ops: Seq<OperationView>,
    replies: Seq<ReplyView>,
    n: int,
) -> Seq<Seq<char>> {
    Seq::new(n as nat, |i: int| report_for(ops[i], replies[i]))
}

/// The lines of a list, each by its view.
pub open spec fn lines_view(lines: Seq<String>) -> Seq<Seq<char>> {
    Seq::new(lines.len(), |i: int| lines[i]@)
}

/// The smaller of two lengths.
pub open spec fn shorter(a: int, b: int) -> int {
    if a <= b {
        a
    } else {
        b
    }
}

/// The state of one manifest application: the plan, and what has been
/// recorded of the requests that have ended.
pub struct Orchestrator {
    ops: Vec<Operation>,
    outcomes: Vec<OperationOutcome>,
    lines: Vec<String>,
}

impl Orchestrator {
    /// One outcome and one line for each request that has ended, and never
    /// more of them than there are operations.
    pub closed spec fn wf(&self) -> bool {
        &&& self.outcomes@.len() == self.lines@.len()
        &&& self.outcomes@.len() <= self.ops@.len()
    }

    /// Everything this application issues, in order.
    pub closed spec fn plan_view(&self) -> Seq<OperationView> {
        operations_view(self.ops@)
    }

    /// The outcomes recorded so far, oldest first.
    pub closed spec fn recorded(&self) -> Seq<OperationOutcomeView> {
        outcomes_view(self.outcomes@)
    }

    /// The lines reported so far, oldest first.
    pub closed spec fn reported(&self) -> Seq<Seq<char>> {
        lines_view(self.lines@)
    }

    /// Whether every operation has been recorded.
    pub open spec fn done(&self) -> bool {
        self.recorded().len() == self.plan_view().len()
    }

    /// A fresh application of `manifest` to the host `host_id`: the whole
    /// plan lies ahead and nothing is recorded.
    pub fn new(host_id: &str, manifest: &HostManifest) -> (o: Orchestrator)
        ensures
            o.wf(),
            o.plan_view() == planned(host_id@, manifest@),
            o.recorded() == Seq::<OperationOutcomeView>::empty(),
            o.reported() == Seq::<Seq<char>>::empty(),
    {
        let o = Orchestrator { ops: plan(host_id, manifest), outcomes: Vec::new(), lines: Vec::new() };
        assert(o.recorded() =~= Seq::<OperationOutcomeView>::empty());
        assert(o.reported() =~= Seq::<Seq<char>>::empty());
        o
    }

    /// Whether every operation has been recorded.
    pub fn is_done(&self) -> (b: bool)
        requires
            self.wf(),
        ensures
            b == self.done(),
    {
        self.outcomes.len() == self.ops.len()
    }

    /// The operation to issue next: the first of the plan that has no outcome
    /// yet, or nothing once all have one. It depends on how many replies were
    /// recorded, never on what they said.
    pub fn pending(&self) -> (op: Option<&Operation>)
        requires
            self.wf(),
        ensures
            self.done() <==> op is None,
            op matches Some(next) ==> next@ == self.plan_view()[self.recorded().len() as int],
    {
        let n = self.outcomes.len();
        if n < self.ops.len() {
            Some(&self.ops[n])
        } else {
            None
        }
    }

    /// Takes the reply to the pending operation: its outcome and its report
    /// line are appended, and the walk moves on to the next operation. Once
    /// the plan is exhausted the reply belongs to nothing and is left out.
    /// Returns whether the reply was recorded.
    pub fn record(&mut self, reply: &Reply) -> (taken: bool)
        requires
            old(self).wf(),
        ensures
            final(self).wf(),
            final(self).plan_view() == old(self).plan_view(),
            taken == !old(self).done(),
            taken ==> final(self).recorded() == old(self).recorded().push(
                outcome_for(old(self).plan_view()[old(self).recorded().len() as int], reply@),
            ),
            taken ==> final(self).reported() == old(self).reported().push(
                report_for(old(self).plan_view()[old(self).recorded().len() as int], reply@),
            ),
            !taken ==> final(self).recorded() == old(self).recorded(),
            !taken ==> final(self).reported() == old(self).reported(),
    {
        let n = self.outcomes.len();
        if n < self.ops.len() {
            let outcome = self.ops[n].outcome(reply);
            let line = self.ops[n].report(reply);
            self.outcomes.push(outcome);
            self.lines.push(line);
            assert(final(self).recorded() =~= old(self).recorded().push(
                outcome_for(old(self).plan_view()[n as int], reply@),
            ));
            assert(final(self).reported() =~= old(self).reported().push(
                report_for(old(self).plan_view()[n as int], reply@),
            ));
            true
        } else {
            false
        }
    }

    /// The outcomes recorded so far, oldest first.
    pub fn outcomes(&self) -> (r: &Vec<OperationOutcome>)
        ensures
            outcomes_view(r@) == self.recorded(),
    {
        &self.outcomes
    }

    /// Ends the application and hands back the outcomes and the report lines.
    pub fn finish(self) -> (r: (Vec<OperationOutcome>, Vec<String>))
        ensures
            outcomes_view(r.0@) == self.recorded(),
            lines_view(r.1@) == self.reported(),
    {
        (self.outcomes, self.lines)
    }
}

/// Walks the plan of `manifest` on `host_id` with the replies in the order
/// in which they came in. Replies beyond the plan are left out; with fewer
/// replies than operations the walk stops where they end.
pub fn run(host_id: &str, manifest: &HostManifest, replies: &Vec<Reply>) -> (o: Orchestrator)
    ensures
        o.wf(),
        o.plan_view() == planned(host_id@, manifest@),
        o.recorded() == outcomes_of(
            planned(host_id@, manifest@),
            replies_view(replies@),
            shorter(operation_count(manifest@) as int, replies@.len() as int),
        ),
        o.reported() == reports_of(
            planned(host_id@, manifest@),
            replies_view(replies@),
            shorter(operation_count(manifest@) as int, replies@.len() as int),
        ),
{
    let mut o = Orchestrator::new(host_id, manifest);
    let ghost ops = planned(host_id@, manifest@);
    let ghost rs = replies_view(replies@);
    let mut i: usize = 0;
    assert(o.recorded() =~= outcomes_of(ops, rs, 0));
    assert(o.reported() =~= reports_of(ops, rs, 0));
    while i < replies.len() && !o.is_done()
        invariant
            o.wf(),
            i <= replies.len(),
            ops == planned(host_id@, manifest@),
            rs == replies_view(replies@),
            o.plan_view() == ops,
            i <= ops.len(),
            o.recorded() == outcomes_of(ops, rs, i as int),
            o.reported() == reports_of(ops, rs, i as int),
        decreases replies.len() - i,
    {
        let taken = o.record(&replies[i]);
        assert(o.recorded() =~= outcomes_of(ops, rs, i + 1));
        assert(o.reported() =~= reports_of(ops, rs, i + 1));
        i = i + 1;
    }
    o
}

/// The outcomes of applying `manifest` to `host_id` when the requests, in the
/// order of issue, ended with `replies`: one outcome for each item, in plan
/// order, whatever the replies said.
pub fn apply_with_replies(host_id: &str, manifest: &HostManifest, replies: &Vec<Reply>) -> (r: Vec<
    OperationOutcome,
>)
    ensures
        outcomes_view(r@) == outcomes_of(
            planned(host_id@, manifest@),
            replies_view(replies@),
            shorter(operation_count(manifest@) as int, replies@.len() as int),
        ),
{
    run(host_id, manifest, replies).finish().0
}

/// The report lines of applying `manifest` to `host_id` when the requests, in
/// the order of issue, ended with `replies`.
pub fn report_with_replies(host_id: &str, manifest: &HostManifest, replies: &Vec<Reply>) -> (r: Vec<
    String,
>)
    ensures
        lines_view(r@) == reports_of(
            planned(host_id@, manifest@),
            replies_view(replies@),
            shorter(operation_count(manifest@) as int, replies@.len() as int),
        ),
{
    run(host_id, manifest, replies).finish().1
}

/// The plan is the actors in document order, then the capabilities in
/// document order, then the links in document order.
pub proof fn plan_is_actors_then_capabilities_then_links(host: Seq<char>, m: HostManifestView)
    ensures
        planned(host, m) == m.actors.map_values(|a: Seq<char>| start_actor_op(host, a))
            + m.capabilities.map_values(|c| start_provider_op(host, c)) + m.links.map_values(
            |l| put_link_op(l),
        ),
{
    assert(planned(host, m) =~= m.actors.map_values(|a: Seq<char>| start_actor_op(host, a))
        + m.capabilities.map_values(|c| start_provider_op(host, c)) + m.links.map_values(
        |l| put_link_op(l),
    ));
}

/// The outcome at a position is about the operation planned for that
/// position, under any two histories of replies: success or failure of
/// earlier items moves nothing.
pub proof fn order_holds_whatever_the_replies(
    host: Seq<char>,
    m: HostManifestView,
    first: Seq<ReplyView>,
    second: Seq<ReplyView>,
    i: int,
)
    requires
        0 <= i < operation_count(m),
    ensures
        outcomes_of(planned(host, m), first, operation_count(m) as int)[i].kind == kind_of(
            operation_at(host, m, i),
        ),
        outcomes_of(planned(host, m), first, operation_count(m) as int)[i].description
            == describe(operation_at(host, m, i)),
        outcomes_of(planned(host, m), first, operation_count(m) as int)[i].kind == outcomes_of(
            planned(host, m),
            second,
            operation_count(m) as int,
        )[i].kind,
        outcomes_of(planned(host, m), first, operation_count(m) as int)[i].description
            == outcomes_of(planned(host, m), second, operation_count(m) as int)[i].description,
{
}

/// Every item of the manifest gets exactly one outcome, at its place in the
/// plan, when each request has ended.
pub proof fn one_outcome_for_each_item(
    host: Seq<char>,
    m: HostManifestView,
    replies: Seq<ReplyView>,
    i: int,
)
    requires
        replies.len() == operation_count(m),
        0 <= i < operation_count(m),
    ensures
        outcomes_of(planned(host, m), replies, operation_count(m) as int).len() == operation_count(
            m,
        ),
        outcomes_of(planned(host, m), replies, operation_count(m) as int)[i] == outcome_for(
            operation_at(host, m, i),
            replies[i],
        ),
{
}

/// A link whose entry names no link is put under the name `default`.
pub proof fn unnamed_link_goes_by_default(host: Seq<char>, m: HostManifestView, k: int)
    requires
        0 <= k < m.links.len(),
        m.links[k].link_name is None,
    ensures
        planned(host, m)[m.actors.len() + m.capabilities.len() + k] matches OperationView::PutLink {
            link_name,
            ..
        } && link_name == "default"@,
{
}

} // verus!
