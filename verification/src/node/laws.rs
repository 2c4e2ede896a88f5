use vstd::prelude::*;
use crate::block::block_header::BlockView;
use crate::block::chain::{Chain, Walked};
use crate::miner::worker::MessageToMinerView;
use crate::node::fork::{
    fork_head, fork_pairs, height_gap, orphans, resolved, side_work, VerdictView,
};
use crate::node::guard::Guard;
use crate::node::node::{
    done, initializing, node_wf, resumed, try_publishing, updating, with_phase, FollowupView,
    NodeView, PhaseView,
};
use crate::node::service::{
    EventPublishResult, Outcome, ReplyView, RequestView, StepView, UpdateView,
};

verus! {

/// Whether a step asks the validator to finalize the block in the making.
pub open spec fn asks_to_finalize(step: StepView) -> bool {
    step matches StepView::Call(RequestView::FinalizeBlock(_))
}

/// Whether nothing can be published from the node as it stands: the block
/// in the making is finalized, or the miner has no answer.
pub open spec fn quiet(node: NodeView) -> bool {
    node.state.guards.contains(Guard::Finalized) || node.answer is None
}

/// Whether the node is idle or within an attempt to publish that belongs to no commit.
pub open spec fn publishing_alone(phase: PhaseView) -> bool {
    match phase {
        PhaseView::Idle => true,
        PhaseView::Summarizing { commit, .. } => commit is None,
        PhaseView::Finalizing { commit } => commit is None,
        _ => false,
    }
}

/// Whether the node is about to clear its guards: it reads the settings
/// for a commit.
pub open spec fn clears_guards(phase: PhaseView) -> bool {
    phase matches PhaseView::Reloading { then: FollowupView::Commit { .. } }
}

/// What an attempt to publish comes to when the validator gives `replies`
/// to the requests of the node, one after the other: the node at the end,
/// and the requests that it made.
pub open spec fn run(node: NodeView, step: StepView, replies: Seq<ReplyView>) -> (
    NodeView,
    Seq<RequestView>,
)
    decreases replies.len(),
{
    match step {
        StepView::Done(_) => (node, Seq::empty()),
        StepView::Call(request) => if replies.len() == 0 {
            (node, seq![request])
        } else {
            let next = resumed(node, replies[0]);
            let rest = run(next.0, next.1, replies.skip(1));
            (rest.0, seq![request] + rest.1)
        },
    }
}

/// The number of requests to finalize among `requests`.
pub open spec fn finalize_count(requests: Seq<RequestView>) -> nat
    decreases requests.len(),
{
    if requests.len() == 0 {
        0
    } else {
        finalize_count(requests.drop_last()) + (if requests.last() is FinalizeBlock {
            1nat
        } else {
            0nat
        })
    }
}

proof fn lemma_finalize_count_front(request: RequestView, rest: Seq<RequestView>)
    ensures
        finalize_count(seq![request] + rest) == finalize_count(rest) + (if request
            is FinalizeBlock {
            1nat
        } else {
            0nat
        }),
    decreases rest.len(),
{
    let all = seq![request] + rest;
    let one = if request is FinalizeBlock {
        1nat
    } else {
        0nat
    };
    assert(all.len() == rest.len() + 1);
    if rest.len() == 0 {
        assert(all.drop_last() =~= Seq::<RequestView>::empty());
        assert(all.last() == request);
        assert(finalize_count(all.drop_last()) == 0);
        assert(finalize_count(all) == one);
    } else {
        assert(all.drop_last() =~= seq![request] + rest.drop_last());
        assert(all.last() == rest.last());
        lemma_finalize_count_front(request, rest.drop_last());
        assert(finalize_count(all.drop_last()) == finalize_count(rest.drop_last()) + one);
    }
}

/// Every transition keeps the node well formed.
pub proof fn lemma_node_stays_well_formed(
    node: NodeView,
    update: UpdateView,
    messages: Seq<MessageToMinerView>,
    reply: ReplyView,
    chain_head: Seq<u8>,
    peer_id: Seq<u8>,
)
    requires
        node_wf(node),
    ensures
        node_wf(updating(node, update, messages).0),
        node_wf(try_publishing(node, messages).0),
        node_wf(resumed(node, reply).0),
        node_wf(initializing(node, chain_head, peer_id).0),
{
}

/// Once the block in the making is finalized, it stays so, and the node
/// does not ask to finalize again, whatever update or answer comes, until
/// the node clears its guards for a commit.
pub proof fn lemma_finalized_stays(
    node: NodeView,
    update: UpdateView,
    messages: Seq<MessageToMinerView>,
    reply: ReplyView,
)
    requires
        node_wf(node),
        node.state.guards.contains(Guard::Finalized),
    ensures
        updating(node, update, messages).0.state.guards == node.state.guards,
        !asks_to_finalize(updating(node, update, messages).1),
        try_publishing(node, messages).0.state.guards == node.state.guards,
        try_publishing(node, messages).1 == done(Outcome::Publish(EventPublishResult::Pending)),
        !asks_to_finalize(resumed(node, reply).1),
        !clears_guards(node.phase) ==> resumed(node, reply).0.state.guards == node.state.guards,
{
}

/// The guards are taken away only by a commit, but for the two that make
/// way for `Finalized` when the block is finalized.
pub proof fn lemma_guards_clear_on_commit_only(
    node: NodeView,
    update: UpdateView,
    messages: Seq<MessageToMinerView>,
    reply: ReplyView,
    guard: Guard,
)
    requires
        node.state.guards.contains(guard),
    ensures
        updating(node, update, messages).0.state.guards.contains(guard),
        try_publishing(node, messages).0.state.guards.contains(guard),
        !clears_guards(node.phase) && !resumed(node, reply).0.state.guards.contains(guard) ==> node.phase
            is Finalizing && guard != Guard::Finalized && resumed(
            node,
            reply,
        ).0.state.guards.contains(Guard::Finalized),
{
}

/// After the node has attempted to publish, nothing can be published from it.
pub proof fn lemma_attempt_leaves_quiet(node: NodeView, messages: Seq<MessageToMinerView>)
    ensures
        quiet(try_publishing(node, messages).0),
        publishing_alone(try_publishing(node, messages).0.phase),
{
}

/// An answer of the validator within an attempt to publish leaves the node
/// within the attempt or idle, and quiet. The node asks to finalize only
/// after the block was summarized.
pub proof fn lemma_attempt_stays_quiet(node: NodeView, reply: ReplyView)
    requires
        quiet(node),
        publishing_alone(node.phase),
        node_wf(node),
    ensures
        quiet(resumed(node, reply).0),
        publishing_alone(resumed(node, reply).0.phase),
        node_wf(resumed(node, reply).0),
        asks_to_finalize(resumed(node, reply).1) ==> node.phase is Summarizing,
        !(resumed(node, reply).0.phase is Summarizing),
{
}

/// From a quiet node an attempt to publish without news of the worker is
/// pending at once: the node asks nothing of the validator and stays as it is.
pub proof fn lemma_quiet_attempt_is_pending(node: NodeView)
    requires
        quiet(node),
    ensures
        try_publishing(node, Seq::empty()) == (
            with_phase(node, PhaseView::Idle),
            done(Outcome::Publish(EventPublishResult::Pending)),
        ),
{
    let fresh = NodeView { phase: PhaseView::Idle, ..node };
    assert(fresh == with_phase(node, PhaseView::Idle));
}

proof fn lemma_run_finalizes_once(node: NodeView, step: StepView, replies: Seq<ReplyView>)
    requires
        quiet(node),
        publishing_alone(node.phase),
        node_wf(node),
        step is Call ==> !(node.phase is Idle),
        asks_to_finalize(step) ==> node.phase is Finalizing,
    ensures
        quiet(run(node, step, replies).0),
        finalize_count(run(node, step, replies).1) <= (if asks_to_finalize(step) || node.phase
            is Summarizing {
            1nat
        } else {
            0nat
        }),
    decreases replies.len(),
{
    match step {
        StepView::Done(_) => {},
        StepView::Call(request) => {
            if replies.len() == 0 {
                lemma_finalize_count_front(request, Seq::empty());
                assert(seq![request] + Seq::<RequestView>::empty() =~= seq![request]);
            } else {
                let next = resumed(node, replies[0]);
                lemma_attempt_stays_quiet(node, replies[0]);
                lemma_run_finalizes_once(next.0, next.1, replies.skip(1));
                let rest = run(next.0, next.1, replies.skip(1));
                lemma_finalize_count_front(request, rest.1);
            }
        },
    }
}

/// An attempt to publish asks the validator to finalize once at most,
/// whatever the validator answers; and every further attempt without news of
/// the worker asks nothing at all.
pub proof fn lemma_try_publish_is_idempotent(
    node: NodeView,
    messages: Seq<MessageToMinerView>,
    replies: Seq<ReplyView>,
)
    requires
        node_wf(node),
    ensures
        ({
            let first = try_publishing(node, messages);
            let after = run(first.0, first.1, replies);
            &&& finalize_count(after.1) <= 1
            &&& try_publishing(after.0, Seq::empty()).1 == done(
                Outcome::Publish(EventPublishResult::Pending),
            )
            &&& try_publishing(after.0, Seq::empty()).0 == with_phase(after.0, PhaseView::Idle)
        }),
{
    let first = try_publishing(node, messages);
    lemma_attempt_leaves_quiet(node, messages);
    lemma_node_stays_well_formed(
        node,
        UpdateView::Shutdown,
        messages,
        ReplyView::Block(None),
        Seq::empty(),
        Seq::empty(),
    );
    lemma_run_finalizes_once(first.0, first.1, replies);
    let after = run(first.0, first.1, replies);
    lemma_quiet_attempt_is_pending(after.0);
}

/// Between two heads of which neither extends the other, the new head is
/// committed if and only if the work of its side exceeds the work of the
/// current side: with equal work the current head stays.
pub proof fn lemma_fork_choice_is_by_work(chain: Chain, cur: BlockView, new: BlockView)
    ensures
        ({
            let cur_side = orphans(
                chain,
                cur.previous_id,
                height_gap(cur.block_num, new.block_num),
            );
            let new_side = orphans(
                chain,
                new.previous_id,
                height_gap(new.block_num, cur.block_num),
            );
            cur_side matches Walked::Done(cur_orphans) ==> (new_side matches Walked::Done(
                new_orphans,
            ) ==> ({
                let cur_fork = fork_head(cur_orphans, cur);
                let new_fork = fork_head(new_orphans, new);
                fork_pairs(
                    chain,
                    Some(cur_fork.block_id),
                    Some(new_fork.block_id),
                    cur_fork.block_num as nat,
                ) matches Walked::Done((cur_paired, new_paired)) ==> {
                    &&& resolved(chain, cur, new) is Done
                    &&& (resolved(chain, cur, new) == Walked::Done(VerdictView::Commit) <==> side_work(
                        new_orphans,
                        new_paired,
                    ) > side_work(cur_orphans, cur_paired))
                    &&& (resolved(chain, cur, new) == Walked::Done(VerdictView::Ignore) <==> side_work(
                        new_orphans,
                        new_paired,
                    ) <= side_work(cur_orphans, cur_paired))
                }
            }))
        }),
{
}

} // verus!
