//! What holds of every run of the commit workflow, whatever the outside
//! world reports.
//!
//! A run is given by the message that the user may have passed and by the
//! sequence of events reported back, in order. `state_at` and `action_at`
//! unfold `next` along that sequence.

use crate::commands::commit::exit_status;
use crate::commands::commit::next;
use crate::commands::commit::split_message;
use crate::commands::commit::start;
use crate::commands::commit::ActionView;
use crate::commands::commit::EventView;
use crate::commands::commit::OutcomeView;
use crate::commands::commit::StateView;
use crate::commands::commit::WorkflowErrorView;
use crate::config::ConfigView;
use crate::git::diff_of;
use crate::openai::completion_call;
use crate::openai::is_success;
use crate::openai::user_prompt;
use vstd::prelude::*;

verus! {

/// How far a state is along the pipeline.
pub open spec fn stage(state: StateView) -> nat {
    match state {
        StateView::Locating { .. } => 0,
        StateView::Diffing { .. } => 1,
        StateView::ResolvingCredential { .. } => 2,
        StateView::Generating => 3,
        StateView::OfferingEdit { .. } => 4,
        StateView::Editing { .. } => 5,
        StateView::Confirming { .. } => 6,
        StateView::Committing => 7,
        StateView::Finished => 8,
    }
}

/// The state of a run after all of `events`.
pub open spec fn state_after(
    config: ConfigView,
    manual: Option<Seq<char>>,
    events: Seq<EventView>,
) -> StateView
    decreases events.len(),
{
    if events.len() == 0 {
        start(manual).0
    } else {
        next(config, state_after(config, manual, events.drop_last()), events.last()).0
    }
}

/// The state in which a run meets the event numbered `i`.
pub open spec fn state_at(
    config: ConfigView,
    manual: Option<Seq<char>>,
    events: Seq<EventView>,
    i: int,
) -> StateView {
    state_after(config, manual, events.take(i))
}

/// The action with which a run answers the event numbered `i`.
pub open spec fn action_at(
    config: ConfigView,
    manual: Option<Seq<char>>,
    events: Seq<EventView>,
    i: int,
) -> ActionView {
    next(config, state_at(config, manual, events, i), events[i]).1
}

/// Whether an action reaches the completion endpoint.
pub open spec fn calls_completion(action: ActionView) -> bool {
    action is RequestCompletion
}

/// Whether an action invokes the commit operation.
pub open spec fn calls_commit(action: ActionView) -> bool {
    action is Commit
}

/// One step of the workflow moves forward along the pipeline or ends the
/// run, and the action it asks for goes with the state it enters.
pub proof fn law_step_moves_forward(config: ConfigView, state: StateView, event: EventView)
    ensures
        ({
            let (after, action) = next(config, state, event);
            &&& stage(after) > stage(state) || after is Finished
            &&& calls_completion(action) <==> after is Generating
            &&& calls_commit(action) <==> after is Committing
            &&& action is Finish <==> after is Finished
            &&& state is Finished ==> action == ActionView::Finish(
                OutcomeView::Failed(WorkflowErrorView::UnexpectedEvent),
            )
        }),
{
}

/// The state before an event and the event give the state after it.
pub proof fn lemma_state_unfolds(
    config: ConfigView,
    manual: Option<Seq<char>>,
    events: Seq<EventView>,
    i: int,
)
    requires
        0 <= i < events.len(),
    ensures
        state_at(config, manual, events, 0) == start(manual).0,
        state_at(config, manual, events, i + 1) == next(
            config,
            state_at(config, manual, events, i),
            events[i],
        ).0,
{
    assert(events.take(i + 1).drop_last() =~= events.take(i));
    assert(events.take(i + 1).last() == events[i]);
}

/// A run never goes back: a later state is at least as far along the
/// pipeline as an earlier one, and further where the earlier one is not the
/// end.
pub proof fn law_no_way_back(
    config: ConfigView,
    manual: Option<Seq<char>>,
    events: Seq<EventView>,
    i: int,
    j: int,
)
    requires
        0 <= i <= j <= events.len(),
    ensures
        stage(state_at(config, manual, events, i)) <= stage(state_at(config, manual, events, j)),
        i < j ==> stage(state_at(config, manual, events, i)) < stage(
            state_at(config, manual, events, j),
        ) || state_at(config, manual, events, j) is Finished,
    decreases j - i,
{
    if i < j {
        law_no_way_back(config, manual, events, i, j - 1);
        lemma_state_unfolds(config, manual, events, j - 1);
        law_step_moves_forward(config, state_at(config, manual, events, j - 1), events[j - 1]);
    }
}

/// Every run ends: after eight events at the latest, whatever they report.
pub proof fn law_every_run_ends(
    config: ConfigView,
    manual: Option<Seq<char>>,
    events: Seq<EventView>,
    i: int,
)
    requires
        0 <= i <= events.len(),
    ensures
        stage(state_at(config, manual, events, i)) >= i || state_at(config, manual, events, i)
            is Finished,
        i >= 8 ==> state_at(config, manual, events, i) is Finished,
    decreases i,
{
    if i > 0 {
        law_every_run_ends(config, manual, events, i - 1);
        law_no_way_back(config, manual, events, i - 1, i);
    }
}

/// Once a run has ended, it asks for nothing more.
pub proof fn law_the_end_is_final(
    config: ConfigView,
    manual: Option<Seq<char>>,
    events: Seq<EventView>,
    k: int,
    i: int,
)
    requires
        0 <= k < i < events.len(),
        action_at(config, manual, events, k) is Finish,
    ensures
        action_at(config, manual, events, i) == ActionView::Finish(
            OutcomeView::Failed(WorkflowErrorView::UnexpectedEvent),
        ),
{
    lemma_state_unfolds(config, manual, events, k);
    law_step_moves_forward(config, state_at(config, manual, events, k), events[k]);
    law_no_way_back(config, manual, events, k + 1, i);
    law_step_moves_forward(config, state_at(config, manual, events, i), events[i]);
}

/// Before a run reaches a state, it has asked for nothing that belongs to a
/// later stage: neither for a completion before the state that waits for
/// one, nor for a commit before the state that waits for its end.
pub proof fn lemma_nothing_ahead_of_its_stage(
    config: ConfigView,
    manual: Option<Seq<char>>,
    events: Seq<EventView>,
    k: int,
    i: int,
)
    requires
        0 <= i < k <= events.len(),
    ensures
        stage(state_at(config, manual, events, k)) < 3 ==> !calls_completion(
            action_at(config, manual, events, i),
        ),
        stage(state_at(config, manual, events, k)) < 7 ==> !calls_commit(
            action_at(config, manual, events, i),
        ),
{
    lemma_state_unfolds(config, manual, events, i);
    law_step_moves_forward(config, state_at(config, manual, events, i), events[i]);
    law_no_way_back(config, manual, events, i + 1, k);
}

/// An empty diff ends the run with `NoChanges`, and such a run calls
/// neither the completion endpoint nor the commit operation, at any point.
pub proof fn law_empty_diff_means_no_changes(
    config: ConfigView,
    manual: Option<Seq<char>>,
    events: Seq<EventView>,
    k: int,
)
    requires
        0 <= k < events.len(),
        state_at(config, manual, events, k) is Diffing,
        events[k] matches EventView::Exited(output) && diff_of(output) == Ok::<
            Seq<char>,
            crate::git::GitError,
        >(Seq::empty()),
    ensures
        action_at(config, manual, events, k) == ActionView::Finish(
            OutcomeView::Failed(WorkflowErrorView::NoChanges),
        ),
        !calls_completion(start(manual).1) && !calls_commit(start(manual).1),
        forall|i: int|
            0 <= i < events.len() ==> {
                let action = #[trigger] action_at(config, manual, events, i);
                !calls_completion(action) && !calls_commit(action)
            },
{
    assert forall|i: int| 0 <= i < events.len() implies {
        let action = #[trigger] action_at(config, manual, events, i);
        !calls_completion(action) && !calls_commit(action)
    } by {
        if i < k {
            lemma_nothing_ahead_of_its_stage(config, manual, events, k, i);
        } else if i > k {
            law_the_end_is_final(config, manual, events, k, i);
        }
    }
}

/// With a message given by the user, a run stays on the states that need no
/// generated message.
pub proof fn lemma_manual_run_states(
    config: ConfigView,
    message: Seq<char>,
    events: Seq<EventView>,
    i: int,
)
    requires
        0 <= i <= events.len(),
    ensures
        ({
            let state = state_at(config, Some(message), events, i);
            ||| state == (StateView::Locating { manual: Some(message) })
            ||| state == (StateView::Diffing { manual: Some(message) })
            ||| state == (StateView::Confirming { message })
            ||| state is Committing
            ||| state is Finished
        }),
    decreases i,
{
    if i == 0 {
        assert(events.take(0) =~= Seq::<EventView>::empty());
    } else {
        lemma_manual_run_states(config, message, events, i - 1);
        lemma_state_unfolds(config, Some(message), events, i - 1);
    }
}

/// With a message given by the user, a run never calls the completion
/// endpoint and never looks for a credential, whatever the settings and the
/// environment hold; and the message put to the user for confirmation is the
/// one given.
pub proof fn law_manual_message_skips_generation(
    config: ConfigView,
    message: Seq<char>,
    events: Seq<EventView>,
    i: int,
)
    requires
        0 <= i < events.len(),
    ensures
        !calls_completion(start(Some(message)).1),
        ({
            let action = action_at(config, Some(message), events, i);
            &&& !calls_completion(action)
            &&& !(action is LookUpCredential)
            &&& !(action is OfferEdit)
            &&& !(action is EditMessage)
            &&& action is ConfirmCommit ==> action == (ActionView::ConfirmCommit { message })
        }),
{
    lemma_manual_run_states(config, message, events, i);
}

/// A declined confirmation ends the run as cancelled, which is a success of
/// the process, and such a run never invokes the commit operation.
pub proof fn law_declined_confirmation_commits_nothing(
    config: ConfigView,
    manual: Option<Seq<char>>,
    events: Seq<EventView>,
    k: int,
)
    requires
        0 <= k < events.len(),
        state_at(config, manual, events, k) is Confirming,
        events[k] == EventView::Answer(false),
    ensures
        action_at(config, manual, events, k) == ActionView::Finish(OutcomeView::Cancelled),
        exit_status(OutcomeView::Cancelled) == 0,
        !calls_commit(start(manual).1),
        forall|i: int|
            0 <= i < events.len() ==> !calls_commit(#[trigger] action_at(config, manual, events, i)),
{
    assert forall|i: int| 0 <= i < events.len() implies !calls_commit(
        #[trigger] action_at(config, manual, events, i),
    ) by {
        if i < k {
            lemma_nothing_ahead_of_its_stage(config, manual, events, k, i);
        } else if i > k {
            law_the_end_is_final(config, manual, events, k, i);
        }
    }
}

/// A reply with a status outside the 2xx range, such as 401, ends the run
/// with `ProviderError` over the body of the reply, and such a run never
/// invokes the commit operation.
pub proof fn law_refused_request_commits_nothing(
    config: ConfigView,
    manual: Option<Seq<char>>,
    events: Seq<EventView>,
    k: int,
)
    requires
        0 <= k < events.len(),
        state_at(config, manual, events, k) is Generating,
        events[k] matches EventView::Reply(response) && !is_success(response.status),
    ensures
        events[k] matches EventView::Reply(response) && action_at(config, manual, events, k)
            == ActionView::Finish(
            OutcomeView::Failed(WorkflowErrorView::ProviderError(response.body)),
        ),
        !calls_commit(start(manual).1),
        forall|i: int|
            0 <= i < events.len() ==> !calls_commit(#[trigger] action_at(config, manual, events, i)),
{
    assert forall|i: int| 0 <= i < events.len() implies !calls_commit(
        #[trigger] action_at(config, manual, events, i),
    ) by {
        if i < k {
            lemma_nothing_ahead_of_its_stage(config, manual, events, k, i);
        } else if i > k {
            law_the_end_is_final(config, manual, events, k, i);
        }
    }
}

/// The commit operation is invoked only on the user's consent to the message
/// put for confirmation, with that message's summary and description, and
/// never under an empty summary.
pub proof fn law_commit_needs_consent(
    config: ConfigView,
    manual: Option<Seq<char>>,
    events: Seq<EventView>,
    i: int,
)
    requires
        0 <= i < events.len(),
        calls_commit(action_at(config, manual, events, i)),
    ensures
        events[i] == EventView::Answer(true),
        state_at(config, manual, events, i) matches StateView::Confirming { message }
            && action_at(config, manual, events, i) == (ActionView::Commit {
            summary: split_message(message).0,
            description: split_message(message).1,
        }) && split_message(message).0.len() > 0,
{
}

/// Nothing is tried twice: a run calls the completion endpoint at most once
/// and invokes the commit operation at most once.
pub proof fn law_no_retries(
    config: ConfigView,
    manual: Option<Seq<char>>,
    events: Seq<EventView>,
    i: int,
    j: int,
)
    requires
        0 <= i < j < events.len(),
    ensures
        !(calls_completion(action_at(config, manual, events, i)) && calls_completion(
            action_at(config, manual, events, j),
        )),
        !(calls_commit(action_at(config, manual, events, i)) && calls_commit(
            action_at(config, manual, events, j),
        )),
{
    lemma_state_unfolds(config, manual, events, i);
    law_step_moves_forward(config, state_at(config, manual, events, i), events[i]);
    law_no_way_back(config, manual, events, i + 1, j);
    law_step_moves_forward(config, state_at(config, manual, events, j), events[j]);
}

/// Nothing outside is changed before the user has consented: ahead of the
/// final question a run only reads, asks and requests.
pub proof fn law_no_commit_before_the_question(
    config: ConfigView,
    manual: Option<Seq<char>>,
    events: Seq<EventView>,
    k: int,
    i: int,
)
    requires
        0 <= i < k <= events.len(),
        stage(state_at(config, manual, events, k)) <= 6,
    ensures
        !calls_commit(action_at(config, manual, events, i)),
{
    lemma_nothing_ahead_of_its_stage(config, manual, events, k, i);
}

/// Every request that a run posts is the one for the diff that was fetched:
/// it holds the instructions of the settings as the system message and that
/// diff, fenced, as the user message, and nothing else.
pub proof fn law_request_is_for_the_fetched_diff(
    config: ConfigView,
    manual: Option<Seq<char>>,
    events: Seq<EventView>,
    i: int,
)
    requires
        0 <= i < events.len(),
        calls_completion(action_at(config, manual, events, i)),
    ensures
        i >= 1,
        ({
            &&& events[1] matches EventView::Exited(output)
            &&& diff_of(output) matches Ok(diff)
            &&& action_at(config, manual, events, i) matches ActionView::RequestCompletion(call)
            &&& diff.len() > 0
            &&& call.body.messages.len() == 2
            &&& call.body.messages[0].content == config.openai.system_prompt
            &&& call.body.messages[1].content == user_prompt(diff)
            &&& exists|credential: Seq<char>|
                call == #[trigger] completion_call(
                    credential,
                    config.openai.model,
                    config.openai.temperature,
                    config.openai.max_tokens,
                    config.openai.system_prompt,
                    diff,
                )
        }),
{
    lemma_state_unfolds(config, manual, events, i);
    law_step_moves_forward(config, state_at(config, manual, events, i), events[i]);
    let state = state_at(config, manual, events, i);
    assert(state is Diffing || state is ResolvingCredential);
    if i == 0 {
        assert(events.take(0) =~= Seq::<EventView>::empty());
    }
    lemma_state_unfolds(config, manual, events, 0);
    law_no_way_back(config, manual, events, 1, i);
    law_step_moves_forward(config, state_at(config, manual, events, 0), events[0]);
    assert(state_at(config, manual, events, 1) is Diffing);
    if i > 1 {
        lemma_state_unfolds(config, manual, events, 1);
        law_no_way_back(config, manual, events, 2, i);
        law_step_moves_forward(config, state_at(config, manual, events, 1), events[1]);
        assert(stage(state_at(config, manual, events, 2)) >= 2);
        assert(i == 2);
    }
}

} // verus!
