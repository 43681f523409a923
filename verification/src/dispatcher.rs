//! The webhook dispatcher: for each commit of an authenticated push, in
//! payload order, create a check run, run the configured command, and update
//! the check run with the outcome — and contain every failure to the one
//! commit that produced it.
//!
//! Creating a check run, spawning the command and updating the check run are
//! outside work; the dispatcher is the decision part alone. It is driven as a
//! state machine: each call of [`Dispatcher::step`] consumes the outcome of
//! the previous action and decides the next one. The run always ends in the
//! fixed success response — acknowledgment of receipt is decoupled from the
//! success of downstream work.

use vstd::prelude::*;

use crate::command::CommandResult;
use crate::github::{CheckRun, Conclusion, is_initial_check, is_completed_check};
use crate::webhook::{
    Commit,
    GitHubWebhookPayload,
    Repository,
    WebhookResponse,
    owner_of,
    repo_of,
    split_full_name,
    valid_full_name,
};

verus! {

/// What the dispatcher asks its driver to do next.
pub enum Action {
    /// Create a check run for the current commit on the remote API.
    CreateCheck { owner: String, repo: String, check: CheckRun },
    /// Run the configured command.
    RunCommand,
    /// Update the named check run on the remote API.
    UpdateCheck { owner: String, repo: String, check_run_id: u64, check: CheckRun },
    /// Every commit is dealt with: answer the sender with the fixed success
    /// body.
    Respond { response: WebhookResponse },
}

/// The outcome of the action the dispatcher asked for last.
pub enum Event {
    /// Nothing yet: ask for the first action.
    Start,
    /// The check run was created; the remote API assigned it this identity.
    Created { check_run_id: u64 },
    /// The create call failed.
    CreateFailed,
    /// The command ran; its captured outcome.
    CommandFinished { result: CommandResult },
    /// The command could not be spawned.
    CommandFailed,
    /// The update call went through.
    Updated,
    /// The update call failed; it is not retried.
    UpdateFailed,
}

/// Where the dispatcher stands with the current commit.
pub enum Phase {
    /// No commit begun yet.
    Ready,
    /// A create was asked for the current commit.
    AwaitingCreate,
    /// The command was asked to run; the created check run's identity.
    AwaitingCommand { check_run_id: u64 },
    /// An update was asked for the current commit's check run.
    AwaitingUpdate { check_run_id: u64 },
    /// The response was issued.
    Done,
}

/// The dispatcher for one webhook delivery: the payload's commits, the index
/// of the commit being processed, and the phase within it.
pub struct Dispatcher {
    pub repository: Repository,
    pub commits: Vec<Commit>,
    pub index: usize,
    pub phase: Phase,
}

impl Dispatcher {
    pub open spec fn wf(self) -> bool {
        &&& self.index <= self.commits@.len()
        &&& match self.phase {
            Phase::Ready => self.index == 0,
            Phase::AwaitingCreate | Phase::AwaitingCommand { .. } | Phase::AwaitingUpdate {
                ..
            } => self.index < self.commits@.len() && valid_full_name(self.repository.full_name@),
            Phase::Done => true,
        }
    }

    /// Which events the driver may hand in next.
    pub open spec fn accepts(self, e: Event) -> bool {
        match e {
            Event::Start => self.phase is Ready,
            Event::Created { .. } | Event::CreateFailed => self.phase is AwaitingCreate,
            Event::CommandFinished { .. } | Event::CommandFailed => self.phase is AwaitingCommand,
            Event::Updated | Event::UpdateFailed => self.phase is AwaitingUpdate,
        }
    }

    /// Whether the dispatcher is in the phase the event answers; what
    /// [`Dispatcher::step`] requires, decidable by an unverified driver.
    pub fn accepts_event(&self, event: &Event) -> (r: bool)
        ensures
            r == self.accepts(*event),
    {
        match event {
            Event::Start => matches!(self.phase, Phase::Ready),
            Event::Created { .. } | Event::CreateFailed => matches!(
                self.phase,
                Phase::AwaitingCreate
            ),
            Event::CommandFinished { .. } | Event::CommandFailed => matches!(
                self.phase,
                Phase::AwaitingCommand { .. }
            ),
            Event::Updated | Event::UpdateFailed => matches!(
                self.phase,
                Phase::AwaitingUpdate { .. }
            ),
        }
    }

    pub fn new(payload: GitHubWebhookPayload) -> (d: Dispatcher)
        ensures
            d.wf(),
            d.phase is Ready,
            d.index == 0,
            d.repository == payload.repository,
            d.commits@ == (match payload.commits {
                Some(c) => c@,
                None => Seq::<Commit>::empty(),
            }),
    {
        let commits = match payload.commits {
            Some(c) => c,
            None => Vec::new(),
        };
        proof {
            assert(commits@ =~= (match payload.commits {
                Some(c) => c@,
                None => Seq::<Commit>::empty(),
            }));
        }
        Dispatcher { repository: payload.repository, commits, index: 0, phase: Phase::Ready }
    }
}

/// The action that begins work at commit `i`: the create for it when the full
/// name splits and a commit remains; otherwise the fixed success response —
/// with a malformed full name every commit is skipped without a remote call.
pub open spec fn begins_at(pre: Dispatcher, post: Dispatcher, a: Action, i: int) -> bool {
    &&& post.repository == pre.repository
    &&& post.commits == pre.commits
    &&& if valid_full_name(pre.repository.full_name@) && i < pre.commits@.len() {
        &&& post.index == i
        &&& post.phase is AwaitingCreate
        &&& a matches Action::CreateCheck { owner, repo, check } && {
            &&& owner@ == owner_of(pre.repository.full_name@)
            &&& repo@ == repo_of(pre.repository.full_name@)
            &&& is_initial_check(pre.commits@[i].id@, check)
        }
    } else {
        &&& post.phase is Done
        &&& a matches Action::Respond { response } && response.message@
            == "Webhook processed successfully"@
    }
}

/// The whole transition relation of one step: what the next state and action
/// are for every accepted event.
pub open spec fn step_spec(pre: Dispatcher, post: Dispatcher, e: Event, a: Action) -> bool {
    match e {
        Event::Start => begins_at(pre, post, a, 0),
        Event::Created { check_run_id } => {
            &&& post == Dispatcher { phase: Phase::AwaitingCommand { check_run_id }, ..pre }
            &&& a is RunCommand
        },
        Event::CreateFailed => begins_at(pre, post, a, pre.index + 1),
        Event::CommandFinished { result } => {
            &&& pre.phase matches Phase::AwaitingCommand { check_run_id: id } && {
                &&& post == Dispatcher { phase: Phase::AwaitingUpdate { check_run_id: id }, ..pre }
                &&& a matches Action::UpdateCheck { owner, repo, check_run_id, check } && {
                    &&& check_run_id == id
                    &&& owner@ == owner_of(pre.repository.full_name@)
                    &&& repo@ == repo_of(pre.repository.full_name@)
                    &&& is_completed_check(pre.commits@[pre.index as int].id@, result, check)
                }
            }
        },
        Event::CommandFailed => begins_at(pre, post, a, pre.index + 1),
        Event::Updated => begins_at(pre, post, a, pre.index + 1),
        Event::UpdateFailed => begins_at(pre, post, a, pre.index + 1),
    }
}

impl Dispatcher {
    /// Move to commit `i`, skipping nothing or everything: when the full name
    /// splits and commit `i` exists the next action is its create; otherwise
    /// the run is over and the fixed success response goes out.
    fn begin_at(&mut self, i: usize) -> (a: Action)
        requires
            i <= old(self).commits@.len(),
        ensures
            final(self).wf(),
            begins_at(*old(self), *final(self), a, i as int),
    {
        let n = self.commits.len();
        if i < n {
            match split_full_name(&self.repository.full_name) {
                Some((owner, repo)) => {
                    let sha = self.commits[i].id.clone();
                    let check = CheckRun::initial(sha);
                    self.index = i;
                    self.phase = Phase::AwaitingCreate;
                    return Action::CreateCheck { owner, repo, check };
                },
                None => {
                    // The full name is malformed: every commit is skipped and
                    // no remote call is made for any of them.
                    self.index = n;
                    self.phase = Phase::Done;
                },
            }
        } else {
            self.index = n;
            self.phase = Phase::Done;
        }
        Action::Respond {
            response: WebhookResponse {
                message: String::from_str("Webhook processed successfully"),
            },
        }
    }

    /// The current commit is dealt with, well or badly: move on to the one
    /// after it.
    fn advance(&mut self) -> (a: Action)
        requires
            old(self).wf(),
            !(old(self).phase is Ready),
            !(old(self).phase is Done),
        ensures
            final(self).wf(),
            begins_at(*old(self), *final(self), a, old(self).index + 1),
    {
        let n = self.commits.len();
        proof {
            assert(self.index < n);
        }
        let i = self.index + 1;
        self.begin_at(i)
    }

    /// Consume the outcome of the last action and decide the next one. An
    /// error with one commit only ever moves the dispatcher past that commit:
    /// a failed create leaves its command unrun and its check unupdated, a
    /// failed command leaves the check in progress remotely, and a failed
    /// update is not retried.
    pub fn step(&mut self, event: Event) -> (a: Action)
        requires
            old(self).wf(),
            old(self).accepts(event),
        ensures
            final(self).wf(),
            step_spec(*old(self), *final(self), event, a),
    {
        match event {
            Event::Start => self.begin_at(0),
            Event::Created { check_run_id } => {
                self.phase = Phase::AwaitingCommand { check_run_id };
                Action::RunCommand
            },
            Event::CreateFailed => self.advance(),
            Event::CommandFinished { result } => {
                let id = match &self.phase {
                    Phase::AwaitingCommand { check_run_id } => *check_run_id,
                    _ => {
                        proof {
                            assert(false);
                        }
                        vstd::pervasive::unreached()
                    },
                };
                let owner_repo = split_full_name(&self.repository.full_name);
                match owner_repo {
                    Some((owner, repo)) => {
                        let sha = self.commits[self.index].id.clone();
                        let check = CheckRun::completed(sha, &result);
                        self.phase = Phase::AwaitingUpdate { check_run_id: id };
                        Action::UpdateCheck { owner, repo, check_run_id: id, check }
                    },
                    None => {
                        proof {
                            assert(false);
                        }
                        vstd::pervasive::unreached()
                    },
                }
            },
            Event::CommandFailed => self.advance(),
            Event::Updated => self.advance(),
            Event::UpdateFailed => self.advance(),
        }
    }
}

/// Law: when the create for a commit fails, that commit's command is never
/// run and its check is never updated — the next action is the next commit's
/// create or the final response.
pub proof fn lemma_create_failure_isolated(pre: Dispatcher, post: Dispatcher, a: Action)
    requires
        pre.wf(),
        pre.accepts(Event::CreateFailed),
        step_spec(pre, post, Event::CreateFailed, a),
    ensures
        !(a is RunCommand),
        !(a is UpdateCheck),
        a is CreateCheck ==> post.index == pre.index + 1,
{
}

/// Law: the identity the create returned is threaded unchanged into the one
/// update of that commit's check, and the update carries the completed check
/// whose conclusion is success exactly when the command succeeded.
pub proof fn lemma_update_uses_created_identity(
    pre: Dispatcher,
    post: Dispatcher,
    result: CommandResult,
    a: Action,
    id: u64,
)
    requires
        pre.wf(),
        pre.phase == (Phase::AwaitingCommand { check_run_id: id }),
        step_spec(pre, post, Event::CommandFinished { result }, a),
    ensures
        a matches Action::UpdateCheck { check_run_id, check, .. } && {
            &&& check_run_id == id
            &&& check.status is Completed
            &&& check.conclusion == Some(
                if result.success {
                    Conclusion::Success
                } else {
                    Conclusion::Failure
                },
            )
        },
        post.phase == (Phase::AwaitingUpdate { check_run_id: id }),
{
}

/// Law: one update attempt per created check: once the update's outcome is
/// in, good or bad, the dispatcher never asks for another update of it — the
/// next action belongs to the next commit or ends the run.
pub proof fn lemma_one_update_attempt(pre: Dispatcher, post: Dispatcher, e: Event, a: Action)
    requires
        pre.wf(),
        pre.phase is AwaitingUpdate,
        e is Updated || e is UpdateFailed,
        step_spec(pre, post, e, a),
    ensures
        !(a is UpdateCheck),
        !(a is RunCommand),
        post.phase is AwaitingCreate ==> post.index == pre.index + 1,
{
}

/// Law: whatever happened to the single commits, the only response the
/// dispatcher ever issues is the fixed success body — acknowledgment of
/// receipt is decoupled from the success of downstream work.
pub proof fn lemma_response_always_success(pre: Dispatcher, post: Dispatcher, e: Event, a: Action)
    requires
        pre.wf(),
        pre.accepts(e),
        step_spec(pre, post, e, a),
    ensures
        a matches Action::Respond { response } ==> response.message@
            == "Webhook processed successfully"@,
{
}

/// Law: an error with one commit never prevents the next: after a failed
/// create, while another commit remains, the next action is the create for
/// that very commit.
pub proof fn lemma_failure_reaches_next_commit(pre: Dispatcher, post: Dispatcher, a: Action)
    requires
        pre.wf(),
        pre.accepts(Event::CreateFailed),
        pre.index + 1 < pre.commits@.len(),
        step_spec(pre, post, Event::CreateFailed, a),
    ensures
        post.phase is AwaitingCreate,
        post.index == pre.index + 1,
        a matches Action::CreateCheck { check, .. } && check.head_sha@ == pre.commits@[pre.index
            + 1].id@,
{
}

} // verus!
