use crate::network::Network;
use crate::transaction::{deletion_envelope, DeletionRequest, TransactionEnvelope};
use vstd::prelude::*;

verus! {

/// How long after the broadcast, in whole seconds, an answer on the transaction still counts,
/// unless the policy says otherwise.
pub const POLL_BUDGET_SECS: u64 = 60;

/// How long to wait, in seconds, before asking again about a transaction that the node does
/// not know yet, unless the policy says otherwise.
pub const RETRY_DELAY_SECS: u64 = 2;

/// How patient a removal is with the node.
#[derive(Debug, Clone, Copy, PartialEq, Eq, Structural)]
pub struct Policy {
    /// How long to wait, in seconds, before asking again about a transaction that the node
    /// does not know yet.
    pub retry_delay_secs: u64,
    /// How long after the broadcast, in whole seconds, an answer on the transaction still
    /// counts.
    pub poll_budget_secs: u64,
}

impl Policy {
    /// The policy that holds unless another is asked for: two seconds between requests, sixty
    /// seconds in all.
    pub open spec fn standard() -> Policy {
        Policy { retry_delay_secs: RETRY_DELAY_SECS, poll_budget_secs: POLL_BUDGET_SECS }
    }
}

impl Default for Policy {
    fn default() -> (policy: Self)
        ensures
            policy == Policy::standard(),
    {
        Policy { retry_delay_secs: RETRY_DELAY_SECS, poll_budget_secs: POLL_BUDGET_SECS }
    }
}

/// Why a removal failed without ending the run.
#[derive(Debug, Clone, Copy, PartialEq, Eq, Structural)]
pub enum Failure {
    /// The transaction was executed and failed on chain.
    ChainExecution,
    /// The node answered with an error that has no handling of its own.
    UnclassifiedRpc,
}

/// How the removal of one account ended.
#[derive(Debug, Clone, Copy, PartialEq, Eq, Structural)]
pub enum Outcome {
    /// The chain removed the account.
    Removed,
    /// The transaction went through and its result says that nothing was removed.
    RefusedOnChain,
    /// The removal failed and the operator chose to go on.
    Failed(Failure),
    /// No result arrived within the time allowed.
    TimedOut,
    /// The chain does not know the stored key.
    LocalKeyMissingRemotely,
}

/// A condition that ends the whole run with an error.
#[derive(Debug, Clone, Copy, PartialEq, Eq, Structural)]
pub enum RunError {
    /// The result of a transaction did not arrive within the time allowed.
    TimeLimitExceeded,
    /// The node did not take the transaction.
    BroadcastFailed,
    /// The node answered the query for the access key with something else.
    NonceUnavailable,
    /// The access key's nonce is the largest there is, so no transaction can follow it.
    NonceExhausted,
}

/// What the run learns from the removal of one account.
#[derive(Debug, Clone, Copy, PartialEq, Eq, Structural)]
pub enum Verdict {
    /// The removal reached an outcome.
    Settled(Outcome),
    /// The operator declined to go on after an error.
    Aborted,
    /// The removal met a condition that no candidate can recover from.
    Broken(RunError),
}

/// A yes/no question to the operator. Each one is asked after the error that led to it has
/// been shown, and each one offers "no" as the default.
#[derive(Debug, Clone, Copy, PartialEq, Eq, Structural)]
pub enum Prompt {
    /// Whether to delete the local key of an account that the chain does not know.
    PurgeLocalKey,
    /// Whether to go on after a transaction that failed on chain.
    ContinueAfterFailure,
    /// Whether to go on after an error that has no handling of its own.
    ContinueAfterUnhandled,
}

/// Where the removal of one account stands.
#[derive(Debug, Clone, Copy, PartialEq, Eq)]
pub enum Phase {
    /// The access key was asked for.
    QueryingKey,
    /// The chain does not know the key; the operator was asked whether to delete it locally.
    ConfirmingPurge,
    /// An error was shown; the operator was asked whether the run goes on.
    ConfirmingContinue(Failure),
    /// The transaction with this nonce, on top of this block, is being signed.
    Signing { nonce: u64, block_hash: [u8; 32] },
    /// The signed transaction was handed to the node.
    Broadcasting,
    /// The node was asked for the transaction's status.
    Polling,
    /// The local key is being deleted after this outcome.
    Purging(Outcome),
    /// The removal is over.
    Done(Verdict),
}

/// What the node said about a transaction.
#[derive(Debug, Clone, PartialEq, Eq)]
pub enum PollStatus {
    /// The transaction succeeded with this value.
    SuccessValue(Vec<u8>),
    /// The transaction was executed and failed.
    Failure,
    /// The transaction is known and has no final status yet.
    Pending,
    /// The node timed out or does not know the transaction yet.
    Transient,
    /// Any other error.
    Unclassified,
}

/// What happened since the last action.
#[derive(Debug, Clone, PartialEq, Eq)]
pub enum Event {
    /// The chain knows the key: its nonce, and the hash of the block that was asked.
    KeyFound { nonce: u64, block_hash: [u8; 32] },
    /// The chain does not know the key.
    KeyUnknown,
    /// The query for the key failed in any other way.
    QueryFailed,
    /// The query was answered with something that is no access key.
    QueryMismatch,
    /// The operator answered a question.
    Answered(bool),
    /// The transaction was signed.
    Signed,
    /// The node took the transaction.
    Submitted,
    /// The node did not take the transaction.
    SubmissionFailed,
    /// The node answered a status request, this many whole seconds after the broadcast began.
    Polled { elapsed_secs: u64, status: PollStatus },
    /// The local key was deleted, or could not be.
    Purged(bool),
}

/// What to do next.
#[derive(Debug, Clone, Copy, PartialEq, Eq, Structural)]
pub enum Action {
    /// Ask the chain for the access key of the stored key, at the latest block.
    QueryAccessKey,
    /// Show the error and ask the operator.
    Ask(Prompt),
    /// Sign the envelope of this removal.
    Sign,
    /// Note the time and hand the signed transaction to the node, without waiting for it to be
    /// included.
    Broadcast,
    /// Wait this many seconds, then ask the node for the transaction's status.
    Poll { after_secs: u64 },
    /// Delete the local key and say whether that worked.
    DeleteCredential,
    /// Nothing is left to do for this account.
    Stop(Verdict),
}

/// The value with which a transaction says that nothing was removed: the text `false`.
pub open spec fn refusal_value() -> Seq<u8> {
    seq![102u8, 97u8, 108u8, 115u8, 101u8]
}

/// The step of a removal that waits for the result of the query.
pub open spec fn after_query(event: Event) -> Option<(Phase, Action)> {
    match event {
        Event::KeyFound { nonce, block_hash } => if nonce < u64::MAX {
            Some((Phase::Signing { nonce: (nonce + 1) as u64, block_hash }, Action::Sign))
        } else {
            Some(stopped(Verdict::Broken(RunError::NonceExhausted)))
        },
        Event::KeyUnknown => Some((Phase::ConfirmingPurge, Action::Ask(Prompt::PurgeLocalKey))),
        Event::QueryFailed => Some(
            (
                Phase::ConfirmingContinue(Failure::UnclassifiedRpc),
                Action::Ask(Prompt::ContinueAfterUnhandled),
            ),
        ),
        Event::QueryMismatch => Some(stopped(Verdict::Broken(RunError::NonceUnavailable))),
        _ => None,
    }
}

/// The step of a removal that waits for the transaction's status. The time allowed is looked
/// at first, whatever the node said.
pub open spec fn after_poll(policy: Policy, elapsed_secs: u64, status: PollStatus) -> (
    Phase,
    Action,
) {
    if elapsed_secs > policy.poll_budget_secs {
        stopped(Verdict::Settled(Outcome::TimedOut))
    } else {
        match status {
            PollStatus::SuccessValue(value) => if value@ == refusal_value() {
                stopped(Verdict::Settled(Outcome::RefusedOnChain))
            } else {
                (Phase::Purging(Outcome::Removed), Action::DeleteCredential)
            },
            PollStatus::Failure => (
                Phase::ConfirmingContinue(Failure::ChainExecution),
                Action::Ask(Prompt::ContinueAfterFailure),
            ),
            PollStatus::Pending => (Phase::Polling, Action::Poll { after_secs: 0 }),
            PollStatus::Transient => (
                Phase::Polling,
                Action::Poll { after_secs: policy.retry_delay_secs },
            ),
            PollStatus::Unclassified => (
                Phase::ConfirmingContinue(Failure::UnclassifiedRpc),
                Action::Ask(Prompt::ContinueAfterUnhandled),
            ),
        }
    }
}

/// The end of a removal: the phase that holds the verdict, and the action that hands it on.
pub open spec fn stopped(verdict: Verdict) -> (Phase, Action) {
    (Phase::Done(verdict), Action::Stop(verdict))
}

/// The protocol of one removal: the phase and the action that follow when `event` arrives in
/// `phase`, or `None` where the phase does not wait for such an event.
pub open spec fn transition(policy: Policy, phase: Phase, event: Event) -> Option<(Phase, Action)> {
    match phase {
        Phase::QueryingKey => after_query(event),
        Phase::ConfirmingPurge => match event {
            Event::Answered(true) => Some(
                (Phase::Purging(Outcome::LocalKeyMissingRemotely), Action::DeleteCredential),
            ),
            Event::Answered(false) => Some(
                stopped(Verdict::Settled(Outcome::LocalKeyMissingRemotely)),
            ),
            _ => None,
        },
        Phase::ConfirmingContinue(failure) => match event {
            Event::Answered(true) => Some(stopped(Verdict::Settled(Outcome::Failed(failure)))),
            Event::Answered(false) => Some(stopped(Verdict::Aborted)),
            _ => None,
        },
        Phase::Signing { .. } => match event {
            Event::Signed => Some((Phase::Broadcasting, Action::Broadcast)),
            _ => None,
        },
        Phase::Broadcasting => match event {
            Event::Submitted => Some((Phase::Polling, Action::Poll { after_secs: 0 })),
            Event::SubmissionFailed => Some(stopped(Verdict::Broken(RunError::BroadcastFailed))),
            _ => None,
        },
        Phase::Polling => match event {
            Event::Polled { elapsed_secs, status } => Some(
                after_poll(policy, elapsed_secs, status),
            ),
            _ => None,
        },
        Phase::Purging(outcome) => match event {
            Event::Purged(_) => Some(stopped(Verdict::Settled(outcome))),
            _ => None,
        },
        Phase::Done(_) => None,
    }
}

/// Whether `value` is the text `false`.
pub fn is_refusal(value: &Vec<u8>) -> (refusal: bool)
    ensures
        refusal == (value@ == refusal_value()),
{
    let refusal = value.len() == 5 && value[0] == 102 && value[1] == 97 && value[2] == 108
        && value[3] == 115 && value[4] == 101;
    proof {
        if refusal {
            assert(value@ =~= refusal_value());
        } else if value.len() == 5 {
            assert(refusal_value()[0] == 102 && refusal_value()[1] == 97 && refusal_value()[2]
                == 108 && refusal_value()[3] == 115 && refusal_value()[4] == 101);
        } else {
            assert(refusal_value().len() == 5);
        }
    }
    refusal
}

/// The removal of one account: what is to be removed, and where the protocol stands.
#[derive(Debug)]
pub struct Removal {
    request: DeletionRequest,
    policy: Policy,
    phase: Phase,
}

impl Removal {
    /// The request that this removal serves.
    pub closed spec fn spec_request(&self) -> DeletionRequest {
        self.request
    }

    /// How patient this removal is with the node.
    pub closed spec fn spec_policy(&self) -> Policy {
        self.policy
    }

    /// Where this removal stands.
    pub closed spec fn spec_phase(&self) -> Phase {
        self.phase
    }

    /// How patient this removal is with the node.
    pub fn policy(&self) -> (policy: Policy)
        ensures
            policy == self.spec_policy(),
    {
        self.policy
    }

    /// The request that this removal serves.
    pub fn request(&self) -> (request: &DeletionRequest)
        ensures
            *request == self.spec_request(),
    {
        &self.request
    }

    /// Where this removal stands.
    pub fn phase(&self) -> (phase: Phase)
        ensures
            phase == self.spec_phase(),
    {
        self.phase
    }

    /// The verdict, once the removal is over.
    pub fn verdict(&self) -> (verdict: Option<Verdict>)
        ensures
            verdict == match self.spec_phase() {
                Phase::Done(verdict) => Some(verdict),
                _ => None,
            },
    {
        match self.phase {
            Phase::Done(verdict) => Some(verdict),
            _ => None,
        }
    }

    /// The envelope to sign: there is one while the removal is signing, with the nonce and the
    /// block of that phase.
    pub fn envelope(&self) -> (envelope: Option<TransactionEnvelope>)
        ensures
            match self.spec_phase() {
                Phase::Signing { nonce, block_hash } => envelope matches Some(e) && e@
                    == deletion_envelope(self.spec_request(), nonce, block_hash@),
                _ => envelope is None,
            },
    {
        match self.phase {
            Phase::Signing { nonce, block_hash } => Some(
                TransactionEnvelope::delete_account(&self.request, nonce, block_hash),
            ),
            _ => None,
        }
    }

    /// Takes the removal one step on: the event that answers the last action moves it to the
    /// next phase and gives the next action. An event that the phase does not wait for changes
    /// nothing and gives `None`.
    pub fn step(&mut self, event: &Event) -> (action: Option<Action>)
        ensures
            final(self).spec_request() == old(self).spec_request(),
            final(self).spec_policy() == old(self).spec_policy(),
            match transition(old(self).spec_policy(), old(self).spec_phase(), *event) {
                Some((phase, next)) => final(self).spec_phase() == phase && action == Some(next),
                None => final(self).spec_phase() == old(self).spec_phase() && action is None,
            },
    {
        match RpcClient::step(&self.policy, self.phase, event) {
            Some((phase, action)) => {
                self.phase = phase;
                Some(action)
            },
            None => None,
        }
    }
}

/// The client's side of the protocol that removes an account.
#[derive(Debug)]
pub struct RpcClient {}

impl RpcClient {
    /// The address of the node for `network`.
    pub open spec fn endpoint_of(network: Network) -> Seq<char> {
        "https://rpc."@ + network.name() + ".near.org"@
    }

    /// The address of the node for `network`.
    pub fn endpoint(network: &Network) -> (url: String)
        ensures
            url@ == RpcClient::endpoint_of(*network),
    {
        let mut url = String::from_str("https://rpc.");
        url.append(network.to_string().as_str());
        url.append(".near.org");
        url
    }

    /// Begins the removal of the account of `request` under `policy`: the removal waits for
    /// the access key, and the first thing to do is to ask for it.
    pub fn remove_account(request: DeletionRequest, policy: Policy) -> (begun: (Removal, Action))
        ensures
            begun.0.spec_request() == request,
            begun.0.spec_policy() == policy,
            begun.0.spec_phase() == Phase::QueryingKey,
            begun.1 == Action::QueryAccessKey,
    {
        (Removal { request, policy, phase: Phase::QueryingKey }, Action::QueryAccessKey)
    }

    /// The verdict that ends a removal, as a phase and an action.
    fn stop(verdict: Verdict) -> (end: (Phase, Action))
        ensures
            end == stopped(verdict),
    {
        (Phase::Done(verdict), Action::Stop(verdict))
    }

    /// What follows the answer to the query for the access key.
    fn on_query(event: &Event) -> (next: Option<(Phase, Action)>)
        ensures
            next == after_query(*event),
    {
        match event {
            Event::KeyFound { nonce, block_hash } => {
                if *nonce < u64::MAX {
                    Some((Phase::Signing { nonce: *nonce + 1, block_hash: *block_hash }, Action::Sign))
                } else {
                    Some(RpcClient::stop(Verdict::Broken(RunError::NonceExhausted)))
                }
            },
            Event::KeyUnknown => Some((Phase::ConfirmingPurge, Action::Ask(Prompt::PurgeLocalKey))),
            Event::QueryFailed => Some(
                (
                    Phase::ConfirmingContinue(Failure::UnclassifiedRpc),
                    Action::Ask(Prompt::ContinueAfterUnhandled),
                ),
            ),
            Event::QueryMismatch => Some(RpcClient::stop(Verdict::Broken(RunError::NonceUnavailable))),
            _ => None,
        }
    }

    /// What follows an answer of the node on the transaction's status.
    pub fn on_poll(policy: &Policy, elapsed_secs: u64, status: &PollStatus) -> (next: (
        Phase,
        Action,
    ))
        ensures
            next == after_poll(*policy, elapsed_secs, *status),
    {
        if elapsed_secs > policy.poll_budget_secs {
            return RpcClient::stop(Verdict::Settled(Outcome::TimedOut));
        }
        match status {
            PollStatus::SuccessValue(value) => {
                if is_refusal(value) {
                    RpcClient::stop(Verdict::Settled(Outcome::RefusedOnChain))
                } else {
                    (Phase::Purging(Outcome::Removed), Action::DeleteCredential)
                }
            },
            PollStatus::Failure => (
                Phase::ConfirmingContinue(Failure::ChainExecution),
                Action::Ask(Prompt::ContinueAfterFailure),
            ),
            PollStatus::Pending => (Phase::Polling, Action::Poll { after_secs: 0 }),
            PollStatus::Transient => (
                Phase::Polling,
                Action::Poll { after_secs: policy.retry_delay_secs },
            ),
            PollStatus::Unclassified => (
                Phase::ConfirmingContinue(Failure::UnclassifiedRpc),
                Action::Ask(Prompt::ContinueAfterUnhandled),
            ),
        }
    }

    /// The protocol of one removal, one step: the phase and the action that follow when `event`
    /// arrives in `phase`, or `None` where the phase does not wait for such an event.
    pub fn step(policy: &Policy, phase: Phase, event: &Event) -> (next: Option<(Phase, Action)>)
        ensures
            next == transition(*policy, phase, *event),
    {
        match phase {
            Phase::QueryingKey => RpcClient::on_query(event),
            Phase::ConfirmingPurge => match event {
                Event::Answered(true) => Some(
                    (Phase::Purging(Outcome::LocalKeyMissingRemotely), Action::DeleteCredential),
                ),
                Event::Answered(false) => Some(
                    RpcClient::stop(Verdict::Settled(Outcome::LocalKeyMissingRemotely)),
                ),
                _ => None,
            },
            Phase::ConfirmingContinue(failure) => match event {
                Event::Answered(true) => Some(
                    RpcClient::stop(Verdict::Settled(Outcome::Failed(failure))),
                ),
                Event::Answered(false) => Some(RpcClient::stop(Verdict::Aborted)),
                _ => None,
            },
            Phase::Signing { .. } => match event {
                Event::Signed => Some((Phase::Broadcasting, Action::Broadcast)),
                _ => None,
            },
            Phase::Broadcasting => match event {
                Event::Submitted => Some((Phase::Polling, Action::Poll { after_secs: 0 })),
                Event::SubmissionFailed => Some(
                    RpcClient::stop(Verdict::Broken(RunError::BroadcastFailed)),
                ),
                _ => None,
            },
            Phase::Polling => match event {
                Event::Polled { elapsed_secs, status } => Some(
                    RpcClient::on_poll(policy, *elapsed_secs, status),
                ),
                _ => None,
            },
            Phase::Purging(outcome) => match event {
                Event::Purged(_) => Some(RpcClient::stop(Verdict::Settled(outcome))),
                _ => None,
            },
            Phase::Done(_) => None,
        }
    }
}

/// Where a removal stands after `events` arrived one by one, starting in `phase`, and the
/// actions that it gave on the way; `None` where one of the events did not fit.
pub open spec fn trace(policy: Policy, phase: Phase, events: Seq<Event>) -> Option<(Phase, Seq<Action>)>
    decreases events.len(),
{
    if events.len() == 0 {
        Some((phase, Seq::empty()))
    } else {
        match trace(policy, phase, events.drop_last()) {
            Some((before, actions)) => match transition(policy, before, events.last()) {
                Some((next, action)) => Some((next, actions.push(action))),
                None => None,
            },
            None => None,
        }
    }
}

/// Whether `event` is an answer of the node within the time allowed that says that the node
/// does not know the transaction yet.
pub open spec fn is_transient_poll(policy: Policy, event: Event) -> bool {
    event matches Event::Polled { elapsed_secs, status: PollStatus::Transient } && elapsed_secs
        <= policy.poll_budget_secs
}

/// Whether `event` confirms what has to be known before the local key may go: the operator's
/// yes after the chain did not know the key, or, in time, a final value of the transaction that
/// is not the refusal.
pub open spec fn confirms_removal(policy: Policy, phase: Phase, event: Event) -> bool {
    ||| phase == Phase::ConfirmingPurge && event == Event::Answered(true)
    ||| phase == Phase::Polling && (event matches Event::Polled {
        elapsed_secs,
        status: PollStatus::SuccessValue(value),
    } && elapsed_secs <= policy.poll_budget_secs && value@ != refusal_value())
}

/// The local key is deleted on confirmation and never else: a step asks for the deletion
/// exactly when its event confirms the removal, and the outcome that the deletion leads to is
/// `Removed` or `LocalKeyMissingRemotely`.
pub proof fn law_deletion_needs_confirmation(policy: Policy, phase: Phase, event: Event)
    ensures
        (transition(policy, phase, event) matches Some((_, action)) && action == Action::DeleteCredential)
            <==> confirms_removal(policy, phase, event),
        transition(policy, phase, event) matches Some((Phase::Purging(outcome), _)) ==> outcome
            == Outcome::Removed || outcome == Outcome::LocalKeyMissingRemotely,
        transition(policy, phase, event) matches Some((next, _)) ==> (next is Purging
            <==> confirms_removal(policy, phase, event)),
{
}

/// When the chain does not know the key, the operator decides: on yes the local key is
/// deleted, on no it is not touched, and either way the removal settles as
/// `LocalKeyMissingRemotely`, whether or not the deletion worked.
pub proof fn law_unknown_key_asks_operator(policy: Policy, approved: bool, purged: bool)
    ensures
        transition(policy, Phase::QueryingKey, Event::KeyUnknown) == Some(
            (Phase::ConfirmingPurge, Action::Ask(Prompt::PurgeLocalKey)),
        ),
        approved ==> trace(
            policy,
            Phase::QueryingKey,
            seq![Event::KeyUnknown, Event::Answered(true), Event::Purged(purged)],
        ) == Some(
            (
                Phase::Done(Verdict::Settled(Outcome::LocalKeyMissingRemotely)),
                seq![
                    Action::Ask(Prompt::PurgeLocalKey),
                    Action::DeleteCredential,
                    Action::Stop(Verdict::Settled(Outcome::LocalKeyMissingRemotely)),
                ],
            ),
        ),
        !approved ==> trace(policy, Phase::QueryingKey, seq![Event::KeyUnknown, Event::Answered(false)])
            == Some(
            (
                Phase::Done(Verdict::Settled(Outcome::LocalKeyMissingRemotely)),
                seq![
                    Action::Ask(Prompt::PurgeLocalKey),
                    Action::Stop(Verdict::Settled(Outcome::LocalKeyMissingRemotely)),
                ],
            ),
        ),
{
    let yes = seq![Event::KeyUnknown, Event::Answered(true), Event::Purged(purged)];
    let no = seq![Event::KeyUnknown, Event::Answered(false)];
    let first = seq![Event::KeyUnknown];
    assert(first.drop_last() =~= Seq::<Event>::empty());
    assert(trace(policy, Phase::QueryingKey, first.drop_last()) == Some(
        (Phase::QueryingKey, Seq::<Action>::empty()),
    ));
    assert(trace(policy, Phase::QueryingKey, first) == Some(
        (Phase::ConfirmingPurge, Seq::<Action>::empty().push(Action::Ask(Prompt::PurgeLocalKey))),
    ));
    assert(no.drop_last() =~= first);
    assert(trace(policy, Phase::QueryingKey, no) matches Some((phase, actions)) && phase == Phase::Done(
        Verdict::Settled(Outcome::LocalKeyMissingRemotely),
    ) && actions =~= seq![
        Action::Ask(Prompt::PurgeLocalKey),
        Action::Stop(Verdict::Settled(Outcome::LocalKeyMissingRemotely)),
    ]);
    let second = seq![Event::KeyUnknown, Event::Answered(true)];
    assert(second.drop_last() =~= first);
    assert(trace(policy, Phase::QueryingKey, second) matches Some((phase, actions)) && phase
        == Phase::Purging(Outcome::LocalKeyMissingRemotely) && actions =~= seq![
        Action::Ask(Prompt::PurgeLocalKey),
        Action::DeleteCredential,
    ]);
    assert(yes.drop_last() =~= second);
    assert(trace(policy, Phase::QueryingKey, yes) matches Some((phase, actions)) && phase == Phase::Done(
        Verdict::Settled(Outcome::LocalKeyMissingRemotely),
    ) && actions =~= seq![
        Action::Ask(Prompt::PurgeLocalKey),
        Action::DeleteCredential,
        Action::Stop(Verdict::Settled(Outcome::LocalKeyMissingRemotely)),
    ]);
}

/// A final value `false` that arrives in time settles the removal as `RefusedOnChain` at
/// once: nothing asks for the local key to be deleted.
pub proof fn law_refusal_keeps_key(policy: Policy, elapsed_secs: u64, value: Vec<u8>)
    requires
        elapsed_secs <= policy.poll_budget_secs,
        value@ == refusal_value(),
    ensures
        transition(
            policy,
            Phase::Polling,
            Event::Polled { elapsed_secs, status: PollStatus::SuccessValue(value) },
        ) == Some(stopped(Verdict::Settled(Outcome::RefusedOnChain))),
{
}

/// Any other final value that arrives in time asks for the local key to be deleted, and the
/// removal settles as `Removed` whether or not that deletion worked.
pub proof fn law_success_removes_key(
    policy: Policy,
    elapsed_secs: u64,
    value: Vec<u8>,
    purged: bool,
)
    requires
        elapsed_secs <= policy.poll_budget_secs,
        value@ != refusal_value(),
    ensures
        transition(
            policy,
            Phase::Polling,
            Event::Polled { elapsed_secs, status: PollStatus::SuccessValue(value) },
        ) == Some((Phase::Purging(Outcome::Removed), Action::DeleteCredential)),
        transition(policy, Phase::Purging(Outcome::Removed), Event::Purged(purged)) == Some(
            stopped(Verdict::Settled(Outcome::Removed)),
        ),
{
}

/// As long as the node answers in time that it does not know the transaction yet, the removal
/// keeps polling, and before each new request it waits the retry delay: two seconds under the
/// standard policy.
pub proof fn law_transient_answers_are_retried(policy: Policy, events: Seq<Event>)
    requires
        forall|i: int| 0 <= i < events.len() ==> is_transient_poll(policy, #[trigger] events[i]),
    ensures
        trace(policy, Phase::Polling, events) == Some(
            (
                Phase::Polling,
                Seq::new(events.len(), |i: int| Action::Poll { after_secs: policy.retry_delay_secs }),
            ),
        ),
    decreases events.len(),
{
    let waits = Seq::new(events.len(), |i: int| Action::Poll { after_secs: policy.retry_delay_secs });
    if events.len() == 0 {
        assert(waits =~= Seq::<Action>::empty());
    } else {
        let earlier = events.drop_last();
        assert forall|i: int| 0 <= i < earlier.len() implies is_transient_poll(
            policy,
            #[trigger] earlier[i],
        ) by {
            assert(earlier[i] == events[i]);
        }
        law_transient_answers_are_retried(policy, earlier);
        assert(is_transient_poll(policy, events[events.len() - 1]));
        let before = Seq::new(earlier.len(), |i: int| Action::Poll { after_secs: policy.retry_delay_secs });
        assert(before.push(Action::Poll { after_secs: policy.retry_delay_secs }) =~= waits);
    }
}

/// Once more than the time allowed has passed since the broadcast, sixty seconds under the
/// standard policy, any answer of the node settles the removal as `TimedOut`, whatever the
/// answer says.
pub proof fn law_budget_ends_polling(policy: Policy, elapsed_secs: u64, status: PollStatus)
    requires
        elapsed_secs > policy.poll_budget_secs,
    ensures
        transition(policy, Phase::Polling, Event::Polled { elapsed_secs, status }) == Some(
            stopped(Verdict::Settled(Outcome::TimedOut)),
        ),
{
}

} // verus!
