use crate::account::{in_network, Identifier};
use crate::network::Network;
use crate::rpc_client::{Outcome, RunError, Verdict};
use crate::selector::{select, selection, texts, views, Candidate, MasterFilter};
use crate::store::NEAR_CREDENTIALS_DIR;
use vstd::prelude::*;

verus! {

/// The directory that holds the keys of `network` below the home directory `home`.
pub open spec fn working_dir_of(home: Seq<char>, network: Network) -> Seq<char> {
    home + "/"@ + NEAR_CREDENTIALS_DIR@ + "/"@ + network.name() + "/"@
}

/// What a run needs to know before it starts, gathered piece by piece.
#[derive(Debug)]
pub struct ProgramBuilder {
    pub network: Option<Network>,
    pub working_dir: Option<String>,
    pub beneficiary_account_id: Option<Identifier>,
    pub master_account_id: Option<MasterFilter>,
}

/// A run that is ready to start.
#[derive(Debug)]
pub struct Program {
    network: Network,
    working_dir: String,
    beneficiary_account_id: Identifier,
    master_account_id: Option<MasterFilter>,
}

impl ProgramBuilder {
    /// A builder that knows nothing yet.
    pub fn new() -> (builder: Self)
        ensures
            builder.network is None,
            builder.working_dir is None,
            builder.beneficiary_account_id is None,
            builder.master_account_id is None,
    {
        Self {
            network: None,
            working_dir: None,
            beneficiary_account_id: None,
            master_account_id: None,
        }
    }

    /// Takes the network that the operator picked from the menu of two.
    pub fn set_network(self, choice: usize) -> (builder: Self)
        requires
            choice <= 1,
        ensures
            builder.network == Some(Network::at(choice as int)),
            builder.working_dir == self.working_dir,
            builder.beneficiary_account_id == self.beneficiary_account_id,
            builder.master_account_id == self.master_account_id,
    {
        Self {
            network: Some(Network::from(choice)),
            working_dir: self.working_dir,
            beneficiary_account_id: self.beneficiary_account_id,
            master_account_id: self.master_account_id,
        }
    }

    /// Takes the account that receives what the removed accounts still hold. The network comes
    /// first, and the account is one of that network.
    pub fn set_benefit_account(self, account: Identifier) -> (builder: Self)
        requires
            self.network matches Some(network) && in_network(account@, network),
        ensures
            builder.beneficiary_account_id == Some(account),
            builder.network == self.network,
            builder.working_dir == self.working_dir,
            builder.master_account_id == self.master_account_id,
    {
        Self {
            network: self.network,
            working_dir: self.working_dir,
            beneficiary_account_id: Some(account),
            master_account_id: self.master_account_id,
        }
    }

    /// Takes the filter on the accounts to offer. The network and the beneficiary come first,
    /// and a master account is one of that network.
    pub fn set_master_account(self, master: MasterFilter) -> (builder: Self)
        requires
            self.network is Some,
            self.beneficiary_account_id is Some,
            master matches MasterFilter::Account(account) ==> in_network(
                account@,
                self.network->Some_0,
            ),
        ensures
            builder.master_account_id == Some(master),
            builder.network == self.network,
            builder.working_dir == self.working_dir,
            builder.beneficiary_account_id == self.beneficiary_account_id,
    {
        Self {
            network: self.network,
            working_dir: self.working_dir,
            beneficiary_account_id: self.beneficiary_account_id,
            master_account_id: Some(master),
        }
    }

    /// Works out where the keys of the network are stored below the home directory `home`.
    /// The network comes first.
    pub fn set_working_dir(self, home: &str) -> (builder: Self)
        requires
            self.network is Some,
        ensures
            builder.working_dir matches Some(dir) && dir@ == working_dir_of(
                home@,
                self.network->Some_0,
            ),
            builder.network == self.network,
            builder.beneficiary_account_id == self.beneficiary_account_id,
            builder.master_account_id == self.master_account_id,
    {
        let network = match self.network {
            Some(network) => network,
            None => Network::Mainnet,
        };
        let mut dir = String::from_str(home);
        dir.append("/");
        dir.append(NEAR_CREDENTIALS_DIR);
        dir.append("/");
        dir.append(network.to_string().as_str());
        dir.append("/");
        Self {
            network: self.network,
            working_dir: Some(dir),
            beneficiary_account_id: self.beneficiary_account_id,
            master_account_id: self.master_account_id,
        }
    }

    /// The run that was described. All but the filter has to be there.
    pub fn build(self) -> (program: Program)
        requires
            self.network is Some,
            self.working_dir is Some,
            self.beneficiary_account_id is Some,
        ensures
            program.spec_network() == self.network->Some_0,
            program.spec_working_dir() == self.working_dir->Some_0@,
            program.spec_beneficiary() == self.beneficiary_account_id->Some_0@,
            program.spec_master() == self.master_account_id,
    {
        Program {
            network: self.network.unwrap(),
            working_dir: self.working_dir.unwrap(),
            beneficiary_account_id: self.beneficiary_account_id.unwrap(),
            master_account_id: self.master_account_id,
        }
    }
}

/// How a run ended.
#[derive(Debug, Clone, Copy, PartialEq, Eq, Structural)]
pub enum RunEnd {
    /// Every candidate was dealt with.
    Completed,
    /// The operator declined to go on after an error.
    Aborted,
    /// A condition that no candidate can recover from.
    Failed(RunError),
}

impl RunEnd {
    /// The exit code of a run that ended so: zero unless the run failed.
    pub fn exit_code(&self) -> (code: i32)
        ensures
            code == 0 <==> !(*self is Failed),
            code == 0 || code == 1,
    {
        match self {
            RunEnd::Completed => 0,
            RunEnd::Aborted => 0,
            RunEnd::Failed(_) => 1,
        }
    }
}

/// Whether the operator wants to see the accounts that the filter leaves out.
#[derive(Debug, Clone, Copy, PartialEq, Eq, Structural)]
pub enum Disclosure {
    /// Not asked yet.
    Unasked,
    /// Asked, and the answer was yes.
    Shown,
    /// Asked, and the answer was no.
    Hidden,
}

/// What a run waits for.
#[derive(Debug, Clone, Copy, PartialEq, Eq, Structural)]
pub enum RunStage {
    /// The answer to whether the accounts left out are shown.
    AskingDisclosure,
    /// The word that the account left out was shown.
    Announcing,
    /// The answer to whether the account is to be removed.
    AskingRemoval,
    /// The verdict of the removal.
    Removing,
    /// Nothing: the run is over.
    Ended(RunEnd),
}

/// Where a run stands: the candidate that it is at, what it knows of the operator's wish to
/// see the accounts left out, and what it waits for.
#[derive(Debug, Clone, Copy, PartialEq, Eq, Structural)]
pub struct Cursor {
    pub position: usize,
    pub disclosure: Disclosure,
    pub stage: RunStage,
}

impl Cursor {
    /// Whether the cursor stands where a run over candidates with these marks can stand: a
    /// question about the accounts left out is open only while the answer is unknown, and only
    /// at such an account; an account is shown as left out only when the operator wants that;
    /// and only an included account is offered for removal or removed.
    pub open spec fn fits(self, included: Seq<bool>) -> bool {
        match self.stage {
            RunStage::AskingDisclosure => self.disclosure == Disclosure::Unasked && self.position
                < included.len() && !included[self.position as int],
            RunStage::Announcing => self.disclosure == Disclosure::Shown && self.position
                < included.len() && !included[self.position as int],
            RunStage::AskingRemoval => self.position < included.len()
                && included[self.position as int],
            RunStage::Removing => self.position < included.len() && included[self.position as int],
            RunStage::Ended(_) => true,
        }
    }
}

/// What to do next in a run. The number is the candidate's place.
#[derive(Debug, Clone, Copy, PartialEq, Eq, Structural)]
pub enum RunAction {
    /// Ask whether the accounts that the filter leaves out are shown; "no" is offered.
    AskShowSkipped,
    /// Say that this account is left out.
    Announce(usize),
    /// Ask whether this account is to be removed; "no" is offered.
    AskRemoval(usize),
    /// Remove this account.
    Remove(usize),
    /// Stop.
    Exit(RunEnd),
}

/// What happened since the last action of a run.
#[derive(Debug, Clone, Copy, PartialEq, Eq, Structural)]
pub enum RunEvent {
    /// The operator answered.
    Answered(bool),
    /// The account left out was shown.
    Announced,
    /// The removal ended with this verdict.
    Concluded(Verdict),
}

/// The end of a run as a cursor and an action.
pub open spec fn ended(position: usize, disclosure: Disclosure, end: RunEnd) -> (Cursor, RunAction) {
    (Cursor { position, disclosure, stage: RunStage::Ended(end) }, RunAction::Exit(end))
}

/// What a run does when it comes to the candidate at `position`: an included one is offered
/// for removal; one left out leads to the question whether such accounts are shown where that
/// was never asked, is shown where the answer was yes, and is passed over in silence where the
/// answer was no. After the last candidate the run is complete.
pub open spec fn arrive(included: Seq<bool>, position: usize, disclosure: Disclosure) -> (
    Cursor,
    RunAction,
)
    decreases included.len() - position,
{
    if position >= included.len() || position == usize::MAX {
        ended(position, disclosure, RunEnd::Completed)
    } else if included[position as int] {
        (
            Cursor { position, disclosure, stage: RunStage::AskingRemoval },
            RunAction::AskRemoval(position),
        )
    } else {
        match disclosure {
            Disclosure::Unasked => (
                Cursor { position, disclosure, stage: RunStage::AskingDisclosure },
                RunAction::AskShowSkipped,
            ),
            Disclosure::Shown => (
                Cursor { position, disclosure, stage: RunStage::Announcing },
                RunAction::Announce(position),
            ),
            Disclosure::Hidden => arrive(included, (position + 1) as usize, disclosure),
        }
    }
}

/// What a run does after the candidate at `position`.
pub open spec fn leave(included: Seq<bool>, position: usize, disclosure: Disclosure) -> (
    Cursor,
    RunAction,
) {
    if position >= included.len() || position == usize::MAX {
        ended(position, disclosure, RunEnd::Completed)
    } else {
        arrive(included, (position + 1) as usize, disclosure)
    }
}

/// What the verdict of a removal means for the run: an outcome lets it go on, but for the
/// time limit, which ends it as a failure; the operator's refusal aborts it; what is broken
/// ends it as a failure.
pub open spec fn ending_of(verdict: Verdict) -> Option<RunEnd> {
    match verdict {
        Verdict::Settled(Outcome::TimedOut) => Some(RunEnd::Failed(RunError::TimeLimitExceeded)),
        Verdict::Settled(_) => None,
        Verdict::Aborted => Some(RunEnd::Aborted),
        Verdict::Broken(error) => Some(RunEnd::Failed(error)),
    }
}

/// The course of a run, one step: the cursor and the action that follow when `event` arrives
/// at `cursor`, or `None` where the run does not wait for such an event.
pub open spec fn run_transition(included: Seq<bool>, cursor: Cursor, event: RunEvent) -> Option<
    (Cursor, RunAction),
> {
    match (cursor.stage, event) {
        (RunStage::AskingDisclosure, RunEvent::Answered(yes)) => Some(
            arrive(
                included,
                cursor.position,
                if yes {
                    Disclosure::Shown
                } else {
                    Disclosure::Hidden
                },
            ),
        ),
        (RunStage::Announcing, RunEvent::Announced) => Some(
            leave(included, cursor.position, cursor.disclosure),
        ),
        (RunStage::AskingRemoval, RunEvent::Answered(true)) => Some(
            (
                Cursor {
                    position: cursor.position,
                    disclosure: cursor.disclosure,
                    stage: RunStage::Removing,
                },
                RunAction::Remove(cursor.position),
            ),
        ),
        (RunStage::AskingRemoval, RunEvent::Answered(false)) => Some(
            leave(included, cursor.position, cursor.disclosure),
        ),
        (RunStage::Removing, RunEvent::Concluded(verdict)) => match ending_of(verdict) {
            Some(end) => Some(ended(cursor.position, cursor.disclosure, end)),
            None => Some(leave(included, cursor.position, cursor.disclosure)),
        },
        _ => None,
    }
}

/// The marks of `candidates`, in order.
pub open spec fn marks(candidates: Seq<Candidate>) -> Seq<bool> {
    candidates.map_values(|candidate: Candidate| candidate.included)
}

/// A run over the candidates of one store.
#[derive(Debug)]
pub struct Run {
    candidates: Vec<Candidate>,
    cursor: Cursor,
}

impl Run {
    #[verifier::type_invariant]
    closed spec fn valid(self) -> bool {
        self.cursor.fits(marks(self.candidates@))
    }

    /// The candidates of this run.
    pub closed spec fn spec_candidates(&self) -> Seq<Candidate> {
        self.candidates@
    }

    /// Where this run stands.
    pub closed spec fn spec_cursor(&self) -> Cursor {
        self.cursor
    }

    /// The candidates of this run.
    pub fn candidates(&self) -> (candidates: &Vec<Candidate>)
        ensures
            candidates@ == self.spec_candidates(),
    {
        &self.candidates
    }

    /// Where this run stands.
    pub fn cursor(&self) -> (cursor: Cursor)
        ensures
            cursor == self.spec_cursor(),
            cursor.fits(marks(self.spec_candidates())),
    {
        proof {
            use_type_invariant(self);
        }
        self.cursor
    }

    /// What the run does when it comes to the candidate at `position`.
    fn arrive_at(candidates: &Vec<Candidate>, position: usize, disclosure: Disclosure) -> (next: (
        Cursor,
        RunAction,
    ))
        ensures
            next == arrive(marks(candidates@), position, disclosure),
    {
        let mut at: usize = position;
        while at < candidates.len() && !candidates[at].included && disclosure == Disclosure::Hidden
            invariant
                arrive(marks(candidates@), at, disclosure) == arrive(
                    marks(candidates@),
                    position,
                    disclosure,
                ),
            decreases candidates.len() - at,
        {
            at += 1;
        }
        if at >= candidates.len() {
            (
                Cursor { position: at, disclosure, stage: RunStage::Ended(RunEnd::Completed) },
                RunAction::Exit(RunEnd::Completed),
            )
        } else if candidates[at].included {
            (Cursor { position: at, disclosure, stage: RunStage::AskingRemoval }, RunAction::AskRemoval(at))
        } else {
            match disclosure {
                Disclosure::Unasked => (
                    Cursor { position: at, disclosure, stage: RunStage::AskingDisclosure },
                    RunAction::AskShowSkipped,
                ),
                _ => (
                    Cursor { position: at, disclosure, stage: RunStage::Announcing },
                    RunAction::Announce(at),
                ),
            }
        }
    }

    /// What the run does after the candidate at `position`.
    fn leave_from(candidates: &Vec<Candidate>, position: usize, disclosure: Disclosure) -> (next: (
        Cursor,
        RunAction,
    ))
        ensures
            next == leave(marks(candidates@), position, disclosure),
    {
        if position >= candidates.len() {
            (
                Cursor { position, disclosure, stage: RunStage::Ended(RunEnd::Completed) },
                RunAction::Exit(RunEnd::Completed),
            )
        } else {
            Run::arrive_at(candidates, position + 1, disclosure)
        }
    }

    /// Starts a run over `candidates`: nothing was asked yet, and the first thing to do is what
    /// the first candidate calls for.
    pub fn start(candidates: Vec<Candidate>) -> (begun: (Run, RunAction))
        ensures
            begun.0.spec_candidates() == candidates@,
            (begun.0.spec_cursor(), begun.1) == arrive(
                marks(candidates@),
                0,
                Disclosure::Unasked,
            ),
    {
        let (cursor, action) = Run::arrive_at(&candidates, 0, Disclosure::Unasked);
        proof {
            lemma_arrive(marks(candidates@), 0, Disclosure::Unasked);
        }
        (Run { candidates, cursor }, action)
    }

    /// What the verdict of a removal means for the run.
    pub fn ending(verdict: Verdict) -> (end: Option<RunEnd>)
        ensures
            end == ending_of(verdict),
    {
        match verdict {
            Verdict::Settled(Outcome::TimedOut) => Some(
                RunEnd::Failed(RunError::TimeLimitExceeded),
            ),
            Verdict::Settled(_) => None,
            Verdict::Aborted => Some(RunEnd::Aborted),
            Verdict::Broken(error) => Some(RunEnd::Failed(error)),
        }
    }

    /// Takes the run one step on: the event that answers the last action moves the cursor and
    /// gives the next action. An event that the run does not wait for changes nothing and gives
    /// `None`.
    pub fn step(&mut self, event: RunEvent) -> (action: Option<RunAction>)
        ensures
            final(self).spec_candidates() == old(self).spec_candidates(),
            match run_transition(marks(old(self).spec_candidates()), old(self).spec_cursor(), event) {
                Some((cursor, next)) => final(self).spec_cursor() == cursor && action == Some(next),
                None => final(self).spec_cursor() == old(self).spec_cursor() && action is None,
            },
    {
        proof {
            use_type_invariant(&*self);
            law_run_stays_on_course(marks(self.candidates@), self.cursor, event);
        }
        let position = self.cursor.position;
        let disclosure = self.cursor.disclosure;
        let next = match (self.cursor.stage, event) {
            (RunStage::AskingDisclosure, RunEvent::Answered(yes)) => Some(
                Run::arrive_at(
                    &self.candidates,
                    position,
                    if yes {
                        Disclosure::Shown
                    } else {
                        Disclosure::Hidden
                    },
                ),
            ),
            (RunStage::Announcing, RunEvent::Announced) => Some(
                Run::leave_from(&self.candidates, position, disclosure),
            ),
            (RunStage::AskingRemoval, RunEvent::Answered(true)) => Some(
                (
                    Cursor { position, disclosure, stage: RunStage::Removing },
                    RunAction::Remove(position),
                ),
            ),
            (RunStage::AskingRemoval, RunEvent::Answered(false)) => Some(
                Run::leave_from(&self.candidates, position, disclosure),
            ),
            (RunStage::Removing, RunEvent::Concluded(verdict)) => match Run::ending(verdict) {
                Some(end) => Some(
                    (
                        Cursor { position, disclosure, stage: RunStage::Ended(end) },
                        RunAction::Exit(end),
                    ),
                ),
                None => Some(Run::leave_from(&self.candidates, position, disclosure)),
            },
            _ => None,
        };
        match next {
            Some((cursor, action)) => {
                self.cursor = cursor;
                Some(action)
            },
            None => None,
        }
    }
}

impl Program {
    /// The network of the run.
    pub closed spec fn spec_network(&self) -> Network {
        self.network
    }

    /// The directory that holds the keys.
    pub closed spec fn spec_working_dir(&self) -> Seq<char> {
        self.working_dir@
    }

    /// The account that receives what the removed accounts still hold.
    pub closed spec fn spec_beneficiary(&self) -> Seq<char> {
        self.beneficiary_account_id@
    }

    /// The filter on the accounts to offer.
    pub closed spec fn spec_master(&self) -> Option<MasterFilter> {
        self.master_account_id
    }

    /// The network of the run.
    pub fn network(&self) -> (network: Network)
        ensures
            network == self.spec_network(),
    {
        self.network
    }

    /// The directory that holds the keys.
    pub fn working_dir(&self) -> (dir: &str)
        ensures
            dir@ == self.spec_working_dir(),
    {
        self.working_dir.as_str()
    }

    /// The account that receives what the removed accounts still hold.
    pub fn beneficiary(&self) -> (beneficiary: &Identifier)
        ensures
            beneficiary@ == self.spec_beneficiary(),
    {
        &self.beneficiary_account_id
    }

    /// The filter on the accounts to offer.
    pub fn master(&self) -> (master: &Option<MasterFilter>)
        ensures
            *master == self.spec_master(),
    {
        &self.master_account_id
    }

    /// Starts the run over the accounts whose keys are stored: the candidates are selected from
    /// `names`, and the first thing to do is what the first of them calls for.
    pub fn run(&self, names: &Vec<String>) -> (begun: (Run, RunAction))
        ensures
            views(begun.0.spec_candidates()) == selection(
                texts(names@),
                self.spec_beneficiary(),
                self.spec_master(),
            ),
            (begun.0.spec_cursor(), begun.1) == arrive(
                marks(begun.0.spec_candidates()),
                0,
                Disclosure::Unasked,
            ),
    {
        Run::start(select(names, &self.beneficiary_account_id, &self.master_account_id))
    }
}

/// What holds of the place where a run comes to rest: the wish to see the accounts left out
/// is as it was, and the action fits the candidate that the cursor is at.
pub proof fn lemma_arrive(included: Seq<bool>, position: usize, disclosure: Disclosure)
    ensures
        ({
            let (cursor, action) = arrive(included, position, disclosure);
            &&& cursor.disclosure == disclosure
            &&& cursor.position >= position
            &&& forall|i: int| position <= i < cursor.position && i < included.len() ==> !included[i]
            &&& match action {
                RunAction::AskShowSkipped => disclosure == Disclosure::Unasked && cursor.stage
                    == RunStage::AskingDisclosure && cursor.position < included.len()
                    && !included[cursor.position as int],
                RunAction::Announce(place) => disclosure == Disclosure::Shown && cursor.stage
                    == RunStage::Announcing && place == cursor.position && place < included.len()
                    && !included[place as int],
                RunAction::AskRemoval(place) => cursor.stage == RunStage::AskingRemoval && place
                    == cursor.position && place < included.len() && included[place as int],
                RunAction::Exit(end) => end == RunEnd::Completed && cursor.stage == RunStage::Ended(
                    end,
                ),
                RunAction::Remove(_) => false,
            }
        }),
    decreases included.len() - position,
{
    if position >= included.len() || position == usize::MAX {
    } else if included[position as int] {
    } else if disclosure == Disclosure::Hidden {
        lemma_arrive(included, (position + 1) as usize, disclosure);
    }
}

/// A step takes a run from a place where it can stand to a place where it can stand.
pub proof fn law_run_stays_on_course(included: Seq<bool>, cursor: Cursor, event: RunEvent)
    requires
        cursor.fits(included),
    ensures
        run_transition(included, cursor, event) matches Some((next, _)) ==> next.fits(included),
{
    match (cursor.stage, event) {
        (RunStage::AskingDisclosure, RunEvent::Answered(yes)) => {
            lemma_arrive(
                included,
                cursor.position,
                if yes {
                    Disclosure::Shown
                } else {
                    Disclosure::Hidden
                },
            );
        },
        _ => {
            if cursor.position < included.len() && cursor.position < usize::MAX {
                lemma_arrive(included, (cursor.position + 1) as usize, cursor.disclosure);
            }
        },
    }
}

/// The operator is asked at most once whether the accounts left out are shown, and only when
/// the run comes to such an account: once the answer is known it stays, and no step asks
/// again; and a step that asks stands at a candidate that is left out.
pub proof fn law_disclosure_asked_once(included: Seq<bool>, cursor: Cursor, event: RunEvent)
    requires
        cursor.fits(included),
    ensures
        run_transition(included, cursor, event) matches Some((next, action)) ==> {
            &&& cursor.disclosure != Disclosure::Unasked ==> next.disclosure == cursor.disclosure
                && action != RunAction::AskShowSkipped
            &&& action == RunAction::AskShowSkipped ==> next.disclosure == Disclosure::Unasked
                && next.position < included.len() && !included[next.position as int]
            &&& cursor.stage == RunStage::AskingDisclosure ==> next.disclosure
                != Disclosure::Unasked
        },
{
    match (cursor.stage, event) {
        (RunStage::AskingDisclosure, RunEvent::Answered(yes)) => {
            lemma_arrive(
                included,
                cursor.position,
                if yes {
                    Disclosure::Shown
                } else {
                    Disclosure::Hidden
                },
            );
        },
        _ => {
            if cursor.position < included.len() && cursor.position < usize::MAX {
                lemma_arrive(included, (cursor.position + 1) as usize, cursor.disclosure);
            }
        },
    }
}

/// An account is removed only on the operator's word: a step starts a removal exactly when the
/// run asked whether to remove the candidate it stands at and the answer is yes.
pub proof fn law_removal_needs_approval(included: Seq<bool>, cursor: Cursor, event: RunEvent)
    ensures
        (run_transition(included, cursor, event) matches Some((_, action)) && action is Remove)
            <==> cursor.stage == RunStage::AskingRemoval && event == RunEvent::Answered(true),
        cursor.stage == RunStage::AskingRemoval && event == RunEvent::Answered(true)
            ==> run_transition(included, cursor, event) == Some(
            (
                Cursor {
                    position: cursor.position,
                    disclosure: cursor.disclosure,
                    stage: RunStage::Removing,
                },
                RunAction::Remove(cursor.position),
            ),
        ),
{
    match (cursor.stage, event) {
        (RunStage::AskingDisclosure, RunEvent::Answered(yes)) => {
            lemma_arrive(
                included,
                cursor.position,
                if yes {
                    Disclosure::Shown
                } else {
                    Disclosure::Hidden
                },
            );
        },
        _ => {
            if cursor.position < included.len() && cursor.position < usize::MAX {
                lemma_arrive(included, (cursor.position + 1) as usize, cursor.disclosure);
            }
        },
    }
}

/// Every outcome of a removal but the time limit lets the run go on with what follows the
/// candidate: so does a key that the chain does not know, whatever the operator answered.
pub proof fn law_settled_removal_proceeds(included: Seq<bool>, cursor: Cursor, outcome: Outcome)
    requires
        cursor.stage == RunStage::Removing,
        outcome != Outcome::TimedOut,
    ensures
        run_transition(included, cursor, RunEvent::Concluded(Verdict::Settled(outcome))) == Some(
            leave(included, cursor.position, cursor.disclosure),
        ),
{
}

/// A removal that ran out of time ends the run as a failure, with the time limit as the
/// error and an exit code that is not zero; the operator's refusal to go on ends it with exit
/// code zero.
pub proof fn law_time_limit_ends_run(included: Seq<bool>, cursor: Cursor)
    requires
        cursor.stage == RunStage::Removing,
    ensures
        run_transition(
            included,
            cursor,
            RunEvent::Concluded(Verdict::Settled(Outcome::TimedOut)),
        ) == Some(
            ended(
                cursor.position,
                cursor.disclosure,
                RunEnd::Failed(RunError::TimeLimitExceeded),
            ),
        ),
        run_transition(included, cursor, RunEvent::Concluded(Verdict::Aborted)) == Some(
            ended(cursor.position, cursor.disclosure, RunEnd::Aborted),
        ),
{
}

} // verus!
