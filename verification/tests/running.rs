use near_account_remover::account::Identifier;
use near_account_remover::dialogue::{check_master_input, BeneficiaryDialogue, MasterDialogue};
use near_account_remover::account::InputVerdict;
use near_account_remover::network::Network;
use near_account_remover::program::{
    Cursor, Disclosure, ProgramBuilder, Run, RunAction, RunEnd, RunEvent, RunStage,
};
use near_account_remover::prompt::{
    confirmation_question, purge_notice, removal_question, skip_notice, subaccounts_question,
    CHOOSE_NETWORK_PROMPT, CONTINUE_PROMPT, FAILED_NOTICE, NOT_REMOVED_NOTICE, NOT_VALID_ACCOUNT,
    REMOVED_NOTICE, SETUP_BENEFIT_PROMPT, SETUP_MASTER_PROMPT, SHOW_SKIPPED_PROMPT,
    UNKNOWN_ACCESS_KEY_PROMPT, UNKNOWN_PROMPT, WILDCARD,
};
use near_account_remover::rpc_client::{Failure, Outcome, Prompt, RunError, Verdict};
use near_account_remover::selector::{Candidate, MasterFilter};

fn id(text: &str) -> Identifier {
    Identifier::parse(text).unwrap()
}

fn names(list: &[&str]) -> Vec<String> {
    list.iter().map(|name| name.to_string()).collect()
}

fn candidates(marks: &[bool]) -> Vec<Candidate> {
    marks
        .iter()
        .enumerate()
        .map(|(place, included)| Candidate {
            name: format!("account{place}.testnet"),
            included: *included,
        })
        .collect()
}

fn at(position: usize, disclosure: Disclosure, stage: RunStage) -> Cursor {
    Cursor { position, disclosure, stage }
}

#[test]
fn prompts_read_as_they_always_did() {
    assert_eq!(CHOOSE_NETWORK_PROMPT, "Chose your NEAR network");
    assert_eq!(SETUP_BENEFIT_PROMPT, "Setup beneficiary account");
    assert_eq!(SETUP_MASTER_PROMPT, "Setup master account or `*` for show all accounts");
    assert_eq!(SHOW_SKIPPED_PROMPT, "Show skipped accounts?");
    assert_eq!(NOT_VALID_ACCOUNT, "Not valid account");
    assert_eq!(WILDCARD, "*");
    assert_eq!(Prompt::ContinueAfterFailure.text(), "Do you want to continue?");
    assert_eq!(Prompt::ContinueAfterFailure.text(), CONTINUE_PROMPT);
    assert_eq!(
        Prompt::ContinueAfterUnhandled.text(),
        "An unhandled error occurred. Do you want to continue?"
    );
    assert_eq!(Prompt::ContinueAfterUnhandled.text(), UNKNOWN_PROMPT);
    assert_eq!(
        Prompt::PurgeLocalKey.text(),
        "It seems that the account with this key has already been deleted. Do you want to delete this private key from your keystore?"
    );
    assert_eq!(Prompt::PurgeLocalKey.text(), UNKNOWN_ACCESS_KEY_PROMPT);
}

#[test]
fn questions_quote_the_account() {
    assert_eq!(removal_question("bob.testnet"), "Are you sure to remove: 'bob.testnet' ?");
    assert_eq!(
        confirmation_question("bob.testnet"),
        "Is the account entered correctly: 'bob.testnet' ?"
    );
    assert_eq!(subaccounts_question("alice.testnet"), "Find subaccounts for: 'alice.testnet' ?");
    assert_eq!(removal_question(""), "Are you sure to remove: '' ?");
}

#[test]
fn builder_starts_empty() {
    let builder = ProgramBuilder::new();
    assert_eq!(builder.network, None);
    assert_eq!(builder.working_dir, None);
    assert_eq!(builder.beneficiary_account_id, None);
    assert_eq!(builder.master_account_id, None);
}

#[test]
fn builder_gathers_the_run() {
    let builder = ProgramBuilder::new().set_network(1);
    assert_eq!(builder.network, Some(Network::Testnet));
    let builder = builder.set_benefit_account(id("alice.testnet"));
    assert_eq!(builder.beneficiary_account_id, Some(id("alice.testnet")));
    let builder = builder.set_master_account(MasterFilter::Account(id("alice.testnet")));
    assert_eq!(builder.master_account_id, Some(MasterFilter::Account(id("alice.testnet"))));
    let builder = builder.set_working_dir("/home/op");
    assert_eq!(builder.working_dir.as_deref(), Some("/home/op/.near-credentials/testnet/"));
    assert_eq!(builder.network, Some(Network::Testnet));
    let program = builder.build();
    assert_eq!(program.network(), Network::Testnet);
    assert_eq!(program.working_dir(), "/home/op/.near-credentials/testnet/");
    assert_eq!(program.beneficiary(), &id("alice.testnet"));
    assert_eq!(program.master(), &Some(MasterFilter::Account(id("alice.testnet"))));
}

#[test]
fn working_dir_names_the_main_network() {
    let builder = ProgramBuilder::new().set_network(0).set_working_dir("/root");
    assert_eq!(builder.network, Some(Network::Mainnet));
    assert_eq!(builder.working_dir.as_deref(), Some("/root/.near-credentials/mainnet/"));
    let builder = ProgramBuilder::new().set_network(0).set_working_dir("");
    assert_eq!(builder.working_dir.as_deref(), Some("/.near-credentials/mainnet/"));
}

#[test]
fn program_without_filter_offers_everything() {
    let program = ProgramBuilder::new()
        .set_network(1)
        .set_benefit_account(id("alice.testnet"))
        .set_working_dir("/home/op")
        .build();
    assert_eq!(program.master(), &None);
    let (run, action) = program.run(&names(&["alice.testnet", "bob.testnet"]));
    assert_eq!(
        run.candidates(),
        &vec![Candidate { name: "bob.testnet".to_string(), included: true }]
    );
    assert_eq!(action, RunAction::AskRemoval(0));
}

#[test]
fn run_follows_the_master_filter_scenario() {
    let program = ProgramBuilder::new()
        .set_network(1)
        .set_benefit_account(id("alice.testnet"))
        .set_master_account(MasterFilter::Account(id("alice.testnet")))
        .set_working_dir("/home/op")
        .build();
    let stored = names(&["alice.testnet", "bob.alice.testnet", "carol.testnet"]);
    let (mut run, action) = program.run(&stored);
    assert_eq!(
        run.candidates(),
        &vec![
            Candidate { name: "bob.alice.testnet".to_string(), included: true },
            Candidate { name: "carol.testnet".to_string(), included: false },
        ]
    );
    assert_eq!(action, RunAction::AskRemoval(0));
    assert_eq!(run.step(RunEvent::Answered(true)), Some(RunAction::Remove(0)));
    assert_eq!(
        run.step(RunEvent::Concluded(Verdict::Settled(Outcome::Removed))),
        Some(RunAction::AskShowSkipped)
    );
    assert_eq!(run.cursor(), at(1, Disclosure::Unasked, RunStage::AskingDisclosure));
    assert_eq!(run.step(RunEvent::Answered(true)), Some(RunAction::Announce(1)));
    assert_eq!(run.step(RunEvent::Announced), Some(RunAction::Exit(RunEnd::Completed)));
    assert_eq!(run.cursor(), at(2, Disclosure::Shown, RunStage::Ended(RunEnd::Completed)));
    assert_eq!(run.step(RunEvent::Announced), None);
}

#[test]
fn empty_run_is_complete_at_once() {
    let (run, action) = Run::start(Vec::new());
    assert_eq!(action, RunAction::Exit(RunEnd::Completed));
    assert_eq!(run.cursor(), at(0, Disclosure::Unasked, RunStage::Ended(RunEnd::Completed)));
}

#[test]
fn skipped_accounts_are_asked_about_once() {
    let (mut run, action) = Run::start(candidates(&[false, true, false, false, true, false]));
    assert_eq!(action, RunAction::AskShowSkipped);
    assert_eq!(run.step(RunEvent::Answered(true)), Some(RunAction::Announce(0)));
    assert_eq!(run.step(RunEvent::Announced), Some(RunAction::AskRemoval(1)));
    assert_eq!(run.step(RunEvent::Answered(false)), Some(RunAction::Announce(2)));
    assert_eq!(run.step(RunEvent::Announced), Some(RunAction::Announce(3)));
    assert_eq!(run.step(RunEvent::Announced), Some(RunAction::AskRemoval(4)));
    assert_eq!(run.step(RunEvent::Answered(false)), Some(RunAction::Announce(5)));
    assert_eq!(run.step(RunEvent::Announced), Some(RunAction::Exit(RunEnd::Completed)));
}

#[test]
fn hidden_accounts_are_passed_in_silence() {
    let (mut run, action) = Run::start(candidates(&[true, false, false, true, false]));
    assert_eq!(action, RunAction::AskRemoval(0));
    assert_eq!(run.step(RunEvent::Answered(false)), Some(RunAction::AskShowSkipped));
    assert_eq!(run.cursor(), at(1, Disclosure::Unasked, RunStage::AskingDisclosure));
    assert_eq!(run.step(RunEvent::Answered(false)), Some(RunAction::AskRemoval(3)));
    assert_eq!(run.cursor(), at(3, Disclosure::Hidden, RunStage::AskingRemoval));
    assert_eq!(run.step(RunEvent::Answered(true)), Some(RunAction::Remove(3)));
    assert_eq!(
        run.step(RunEvent::Concluded(Verdict::Settled(Outcome::RefusedOnChain))),
        Some(RunAction::Exit(RunEnd::Completed))
    );
    assert_eq!(run.cursor(), at(5, Disclosure::Hidden, RunStage::Ended(RunEnd::Completed)));
}

#[test]
fn run_without_skips_never_asks_about_them() {
    let (mut run, action) = Run::start(candidates(&[true, true]));
    assert_eq!(action, RunAction::AskRemoval(0));
    assert_eq!(run.step(RunEvent::Answered(false)), Some(RunAction::AskRemoval(1)));
    assert_eq!(run.step(RunEvent::Answered(false)), Some(RunAction::Exit(RunEnd::Completed)));
    assert_eq!(run.cursor().disclosure, Disclosure::Unasked);
}

#[test]
fn settled_removals_let_the_run_go_on() {
    let outcomes = [
        Outcome::Removed,
        Outcome::RefusedOnChain,
        Outcome::Failed(Failure::ChainExecution),
        Outcome::Failed(Failure::UnclassifiedRpc),
        Outcome::LocalKeyMissingRemotely,
    ];
    for outcome in outcomes {
        assert_eq!(Run::ending(Verdict::Settled(outcome)), None);
        let (mut run, _) = Run::start(candidates(&[true, true]));
        run.step(RunEvent::Answered(true));
        assert_eq!(
            run.step(RunEvent::Concluded(Verdict::Settled(outcome))),
            Some(RunAction::AskRemoval(1))
        );
    }
}

#[test]
fn time_limit_and_broken_removals_fail_the_run() {
    let verdicts = [
        (Verdict::Settled(Outcome::TimedOut), RunEnd::Failed(RunError::TimeLimitExceeded)),
        (Verdict::Broken(RunError::BroadcastFailed), RunEnd::Failed(RunError::BroadcastFailed)),
        (Verdict::Broken(RunError::NonceUnavailable), RunEnd::Failed(RunError::NonceUnavailable)),
        (Verdict::Broken(RunError::NonceExhausted), RunEnd::Failed(RunError::NonceExhausted)),
        (Verdict::Aborted, RunEnd::Aborted),
    ];
    for (verdict, end) in verdicts {
        assert_eq!(Run::ending(verdict), Some(end));
        let (mut run, _) = Run::start(candidates(&[true, true]));
        run.step(RunEvent::Answered(true));
        assert_eq!(run.step(RunEvent::Concluded(verdict)), Some(RunAction::Exit(end)));
        assert_eq!(run.cursor(), at(0, Disclosure::Unasked, RunStage::Ended(end)));
        assert_eq!(run.step(RunEvent::Answered(true)), None);
    }
}

#[test]
fn exit_code_is_zero_unless_the_run_failed() {
    assert_eq!(RunEnd::Completed.exit_code(), 0);
    assert_eq!(RunEnd::Aborted.exit_code(), 0);
    assert_eq!(RunEnd::Failed(RunError::TimeLimitExceeded).exit_code(), 1);
    assert_eq!(RunEnd::Failed(RunError::BroadcastFailed).exit_code(), 1);
    assert_eq!(RunEnd::Failed(RunError::NonceUnavailable).exit_code(), 1);
    assert_eq!(RunEnd::Failed(RunError::NonceExhausted).exit_code(), 1);
}

#[test]
fn run_turns_down_events_that_do_not_fit() {
    let (mut run, _) = Run::start(candidates(&[true, false]));
    assert_eq!(run.step(RunEvent::Announced), None);
    assert_eq!(run.step(RunEvent::Concluded(Verdict::Aborted)), None);
    assert_eq!(run.cursor(), at(0, Disclosure::Unasked, RunStage::AskingRemoval));
    run.step(RunEvent::Answered(true));
    assert_eq!(run.step(RunEvent::Answered(true)), None);
    assert_eq!(run.cursor(), at(0, Disclosure::Unasked, RunStage::Removing));
}

#[test]
fn master_input_allows_the_wildcard() {
    assert_eq!(check_master_input("*", Network::Testnet), InputVerdict::Accepted);
    assert_eq!(check_master_input("alice.testnet", Network::Testnet), InputVerdict::Accepted);
    assert_eq!(check_master_input("alice.near", Network::Testnet), InputVerdict::WrongNetwork);
    assert_eq!(check_master_input("**", Network::Testnet), InputVerdict::NotValid);
    assert_eq!(check_master_input("", Network::Testnet), InputVerdict::NotValid);
}

#[test]
fn beneficiary_dialogue_asks_until_confirmed() {
    let talk = BeneficiaryDialogue::begin();
    assert_eq!(talk, BeneficiaryDialogue::Entering);
    let talk = talk.enter("Not valid", Network::Testnet);
    assert_eq!(talk, BeneficiaryDialogue::Entering);
    let talk = talk.enter("alice.near", Network::Testnet);
    assert_eq!(talk, BeneficiaryDialogue::Entering);
    let talk = talk.enter("*", Network::Testnet);
    assert_eq!(talk, BeneficiaryDialogue::Entering);
    let talk = talk.answer(true);
    assert_eq!(talk, BeneficiaryDialogue::Entering);
    let talk = talk.enter("alice.testnet", Network::Testnet);
    assert_eq!(talk, BeneficiaryDialogue::Confirming(id("alice.testnet")));
    let talk = talk.enter("bob.testnet", Network::Testnet);
    assert_eq!(talk, BeneficiaryDialogue::Confirming(id("alice.testnet")));
    let talk = talk.answer(false);
    assert_eq!(talk, BeneficiaryDialogue::Entering);
    let talk = talk.enter("bob.testnet", Network::Testnet).answer(true);
    assert_eq!(talk, BeneficiaryDialogue::Chosen(id("bob.testnet")));
    assert_eq!(talk.answer(false), BeneficiaryDialogue::Chosen(id("bob.testnet")));
}

#[test]
fn master_dialogue_offers_the_beneficiary_first() {
    let alice = id("alice.testnet");
    let talk = MasterDialogue::begin();
    assert_eq!(talk, MasterDialogue::Offering);
    assert_eq!(
        talk.answer(true, &alice),
        MasterDialogue::Chosen(MasterFilter::Account(id("alice.testnet")))
    );
}

#[test]
fn master_dialogue_takes_the_wildcard() {
    let alice = id("alice.testnet");
    let talk = MasterDialogue::begin().enter("*", Network::Testnet);
    assert_eq!(talk, MasterDialogue::Offering);
    let talk = talk.answer(false, &alice);
    assert_eq!(talk, MasterDialogue::Entering);
    let talk = talk.answer(true, &alice);
    assert_eq!(talk, MasterDialogue::Entering);
    let talk = talk.enter("*", Network::Testnet);
    assert_eq!(talk, MasterDialogue::Chosen(MasterFilter::Wildcard));
    assert_eq!(
        talk.enter("bob.testnet", Network::Testnet),
        MasterDialogue::Chosen(MasterFilter::Wildcard)
    );
}

#[test]
fn master_dialogue_starts_over_when_the_name_was_mistyped() {
    let alice = id("alice.testnet");
    let talk = MasterDialogue::begin().answer(false, &alice);
    let talk = talk.enter("bob.mainnet", Network::Testnet);
    assert_eq!(talk, MasterDialogue::Entering);
    let talk = talk.enter("bobb.testnet", Network::Testnet);
    assert_eq!(talk, MasterDialogue::Confirming(id("bobb.testnet")));
    let talk = talk.answer(false, &alice);
    assert_eq!(talk, MasterDialogue::Offering);
    let talk = talk.answer(false, &alice).enter("bob.testnet", Network::Testnet);
    let talk = talk.answer(true, &alice);
    assert_eq!(talk, MasterDialogue::Chosen(MasterFilter::Account(id("bob.testnet"))));
    assert_eq!(
        talk.answer(false, &alice),
        MasterDialogue::Chosen(MasterFilter::Account(id("bob.testnet")))
    );
}

#[test]
fn run_errors_and_notices_read_as_they_always_did() {
    assert_eq!(
        RunError::TimeLimitExceeded.message(),
        "time limit exceeded for the transaction to be recognized"
    );
    assert_eq!(RunError::NonceUnavailable.message(), "failed to extract current nonce");
    assert_eq!(RunError::BroadcastFailed.message(), "Can't send transaction");
    assert_eq!(RunError::NonceExhausted.message(), "the nonce of the access key cannot grow");
    assert_eq!(skip_notice("carol.testnet"), "Skip account: carol.testnet");
    assert_eq!(purge_notice(true), "Private key was removed for this account");
    assert_eq!(purge_notice(false), "Can't remove private key for this account");
    assert_eq!(NOT_REMOVED_NOTICE, "Account wasn't removed");
    assert_eq!(REMOVED_NOTICE, "Account successfully removed");
    assert_eq!(FAILED_NOTICE, "Removing the account failed, check above for full logs");
}
