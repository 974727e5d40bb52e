use crate::rpc_client::{Prompt, RunError};
use vstd::prelude::*;

verus! {

pub const CHOOSE_NETWORK_PROMPT: &'static str = "Chose your NEAR network";

pub const SETUP_BENEFIT_PROMPT: &'static str = "Setup beneficiary account";

pub const SETUP_MASTER_PROMPT: &'static str = "Setup master account or `*` for show all accounts";

pub const CONTINUE_PROMPT: &'static str = "Do you want to continue?";

pub const UNKNOWN_PROMPT: &'static str = "An unhandled error occurred. Do you want to continue?";

pub const UNKNOWN_ACCESS_KEY_PROMPT: &'static str =
    "It seems that the account with this key has already been deleted. Do you want to delete this private key from your keystore?";

pub const SHOW_SKIPPED_PROMPT: &'static str = "Show skipped accounts?";

/// What the operator reads when a name that was typed is no account name.
pub const NOT_VALID_ACCOUNT: &'static str = "Not valid account";

/// The input that stands for every account.
pub const WILDCARD: &'static str = "*";

impl Prompt {
    /// The words of the question.
    pub open spec fn words(self) -> Seq<char> {
        match self {
            Prompt::PurgeLocalKey => UNKNOWN_ACCESS_KEY_PROMPT@,
            Prompt::ContinueAfterFailure => CONTINUE_PROMPT@,
            Prompt::ContinueAfterUnhandled => UNKNOWN_PROMPT@,
        }
    }

    /// The words of the question.
    pub fn text(&self) -> (text: &'static str)
        ensures
            text@ == self.words(),
    {
        match self {
            Prompt::PurgeLocalKey => UNKNOWN_ACCESS_KEY_PROMPT,
            Prompt::ContinueAfterFailure => CONTINUE_PROMPT,
            Prompt::ContinueAfterUnhandled => UNKNOWN_PROMPT,
        }
    }
}

impl RunError {
    /// The words that say what ended the run.
    pub open spec fn words(self) -> Seq<char> {
        match self {
            RunError::TimeLimitExceeded => "time limit exceeded for the transaction to be recognized"@,
            RunError::BroadcastFailed => "Can't send transaction"@,
            RunError::NonceUnavailable => "failed to extract current nonce"@,
            RunError::NonceExhausted => "the nonce of the access key cannot grow"@,
        }
    }

    /// The words that say what ended the run.
    pub fn message(&self) -> (text: &'static str)
        ensures
            text@ == self.words(),
    {
        match self {
            RunError::TimeLimitExceeded => "time limit exceeded for the transaction to be recognized",
            RunError::BroadcastFailed => "Can't send transaction",
            RunError::NonceUnavailable => "failed to extract current nonce",
            RunError::NonceExhausted => "the nonce of the access key cannot grow",
        }
    }
}

/// What the operator reads about an account that the filter leaves out.
pub fn skip_notice(name: &str) -> (notice: String)
    ensures
        notice@ == "Skip account: "@ + name@,
{
    let mut notice = String::from_str("Skip account: ");
    notice.append(name);
    notice
}

/// What the operator reads after the local key was deleted, or could not be.
pub fn purge_notice(worked: bool) -> (notice: &'static str)
    ensures
        notice@ == if worked {
            "Private key was removed for this account"@
        } else {
            "Can't remove private key for this account"@
        },
{
    if worked {
        "Private key was removed for this account"
    } else {
        "Can't remove private key for this account"
    }
}

/// What the operator reads when the transaction went through and removed nothing.
pub const NOT_REMOVED_NOTICE: &'static str = "Account wasn't removed";

/// What the operator reads when the chain removed the account.
pub const REMOVED_NOTICE: &'static str = "Account successfully removed";

/// What the operator reads when the transaction failed on chain.
pub const FAILED_NOTICE: &'static str = "Removing the account failed, check above for full logs";

/// `before`, then `name` between single quotes, then a space and a question mark.
pub open spec fn quoted_question(before: Seq<char>, name: Seq<char>) -> Seq<char> {
    before + "'"@ + name + "' ?"@
}

/// Builds a question about `name`.
fn ask_about(before: &str, name: &str) -> (question: String)
    ensures
        question@ == quoted_question(before@, name@),
{
    let mut question = String::from_str(before);
    question.append("'");
    question.append(name);
    question.append("' ?");
    question
}

/// The question whether the account `name` is really to be removed.
pub fn removal_question(name: &str) -> (question: String)
    ensures
        question@ == quoted_question("Are you sure to remove: "@, name@),
{
    ask_about("Are you sure to remove: ", name)
}

/// The question whether the operator typed `name` as meant.
pub fn confirmation_question(name: &str) -> (question: String)
    ensures
        question@ == quoted_question("Is the account entered correctly: "@, name@),
{
    ask_about("Is the account entered correctly: ", name)
}

/// The question whether the accounts below `beneficiary` are the ones to look for.
pub fn subaccounts_question(beneficiary: &str) -> (question: String)
    ensures
        question@ == quoted_question("Find subaccounts for: "@, beneficiary@),
{
    ask_about("Find subaccounts for: ", beneficiary)
}

} // verus!
