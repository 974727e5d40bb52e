use crate::account::{input_verdict, well_formed, Identifier, InputVerdict};
use crate::network::Network;
use crate::prompt::WILDCARD;
use crate::selector::MasterFilter;
use crate::text::same_text;
use vstd::prelude::*;

verus! {

/// The verdict on `input` as a filter for accounts of `network`: the wildcard passes, anything
/// else is judged as an account.
pub open spec fn master_input_verdict(input: Seq<char>, network: Network) -> InputVerdict {
    if input == WILDCARD@ {
        InputVerdict::Accepted
    } else {
        input_verdict(input, network)
    }
}

/// Judges what the operator typed for the master account of `network`.
pub fn check_master_input(input: &str, network: Network) -> (verdict: InputVerdict)
    ensures
        verdict == master_input_verdict(input@, network),
{
    if same_text(input, WILDCARD) {
        InputVerdict::Accepted
    } else {
        crate::account::check_account_input(input, network)
    }
}

/// The account named by `input`, where `input` names an account of `network`.
fn account_of(input: &str, network: Network) -> (account: Option<Identifier>)
    ensures
        account is Some <==> input_verdict(input@, network) == InputVerdict::Accepted,
        account matches Some(id) ==> id@ == input@,
{
    match Identifier::parse(input) {
        Some(id) => if id.belongs_to(network) {
            Some(id)
        } else {
            None
        },
        None => None,
    }
}

/// The talk with the operator that settles who receives what the removed accounts hold.
#[derive(Debug, PartialEq, Eq)]
pub enum BeneficiaryDialogue {
    /// A name is asked for.
    Entering,
    /// It is asked whether this name was typed as meant; "yes" is offered.
    Confirming(Identifier),
    /// The beneficiary is settled.
    Chosen(Identifier),
}

impl BeneficiaryDialogue {
    /// The talk starts by asking for a name.
    pub fn begin() -> (dialogue: Self)
        ensures
            dialogue is Entering,
    {
        BeneficiaryDialogue::Entering
    }

    /// Takes the name that the operator typed: an account of the network is put to the
    /// operator for confirmation, anything else is asked for again. Outside the entering of a
    /// name nothing changes.
    pub fn enter(self, input: &str, network: Network) -> (next: Self)
        ensures
            match self {
                BeneficiaryDialogue::Entering => if input_verdict(input@, network)
                    == InputVerdict::Accepted {
                    next matches BeneficiaryDialogue::Confirming(id) && id@ == input@
                } else {
                    next is Entering
                },
                _ => next == self,
            },
    {
        match self {
            BeneficiaryDialogue::Entering => match account_of(input, network) {
                Some(id) => BeneficiaryDialogue::Confirming(id),
                None => BeneficiaryDialogue::Entering,
            },
            other => other,
        }
    }

    /// Takes the operator's answer to the confirmation: yes settles the name, no asks for
    /// another. Outside a confirmation nothing changes.
    pub fn answer(self, yes: bool) -> (next: Self)
        ensures
            match self {
                BeneficiaryDialogue::Confirming(id) => if yes {
                    next == BeneficiaryDialogue::Chosen(id)
                } else {
                    next is Entering
                },
                _ => next == self,
            },
    {
        match self {
            BeneficiaryDialogue::Confirming(id) => if yes {
                BeneficiaryDialogue::Chosen(id)
            } else {
                BeneficiaryDialogue::Entering
            },
            other => other,
        }
    }
}

/// The talk with the operator that settles which accounts are offered for removal.
#[derive(Debug, PartialEq, Eq)]
pub enum MasterDialogue {
    /// It is asked whether to look for the accounts below the beneficiary; "yes" is offered.
    Offering,
    /// A name, or the wildcard, is asked for.
    Entering,
    /// It is asked whether this name was typed as meant; "yes" is offered.
    Confirming(Identifier),
    /// The filter is settled.
    Chosen(MasterFilter),
}

impl MasterDialogue {
    /// The talk starts by offering the beneficiary as the master account.
    pub fn begin() -> (dialogue: Self)
        ensures
            dialogue is Offering,
    {
        MasterDialogue::Offering
    }

    /// Takes the operator's answer to a yes/no question. To the offer, yes settles the
    /// beneficiary as the master account, and no asks for a name. To the confirmation, yes
    /// settles the name that was typed, and no starts over with the offer. While a name is asked
    /// for, or once the filter is settled, nothing changes.
    pub fn answer(self, yes: bool, beneficiary: &Identifier) -> (next: Self)
        ensures
            match self {
                MasterDialogue::Offering => if yes {
                    next matches MasterDialogue::Chosen(MasterFilter::Account(id)) && id@
                        == beneficiary@
                } else {
                    next is Entering
                },
                MasterDialogue::Confirming(id) => if yes {
                    next == MasterDialogue::Chosen(MasterFilter::Account(id))
                } else {
                    next is Offering
                },
                _ => next == self,
            },
    {
        match self {
            MasterDialogue::Offering => if yes {
                MasterDialogue::Chosen(MasterFilter::Account(beneficiary.clone()))
            } else {
                MasterDialogue::Entering
            },
            MasterDialogue::Confirming(id) => if yes {
                MasterDialogue::Chosen(MasterFilter::Account(id))
            } else {
                MasterDialogue::Offering
            },
            other => other,
        }
    }

    /// Takes what the operator typed: the wildcard settles the filter at once, an account of
    /// the network is put to the operator for confirmation, anything else is asked for again.
    /// Outside the entering of a name nothing changes.
    pub fn enter(self, input: &str, network: Network) -> (next: Self)
        ensures
            match self {
                MasterDialogue::Entering => if input@ == WILDCARD@ {
                    next == MasterDialogue::Chosen(MasterFilter::Wildcard)
                } else if input_verdict(input@, network) == InputVerdict::Accepted {
                    next matches MasterDialogue::Confirming(id) && id@ == input@
                } else {
                    next is Entering
                },
                _ => next == self,
            },
    {
        match self {
            MasterDialogue::Entering => if same_text(input, WILDCARD) {
                MasterDialogue::Chosen(MasterFilter::Wildcard)
            } else {
                match account_of(input, network) {
                    Some(id) => MasterDialogue::Confirming(id),
                    None => MasterDialogue::Entering,
                }
            },
            other => other,
        }
    }
}

/// The wildcard is no account name, so what is typed is never both.
pub proof fn law_wildcard_is_no_account()
    ensures
        !well_formed(WILDCARD@),
{
    reveal_strlit("*");
}

} // verus!
