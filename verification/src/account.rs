use crate::network::Network;
use crate::text::{chars_of, ends_with};
use vstd::prelude::*;

verus! {

/// Whether `c` may stand between two runs of letters and digits in an account name.
pub open spec fn is_separator(c: char) -> bool {
    c == '-' || c == '_' || c == '.'
}

/// Whether `c` is a lower-case ASCII letter or a digit.
pub open spec fn is_alphanumeric(c: char) -> bool {
    ('a' <= c && c <= 'z') || ('0' <= c && c <= '9')
}

/// Whether `c` is a lower-case hexadecimal digit.
pub open spec fn is_lower_hex(c: char) -> bool {
    ('a' <= c && c <= 'f') || ('0' <= c && c <= '9')
}

/// The shortest account name.
pub const MIN_NAME_LEN: usize = 2;

/// The longest account name.
pub const MAX_NAME_LEN: usize = 64;

/// The syntax of an account name: 2 to 64 characters, each a lower-case letter, a digit or a
/// separator, where no separator stands first, last or next to another one.
pub open spec fn well_formed(name: Seq<char>) -> bool {
    &&& MIN_NAME_LEN <= name.len() <= MAX_NAME_LEN
    &&& forall|i: int| 0 <= i < name.len() ==> is_alphanumeric(#[trigger] name[i]) || is_separator(name[i])
    &&& !is_separator(name[0])
    &&& !is_separator(name[name.len() - 1])
    &&& forall|i: int|
        0 <= i < name.len() - 1 ==> !(is_separator(#[trigger] name[i]) && is_separator(name[i + 1]))
}

/// An implicit account is named by 64 lower-case hexadecimal digits.
pub open spec fn is_implicit_name(name: Seq<char>) -> bool {
    &&& name.len() == 64
    &&& forall|i: int| 0 <= i < name.len() ==> is_lower_hex(#[trigger] name[i])
}

/// The ending that every named account of `network` has: a dot and the network's name.
pub open spec fn network_suffix(network: Network) -> Seq<char> {
    seq!['.'] + network.name()
}

/// Whether `name` is an account of `network`: an implicit account, or one that ends with the
/// network's suffix.
pub open spec fn in_network(name: Seq<char>, network: Network) -> bool {
    is_implicit_name(name) || network_suffix(network).is_suffix_of(name)
}

/// Whether `name` lies below `master`, directly or at any depth: it ends with a dot and
/// `master`.
pub open spec fn is_subaccount_name(name: Seq<char>, master: Seq<char>) -> bool {
    (seq!['.'] + master).is_suffix_of(name)
}

/// Every implicit name has the syntax of an account name.
pub proof fn law_implicit_names_are_well_formed(name: Seq<char>)
    requires
        is_implicit_name(name),
    ensures
        well_formed(name),
{
    assert forall|i: int| 0 <= i < name.len() implies is_alphanumeric(#[trigger] name[i]) by {
        assert(is_lower_hex(name[i]));
    }
    assert(is_lower_hex(name[0]));
    assert(is_lower_hex(name[name.len() - 1]));
}

/// Asks `near_primitives::types::AccountId::from_str` whether it accepts `text`. The parser
/// accepts exactly the strings of 2 to 64 bytes that are made of lower-case letters, digits and
/// the separators `-`, `_` and `.`, with no separator first, last or next to another one; such a
/// string is ASCII, so its bytes are its characters.
#[verifier::external_body]
fn near_accepts(text: &str) -> (accepted: bool)
    ensures
        accepted == well_formed(text@),
{
    <near_primitives::types::AccountId as std::str::FromStr>::from_str(text).is_ok()
}

/// Asks `near_primitives::types::AccountId::is_implicit` about `text`: whether it is 64
/// characters long and all of them are lower-case hexadecimal digits. A text that is no account
/// name is not implicit either.
#[verifier::external_body]
fn near_is_implicit(text: &str) -> (implicit: bool)
    ensures
        implicit == is_implicit_name(text@),
{
    match <near_primitives::types::AccountId as std::str::FromStr>::from_str(text) {
        Ok(id) => id.is_implicit(),
        Err(_) => false,
    }
}

/// A syntactically valid account name.
#[derive(Debug, PartialEq, Eq)]
pub struct Identifier {
    name: String,
}

impl Clone for Identifier {
    fn clone(&self) -> (copy: Self)
        ensures
            copy@ == self@,
    {
        proof {
            use_type_invariant(self);
        }
        Identifier { name: self.name.clone() }
    }
}

impl View for Identifier {
    type V = Seq<char>;

    closed spec fn view(&self) -> Seq<char> {
        self.name@
    }
}

impl Identifier {
    #[verifier::type_invariant]
    closed spec fn valid(self) -> bool {
        well_formed(self.name@)
    }

    /// Reads `text` as an account name. Gives `None` exactly when `text` has not the syntax of
    /// one.
    pub fn parse(text: &str) -> (parsed: Option<Identifier>)
        ensures
            parsed is Some <==> well_formed(text@),
            parsed matches Some(id) ==> id@ == text@,
    {
        if near_accepts(text) {
            Some(Identifier { name: String::from_str(text) })
        } else {
            None
        }
    }

    /// The name as text.
    pub fn as_str(&self) -> (text: &str)
        ensures
            text@ == self@,
            well_formed(text@),
    {
        proof {
            use_type_invariant(self);
        }
        self.name.as_str()
    }

    /// Whether this is an implicit account.
    pub fn is_implicit(&self) -> (implicit: bool)
        ensures
            implicit == is_implicit_name(self@),
    {
        near_is_implicit(self.name.as_str())
    }

    /// Whether this account belongs to `network`.
    pub fn belongs_to(&self, network: Network) -> (inside: bool)
        ensures
            inside == in_network(self@, network),
    {
        if self.is_implicit() {
            return true;
        }
        let mut suffix = String::from_str(".");
        suffix.append(network.to_string().as_str());
        proof {
            reveal_strlit(".");
            assert(suffix@ =~= network_suffix(network));
        }
        ends_with(&chars_of(self.name.as_str()), &chars_of(suffix.as_str()))
    }

    /// Whether this account lies below `master`, directly or at any depth.
    pub fn is_subaccount_of(&self, master: &Identifier) -> (below: bool)
        ensures
            below == is_subaccount_name(self@, master@),
    {
        is_below(self.name.as_str(), master.name.as_str())
    }
}

/// Whether `name` ends with a dot and `master`.
pub fn is_below(name: &str, master: &str) -> (below: bool)
    ensures
        below == is_subaccount_name(name@, master@),
{
    let mut suffix = String::from_str(".");
    suffix.append(master);
    proof {
        reveal_strlit(".");
        assert(suffix@ =~= seq!['.'] + master@);
    }
    ends_with(&chars_of(name), &chars_of(suffix.as_str()))
}

/// What became of a name that the operator typed.
#[derive(Debug, Clone, Copy, PartialEq, Eq, Structural)]
pub enum InputVerdict {
    /// The name is an account of the network.
    Accepted,
    /// The text has not the syntax of an account name.
    NotValid,
    /// The name is well formed, but neither implicit nor under the network.
    WrongNetwork,
}

/// The verdict on `input` as an account of `network`.
pub open spec fn input_verdict(input: Seq<char>, network: Network) -> InputVerdict {
    if !well_formed(input) {
        InputVerdict::NotValid
    } else if in_network(input, network) {
        InputVerdict::Accepted
    } else {
        InputVerdict::WrongNetwork
    }
}

/// Judges a name that the operator typed for an account of `network`.
pub fn check_account_input(input: &str, network: Network) -> (verdict: InputVerdict)
    ensures
        verdict == input_verdict(input@, network),
{
    match Identifier::parse(input) {
        None => InputVerdict::NotValid,
        Some(id) => {
            if id.belongs_to(network) {
                InputVerdict::Accepted
            } else {
                InputVerdict::WrongNetwork
            }
        },
    }
}

} // verus!
