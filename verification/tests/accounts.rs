use near_account_remover::account::{check_account_input, is_below, Identifier, InputVerdict};
use near_account_remover::answer::{preselected, Answer};
use near_account_remover::network::Network;
use near_account_remover::store::{account_name, KEY_FILE_SUFFIX, NEAR_CREDENTIALS_DIR};
use near_account_remover::text::{chars_of, ends_with, same_text};

fn id(text: &str) -> Identifier {
    Identifier::parse(text).unwrap()
}

const IMPLICIT: &str = "98793cd91a3f870fb126f66285808c7e094afcfc4eda8a970f6648cdf0dbd6de";

#[test]
fn network_names_are_lower_case() {
    assert_eq!(Network::Mainnet.to_string(), "mainnet");
    assert_eq!(Network::Testnet.to_string(), "testnet");
}

#[test]
fn network_follows_the_menu() {
    assert_eq!(Network::from(0), Network::Mainnet);
    assert_eq!(Network::from(1), Network::Testnet);
}

#[test]
fn answer_follows_the_menu() {
    assert_eq!(Answer::from(0), Answer::No);
    assert_eq!(Answer::from(1), Answer::Yes);
    assert!(Answer::Yes.approves());
    assert!(!Answer::No.approves());
}

#[test]
fn preselection_falls_back_to_no() {
    assert_eq!(preselected(0), 0);
    assert_eq!(preselected(1), 1);
    assert_eq!(preselected(2), 0);
    assert_eq!(preselected(usize::MAX), 0);
}

#[test]
fn well_formed_names_parse() {
    for name in [
        "aa",
        "a-a",
        "100",
        "near",
        "b-o_w_e-n",
        "b.owen",
        "alice.testnet",
        "bob.alice.testnet",
        "1_4m_n0t-al1c3.near",
        IMPLICIT,
    ] {
        let parsed = Identifier::parse(name);
        assert!(parsed.is_some(), "{name}");
        assert_eq!(parsed.unwrap().as_str(), name);
    }
}

#[test]
fn malformed_names_do_not_parse() {
    let too_long = "a".repeat(65);
    for name in [
        "",
        "a",
        "A",
        "Abc",
        "-near",
        "near-",
        "near.",
        ".near",
        "a..near",
        "not-_alice.near",
        "alice__moss",
        "user@app.com",
        "Emily.near",
        "\u{192}elicia.near",
        "with space",
        "*",
        too_long.as_str(),
    ] {
        assert!(Identifier::parse(name).is_none(), "{name}");
    }
}

#[test]
fn name_length_limits_are_inclusive() {
    assert!(Identifier::parse(&"a".repeat(2)).is_some());
    assert!(Identifier::parse(&"a".repeat(64)).is_some());
    assert!(Identifier::parse(&"a".repeat(1)).is_none());
    assert!(Identifier::parse(&"a".repeat(65)).is_none());
}

#[test]
fn implicit_accounts_are_64_hex_digits() {
    assert!(id(IMPLICIT).is_implicit());
    assert!(!id("alice.testnet").is_implicit());
    assert!(!id(&IMPLICIT[..63]).is_implicit());
    let mut with_g = String::from(&IMPLICIT[..63]);
    with_g.push('g');
    assert!(!id(&with_g).is_implicit());
    let mut with_dash = String::from(&IMPLICIT[..32]);
    with_dash.push('-');
    with_dash.push_str(&IMPLICIT[33..]);
    assert!(!id(&with_dash).is_implicit());
}

#[test]
fn accounts_belong_to_the_network_of_their_suffix() {
    assert!(id("alice.testnet").belongs_to(Network::Testnet));
    assert!(!id("alice.testnet").belongs_to(Network::Mainnet));
    assert!(id("alice.mainnet").belongs_to(Network::Mainnet));
    assert!(!id("alice.near").belongs_to(Network::Mainnet));
    assert!(!id("testnet").belongs_to(Network::Testnet));
    assert!(!id("alicetestnet").belongs_to(Network::Testnet));
    assert!(id(IMPLICIT).belongs_to(Network::Testnet));
    assert!(id(IMPLICIT).belongs_to(Network::Mainnet));
}

#[test]
fn subaccounts_end_with_a_dot_and_the_master() {
    let master = id("alice.testnet");
    assert!(id("bob.alice.testnet").is_subaccount_of(&master));
    assert!(id("x.bob.alice.testnet").is_subaccount_of(&master));
    assert!(!id("alice2.testnet").is_subaccount_of(&master));
    assert!(!id("bobalice.testnet").is_subaccount_of(&master));
    assert!(!master.is_subaccount_of(&master));
    assert!(!id("testnet").is_subaccount_of(&master));
    assert!(is_below("bob.alice.testnet", "alice.testnet"));
    assert!(is_below(".alice.testnet", "alice.testnet"));
    assert!(!is_below("alice.testnet", "alice.testnet"));
}

#[test]
fn typed_names_get_their_verdict() {
    assert_eq!(check_account_input("alice.testnet", Network::Testnet), InputVerdict::Accepted);
    assert_eq!(check_account_input(IMPLICIT, Network::Testnet), InputVerdict::Accepted);
    assert_eq!(check_account_input("alice.near", Network::Testnet), InputVerdict::WrongNetwork);
    assert_eq!(check_account_input("alice.testnet", Network::Mainnet), InputVerdict::WrongNetwork);
    assert_eq!(check_account_input("Alice.testnet", Network::Testnet), InputVerdict::NotValid);
    assert_eq!(check_account_input("", Network::Testnet), InputVerdict::NotValid);
    assert_eq!(check_account_input("*", Network::Testnet), InputVerdict::NotValid);
}

#[test]
fn identifier_clone_keeps_the_name() {
    let alice = id("alice.testnet");
    let copy = alice.clone();
    assert_eq!(copy, alice);
    assert_eq!(copy.as_str(), "alice.testnet");
}

#[test]
fn key_file_names_lose_their_ending() {
    assert_eq!(KEY_FILE_SUFFIX, ".json");
    assert_eq!(NEAR_CREDENTIALS_DIR, ".near-credentials");
    assert_eq!(account_name("alice.testnet.json"), "alice.testnet");
    assert_eq!(account_name("alice.testnet"), "alice.testnet");
    assert_eq!(account_name(".json"), "");
    assert_eq!(account_name("json"), "json");
    assert_eq!(account_name("a.json.b.json"), "a.json.b");
    assert_eq!(account_name("a.json.b"), "a.json.b");
    assert_eq!(account_name(""), "");
    assert_eq!(account_name("\u{e9}t\u{e9}.json"), "\u{e9}t\u{e9}");
}

#[test]
fn texts_compare_by_their_characters() {
    assert_eq!(chars_of("a\u{e9}b"), vec!['a', '\u{e9}', 'b']);
    assert!(chars_of("").is_empty());
    assert!(same_text("abc", "abc"));
    assert!(same_text("", ""));
    assert!(!same_text("abc", "abd"));
    assert!(!same_text("abc", "ab"));
    assert!(ends_with(&chars_of("alice.testnet"), &chars_of(".testnet")));
    assert!(ends_with(&chars_of("alice"), &chars_of("")));
    assert!(ends_with(&chars_of("alice"), &chars_of("alice")));
    assert!(!ends_with(&chars_of("lice"), &chars_of("alice")));
    assert!(!ends_with(&chars_of("alice.testnet"), &chars_of(".mainnet")));
}
