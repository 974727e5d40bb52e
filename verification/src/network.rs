use vstd::prelude::*;

verus! {

/// The network whose accounts a run works on.
#[derive(Debug, Clone, Copy, PartialEq, Eq, Structural)]
pub enum Network {
    Mainnet,
    Testnet,
}

impl Network {
    /// The network's name as it stands in account names, host names and directory names.
    pub open spec fn name(self) -> Seq<char> {
        match self {
            Network::Mainnet => "mainnet"@,
            Network::Testnet => "testnet"@,
        }
    }

    /// The network that stands at place `index` of the menu: the main network first, the test
    /// network second.
    pub open spec fn at(index: int) -> Network {
        if index == 0 {
            Network::Mainnet
        } else {
            Network::Testnet
        }
    }

    /// The network that the operator picked from the menu of two.
    pub fn from(network: usize) -> (chosen: Network)
        requires
            network <= 1,
        ensures
            chosen == Network::at(network as int),
    {
        if network == 0 {
            Network::Mainnet
        } else {
            Network::Testnet
        }
    }

    /// The network's name, lower case.
    pub fn to_string(&self) -> (text: String)
        ensures
            text@ == self.name(),
    {
        match self {
            Network::Mainnet => String::from_str("mainnet"),
            Network::Testnet => String::from_str("testnet"),
        }
    }
}

} // verus!
