//! The network that cross-chain messages are tried on: a relay chain and two parachains.
use vstd::prelude::*;

use crate::host_configuration::{default_parachains_host_configuration, HostConfiguration};

verus! {

/// The id of the parachain under test.
pub const ZEITGEIST_PARA_ID: u32 = 2101;

/// The id of a parachain beside it.
pub const PARA_ID_SIBLING: u32 = 3000;

/// An account that a genesis endows.
#[derive(Clone, Copy, Debug, PartialEq, Eq, Structural)]
pub enum Account {
    Alice,
    /// The treasury of the parachain under test.
    ZeitgeistTreasury,
}

/// A currency on a parachain.
#[derive(Clone, Copy, Debug, PartialEq, Eq, Structural)]
pub enum CurrencyId {
    /// The parachain's own.
    Ztg,
    /// The relay chain's.
    ForeignParent,
}

/// An amount in whole tokens.
#[derive(Clone, Copy, Debug, PartialEq, Eq, Structural)]
pub enum Amount {
    Ztg(u128),
    Ksm(u128),
}

/// The genesis of the relay chain.
#[derive(Debug, PartialEq, Eq)]
pub struct RelayGenesis {
    pub balances: Vec<(Account, Amount)>,
    pub host_configuration: HostConfiguration,
    /// The version of cross-chain messages to use with a chain whose version is not known.
    pub safe_xcm_version: Option<u32>,
    /// The block that the chain stands at.
    pub block_number: u32,
}

/// The genesis of a parachain.
#[derive(Debug, PartialEq, Eq)]
pub struct ParaGenesis {
    pub balances: Vec<(Account, CurrencyId, Amount)>,
    pub parachain_id: u32,
}

/// A relay chain and its parachains, each under its id.
#[derive(Debug, PartialEq, Eq)]
pub struct TestNet {
    pub relay_chain: RelayGenesis,
    pub parachains: Vec<(u32, ParaGenesis)>,
}

/// Who holds what on a parachain at its start.
pub open spec fn para_balances() -> Seq<(Account, CurrencyId, Amount)> {
    seq![
        (Account::Alice, CurrencyId::Ztg, Amount::Ztg(10)),
        (Account::Alice, CurrencyId::ForeignParent, Amount::Ksm(10)),
        (Account::ZeitgeistTreasury, CurrencyId::ForeignParent, Amount::Ksm(1)),
    ]
}

impl RelayGenesis {
    /// The genesis of the relay chain: Alice holds tokens, and the first block has begun.
    pub open spec fn is_relay_ext(self) -> bool {
        &&& self.balances@ == seq![(Account::Alice, Amount::Ksm(2002))]
        &&& self.host_configuration == default_parachains_host_configuration()
        &&& self.safe_xcm_version == Some(2u32)
        &&& self.block_number == 1
    }
}

impl ParaGenesis {
    /// The genesis of the parachain of that id.
    pub open spec fn is_para_ext(self, parachain_id: u32) -> bool {
        &&& self.balances@ == para_balances()
        &&& self.parachain_id == parachain_id
    }
}

impl TestNet {
    /// Each parachain was started under the id that the network knows it by.
    pub open spec fn ids_agree(self) -> bool {
        forall|i: int|
            0 <= i < self.parachains@.len() ==> (#[trigger] self.parachains@[i]).0
                == self.parachains@[i].1.parachain_id
    }

    /// No two parachains go by one id.
    pub open spec fn ids_differ(self) -> bool {
        forall|i: int, j: int|
            0 <= i < j < self.parachains@.len() ==> self.parachains@[i].0 != self.parachains@[j].0
    }

    /// The network: the relay chain, the parachain under test, and the one beside it.
    pub fn new() -> (r: TestNet)
        ensures
            r.relay_chain.is_relay_ext(),
            r.parachains@.len() == 2,
            r.parachains@[0].0 == ZEITGEIST_PARA_ID,
            r.parachains@[0].1.is_para_ext(ZEITGEIST_PARA_ID),
            r.parachains@[1].0 == PARA_ID_SIBLING,
            r.parachains@[1].1.is_para_ext(PARA_ID_SIBLING),
            r.ids_agree(),
            r.ids_differ(),
    {
        let mut parachains: Vec<(u32, ParaGenesis)> = Vec::new();
        parachains.push((2101, para_ext(ZEITGEIST_PARA_ID)));
        parachains.push((3000, para_ext(PARA_ID_SIBLING)));
        TestNet { relay_chain: relay_ext(), parachains }
    }
}

/// The genesis of the relay chain.
pub fn relay_ext() -> (r: RelayGenesis)
    ensures
        r.is_relay_ext(),
{
    let balances = vec![(Account::Alice, Amount::Ksm(2002))];
    assert(balances@ == seq![(Account::Alice, Amount::Ksm(2002))]);
    RelayGenesis {
        balances,
        host_configuration: default_parachains_host_configuration(),
        safe_xcm_version: Some(2),
        block_number: 1,
    }
}

/// The genesis of the parachain of that id.
pub fn para_ext(parachain_id: u32) -> (r: ParaGenesis)
    ensures
        r.is_para_ext(parachain_id),
{
    let balances = vec![
        (Account::Alice, CurrencyId::Ztg, Amount::Ztg(10)),
        (Account::Alice, CurrencyId::ForeignParent, Amount::Ksm(10)),
        (Account::ZeitgeistTreasury, CurrencyId::ForeignParent, Amount::Ksm(1)),
    ];
    assert(balances@ == para_balances());
    ParaGenesis { balances, parachain_id }
}

/// Whatever its id, a parachain starts under this id, Alice holding ten of its tokens and ten of the
/// relay chain's, and the treasury one of the relay chain's.
pub proof fn law_parachain_starts_under_its_id(genesis: ParaGenesis, parachain_id: u32)
    requires
        genesis.is_para_ext(parachain_id),
    ensures
        genesis.parachain_id == parachain_id,
        genesis.balances@.len() == 3,
        genesis.balances@[0] == (Account::Alice, CurrencyId::Ztg, Amount::Ztg(10)),
        genesis.balances@[1] == (Account::Alice, CurrencyId::ForeignParent, Amount::Ksm(10)),
        genesis.balances@[2] == (
            Account::ZeitgeistTreasury,
            CurrencyId::ForeignParent,
            Amount::Ksm(1),
        ),
{
}

/// The relay chain starts in its first block, Alice alone holding tokens, and with a host configuration
/// under which it can start.
pub proof fn law_relay_chain_can_start(genesis: RelayGenesis)
    requires
        genesis.is_relay_ext(),
    ensures
        genesis.block_number == 1,
        genesis.safe_xcm_version == Some(2u32),
        genesis.balances@.len() == 1,
        genesis.balances@[0] == (Account::Alice, Amount::Ksm(2002)),
        genesis.host_configuration.is_consistent(),
{
}

/// Parachains start alike, whatever their ids.
pub proof fn law_parachains_start_alike(a: ParaGenesis, b: ParaGenesis, a_id: u32, b_id: u32)
    requires
        a.is_para_ext(a_id),
        b.is_para_ext(b_id),
    ensures
        a.balances@ == b.balances@,
{
}

} // verus!
