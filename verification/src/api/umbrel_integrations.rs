//! The neighbouring services of the node: the shapes of their answers, and
//! the fixed answers that stand in for them.

use vstd::prelude::*;
use vstd::string::StringExecFns;

verus! {

/// An account with the liquidity pool.
#[derive(Clone, Debug)]
pub struct PoolAccount {
    pub trader_key: String,
    pub value: u64,
    pub available_balance: u64,
    pub version: u32,
}

/// A swap between the chain and a channel; `swap_type` is `loop_in` or
/// `loop_out`.
#[derive(Clone, Debug)]
pub struct LoopSwap {
    pub id: String,
    pub swap_type: String,
    pub amount: u64,
    pub cost: u64,
    pub state: String,
    pub htlc_address: String,
}

/// What the block explorer knows.
#[derive(Clone, Copy, Debug, PartialEq, Eq, Structural)]
pub struct ElectrsData {
    pub block_height: u32,
    pub mempool_info: MempoolInfo,
    pub fee_estimates: FeeEstimates,
}

/// The state of the pool of unconfirmed transactions.
#[derive(Clone, Copy, Debug, PartialEq, Eq, Structural)]
pub struct MempoolInfo {
    pub size: u32,
    pub bytes: u64,
    pub usage: u64,
    pub maxmempool: u64,
}

/// Fee estimates in satoshis per virtual byte, for confirmation within one
/// block, three, six, and a day.
#[derive(Clone, Copy, Debug, PartialEq, Eq, Structural)]
pub struct FeeEstimates {
    pub fastest: u32,
    pub half_hour: u32,
    pub hour: u32,
    pub economy: u32,
}

/// How the Bitcoin node is connected.
#[derive(Clone, Debug)]
pub struct NetworkInfo {
    pub version: u32,
    pub subversion: String,
    pub protocol_version: u32,
    pub connections: u32,
    pub networks: Vec<NetworkDetails>,
}

/// One network that the Bitcoin node may use.
#[derive(Clone, Debug)]
pub struct NetworkDetails {
    pub name: String,
    pub limited: bool,
    pub reachable: bool,
    pub proxy: String,
    pub proxy_randomize_credentials: bool,
}

/// The faster a confirmation is wanted, the more it costs.
pub open spec fn fees_ordered(fees: FeeEstimates) -> bool {
    fees.fastest >= fees.half_hour >= fees.hour >= fees.economy
}

/// The pool of unconfirmed transactions as it is shown.
pub fn mock_mempool_info() -> (info: MempoolInfo)
    ensures
        info == (MempoolInfo { size: 5000, bytes: 25000000, usage: 25000000, maxmempool: 300000000 }),
        info.usage <= info.maxmempool,
{
    MempoolInfo { size: 5000, bytes: 25000000, usage: 25000000, maxmempool: 300000000 }
}

/// What is shown of the block explorer.
pub fn get_electrs_data() -> (data: ElectrsData)
    ensures
        data.block_height == 835000,
        data.mempool_info == (MempoolInfo {
            size: 5000,
            bytes: 25000000,
            usage: 25000000,
            maxmempool: 300000000,
        }),
        data.fee_estimates == (FeeEstimates { fastest: 50, half_hour: 25, hour: 15, economy: 5 }),
        fees_ordered(data.fee_estimates),
{
    ElectrsData {
        block_height: 835000,
        mempool_info: mock_mempool_info(),
        fee_estimates: FeeEstimates { fastest: 50, half_hour: 25, hour: 15, economy: 5 },
    }
}

/// The pool accounts that are shown.
pub fn mock_pool_accounts() -> (accounts: Vec<PoolAccount>)
    ensures
        accounts@.len() == 1,
        accounts@[0].trader_key@ == "02abc123456789def"@,
        accounts@[0].value == 1000000,
        accounts@[0].available_balance == 800000,
        accounts@[0].version == 1,
{
    let mut accounts: Vec<PoolAccount> = Vec::new();
    accounts.push(
        PoolAccount {
            trader_key: String::from_str("02abc123456789def"),
            value: 1000000,
            available_balance: 800000,
            version: 1,
        },
    );
    accounts
}

/// The swaps that are shown.
pub fn mock_loop_swaps() -> (swaps: Vec<LoopSwap>)
    ensures
        swaps@.len() == 1,
        swaps@[0].id@ == "swap_123456"@,
        swaps@[0].swap_type@ == "loop_out"@,
        swaps@[0].amount == 500000,
        swaps@[0].cost == 2500,
        swaps@[0].state@ == "success"@,
        swaps@[0].htlc_address@ == "bc1qw508d6qejxtdg4y5r3zarvary0c5xw7kv8f3t4"@,
{
    let mut swaps: Vec<LoopSwap> = Vec::new();
    swaps.push(
        LoopSwap {
            id: String::from_str("swap_123456"),
            swap_type: String::from_str("loop_out"),
            amount: 500000,
            cost: 2500,
            state: String::from_str("success"),
            htlc_address: String::from_str("bc1qw508d6qejxtdg4y5r3zarvary0c5xw7kv8f3t4"),
        },
    );
    swaps
}

/// How the Bitcoin node is shown to be connected.
pub fn mock_network_info() -> (info: NetworkInfo)
    ensures
        info.version == 250000,
        info.subversion@ == "/Satoshi:25.0.0/"@,
        info.protocol_version == 70016,
        info.connections == 8,
        info.networks@.len() == 1,
        info.networks@[0].name@ == "ipv4"@,
        !info.networks@[0].limited,
        info.networks@[0].reachable,
        info.networks@[0].proxy@ == Seq::<char>::empty(),
        !info.networks@[0].proxy_randomize_credentials,
{
    let mut networks: Vec<NetworkDetails> = Vec::new();
    networks.push(
        NetworkDetails {
            name: String::from_str("ipv4"),
            limited: false,
            reachable: true,
            proxy: String::new(),
            proxy_randomize_credentials: false,
        },
    );
    NetworkInfo {
        version: 250000,
        subversion: String::from_str("/Satoshi:25.0.0/"),
        protocol_version: 70016,
        connections: 8,
        networks,
    }
}

} // verus!
