//! The node of the machine the dashboard runs on: the shapes of its
//! answers, and the fixed answers given while the node cannot be reached.

use vstd::prelude::*;
use vstd::string::StringExecFns;

verus! {

/// What the local node tells about itself.
#[derive(Clone, Debug)]
pub struct LocalNodeInfo {
    pub pubkey: String,
    pub alias: String,
    pub num_channels: u32,
    pub num_active_channels: u32,
    pub local_balance: u64,
    pub remote_balance: u64,
    pub block_height: u32,
    pub synced_to_chain: bool,
    pub synced_to_graph: bool,
    pub version: String,
    pub commit_hash: String,
}

/// One channel of the local node.
#[derive(Clone, Debug)]
pub struct LocalChannelInfo {
    pub channel_id: String,
    pub channel_point: String,
    pub peer_pubkey: String,
    pub peer_alias: String,
    pub capacity: u64,
    pub local_balance: u64,
    pub remote_balance: u64,
    pub active: bool,
    pub private: bool,
    pub fee_per_kw: u64,
    pub base_fee_msat: u64,
    pub fee_rate_milli_msat: u64,
    pub commit_fee: u64,
    pub pending_htlcs: u32,
    pub total_satoshis_sent: u64,
    pub total_satoshis_received: u64,
}

/// What is needed to open a channel from the local node.
#[derive(Clone, Debug)]
pub struct LocalChannelParams {
    pub peer_pubkey: String,
    pub amount: u64,
    pub fee_rate: Option<u32>,
    pub private: bool,
    pub push_sat: Option<u64>,
    pub min_htlc_msat: Option<u64>,
}

/// The wallet of the local node, in satoshis.
#[derive(Clone, Copy, Debug, PartialEq, Eq, Structural)]
pub struct LocalWalletBalance {
    pub total_balance: u64,
    pub confirmed_balance: u64,
    pub unconfirmed_balance: u64,
}

/// What the local node holds in channels, in satoshis.
#[derive(Clone, Copy, Debug, PartialEq, Eq, Structural)]
pub struct LocalChannelBalance {
    pub balance: u64,
    pub pending_open_balance: u64,
}

/// A channel as the node's interface reports it: amounts are signed there.
#[derive(Clone, Debug)]
pub struct ReportedChannel {
    pub chan_id: String,
    pub channel_point: String,
    pub remote_pubkey: String,
    pub capacity: i64,
    pub local_balance: i64,
    pub remote_balance: i64,
    pub active: bool,
    pub private: bool,
    pub fee_per_kw: i64,
    pub commit_fee: i64,
    pub pending_htlcs: u32,
    pub total_satoshis_sent: i64,
    pub total_satoshis_received: i64,
}

/// A signed amount read as unsigned, bit for bit.
pub open spec fn reinterpreted(amount: i64) -> u64 {
    if amount >= 0 {
        amount as u64
    } else {
        (amount + 0x1_0000_0000_0000_0000) as u64
    }
}

/// Reads a signed amount as unsigned, bit for bit.
pub fn reinterpret(amount: i64) -> (read: u64)
    ensures
        read == reinterpreted(amount),
{
    if amount >= 0 {
        amount as u64
    } else {
        let below: u64 = (-(amount + 1)) as u64;
        u64::MAX - below
    }
}

/// The channel that the dashboard shows for a reported one. Alias and fee
/// policy are not part of the report and stay empty.
pub fn channel_from_report(report: ReportedChannel) -> (channel: LocalChannelInfo)
    ensures
        channel.channel_id@ == report.chan_id@,
        channel.channel_point@ == report.channel_point@,
        channel.peer_pubkey@ == report.remote_pubkey@,
        channel.peer_alias@ == Seq::<char>::empty(),
        channel.capacity == reinterpreted(report.capacity),
        channel.local_balance == reinterpreted(report.local_balance),
        channel.remote_balance == reinterpreted(report.remote_balance),
        channel.active == report.active,
        channel.private == report.private,
        channel.fee_per_kw == reinterpreted(report.fee_per_kw),
        channel.base_fee_msat == 0,
        channel.fee_rate_milli_msat == 0,
        channel.commit_fee == reinterpreted(report.commit_fee),
        channel.pending_htlcs == report.pending_htlcs,
        channel.total_satoshis_sent == reinterpreted(report.total_satoshis_sent),
        channel.total_satoshis_received == reinterpreted(report.total_satoshis_received),
{
    LocalChannelInfo {
        channel_id: report.chan_id,
        channel_point: report.channel_point,
        peer_pubkey: report.remote_pubkey,
        peer_alias: String::new(),
        capacity: reinterpret(report.capacity),
        local_balance: reinterpret(report.local_balance),
        remote_balance: reinterpret(report.remote_balance),
        active: report.active,
        private: report.private,
        fee_per_kw: reinterpret(report.fee_per_kw),
        base_fee_msat: 0,
        fee_rate_milli_msat: 0,
        commit_fee: reinterpret(report.commit_fee),
        pending_htlcs: report.pending_htlcs,
        total_satoshis_sent: reinterpret(report.total_satoshis_sent),
        total_satoshis_received: reinterpret(report.total_satoshis_received),
    }
}

/// What is shown of the node while it cannot be reached.
pub fn fallback_node_info() -> (info: LocalNodeInfo)
    ensures
        info.pubkey@ == "02a1b2c3d4e5f6789abcdef123456789abcdef123456789abcdef123456789abcdef"@,
        info.alias@ == "Dazno Umbrel Node (Mock)"@,
        info.num_channels == 8,
        info.num_active_channels == 7,
        info.local_balance == 2500000,
        info.remote_balance == 3200000,
        info.block_height == 835000,
        info.synced_to_chain,
        info.synced_to_graph,
        info.version@ == "0.17.4-beta"@,
        info.commit_hash@ == "v0.17.4-beta"@,
{
    LocalNodeInfo {
        pubkey: String::from_str(
            "02a1b2c3d4e5f6789abcdef123456789abcdef123456789abcdef123456789abcdef",
        ),
        alias: String::from_str("Dazno Umbrel Node (Mock)"),
        num_channels: 8,
        num_active_channels: 7,
        local_balance: 2500000,
        remote_balance: 3200000,
        block_height: 835000,
        synced_to_chain: true,
        synced_to_graph: true,
        version: String::from_str("0.17.4-beta"),
        commit_hash: String::from_str("v0.17.4-beta"),
    }
}

/// The one channel that is shown while the node cannot be reached.
pub fn fallback_channels() -> (channels: Vec<LocalChannelInfo>)
    ensures
        channels@.len() == 1,
        channels@[0].channel_id@ == "825645821654876544"@,
        channels@[0].channel_point@
            == "a1b2c3d4e5f6789012345678901234567890123456789012345678901234567890:0"@,
        channels@[0].peer_pubkey@
            == "03fedcba9876543210fedcba9876543210fedcba9876543210fedcba9876543210fe"@,
        channels@[0].peer_alias@ == "Lightning Store (Mock)"@,
        channels@[0].capacity == 2000000,
        channels@[0].local_balance == 800000,
        channels@[0].remote_balance == 1200000,
        channels@[0].active,
        !channels@[0].private,
        channels@[0].fee_per_kw == 2500,
        channels@[0].base_fee_msat == 1000,
        channels@[0].fee_rate_milli_msat == 100,
        channels@[0].commit_fee == 5000,
        channels@[0].pending_htlcs == 2,
        channels@[0].total_satoshis_sent == 15000000,
        channels@[0].total_satoshis_received == 8000000,
{
    let mut channels: Vec<LocalChannelInfo> = Vec::new();
    channels.push(
        LocalChannelInfo {
            channel_id: String::from_str("825645821654876544"),
            channel_point: String::from_str(
                "a1b2c3d4e5f6789012345678901234567890123456789012345678901234567890:0",
            ),
            peer_pubkey: String::from_str(
                "03fedcba9876543210fedcba9876543210fedcba9876543210fedcba9876543210fe",
            ),
            peer_alias: String::from_str("Lightning Store (Mock)"),
            capacity: 2000000,
            local_balance: 800000,
            remote_balance: 1200000,
            active: true,
            private: false,
            fee_per_kw: 2500,
            base_fee_msat: 1000,
            fee_rate_milli_msat: 100,
            commit_fee: 5000,
            pending_htlcs: 2,
            total_satoshis_sent: 15000000,
            total_satoshis_received: 8000000,
        },
    );
    channels
}

/// The wallet balance that is shown for the local node.
pub fn get_local_wallet_balance() -> (balance: LocalWalletBalance)
    ensures
        balance == (LocalWalletBalance {
            total_balance: 2500000,
            confirmed_balance: 2300000,
            unconfirmed_balance: 200000,
        }),
        balance.total_balance == balance.confirmed_balance + balance.unconfirmed_balance,
{
    LocalWalletBalance {
        total_balance: 2500000,
        confirmed_balance: 2300000,
        unconfirmed_balance: 200000,
    }
}

/// The channel balance that is shown for the local node.
pub fn get_local_channel_balance() -> (balance: LocalChannelBalance)
    ensures
        balance == (LocalChannelBalance { balance: 5500000, pending_open_balance: 100000 }),
{
    LocalChannelBalance { balance: 5500000, pending_open_balance: 100000 }
}

} // verus!
