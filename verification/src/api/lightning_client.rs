//! A stand-in for the Lightning node that answers with fixed data.

use vstd::prelude::*;
use vstd::string::StringExecFns;

verus! {

/// What a node tells about itself.
#[derive(Clone, Debug)]
pub struct NodeInfo {
    pub pubkey: String,
    pub alias: String,
    pub num_channels: u32,
    pub num_active_channels: u32,
    pub block_height: u32,
    pub synced_to_chain: bool,
}

/// One channel of a node.
#[derive(Clone, Debug)]
pub struct ChannelInfo {
    pub channel_id: String,
    pub peer_pubkey: String,
    pub capacity: u64,
    pub local_balance: u64,
    pub remote_balance: u64,
    pub active: bool,
}

/// What is needed to open a channel.
#[derive(Clone, Debug)]
pub struct ChannelParams {
    pub peer_pubkey: String,
    pub amount: u64,
    pub fee_rate: Option<u32>,
}

/// The stand-in node.
#[derive(Debug)]
pub struct LightningClient {
    connected: bool,
}

/// The two channels of the stand-in node balance their books: what is on
/// either side adds up to the capacity.
pub open spec fn balances_add_up(channel: ChannelInfo) -> bool {
    channel.local_balance + channel.remote_balance == channel.capacity
}

impl LightningClient {
    /// A stand-in node, connected from the start.
    pub fn new() -> (client: Self)
        ensures
            client.is_connected(),
    {
        LightningClient { connected: true }
    }

    /// The stand-in is connected.
    pub closed spec fn is_connected(&self) -> bool {
        self.connected
    }

    /// What the stand-in node tells about itself.
    pub fn get_node_info(&self) -> (info: NodeInfo)
        ensures
            info.pubkey@ == "02d7f8c2abc123456789abcdef123456789abcdef123456789abcdef123456789ab"@,
            info.alias@ == "Dazno Lightning Node"@,
            info.num_channels == 5,
            info.num_active_channels == 4,
            info.block_height == 830000,
            info.synced_to_chain,
    {
        NodeInfo {
            pubkey: String::from_str(
                "02d7f8c2abc123456789abcdef123456789abcdef123456789abcdef123456789ab",
            ),
            alias: String::from_str("Dazno Lightning Node"),
            num_channels: 5,
            num_active_channels: 4,
            block_height: 830000,
            synced_to_chain: true,
        }
    }

    /// The channels of the stand-in node.
    pub fn list_channels(&self) -> (channels: Vec<ChannelInfo>)
        ensures
            channels@.len() == 2,
            channels@[0].channel_id@ == "123456789012345678"@,
            channels@[0].peer_pubkey@
                == "03abc123456789abcdef123456789abcdef123456789abcdef123456789abcdef12"@,
            channels@[0].capacity == 1000000,
            channels@[0].local_balance == 400000,
            channels@[0].remote_balance == 600000,
            channels@[0].active,
            channels@[1].channel_id@ == "987654321098765432"@,
            channels@[1].peer_pubkey@
                == "03def987654321abcdef987654321abcdef987654321abcdef987654321abcdef"@,
            channels@[1].capacity == 2000000,
            channels@[1].local_balance == 1200000,
            channels@[1].remote_balance == 800000,
            channels@[1].active,
            forall|i: int| 0 <= i < channels@.len() ==> balances_add_up(#[trigger] channels@[i]),
    {
        let mut channels: Vec<ChannelInfo> = Vec::new();
        channels.push(
            ChannelInfo {
                channel_id: String::from_str("123456789012345678"),
                peer_pubkey: String::from_str(
                    "03abc123456789abcdef123456789abcdef123456789abcdef123456789abcdef12",
                ),
                capacity: 1000000,
                local_balance: 400000,
                remote_balance: 600000,
                active: true,
            },
        );
        channels.push(
            ChannelInfo {
                channel_id: String::from_str("987654321098765432"),
                peer_pubkey: String::from_str(
                    "03def987654321abcdef987654321abcdef987654321abcdef987654321abcdef",
                ),
                capacity: 2000000,
                local_balance: 1200000,
                remote_balance: 800000,
                active: true,
            },
        );
        channels
    }

    /// The balance of the stand-in wallet in satoshis: confirmed, then
    /// unconfirmed.
    pub fn get_balance(&self) -> (balance: (u64, u64))
        ensures
            balance == (1500000u64, 800000u64),
    {
        (1500000, 800000)
    }
}

} // verus!
