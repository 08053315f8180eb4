use dazno_umbrel::api::lightning_client::LightningClient;
use dazno_umbrel::api::local_lightning_client::{
    channel_from_report, fallback_channels, fallback_node_info, get_local_channel_balance,
    get_local_wallet_balance, reinterpret, ReportedChannel,
};
use dazno_umbrel::api::mcp_client::{
    action_result_url, bearer_header, health_url, metrics_url, performance_analysis_url,
    recommendations_url, ActionType, Priority,
};
use dazno_umbrel::encoding::decimal_string;
use dazno_umbrel::api::umbrel_integrations::{
    get_electrs_data, mock_loop_swaps, mock_mempool_info, mock_network_info, mock_pool_accounts,
};
use dazno_umbrel::auth::{Timestamp, User};
use dazno_umbrel::handlers::actions::{
    process_recommendation_action, ActionRequest, ActionType as Verdict,
};
use dazno_umbrel::models::recommendation::RecommendationStatus;
use dazno_umbrel::routes::auth::{
    auth_status, login_destination, new_password_confirmed, ChangePasswordRequest,
};
use dazno_umbrel::utils::config::{read_port, AppConfig, ConfigValues};

fn user(must_change_password: bool) -> User {
    User {
        id: 1,
        username: "admin".to_string(),
        password_hash: String::new(),
        created_at: Timestamp { secs: 0, nanos: 0 },
        last_login: None,
        is_admin: true,
        must_change_password,
    }
}

#[test]
fn stand_in_node() {
    let client = LightningClient::new();
    let info = client.get_node_info();
    assert_eq!(info.alias, "Dazno Lightning Node");
    assert_eq!(
        info.pubkey,
        "02d7f8c2abc123456789abcdef123456789abcdef123456789abcdef123456789ab"
    );
    assert_eq!((info.num_channels, info.num_active_channels), (5, 4));
    assert_eq!(info.block_height, 830000);
    assert!(info.synced_to_chain);
    let channels = client.list_channels();
    assert_eq!(channels.len(), 2);
    assert_eq!(channels[0].channel_id, "123456789012345678");
    assert_eq!(channels[1].capacity, 2000000);
    for channel in &channels {
        assert_eq!(channel.local_balance + channel.remote_balance, channel.capacity);
        assert!(channel.active);
    }
    assert_eq!(client.get_balance(), (1500000, 800000));
}

#[test]
fn fallback_of_the_local_node() {
    let info = fallback_node_info();
    assert_eq!(info.alias, "Dazno Umbrel Node (Mock)");
    assert_eq!(info.num_channels, 8);
    assert_eq!(info.num_active_channels, 7);
    assert_eq!(info.local_balance, 2500000);
    assert_eq!(info.remote_balance, 3200000);
    assert_eq!(info.version, "0.17.4-beta");
    let channels = fallback_channels();
    assert_eq!(channels.len(), 1);
    assert_eq!(channels[0].channel_id, "825645821654876544");
    assert_eq!(channels[0].peer_alias, "Lightning Store (Mock)");
    assert_eq!(channels[0].pending_htlcs, 2);
    assert_eq!(channels[0].total_satoshis_sent, 15000000);
    let wallet = get_local_wallet_balance();
    assert_eq!(wallet.total_balance, 2500000);
    assert_eq!(wallet.confirmed_balance + wallet.unconfirmed_balance, wallet.total_balance);
    let held = get_local_channel_balance();
    assert_eq!((held.balance, held.pending_open_balance), (5500000, 100000));
}

#[test]
fn reported_channel_is_read_bit_for_bit() {
    assert_eq!(reinterpret(0), 0);
    assert_eq!(reinterpret(5), 5);
    assert_eq!(reinterpret(i64::MAX), i64::MAX as u64);
    assert_eq!(reinterpret(-1), u64::MAX);
    assert_eq!(reinterpret(i64::MIN), 1u64 << 63);
    assert_eq!(reinterpret(-12345), -12345i64 as u64);
    let channel = channel_from_report(ReportedChannel {
        chan_id: "42".to_string(),
        channel_point: "txid:1".to_string(),
        remote_pubkey: "03aa".to_string(),
        capacity: 1000,
        local_balance: 400,
        remote_balance: 600,
        active: true,
        private: true,
        fee_per_kw: 250,
        commit_fee: -1,
        pending_htlcs: 3,
        total_satoshis_sent: 10,
        total_satoshis_received: 20,
    });
    assert_eq!(channel.channel_id, "42");
    assert_eq!(channel.channel_point, "txid:1");
    assert_eq!(channel.peer_pubkey, "03aa");
    assert_eq!(channel.peer_alias, "");
    assert_eq!((channel.capacity, channel.local_balance, channel.remote_balance), (1000, 400, 600));
    assert!(channel.active && channel.private);
    assert_eq!(channel.fee_per_kw, 250);
    assert_eq!((channel.base_fee_msat, channel.fee_rate_milli_msat), (0, 0));
    assert_eq!(channel.commit_fee, u64::MAX);
    assert_eq!(channel.pending_htlcs, 3);
    assert_eq!((channel.total_satoshis_sent, channel.total_satoshis_received), (10, 20));
}

#[test]
fn neighbouring_services() {
    let data = get_electrs_data();
    assert_eq!(data.block_height, 835000);
    assert_eq!(data.mempool_info, mock_mempool_info());
    assert_eq!(data.mempool_info.maxmempool, 300000000);
    assert_eq!(
        (
            data.fee_estimates.fastest,
            data.fee_estimates.half_hour,
            data.fee_estimates.hour,
            data.fee_estimates.economy
        ),
        (50, 25, 15, 5)
    );
    let accounts = mock_pool_accounts();
    assert_eq!(accounts.len(), 1);
    assert_eq!(accounts[0].trader_key, "02abc123456789def");
    assert_eq!(accounts[0].available_balance, 800000);
    let swaps = mock_loop_swaps();
    assert_eq!(swaps[0].swap_type, "loop_out");
    assert_eq!(swaps[0].cost, 2500);
    let network = mock_network_info();
    assert_eq!(network.subversion, "/Satoshi:25.0.0/");
    assert_eq!(network.networks.len(), 1);
    assert_eq!(network.networks[0].name, "ipv4");
    assert!(network.networks[0].reachable);
}

#[test]
fn names_of_actions_and_urgency() {
    assert_eq!(ActionType::OpenChannel.action_type_display(), "Open Channel");
    assert_eq!(ActionType::CloseChannel.action_type_display(), "Close Channel");
    assert_eq!(ActionType::AdjustFees.action_type_display(), "Adjust Fees");
    assert_eq!(ActionType::RebalanceChannel.action_type_display(), "Rebalance Channel");
    assert_eq!(Priority::High.priority_class(), "high");
    assert_eq!(Priority::Medium.priority_class(), "medium");
    assert_eq!(Priority::Low.priority_class(), "low");
    assert_eq!(RecommendationStatus::default(), RecommendationStatus::Pending);
    assert!(!RecommendationStatus::Pending.is_final());
    assert!(!RecommendationStatus::Approved.is_final());
    assert!(RecommendationStatus::Rejected.is_final());
    assert!(RecommendationStatus::Executed.is_final());
    assert!(RecommendationStatus::Failed.is_final());
}

#[test]
fn resources_of_the_recommendation_service() {
    assert_eq!(
        recommendations_url("https://api.dazno.de", "02a1"),
        "https://api.dazno.de/api/v1/recommendations/02a1"
    );
    assert_eq!(action_result_url("http://h"), "http://h/api/v1/actions/result");
    assert_eq!(health_url("http://h"), "http://h/api/v1/health");
    assert_eq!(metrics_url(""), "/api/v1/metrics");
    assert_eq!(
        performance_analysis_url("http://h", "02a1", 30),
        "http://h/api/v1/analysis/02a1/performance?days=30"
    );
    assert_eq!(
        performance_analysis_url("http://h", "", u32::MAX),
        "http://h/api/v1/analysis//performance?days=4294967295"
    );
    assert_eq!(bearer_header("test-api-key-123"), "Bearer test-api-key-123");
    assert_eq!(decimal_string(0), "0");
    assert_eq!(decimal_string(10), "10");
    assert_eq!(decimal_string(u64::MAX), "18446744073709551615");
}

#[test]
fn verdict_on_a_recommendation_is_answered() {
    let response = process_recommendation_action(ActionRequest {
        recommendation_id: "rec_001".to_string(),
        action: Verdict::Approve,
    });
    assert!(response.success);
    assert_eq!(response.message, "Recommendation rec_001 approved");
    let response = process_recommendation_action(ActionRequest {
        recommendation_id: "".to_string(),
        action: Verdict::Reject,
    });
    assert!(response.success);
    assert_eq!(response.message, "Recommendation  rejected");
}

#[test]
fn login_pages() {
    assert_eq!(login_destination(&user(true)), "/change-password");
    assert_eq!(login_destination(&user(false)), "/");
    let request = ChangePasswordRequest {
        current_password: "old".to_string(),
        new_password: "New#12345".to_string(),
        confirm_password: "New#12345".to_string(),
    };
    assert!(new_password_confirmed(&request));
    let request = ChangePasswordRequest {
        current_password: "old".to_string(),
        new_password: "New#12345".to_string(),
        confirm_password: "New#12346".to_string(),
    };
    assert!(!new_password_confirmed(&request));
    let status = auth_status(Some(&user(true)));
    assert!(status.authenticated);
    assert_eq!(status.username.as_deref(), Some("admin"));
    assert!(status.must_change_password && status.is_admin);
    let status = auth_status(None);
    assert!(!status.authenticated);
    assert!(status.username.is_none());
    assert!(!status.must_change_password && !status.is_admin);
}

#[test]
fn settings() {
    let config = AppConfig::default();
    assert_eq!(config.mcp_api_url, "https://api.dazno.de");
    assert!(config.mcp_api_key.is_none());
    assert_eq!(config.lnd_host, "localhost");
    assert_eq!(config.lnd_port, 10009);
    assert_eq!(config.lnd_macaroon_path, "/lnd/admin.macaroon");
    assert_eq!(config.lnd_tls_cert_path, "/lnd/tls.cert");
    assert_eq!(config.server_port, 3000);

    let config = AppConfig::from_values(ConfigValues {
        mcp_api_url: Some("http://mcp".to_string()),
        mcp_api_key: Some("key".to_string()),
        lnd_host: None,
        lnd_port: Some("8080".to_string()),
        lnd_macaroon_path: None,
        lnd_tls_cert_path: Some("/tls".to_string()),
        server_port: Some("70000".to_string()),
    });
    assert_eq!(config.mcp_api_url, "http://mcp");
    assert_eq!(config.mcp_api_key.as_deref(), Some("key"));
    assert_eq!(config.lnd_host, "localhost");
    assert_eq!(config.lnd_port, 8080);
    assert_eq!(config.lnd_macaroon_path, "/lnd/admin.macaroon");
    assert_eq!(config.lnd_tls_cert_path, "/tls");
    assert_eq!(config.server_port, 3000);

    assert_eq!(read_port(&Some("65535".to_string()), 1), 65535);
    assert_eq!(read_port(&Some("65536".to_string()), 1), 1);
    assert_eq!(read_port(&Some("+80".to_string()), 1), 80);
    assert_eq!(read_port(&Some("".to_string()), 1), 1);
    assert_eq!(read_port(&Some(" 80".to_string()), 1), 1);
    assert_eq!(read_port(&Some("http".to_string()), 1), 1);
    assert_eq!(read_port(&None, 9), 9);
}
