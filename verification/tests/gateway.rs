use spectacles::brokers::{queue_name, subscription_queue_name};
use spectacles::gateway::manager::{bot_token, Cluster, ShardManager, ShardStrategy, API_BASE};
use spectacles::gateway::shard::{
    ConnectionState, Heartbeat, PacketData, Shard, ShardAction, GATEWAY_URL, GATEWAY_VERSION,
    LARGE_THRESHOLD,
};
use spectacles::models::gateway::{GatewayBot, GatewayEvent, Opcodes, SessionStartLimit};
use spectacles::models::presence::{ClientActivity, ClientPresence, Status};
use spectacles::models::Snowflake;
use spectacles::sharder::{
    argv_problem, parse_argv, shard_for_guild, ArgvProblem, SharderArgv, SpawnerOptions,
};

fn gateway(shards: usize) -> GatewayBot {
    GatewayBot {
        url: "wss://gateway.discord.gg".to_string(),
        shards,
        session_start_limit: SessionStartLimit::default(),
    }
}

#[test]
fn new_shard_awaits_hello() {
    let s = Shard::new("Bot t".to_string(), [1, 4]);
    assert_eq!(s.current_state, ConnectionState::Handshake);
    assert_eq!(s.session_id, None);
    assert_eq!(s.interval, None);
    assert_eq!(s.presence.status, "online");
    assert_eq!(s.heartbeat, Heartbeat { acknowledged: false, seq: 0 });
    assert_eq!(s.info, [1, 4]);
}

#[test]
fn hello_during_handshake_identifies() {
    let mut s = Shard::new("Bot t".to_string(), [0, 1]);
    let a = s.fulfill_gateway(Opcodes::Hello, None, PacketData::Hello { heartbeat_interval: 41250 });
    assert_eq!(a, ShardAction::Identify);
    assert_eq!(s.interval, Some(41250));
    let a = s.fulfill_gateway(Opcodes::Hello, None, PacketData::Hello { heartbeat_interval: 0 });
    assert_eq!(a, ShardAction::Identify);
    assert_eq!(s.interval, Some(41250));
}

#[test]
fn ready_records_the_session_and_a_later_hello_reconnects() {
    let mut s = Shard::new("Bot t".to_string(), [0, 1]);
    let a = s.fulfill_gateway(
        Opcodes::Dispatch,
        Some(GatewayEvent::READY),
        PacketData::Ready { session_id: "abc".to_string() },
    );
    assert_eq!(a, ShardAction::NoneAction);
    assert_eq!(s.current_state, ConnectionState::Connected);
    assert_eq!(s.session_id, Some("abc".to_string()));
    let a = s.fulfill_gateway(Opcodes::Hello, None, PacketData::Hello { heartbeat_interval: 10 });
    assert_eq!(a, ShardAction::Autoreconnect);
}

#[test]
fn other_packets() {
    let mut s = Shard::new("Bot t".to_string(), [0, 1]);
    let before = s.clone();
    assert_eq!(s.fulfill_gateway(Opcodes::Reconnect, None, PacketData::Other), ShardAction::Reconnect);
    assert_eq!(
        s.fulfill_gateway(Opcodes::InvalidSession, None, PacketData::InvalidSession { resumable: true }),
        ShardAction::Resume
    );
    assert_eq!(
        s.fulfill_gateway(Opcodes::InvalidSession, None, PacketData::InvalidSession { resumable: false }),
        ShardAction::Identify
    );
    assert_eq!(s.fulfill_gateway(Opcodes::HeartbeatAck, None, PacketData::Other), ShardAction::NoneAction);
    assert_eq!(
        s.fulfill_gateway(Opcodes::Dispatch, Some(GatewayEvent::MESSAGE_CREATE), PacketData::Other),
        ShardAction::NoneAction
    );
    assert_eq!(s, before);
}

#[test]
fn hello_while_resuming_is_ignored() {
    let mut s = Shard::new("Bot t".to_string(), [0, 1]);
    s.current_state = ConnectionState::Resume;
    let before = s.clone();
    assert_eq!(
        s.fulfill_gateway(Opcodes::Hello, None, PacketData::Hello { heartbeat_interval: 5 }),
        ShardAction::NoneAction
    );
    assert_eq!(s, before);
}

#[test]
fn identify_packet() {
    let mut s = Shard::new("Bot t".to_string(), [2, 3]);
    s.change_status(Status::Idle);
    let p = s.identify("linux");
    assert_eq!(p.token, "Bot t");
    assert_eq!(p.shard, [2, 3]);
    assert_eq!(p.large_threshold, LARGE_THRESHOLD);
    assert_eq!(p.version, GATEWAY_VERSION);
    assert!(!p.compress);
    assert_eq!(p.properties.os, "linux");
    assert_eq!(p.properties.browser, "spectacles-rs");
    assert_eq!(p.presence.unwrap().status, "idle");
}

#[test]
fn presence_changes() {
    let mut s = Shard::new("Bot t".to_string(), [0, 1]);
    s.change_activity(ClientActivity::game("chess"));
    assert_eq!(s.presence.game, Some(ClientActivity::game("chess")));
    let p = ClientPresence { since: Some(5), game: None, status: "dnd".to_string(), afk: true };
    s.change_presence(p.clone());
    assert_eq!(s.presence, p);
}

#[test]
fn reconnection_choices() {
    let mut s = Shard::new("Bot t".to_string(), [0, 1]);
    assert_eq!(s.autoreconnect(), ShardAction::Reconnect);
    s.session_id = Some("abc".to_string());
    assert_eq!(s.autoreconnect(), ShardAction::Reconnect);
    s.heartbeat.seq = 12;
    assert_eq!(s.autoreconnect(), ShardAction::Resume);
    let r = s.resume_packet();
    assert_eq!((r.session_id.as_str(), r.seq, r.token.as_str()), ("abc", 12, "Bot t"));
    assert_eq!(s.heartbeat().seq, 12);
    s.reset_values();
    assert_eq!(s.session_id, None);
    assert_eq!(s.current_state, ConnectionState::Disconnected);
    assert_eq!(s.heartbeat, Heartbeat { acknowledged: true, seq: 0 });
    assert_eq!(s.autoreconnect(), ShardAction::Reconnect);
    s.begin_dial();
    assert_eq!(s.current_state, ConnectionState::Connected);
    s.finish_dial();
    assert_eq!(s.current_state, ConnectionState::Handshake);
    assert_eq!(
        s.fulfill_gateway(Opcodes::Hello, None, PacketData::Hello { heartbeat_interval: 9 }),
        ShardAction::Identify
    );
}

#[test]
fn bot_tokens() {
    assert_eq!(bot_token("abc".to_string()), "Bot abc");
    assert_eq!(bot_token("Bot abc".to_string()), "Bot abc");
    assert_eq!(bot_token(bot_token("x".to_string())), "Bot x");
    assert_eq!(bot_token("Bo".to_string()), "Bot Bo");
}

#[test]
fn manager_counts_and_order() {
    let m = ShardManager::new("abc".to_string(), ShardStrategy::Recommended, gateway(3));
    assert_eq!(m.token, "Bot abc");
    assert_eq!(m.total_shards, 3);
    assert_eq!(m.ws_uri, "wss://gateway.discord.gg");
    assert_eq!(m.start_spawn(), vec![[0, 3], [1, 3], [2, 3]]);
    let m = ShardManager::new("abc".to_string(), ShardStrategy::SpawnAmount(2), gateway(3));
    assert_eq!(m.total_shards, 2);
    let m = ShardManager::new("abc".to_string(), ShardStrategy::SpawnAmount(0), gateway(3));
    assert!(m.start_spawn().is_empty());
    assert_eq!(API_BASE, "https://discordapp.com/api/v6");
    assert!(GATEWAY_URL.starts_with("wss://"));
}

#[test]
fn manager_handles_packets() {
    let mut s = Shard::new("Bot t".to_string(), [0, 1]);
    let (forward, action) = ShardManager::handle_packet(
        &mut s,
        Opcodes::Dispatch,
        Some(GatewayEvent::READY),
        PacketData::Ready { session_id: "s".to_string() },
    );
    assert!(forward);
    assert_eq!(action, ShardAction::NoneAction);
    assert_eq!(s.session_id, Some("s".to_string()));
    let (forward, action) = ShardManager::handle_packet(&mut s, Opcodes::Reconnect, None, PacketData::Other);
    assert!(!forward);
    assert_eq!(action, ShardAction::Reconnect);
}

#[test]
fn cluster_spawns_shards() {
    let c = Cluster::new("tok".to_string());
    assert_eq!(c.token, "Bot tok");
    let shards = c.spawn(2);
    assert_eq!(shards.len(), 2);
    assert_eq!(shards[1].info, [1, 2]);
    assert_eq!(shards[0].token, "Bot tok");
    assert_eq!(c.spawn_recommended(&gateway(4)).len(), 4);
}

#[test]
fn guild_shard_routing() {
    assert_eq!(shard_for_guild(Snowflake(81384788765712384), 1), 0);
    assert_eq!(shard_for_guild(Snowflake(81384788765712384), 10), (81384788765712384u64 >> 22) % 10);
    assert_eq!(shard_for_guild(Snowflake(4194303), 3), 0);
    assert_eq!(shard_for_guild(Snowflake(4194304 * 5), 3), 2);
}

fn some(s: &str) -> Option<String> {
    Some(s.to_string())
}

#[test]
fn sharder_arguments_before_environment() {
    let args = SharderArgv { url: some("amqp://a"), group: None, subgroup: some("sub"), count: some("4"), token: None };
    let env = SharderArgv { url: some("amqp://env"), group: some("g"), subgroup: None, count: some("x"), token: some("t") };
    assert_eq!(argv_problem(&args, &env), None);
    let o = parse_argv(&args, &env);
    assert_eq!(o.amqp_url, "amqp://a");
    assert_eq!(o.amqp_group, "g");
    assert_eq!(o.amqp_subgroup, some("sub"));
    assert_eq!(o.shard_count, Some(4));
    assert_eq!(o.token, "t");
    assert_eq!(o.config_path, None);
    assert_eq!(o.strategy(), ShardStrategy::SpawnAmount(4));
}

#[test]
fn sharder_argument_problems() {
    let none = SharderArgv::default();
    assert_eq!(argv_problem(&none, &none), Some(ArgvProblem::NoUrl));
    let url = SharderArgv { url: some("u"), ..SharderArgv::default() };
    assert_eq!(argv_problem(&url, &none), Some(ArgvProblem::NoGroup));
    let group = SharderArgv { url: some("u"), group: some("g"), count: some("-1"), ..SharderArgv::default() };
    assert_eq!(argv_problem(&group, &none), Some(ArgvProblem::InvalidCount));
    let counted = SharderArgv { count: None, ..group.clone() };
    assert_eq!(argv_problem(&counted, &none), Some(ArgvProblem::NoToken));
    let full = SharderArgv { token: some("t"), ..counted };
    assert_eq!(argv_problem(&full, &none), None);
    let o: SpawnerOptions = parse_argv(&full, &none);
    assert_eq!(o.shard_count, None);
    assert_eq!(o.strategy(), ShardStrategy::Recommended);
}

#[test]
fn broker_queue_names() {
    assert_eq!(queue_name("spectacles", Some("gw"), "MESSAGE_CREATE"), "spectacles:gw:MESSAGE_CREATE");
    assert_eq!(queue_name("spectacles", None, "READY"), "spectacles:READY");
    assert_eq!(subscription_queue_name("a", "b", "C"), "abC");
}
