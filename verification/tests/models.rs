use spectacles::models::channel::{ChannelType, ModifyChannel};
use spectacles::models::gateway::{
    CloseCodes, GatewayEvent, HeartbeatPacket, Opcodes, RequestGuildMembers,
    ResumeSessionPacket, SendPacket, UpdateStatus, UpdateVoiceState,
};
use spectacles::models::guild::audit_log::GuildAuditLogEvent;
use spectacles::models::invite::CreateInviteOptions;
use spectacles::models::message::{
    ChannelMessagesQuery, CreateMessage, EditMessage, Embed, EmbedField, ExecuteWebhookOptions,
    MessageActivityType, MessageResponse, MessageType,
};
use spectacles::models::presence::{
    Activity, ActivityType, ClientActivity, ClientPresence, Status,
};
use spectacles::models::{Snowflake, User};

#[test]
fn snowflake_text_roundtrip() {
    for n in [0u64, 1, 81_384_788_765_712_384, u64::MAX] {
        let s = Snowflake(n);
        assert_eq!(Snowflake::parse(&s.to_string()), Some(s));
    }
    assert_eq!(Snowflake::parse("12x"), None);
    assert_eq!(Snowflake(300).to_string(), "300");
    assert_eq!(u64::from(Snowflake::from(5u64)), 5);
}

#[test]
fn user_avatar_url_and_mention() {
    let mut user = User::default();
    user.id = Snowflake(80351110224678912);
    user.discriminator = "1337".to_string();
    assert_eq!(
        user.get_avatar_url("png"),
        "https://cdn.discordapp.com/avatars/80351110224678912/dd4dbc0016779df1378e7812eabaa04d.png"
    );
    user.discriminator = "0005".to_string();
    assert_eq!(
        user.get_avatar_url("png"),
        "https://cdn.discordapp.com/avatars/80351110224678912/6debd47ed13483642cf09e832ed0bc1b.png"
    );
    user.avatar = Some("8342729096ea3675442027381ff50dfe".to_string());
    assert_eq!(
        user.get_avatar_url("gif"),
        "https://cdn.discordapp.com/avatars/80351110224678912/8342729096ea3675442027381ff50dfe.gif"
    );
    assert_eq!(user.to_string(), "<@80351110224678912>");
}

#[test]
fn opcodes_on_the_wire() {
    assert_eq!(Opcodes::Dispatch.code(), 0);
    assert_eq!(Opcodes::Resume.code(), 6);
    assert_eq!(Opcodes::HeartbeatAck.code(), 11);
    assert_eq!(Opcodes::from_code(5), None);
    assert_eq!(Opcodes::from_code(12), None);
    for c in 0u8..=11 {
        if let Some(op) = Opcodes::from_code(c) {
            assert_eq!(op.code(), c);
        }
    }
    assert_eq!(CloseCodes::from_code(4004).map(|c| c.code()), Some(4004));
    assert_eq!(CloseCodes::from_code(1000), None);
}

#[test]
fn enum_codes_roundtrip() {
    assert_eq!(ChannelType::Category.code(), 4);
    assert_eq!(ChannelType::from_code(2), Some(ChannelType::Voice));
    assert_eq!(ChannelType::from_code(5), None);
    assert_eq!(GuildAuditLogEvent::MemberBanAdd.code(), 22);
    assert_eq!(GuildAuditLogEvent::from_code(72), Some(GuildAuditLogEvent::MessageDelete));
    assert_eq!(GuildAuditLogEvent::from_code(2), None);
    assert_eq!(ActivityType::from_code(1), Some(ActivityType::Streaming));
    assert_eq!(ActivityType::Listening.code(), 2);
    for c in 0u8..=10 {
        if let Some(t) = MessageType::from_code(c) {
            assert_eq!(t.code(), c);
        }
        if let Some(t) = MessageActivityType::from_code(c) {
            assert_eq!(t.code(), c);
        }
    }
}

#[test]
fn event_names() {
    assert_eq!(GatewayEvent::READY.to_string(), "READY");
    assert_eq!(GatewayEvent::MESSAGE_REACTION_REMOVE_ALL.to_string(), "MESSAGE_REACTION_REMOVE_ALL");
    assert_eq!(GatewayEvent::WEBHOOKS_UPDATE.to_string(), "WEBHOOKS_UPDATE");
    assert_eq!(GatewayEvent::from_name("READY"), Some(GatewayEvent::READY));
    assert_eq!(GatewayEvent::from_name("GUILD_MEMBERS_CHUNK"), Some(GatewayEvent::GUILD_MEMBERS_CHUNK));
    assert_eq!(GatewayEvent::from_name("ready"), None);
    let e = GatewayEvent::MESSAGE_DELETE_BULK;
    assert_eq!(GatewayEvent::from_name(&e.to_string()), Some(e));
}

#[test]
fn send_packets_carry_their_opcode() {
    assert_eq!(SendPacket::new(HeartbeatPacket { seq: 3 }).op, Opcodes::Heartbeat);
    assert_eq!(SendPacket::new(UpdateStatus::default()).op, Opcodes::StatusUpdate);
    assert_eq!(SendPacket::new(RequestGuildMembers::default()).op, Opcodes::RequestGuildMembers);
    assert_eq!(SendPacket::new(UpdateVoiceState::default()).op, Opcodes::VoiceStatusUpdate);
    assert_eq!(SendPacket::new(ResumeSessionPacket::default()).op, Opcodes::Resume);
    let p = SendPacket::new(ClientPresence::default());
    assert_eq!(p.op, Opcodes::StatusUpdate);
    assert_eq!(p.d, ClientPresence::default());
}

#[test]
fn statuses_and_activities() {
    assert_eq!(Status::DnD.to_string(), "dnd");
    assert_eq!(Status::Invisible.to_string(), "invisible");
    let a = Activity::new(ActivityType::Streaming, "stream", "https://twitch.tv/x");
    assert_eq!(a.name, "stream");
    assert_eq!(a.url, "https://twitch.tv/x");
    assert_eq!(a.kind, ActivityType::Streaming);
    assert_eq!(a.application_id, Snowflake(0));
    assert_eq!(a.details, None);
    let g = ClientActivity::game("chess");
    assert_eq!((g.name.as_str(), g.kind, g.url), ("chess", ActivityType::Game, None));
    let s = ClientActivity::streaming("live", "u");
    assert_eq!(s.url, Some("u".to_string()));
    assert_eq!(ClientActivity::listening("song").kind, ActivityType::Listening);
}

#[test]
fn message_query_has_one_anchor() {
    let q = ChannelMessagesQuery::new();
    assert_eq!(q.limit, 50);
    let q = q.around(5).before(6).after(7);
    assert_eq!(q.around, Some(Snowflake(5)));
    assert_eq!(q.before, None);
    assert_eq!(q.after, None);
    let q = ChannelMessagesQuery::new().after(9).around(1);
    assert_eq!(q.after, Some(Snowflake(9)));
    assert_eq!(q.around, None);
}

#[test]
fn messages_from_text_and_edits() {
    let m = "hello".to_message();
    assert_eq!(m.content, Some("hello".to_string()));
    assert_eq!(m.embed, None);
    let m = String::from("hi").to_message();
    assert_eq!(m.content, Some("hi".to_string()));
    let e = EditMessage::new().with_content("edited");
    let m = e.to_message();
    assert_eq!(m.content, Some("edited".to_string()));
    let c = CreateMessage::new().with_content("x").tts(true);
    assert_eq!(c.tts, Some(true));
}

#[test]
fn embed_builders() {
    let e = Embed::new()
        .set_title("t")
        .set_color(0x00ff00)
        .add_field(|f: EmbedField| f.set_name("n").set_value("v"))
        .add_field(|f: EmbedField| f.set_name("m"));
    assert_eq!(e.title, Some("t".to_string()));
    assert_eq!(e.color, Some(0x00ff00));
    assert_eq!(e.fields.len(), 2);
    assert_eq!(e.fields[0].name, "n");
    assert_eq!(e.fields[0].value, "v");
    assert_eq!(e.fields[1].value, "");
    assert!(e.description.is_none());
}

#[test]
fn webhook_and_invite_options() {
    let w = ExecuteWebhookOptions::default().content("c").file("a.txt", vec![1, 2, 3]);
    assert_eq!(w.content, Some("c".to_string()));
    assert_eq!(w.file, Some(("a.txt".to_string(), vec![1, 2, 3])));
    let i = CreateInviteOptions::new();
    assert_eq!(i.max_age, 86400);
    assert_eq!(i.set_max_age(60).max_age, 60);
}

#[test]
fn modify_channel_builder() {
    let m = ModifyChannel::new().name("general").set_position(3).nsfw(true);
    assert_eq!(m.name, Some("general".to_string()));
    assert_eq!(m.position, Some(3));
    assert_eq!(m.nsfw, Some(true));
}
