use discord_rpc::errors::DiscordRPCError;
use discord_rpc::ipc::DiscordIPCClient;
use discord_rpc::ipc_socket::DiscordIPCSocket;
use discord_rpc::models::commands::{
    Activity, ActivityAssets, ActivityButton, ActivityTimestamps, SetActivityArgs,
};
use discord_rpc::models::rpc_command::RPCCommand;
use discord_rpc::set_activity::{activity_command, set_discord_activity, SetActivityPayload};
use serde_json::Value;

fn report() -> SetActivityPayload {
    SetActivityPayload {
        animeTitle: "Sousou no Frieren".to_string(),
        animeEpisode: "Episode 3".to_string(),
        start: None,
        end: None,
        largeImage: None,
        largeImageText: None,
        smallImage: None,
        smallImageText: None,
        url: None,
    }
}

fn full_report() -> SetActivityPayload {
    SetActivityPayload {
        start: Some(100),
        end: Some(1500),
        largeImage: Some("cover".to_string()),
        largeImageText: Some("Cover".to_string()),
        smallImage: Some("logo".to_string()),
        smallImageText: Some("Logo".to_string()),
        url: Some("https://example.org/watch/3".to_string()),
        ..report()
    }
}

fn connected() -> DiscordIPCClient {
    let mut peer = DiscordIPCSocket::new();
    peer.send(r#"{"evt":"READY","data":{}}"#, 1).unwrap();
    let mut client = DiscordIPCClient::new("test-id");
    client.send_handshake().unwrap();
    assert_eq!(client.take_outbound().len(), 8 + r#"{"client_id":"test-id","v":1}"#.len());
    client.push_bytes(peer.take_outbound());
    assert_eq!(client.connect(), Ok(true));
    client
}

#[test]
fn a_bare_report_shows_title_and_episode() {
    assert!(report().is_complete());
    let activity = report().into_activity();
    let expected = Activity::new()
        .details("Sousou no Frieren".to_string())
        .state("Episode 3".to_string())
        .instance(false);
    assert_eq!(activity, expected);
    assert_eq!(
        activity.to_json().to_string(),
        r#"{"details":"Sousou no Frieren","instance":false,"state":"Episode 3"}"#
    );
}

#[test]
fn a_full_report_shows_every_part() {
    assert!(full_report().is_complete());
    let activity = full_report().into_activity();
    let expected = Activity::new()
        .details("Sousou no Frieren".to_string())
        .state("Episode 3".to_string())
        .instance(false)
        .timestamps(ActivityTimestamps::new().start(100).end(1500))
        .assets(
            ActivityAssets::new()
                .large_image("cover".to_string())
                .large_text("Cover".to_string())
                .small_image("logo".to_string())
                .small_text("Logo".to_string()),
        )
        .buttons(vec![ActivityButton::new()
            .label("Play".to_string())
            .url("https://example.org/watch/3".to_string())]);
    assert_eq!(activity, expected);
}

#[test]
fn each_optional_part_stands_alone() {
    let timed = SetActivityPayload { start: Some(1), end: Some(2), ..report() }.into_activity();
    assert_eq!(timed.timestamps, Some(ActivityTimestamps { start: Some(1), end: Some(2) }));
    assert_eq!(timed.assets, None);
    assert_eq!(timed.buttons, None);

    let linked = SetActivityPayload { url: Some("u".to_string()), ..report() }.into_activity();
    assert_eq!(linked.buttons, Some(vec![ActivityButton { label: Some("Play".to_string()), url: Some("u".to_string()) }]));
    assert_eq!(linked.timestamps, None);

    let an_end_alone = SetActivityPayload { end: Some(9), ..report() };
    assert!(an_end_alone.is_complete());
    assert_eq!(an_end_alone.into_activity().timestamps, None);

    let texts_alone = SetActivityPayload { largeImageText: Some("t".to_string()), ..report() };
    assert!(texts_alone.is_complete());
    assert_eq!(texts_alone.into_activity().assets, None);
}

#[test]
fn incomplete_reports_are_recognised() {
    assert!(!SetActivityPayload { start: Some(1), ..report() }.is_complete());
    assert!(!SetActivityPayload { largeImage: Some("i".to_string()), ..report() }.is_complete());
    assert!(!SetActivityPayload { smallImage: None, ..full_report() }.is_complete());
    assert!(!SetActivityPayload { largeImageText: None, ..full_report() }.is_complete());
    assert!(!SetActivityPayload { smallImageText: None, ..full_report() }.is_complete());
    assert!(!SetActivityPayload { end: None, ..full_report() }.is_complete());
}

#[test]
fn the_command_sets_or_clears_the_activity() {
    assert_eq!(
        activity_command(11, Some(report())),
        RPCCommand::SetActivity(SetActivityArgs::new(11, report().into_activity()))
    );
    assert_eq!(activity_command(11, None), RPCCommand::SetActivity(SetActivityArgs::cleared(11)));
}

#[test]
fn setting_the_activity_needs_a_connection() {
    let mut client = DiscordIPCClient::new("test-id");
    assert_eq!(set_discord_activity(&mut client, 1, Some(report())), Err(DiscordRPCError::ProtocolViolation));
    assert_eq!(set_discord_activity(&mut client, 1, None), Err(DiscordRPCError::ProtocolViolation));
    assert_eq!(client.take_outbound(), Vec::<u8>::new());
}

#[test]
fn setting_the_activity_frames_the_command() {
    let mut client = connected();
    set_discord_activity(&mut client, 31337, Some(full_report())).unwrap();
    let sent = client.take_outbound();
    assert_eq!(&sent[..4], &[1, 0, 0, 0]);
    assert_eq!(sent.len() - 8, u32::from_le_bytes([sent[4], sent[5], sent[6], sent[7]]) as usize);
    let document: Value = serde_json::from_slice(&sent[8..]).unwrap();
    assert_eq!(document.get("cmd"), Some(&Value::from("SET_ACTIVITY")));
    assert_eq!(
        document.get("args"),
        Some(&SetActivityArgs::new(31337, full_report().into_activity()).to_json())
    );
    assert_eq!(document.get("nonce").unwrap().as_str().unwrap().len(), 36);
    assert_eq!(document.as_object().unwrap().len(), 3);

    set_discord_activity(&mut client, 31337, None).unwrap();
    let cleared = client.take_outbound();
    let document: Value = serde_json::from_slice(&cleared[8..]).unwrap();
    assert_eq!(document.get("args").unwrap().to_string(), r#"{"pid":31337}"#);
}
