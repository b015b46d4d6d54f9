use std::collections::HashMap;

use hermit_bot::music::{
    check_voice_channel, joined_channel_reply, leave_reply, mute_action, mute_reply, play_request,
    playing_reply, unmute_reply, voice_channel_of, MuteAction, PlayRequest, ALREADY_MUTED,
    BOT_NOT_IN_VOICE_CHANNEL, MISSING_PLAY_INPUT, NOT_IN_A_VOICE_CHANNEL,
};

#[test]
fn join_finds_the_authors_channel() {
    let mut states: HashMap<u64, Option<u64>> = HashMap::new();
    states.insert(1, Some(100));
    states.insert(2, None);
    assert_eq!(voice_channel_of(&states, 1), Some(100));
    assert_eq!(voice_channel_of(&states, 2), None);
    assert_eq!(voice_channel_of(&states, 3), None);
}

#[test]
fn join_answers() {
    assert_eq!(joined_channel_reply(381880193700069377), "Joined <#381880193700069377>");
    assert_eq!(NOT_IN_A_VOICE_CHANNEL, "Not in a voice channel");
}

#[test]
fn voice_commands_need_a_call() {
    assert_eq!(check_voice_channel(Some(5)), Ok(5));
    assert_eq!(check_voice_channel::<u8>(None), Err("Not in a Voice Channel"));
    assert_eq!(BOT_NOT_IN_VOICE_CHANNEL, "Not in a Voice Channel");
}

#[test]
fn leave_answers() {
    assert_eq!(leave_reply::<String>(&Ok(())), "Left the Voice Channel");
    assert_eq!(leave_reply(&Err("gone".to_string())), "Failed to Leave Voice Channel");
}

#[test]
fn play_decides_between_url_and_search() {
    assert!(matches!(play_request(String::new()), PlayRequest::MissingInput));
    match play_request("https://youtu.be/abc".to_string()) {
        PlayRequest::Url(u) => assert_eq!(u, "https://youtu.be/abc"),
        other => panic!("unexpected {:?}", other),
    }
    match play_request("http".to_string()) {
        PlayRequest::Url(u) => assert_eq!(u, "http"),
        other => panic!("unexpected {:?}", other),
    }
    match play_request("never gonna give you up".to_string()) {
        PlayRequest::Search(q) => assert_eq!(q, "never gonna give you up"),
        other => panic!("unexpected {:?}", other),
    }
    match play_request("HTTP://x".to_string()) {
        PlayRequest::Search(q) => assert_eq!(q, "HTTP://x"),
        other => panic!("unexpected {:?}", other),
    }
    assert_eq!(MISSING_PLAY_INPUT, "Please provide keyword or URL to video/audio with command");
}

#[test]
fn play_names_the_title() {
    assert_eq!(playing_reply(Some("Song".to_string())), "Playing Song song");
    assert_eq!(playing_reply(None), "Playing N/A song");
}

#[test]
fn mute_answers() {
    assert_eq!(mute_reply(&Ok(())), "Now Muted.");
    assert_eq!(mute_reply(&Err("NoCall".to_string())), "Failed: NoCall");
    assert_eq!(unmute_reply(&Ok(())), "Now Unmuted.");
    assert_eq!(unmute_reply(&Err("Dropped".to_string())), "Failed: Dropped");
    assert_eq!(ALREADY_MUTED, "Already muted.");
}

#[test]
fn mute_only_when_not_muted() {
    assert_eq!(mute_action(true), MuteAction::ReplyAlreadyMuted);
    assert_eq!(mute_action(false), MuteAction::Mute);
}
