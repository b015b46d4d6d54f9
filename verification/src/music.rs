//! The decisions and answers of the voice commands: `join`, `leave`, `play`,
//! `mute` and `unmute`.
use std::collections::HashMap;
use vstd::prelude::*;
use vstd::string::*;

use crate::mention::{channel_mention, channel_mention_text};
use crate::text::{decimal, starts_with};

verus! {

broadcast use vstd::std_specs::hash::group_hash_axioms;

/// `join`'s answer when its author is in no voice channel.
pub const NOT_IN_A_VOICE_CHANNEL: &'static str = "Not in a voice channel";

/// The answer of `leave`, `play`, `mute` and `unmute` when the bot is in no
/// voice channel of the server.
pub const BOT_NOT_IN_VOICE_CHANNEL: &'static str = "Not in a Voice Channel";

/// `leave`'s answer once the bot left.
pub const LEFT_VOICE_CHANNEL: &'static str = "Left the Voice Channel";

/// `leave`'s answer when leaving failed.
pub const FAILED_TO_LEAVE: &'static str = "Failed to Leave Voice Channel";

/// `play`'s answer when it was given nothing to play.
pub const MISSING_PLAY_INPUT: &'static str = "Please provide keyword or URL to video/audio with command";

/// `mute`'s answer when the bot is muted already.
pub const ALREADY_MUTED: &'static str = "Already muted.";

/// The title `play` names when the source has none.
pub const UNKNOWN_TITLE: &'static str = "N/A";

/// The voice channel that the user `user` is in, after the voice states of
/// a server (user id to the channel of the user's voice state, if any).
pub open spec fn voice_channel_in(states: Map<u64, Option<u64>>, user: u64) -> Option<u64> {
    if states.contains_key(user) {
        states[user]
    } else {
        None
    }
}

/// The voice channel that `join` joins: the one its author is in, if any.
pub fn voice_channel_of(voice_states: &HashMap<u64, Option<u64>>, user_id: u64) -> (r: Option<u64>)
    ensures
        r == voice_channel_in(voice_states@, user_id),
        voice_states@.contains_key(user_id) ==> r == voice_states@[user_id],
        !voice_states@.contains_key(user_id) ==> r is None,
{
    match voice_states.get(&user_id) {
        Some(channel) => *channel,
        None => None,
    }
}

/// `join`'s answer once it joined the channel `channel`.
pub open spec fn joined_channel_text(channel: nat) -> Seq<char> {
    "Joined "@ + channel_mention_text(channel)
}

/// `join`'s answer once it joined the channel `channel_id`: "Joined " and a
/// mention of the channel.
pub fn joined_channel_reply(channel_id: u64) -> (r: String)
    requires
        channel_id != 0,
    ensures
        r@ == joined_channel_text(channel_id as nat),
        r@ == "Joined <#"@ + decimal(channel_id as nat) + ">"@,
{
    let mention = channel_mention(channel_id);
    let s = String::from_str("Joined ");
    let r = s.concat(mention.as_str());
    proof {
        reveal_strlit("Joined <#");
        reveal_strlit("Joined ");
        reveal_strlit(">");
        assert(r@ =~= "Joined <#"@ + decimal(channel_id as nat) + ">"@);
    }
    r
}

/// What the voice commands do first: go on with the bot's call in the
/// server when there is one, answer that the bot is in no voice channel
/// otherwise.
pub fn check_voice_channel<T>(call: Option<T>) -> (r: Result<T, &'static str>)
    ensures
        match call {
            Some(c) => r == Ok::<T, &'static str>(c),
            None => r matches Err(reply) && reply@ == BOT_NOT_IN_VOICE_CHANNEL@ && reply@
                == "Not in a Voice Channel"@,
        },
{
    match call {
        Some(c) => Ok(c),
        None => Err(BOT_NOT_IN_VOICE_CHANNEL),
    }
}

/// `leave`'s answer after the bot tried to leave.
pub fn leave_reply<E>(removed: &Result<(), E>) -> (r: &'static str)
    ensures
        removed is Ok ==> r@ == LEFT_VOICE_CHANNEL@,
        removed is Err ==> r@ == FAILED_TO_LEAVE@,
        removed is Ok ==> r@ == "Left the Voice Channel"@,
        removed is Err ==> r@ == "Failed to Leave Voice Channel"@,
{
    match removed {
        Ok(_) => LEFT_VOICE_CHANNEL,
        Err(_) => FAILED_TO_LEAVE,
    }
}

/// What `play` was asked to play.
#[derive(Debug, Clone)]
pub enum PlayRequest {
    /// Nothing: `play` answers that it needs a keyword or a URL.
    MissingInput,
    /// Keywords to search for.
    Search(String),
    /// The URL of a video or an audio.
    Url(String),
}

/// What `play` does with its argument: nothing when it is empty, play the
/// URL when it begins with "http", search for it otherwise.
pub fn play_request(input: String) -> (r: PlayRequest)
    ensures
        input@.len() == 0 ==> r is MissingInput,
        input@.len() > 0 && "http"@.is_prefix_of(input@) ==> (r matches PlayRequest::Url(u)
            && u@ == input@),
        input@.len() > 0 && !"http"@.is_prefix_of(input@) ==> (r matches PlayRequest::Search(q)
            && q@ == input@),
{
    if input.as_str().unicode_len() == 0 {
        return PlayRequest::MissingInput;
    }
    if starts_with(input.as_str(), "http") {
        PlayRequest::Url(input)
    } else {
        PlayRequest::Search(input)
    }
}

/// `play`'s answer once it plays a source whose title is `title`.
pub open spec fn playing_text(title: Option<String>) -> Seq<char> {
    "Playing "@ + match title {
        Some(t) => t@,
        None => UNKNOWN_TITLE@,
    } + " song"@
}

/// The whole title of the source stands in `play`'s answer, right after
/// "Playing ", and the answer is as long as the title plus the words around it.
pub proof fn lemma_playing_text_holds_title(title: String)
    ensures
        playing_text(Some(title)).subrange(
            "Playing "@.len() as int,
            ("Playing "@.len() + title@.len()) as int,
        ) == title@,
        playing_text(Some(title)).len() == "Playing "@.len() + title@.len() + " song"@.len(),
{
    let k = "Playing "@.len() as int;
    assert(playing_text(Some(title)).subrange(k, k + title@.len()) =~= title@);
}

/// Sources with different titles get different answers.
pub proof fn lemma_playing_titles_differ(a: String, b: String)
    requires
        a@ != b@,
    ensures
        playing_text(Some(a)) != playing_text(Some(b)),
{
    lemma_playing_text_holds_title(a);
    lemma_playing_text_holds_title(b);
}

/// `play`'s answer once it plays a source: "Playing <title> song", with
/// "N/A" for a source without a title.
pub fn playing_reply(title: Option<String>) -> (r: String)
    ensures
        r@ == playing_text(title),
        title matches Some(t) ==> r@ == "Playing "@ + t@ + " song"@,
        title is None ==> r@ == "Playing "@ + "N/A"@ + " song"@,
{
    let s = String::from_str("Playing ");
    let s = match &title {
        Some(t) => s.concat(t.as_str()),
        None => s.concat(UNKNOWN_TITLE),
    };
    s.concat(" song")
}

/// The answer after muting or unmuting: `done` when it worked, "Failed: "
/// and the error's text otherwise.
pub open spec fn mute_change_text(result: Result<(), String>, done: Seq<char>) -> Seq<char> {
    match result {
        Ok(_) => done,
        Err(e) => "Failed: "@ + e@,
    }
}

fn mute_change_reply(result: &Result<(), String>, done: &str) -> (r: String)
    ensures
        r@ == mute_change_text(*result, done@),
{
    match result {
        Ok(_) => String::from_str(done),
        Err(e) => String::from_str("Failed: ").concat(e.as_str()),
    }
}

/// What `mute` does in a call.
#[derive(Debug, Clone, Copy, PartialEq, Eq)]
pub enum MuteAction {
    /// Answer that the bot is muted already.
    ReplyAlreadyMuted,
    /// Mute the bot.
    Mute,
}

/// What `mute` does: answer that the bot is muted already when it is, mute
/// it otherwise.
pub fn mute_action(is_muted: bool) -> (r: MuteAction)
    ensures
        is_muted ==> r == MuteAction::ReplyAlreadyMuted,
        !is_muted ==> r == MuteAction::Mute,
{
    if is_muted {
        MuteAction::ReplyAlreadyMuted
    } else {
        MuteAction::Mute
    }
}

/// `mute`'s answer after muting: "Now Muted." or "Failed: " and the error.
pub fn mute_reply(result: &Result<(), String>) -> (r: String)
    ensures
        r@ == mute_change_text(*result, "Now Muted."@),
        result is Ok ==> r@ == "Now Muted."@,
        result matches Err(e) ==> r@ == "Failed: "@ + e@,
{
    mute_change_reply(result, "Now Muted.")
}

/// `unmute`'s answer after unmuting: "Now Unmuted." or "Failed: " and the error.
pub fn unmute_reply(result: &Result<(), String>) -> (r: String)
    ensures
        r@ == mute_change_text(*result, "Now Unmuted."@),
        result is Ok ==> r@ == "Now Unmuted."@,
        result matches Err(e) ==> r@ == "Failed: "@ + e@,
{
    mute_change_reply(result, "Now Unmuted.")
}

} // verus!
