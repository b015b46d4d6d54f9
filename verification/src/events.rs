//! What the bot does on gateway events: its presence once connected, the
//! greeting, the welcome of new members, and leaving an empty voice channel.
use vstd::prelude::*;
use vstd::string::*;

use crate::mention::{lemma_user_mention_injective, user_mention, user_mention_text};
use crate::text::{decimal, ascii_lowercase, ascii_only, lowercase, starts_with, to_lowercase, u64_to_decimal};

verus! {

/// The activity the bot shows ("listening to ...") once it is connected;
/// its status is then idle.
pub const PRESENCE_ACTIVITY: &'static str = "hermit help";

/// A message greets the bot when its lower-cased text begins with this.
pub const GREETING_TRIGGER: &'static str = "hello hermit";

/// Whether an already lower-cased message text greets the bot.
pub open spec fn is_greeting_text(lowered: Seq<char>) -> bool {
    "hello hermit"@.is_prefix_of(lowered)
}

/// A lower-cased text greets the bot exactly when its first twelve
/// characters are "hello hermit".
pub proof fn lemma_greeting_is_the_leading_words(lowered: Seq<char>)
    ensures
        is_greeting_text(lowered) <==> (lowered.len() >= "hello hermit"@.len()
            && lowered.subrange(0, "hello hermit"@.len() as int) == "hello hermit"@),
{
}

/// The answer to a greeting from the user `author`.
pub open spec fn greeting_text(author: nat) -> Seq<char> {
    "Hello "@ + user_mention_text(author)
}

/// The announcement that the user `member` joined the server.
pub open spec fn joined_text(member: nat) -> Seq<char> {
    user_mention_text(member) + " Joined In."@
}

/// Whether a message whose text is already lower-cased greets the bot.
pub fn is_greeting_lowered(lowered: &str) -> (r: bool)
    ensures
        r == is_greeting_text(lowered@),
        r == "hello hermit"@.is_prefix_of(lowered@),
{
    starts_with(lowered, GREETING_TRIGGER)
}

/// Whether a message greets the bot: its text, lower-cased, begins with
/// "hello hermit".  For a text of ASCII characters only, lower-casing is the
/// ASCII one.
pub fn is_greeting(content: &str) -> (r: bool)
    ensures
        r == is_greeting_text(lowercase(content@)),
        r == "hello hermit"@.is_prefix_of(lowercase(content@)),
        ascii_only(content@) ==> r == is_greeting_text(ascii_lowercase(content@)),
{
    let lowered = to_lowercase(content);
    is_greeting_lowered(lowered.as_str())
}

/// The answer to a greeting: "Hello " and a mention of the author.
pub fn greeting(author_id: u64) -> (r: String)
    ensures
        r@ == greeting_text(author_id as nat),
        r@ == "Hello <@"@ + decimal(author_id as nat) + ">"@,
{
    let mut s = String::from_str("Hello <@");
    let id = u64_to_decimal(author_id);
    s.append(id.as_str());
    s.append(">");
    proof {
        reveal_strlit("Hello <@");
        reveal_strlit("Hello ");
        reveal_strlit(">");
        assert(s@ =~= greeting_text(author_id as nat));
        assert(s@ =~= "Hello <@"@ + decimal(author_id as nat) + ">"@);
    }
    s
}

/// The answer to a message: a greeting when the message greets the bot,
/// nothing otherwise.
pub fn greeting_reply(content: &str, author_id: u64) -> (r: Option<String>)
    ensures
        r is Some <==> is_greeting_text(lowercase(content@)),
        r is Some <==> "hello hermit"@.is_prefix_of(lowercase(content@)),
        ascii_only(content@) ==> (r is Some <==> is_greeting_text(ascii_lowercase(content@))),
        r matches Some(s) ==> s@ == greeting_text(author_id as nat),
        r matches Some(s) ==> s@ == "Hello <@"@ + decimal(author_id as nat) + ">"@,
{
    if is_greeting(content) {
        Some(greeting(author_id))
    } else {
        None
    }
}

/// The announcement, in the server's default channel, that a member joined.
pub fn member_joined_message(member_id: u64) -> (r: String)
    requires
        member_id != 0,
    ensures
        r@ == joined_text(member_id as nat),
        r@ == "<@"@ + decimal(member_id as nat) + "> Joined In."@,
{
    let mention = user_mention(member_id);
    let r = mention.concat(" Joined In.");
    proof {
        reveal_strlit("<@");
        reveal_strlit("> Joined In.");
        reveal_strlit(" Joined In.");
        assert(r@ =~= "<@"@ + decimal(member_id as nat) + "> Joined In."@);
    }
    r
}

/// Whether a member who is not a bot is among members whose bot flags are `is_bot`.
pub open spec fn has_human(is_bot: Seq<bool>) -> bool {
    exists|i: int| 0 <= i < is_bot.len() && !is_bot[i]
}

/// After a voice state changes, whether the bot leaves the voice channel it
/// is in, whose members have the bot flags `member_is_bot`: it leaves when
/// no member is a human.
pub fn should_leave_channel(member_is_bot: &Vec<bool>) -> (r: bool)
    ensures
        r == !has_human(member_is_bot@),
        r <==> forall|i: int| 0 <= i < member_is_bot@.len() ==> member_is_bot@[i],
{
    let mut i: usize = 0;
    while i < member_is_bot.len()
        invariant
            i <= member_is_bot@.len(),
            forall|j: int| 0 <= j < i ==> member_is_bot@[j],
        decreases member_is_bot@.len() - i,
    {
        if !member_is_bot[i] {
            return false;
        }
        i = i + 1;
    }
    true
}

/// The bot leaves a voice channel that nobody is in.
pub proof fn lemma_leaves_empty_channel()
    ensures
        !has_human(Seq::<bool>::empty()),
{
}

/// Any one human member keeps the bot in the channel, wherever that member
/// stands among the others.
pub proof fn lemma_any_human_keeps_bot(is_bot: Seq<bool>, i: int)
    requires
        0 <= i < is_bot.len(),
        !is_bot[i],
    ensures
        has_human(is_bot),
{
}

/// A channel of bots only is left.
pub proof fn lemma_only_bots_is_left(is_bot: Seq<bool>)
    requires
        forall|i: int| 0 <= i < is_bot.len() ==> is_bot[i],
    ensures
        !has_human(is_bot),
{
}

/// Another bot joining a channel does not change whether the bot leaves it.
pub proof fn lemma_bot_does_not_change_leaving(is_bot: Seq<bool>)
    ensures
        has_human(is_bot.push(true)) == has_human(is_bot),
{
    if has_human(is_bot) {
        let i = choose|i: int| 0 <= i < is_bot.len() && !is_bot[i];
        assert(is_bot.push(true)[i] == is_bot[i]);
    }
    if has_human(is_bot.push(true)) {
        let i = choose|i: int| 0 <= i < is_bot.push(true).len() && !is_bot.push(true)[i];
        assert(is_bot[i] == is_bot.push(true)[i]);
    }
}

/// The bot stays in a channel that a human is in.
pub proof fn lemma_stays_with_human(is_bot: Seq<bool>)
    ensures
        has_human(is_bot.push(false)),
{
    assert(!is_bot.push(false)[is_bot.len() as int]);
}

/// Different users are greeted with different texts.
pub proof fn lemma_greeting_identifies_author(a: u64, b: u64)
    ensures
        greeting_text(a as nat) == greeting_text(b as nat) ==> a == b,
{
    if greeting_text(a as nat) == greeting_text(b as nat) {
        let k: int = "Hello "@.len() as int;
        let (ga, gb) = (greeting_text(a as nat), greeting_text(b as nat));
        assert(ga.subrange(k, ga.len() as int) =~= user_mention_text(a as nat));
        assert(gb.subrange(k, gb.len() as int) =~= user_mention_text(b as nat));
        lemma_user_mention_injective(a as nat, b as nat);
    }
}

/// Different new members are welcomed with different texts.
pub proof fn lemma_welcome_identifies_member(a: u64, b: u64)
    ensures
        joined_text(a as nat) == joined_text(b as nat) ==> a == b,
{
    if joined_text(a as nat) == joined_text(b as nat) {
        let (ja, jb) = (joined_text(a as nat), joined_text(b as nat));
        let k: int = " Joined In."@.len() as int;
        assert(ja.subrange(0, ja.len() - k) =~= user_mention_text(a as nat));
        assert(jb.subrange(0, jb.len() - k) =~= user_mention_text(b as nat));
        lemma_user_mention_injective(a as nat, b as nat);
    }
}

} // verus!
