//! Discord mentions, written by serenity.
use serenity::model::id::{ChannelId, UserId};
use serenity::model::mention::Mentionable;
use vstd::prelude::*;

use crate::text::{decimal, lemma_decimal_injective, lemma_decimal_value};

verus! {

/// The text of a mention of the user `id`: `<@id>`.
pub open spec fn user_mention_text(id: nat) -> Seq<char> {
    seq!['<', '@'] + decimal(id) + seq!['>']
}

/// The text of a mention of the channel `id`: `<#id>`.
pub open spec fn channel_mention_text(id: nat) -> Seq<char> {
    seq!['<', '#'] + decimal(id) + seq!['>']
}

/// A user mention names exactly one user: different users have different mentions.
pub proof fn lemma_user_mention_injective(a: nat, b: nat)
    ensures
        user_mention_text(a) == user_mention_text(b) ==> a == b,
{
    if user_mention_text(a) == user_mention_text(b) {
        lemma_decimal_value(a);
        lemma_decimal_value(b);
        let (da, db) = (decimal(a), decimal(b));
        assert(user_mention_text(a).len() == da.len() + 3);
        assert(user_mention_text(b).len() == db.len() + 3);
        assert(user_mention_text(a).subrange(2, 2 + da.len() as int) =~= da);
        assert(user_mention_text(b).subrange(2, 2 + db.len() as int) =~= db);
        lemma_decimal_injective(a, b);
    }
}

/// Calls serenity's `UserId::new(id).mention()` and writes the mention with
/// `Display`.  serenity writes a user mention as `<@{id}>`, and the id as the
/// decimal number.  `UserId::new` panics on 0, which `requires` leaves out.
#[verifier::external_body]
pub(crate) fn user_mention(id: u64) -> (r: String)
    requires
        id != 0,
    ensures
        r@ == user_mention_text(id as nat),
{
    format!("{}", UserId::new(id).mention())
}

/// Calls serenity's `ChannelId::new(id).mention()` and writes the mention with
/// `Display`.  serenity writes a channel mention as `<#{id}>`, and the id as
/// the decimal number.  `ChannelId::new` panics on 0, which `requires` leaves out.
#[verifier::external_body]
pub(crate) fn channel_mention(id: u64) -> (r: String)
    requires
        id != 0,
    ensures
        r@ == channel_mention_text(id as nat),
{
    format!("{}", ChannelId::new(id).mention())
}

} // verus!
