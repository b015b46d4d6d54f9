//! The answers of the general commands: `ping`, `help` and `details`.
use serenity::model::Colour;
use vstd::prelude::*;
use vstd::string::*;

use crate::text::{decimal, decimal_value, lemma_decimal_injective, lemma_decimal_value, str_equal, u64_to_decimal};

verus! {

/// The answer to `ping`.
pub const PING_REPLY: &'static str = "Pong!";

/// The text shown at the bottom of `help`.
pub const HELP_EXTRA_TEXT: &'static str = "___";

/// The role a member needs to use `details`.
pub const ADMIN_ROLE: &'static str = "Admin";

/// Whether one of the roles `role_names` is named `name`.
pub open spec fn has_role_named(role_names: Seq<String>, name: Seq<char>) -> bool {
    exists|i: int| 0 <= i < role_names.len() && #[trigger] role_names[i]@ == name
}

/// Whether a member whose roles are named `role_names` may use `details`:
/// only a member with a role named "Admin" may.
pub fn details_allowed(role_names: &Vec<String>) -> (r: bool)
    ensures
        r == has_role_named(role_names@, ADMIN_ROLE@),
        r <==> exists|i: int| 0 <= i < role_names@.len() && role_names@[i]@ == "Admin"@,
{
    let mut i: usize = 0;
    while i < role_names.len()
        invariant
            i <= role_names@.len(),
            forall|j: int| 0 <= j < i ==> #[trigger] role_names@[j]@ != ADMIN_ROLE@,
            forall|j: int| 0 <= j < i ==> #[trigger] role_names@[j]@ != "Admin"@,
        decreases role_names@.len() - i,
    {
        if str_equal(role_names[i].as_str(), ADMIN_ROLE) {
            assert(role_names@[i as int]@ == ADMIN_ROLE@);
            assert(role_names@[i as int]@ == "Admin"@);
            return true;
        }
        i = i + 1;
    }
    false
}

/// One field of an embed: its name, its value, and whether it stands inline.
#[derive(Debug, Clone)]
pub struct EmbedField {
    pub name: String,
    pub value: String,
    pub inline: bool,
}

/// The embed that `details` answers with.
#[derive(Debug, Clone)]
pub struct ServerDetails {
    pub title: String,
    pub fields: Vec<EmbedField>,
    pub colour: u32,
    pub thumbnail: Option<String>,
}

/// What `details` lists of one member of the server: the user's name and id,
/// and, when Discord knows it, when the member joined, as text.
#[derive(Debug, Clone)]
pub struct MemberInfo {
    pub name: String,
    pub id: u64,
    pub joined_at: Option<String>,
}

/// The colour of the `details` embed, serenity's "fabled pink".
pub open spec fn details_colour() -> u32 {
    0xFAB1ED
}

/// Reads serenity's `Colour::FABLED_PINK`, whose source defines it as
/// `Colour(0xFAB1ED)`.
#[verifier::external_body]
fn fabled_pink() -> (c: u32)
    ensures
        c == details_colour(),
{
    Colour::FABLED_PINK.0
}

/// The field `name` with the value `value`, not inline.
pub open spec fn field_is(f: EmbedField, name: Seq<char>, value: Seq<char>) -> bool {
    &&& f.name@ == name
    &&& f.value@ == value
    &&& !f.inline
}

fn field(name: &str, value: String) -> (f: EmbedField)
    ensures
        field_is(f, name@, value@),
{
    EmbedField { name: String::from_str(name), value, inline: false }
}

/// The embed of `details` for the server `server_name` with the id
/// `server_id`, owned by `owner_name`, with `member_count` members and the
/// icon `thumbnail`: the title "<name> Info: ", the fields "Owner",
/// "Server ID" and "Memeber Count" in this order, fabled pink, and the icon
/// as thumbnail when the server has one.
pub fn details_embed(
    server_name: &str,
    owner_name: String,
    server_id: u64,
    member_count: usize,
    thumbnail: Option<String>,
) -> (r: ServerDetails)
    ensures
        r.title@ == server_name@ + " Info: "@,
        r.fields@.len() == 3,
        field_is(r.fields@[0], "Owner"@, owner_name@),
        field_is(r.fields@[1], "Server ID"@, decimal(server_id as nat)),
        field_is(r.fields@[2], "Memeber Count"@, decimal(member_count as nat)),
        r.colour == details_colour(),
        r.fields@[0].name@ == "Owner"@ && r.fields@[0].value@ == owner_name@ && !r.fields@[0].inline,
        r.fields@[1].name@ == "Server ID"@ && r.fields@[1].value@ == decimal(server_id as nat)
            && !r.fields@[1].inline,
        r.fields@[2].name@ == "Memeber Count"@ && r.fields@[2].value@ == decimal(
            member_count as nat,
        ) && !r.fields@[2].inline,
        r.colour == 0xFAB1ED,
        r.thumbnail == thumbnail,
{
    let title = String::from_str(server_name).concat(" Info: ");
    let mut fields: Vec<EmbedField> = Vec::new();
    fields.push(field("Owner", owner_name));
    fields.push(field("Server ID", u64_to_decimal(server_id)));
    fields.push(field("Memeber Count", u64_to_decimal(member_count as u64)));
    ServerDetails { title, fields, colour: fabled_pink(), thumbnail }
}

/// When a member joined, as `details` writes it: the join time when Discord
/// knows it, the time of the command (`now`) otherwise.
pub open spec fn joined_or(member: MemberInfo, now: Seq<char>) -> Seq<char> {
    match member.joined_at {
        Some(t) => t@,
        None => now,
    }
}

/// The entry of one member in the message of `details`.
pub open spec fn member_entry_text(member: MemberInfo, now: Seq<char>) -> Seq<char> {
    "Member name: "@ + member.name@ + "\nID: "@ + decimal(member.id as nat) + "\nJoined at: "@
        + joined_or(member, now) + "\n\n"@
}

/// The message of `details` listing `members`: their entries one after the other.
pub open spec fn members_text(members: Seq<MemberInfo>, now: Seq<char>) -> Seq<char>
    decreases members.len(),
{
    if members.len() == 0 {
        Seq::empty()
    } else {
        members_text(members.drop_last(), now) + member_entry_text(members.last(), now)
    }
}

/// The entry of one member in the message of `details`:
/// "Member name: <name>\nID: <id>\nJoined at: <time>\n\n".
pub fn member_entry(member: &MemberInfo, now: &str) -> (r: String)
    ensures
        r@ == member_entry_text(*member, now@),
        ("Member name: "@ + member.name@ + "\nID: "@ + decimal(member.id as nat)).is_prefix_of(r@),
        r@ == "Member name: "@ + member.name@ + "\nID: "@ + decimal(member.id as nat)
            + "\nJoined at: "@ + match member.joined_at {
            Some(t) => t@,
            None => now@,
        } + "\n\n"@,
{
    let mut s = String::from_str("Member name: ");
    s.append(member.name.as_str());
    s.append("\nID: ");
    let id = u64_to_decimal(member.id);
    s.append(id.as_str());
    s.append("\nJoined at: ");
    match &member.joined_at {
        Some(t) => s.append(t.as_str()),
        None => s.append(now),
    }
    s.append("\n\n");
    proof {
        let p = "Member name: "@ + member.name@ + "\nID: "@ + decimal(member.id as nat);
        assert(s@.subrange(0, p.len() as int) =~= p);
    }
    s
}

/// Where the id of `member` starts in its entry: after "Member name: ", the
/// name, and "\nID: ".
pub open spec fn entry_id_start(member: MemberInfo) -> int {
    ("Member name: "@.len() + member.name@.len() + "\nID: "@.len()) as int
}

/// A member's entry names the member's whole id: its digits, read back as a
/// decimal number, give the id.
pub proof fn lemma_member_entry_reads_back_id(member: MemberInfo, now: Seq<char>)
    ensures
        decimal_value(
            member_entry_text(member, now).subrange(
                entry_id_start(member),
                entry_id_start(member) + decimal(member.id as nat).len(),
            ),
        ) == member.id,
{
    let d = decimal(member.id as nat);
    let k = entry_id_start(member);
    assert(member_entry_text(member, now).subrange(k, k + d.len()) =~= d);
    lemma_decimal_value(member.id as nat);
}

/// Two members who differ only in their ids have different entries.
pub proof fn lemma_member_entries_differ_by_id(a: MemberInfo, b: MemberInfo, now: Seq<char>)
    requires
        a.name@ == b.name@,
        joined_or(a, now) == joined_or(b, now),
        a.id != b.id,
    ensures
        member_entry_text(a, now) != member_entry_text(b, now),
{
    let (ta, tb) = (member_entry_text(a, now), member_entry_text(b, now));
    let (da, db) = (decimal(a.id as nat), decimal(b.id as nat));
    let k = entry_id_start(a);
    let rest = "\nJoined at: "@ + joined_or(a, now) + "\n\n"@;
    assert(ta.len() == k + da.len() + rest.len());
    assert(tb.len() == k + db.len() + rest.len());
    if ta == tb {
        assert(ta.subrange(k, k + da.len()) =~= da);
        assert(tb.subrange(k, k + db.len()) =~= db);
        lemma_decimal_injective(a.id as nat, b.id as nat);
    }
}

/// The message of `details` that lists the server's members, in the order
/// given; `now` is the time of the command, written for members whose join
/// time Discord does not know.
pub fn members_message(members: &Vec<MemberInfo>, now: &str) -> (r: String)
    ensures
        r@ == members_text(members@, now@),
{
    let mut message = String::new();
    let mut i: usize = 0;
    while i < members.len()
        invariant
            i <= members@.len(),
            message@ == members_text(members@.subrange(0, i as int), now@),
        decreases members@.len() - i,
    {
        let entry = member_entry(&members[i], now);
        message.append(entry.as_str());
        proof {
            assert(members@.subrange(0, i + 1).drop_last() =~= members@.subrange(0, i as int));
        }
        i = i + 1;
    }
    proof {
        assert(members@.subrange(0, members@.len() as int) =~= members@);
    }
    message
}

/// Listing two groups of members one after the other gives the two listings
/// one after the other.
pub proof fn lemma_members_text_append(a: Seq<MemberInfo>, b: Seq<MemberInfo>, now: Seq<char>)
    ensures
        members_text(a + b, now) == members_text(a, now) + members_text(b, now),
    decreases b.len(),
{
    if b.len() == 0 {
        assert(a + b =~= a);
        assert(members_text(a, now) + members_text(b, now) =~= members_text(a, now));
    } else {
        lemma_members_text_append(a, b.drop_last(), now);
        assert((a + b).drop_last() =~= a + b.drop_last());
        assert((a + b).last() == b.last());
        assert(members_text(a + b, now) =~= members_text(a, now) + members_text(b.drop_last(), now)
            + member_entry_text(b.last(), now));
    }
}

/// The listing holds exactly one entry per member: a listing of one member
/// is that member's entry.
pub proof fn lemma_members_text_single(m: MemberInfo, now: Seq<char>)
    ensures
        members_text(seq![m], now) == member_entry_text(m, now),
{
    assert(seq![m].drop_last() =~= Seq::<MemberInfo>::empty());
    assert(members_text(Seq::<MemberInfo>::empty(), now) + member_entry_text(m, now)
        =~= member_entry_text(m, now));
}

} // verus!
