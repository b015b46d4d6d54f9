use hermit_bot::commands::{
    details_allowed, details_embed, member_entry, members_message, MemberInfo, ADMIN_ROLE,
    HELP_EXTRA_TEXT, PING_REPLY,
};

fn member(name: &str, id: u64, joined: Option<&str>) -> MemberInfo {
    MemberInfo { name: name.to_string(), id, joined_at: joined.map(|j| j.to_string()) }
}

#[test]
fn ping_and_help_texts() {
    assert_eq!(PING_REPLY, "Pong!");
    assert_eq!(HELP_EXTRA_TEXT, "___");
    assert_eq!(ADMIN_ROLE, "Admin");
}

#[test]
fn details_embed_fields() {
    let e = details_embed("Rustaceans", "ferris".to_string(), 987654321, 42, Some("https://icon".to_string()));
    assert_eq!(e.title, "Rustaceans Info: ");
    assert_eq!(e.fields.len(), 3);
    assert_eq!(e.fields[0].name, "Owner");
    assert_eq!(e.fields[0].value, "ferris");
    assert_eq!(e.fields[1].name, "Server ID");
    assert_eq!(e.fields[1].value, "987654321");
    assert_eq!(e.fields[2].name, "Memeber Count");
    assert_eq!(e.fields[2].value, "42");
    assert!(e.fields.iter().all(|f| !f.inline));
    assert_eq!(e.colour, 0xFAB1ED);
    assert_eq!(e.thumbnail, Some("https://icon".to_string()));
}

#[test]
fn details_embed_without_icon() {
    let e = details_embed("", "o".to_string(), 1, 0, None);
    assert_eq!(e.title, " Info: ");
    assert_eq!(e.fields[2].value, "0");
    assert_eq!(e.thumbnail, None);
}

#[test]
fn member_entry_uses_join_time_or_now() {
    let now = "2024-01-01T00:00:00Z";
    assert_eq!(
        member_entry(&member("alice", 11, Some("2020-05-06T07:08:09.000Z")), now),
        "Member name: alice\nID: 11\nJoined at: 2020-05-06T07:08:09.000Z\n\n"
    );
    assert_eq!(
        member_entry(&member("bob", 22, None), now),
        "Member name: bob\nID: 22\nJoined at: 2024-01-01T00:00:00Z\n\n"
    );
}

#[test]
fn members_message_lists_every_member_in_order() {
    let now = "NOW";
    let a = member("a", 1, Some("T1"));
    let b = member("b", 2, None);
    let both = members_message(&vec![a.clone(), b.clone()], now);
    assert_eq!(both, format!("{}{}", member_entry(&a, now), member_entry(&b, now)));
    assert_eq!(
        both,
        "Member name: a\nID: 1\nJoined at: T1\n\nMember name: b\nID: 2\nJoined at: NOW\n\n"
    );
}

#[test]
fn members_message_of_no_member_is_empty() {
    assert_eq!(members_message(&vec![], "NOW"), "");
}

#[test]
fn members_message_splits_at_any_point() {
    let now = "N";
    let ms: Vec<MemberInfo> = (1..5).map(|i| member(&format!("m{}", i), i, None)).collect();
    let whole = members_message(&ms, now);
    for k in 0..=ms.len() {
        let left = members_message(&ms[..k].to_vec(), now);
        let right = members_message(&ms[k..].to_vec(), now);
        assert_eq!(whole, format!("{}{}", left, right));
    }
}

#[test]
fn details_is_for_admins_only() {
    use_roles(&["Admin"], true);
    use_roles(&["Member", "Admin"], true);
    use_roles(&[], false);
    use_roles(&["admin", "Administrator", "Moderator"], false);
}

fn use_roles(names: &[&str], allowed: bool) {
    let roles: Vec<String> = names.iter().map(|n| n.to_string()).collect();
    assert_eq!(details_allowed(&roles), allowed);
}
