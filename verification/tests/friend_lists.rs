use vrc_yutils::model::{EventUser, FriendLocation, Status, User};
use vrc_yutils::users::{find_remove, push_and_sort, sort_by_status, Users};

fn user(id: &str, status: Status, location: Option<&str>) -> User {
    User {
        id: id.to_string(),
        location: location.map(|l| l.to_string()),
        travelingToLocation: None,
        displayName: format!("name of {id}"),
        userIcon: String::new(),
        bio: String::new(),
        bioLinks: Vec::new(),
        profilePicOverride: String::new(),
        statusDescription: String::new(),
        currentAvatarImageUrl: String::new(),
        currentAvatarThumbnailImageUrl: String::new(),
        tags: Vec::new(),
        developerType: "none".to_string(),
        last_login: String::new(),
        last_platform: "standalonewindows".to_string(),
        status,
        isFriend: true,
        friendKey: String::new(),
    }
}

fn ids(list: &[User]) -> Vec<&str> {
    list.iter().map(|u| u.id.as_str()).collect()
}

fn location_event(id: &str, status: Status, location: &str, traveling: Option<&str>) -> FriendLocation {
    FriendLocation {
        userId: id.to_string(),
        location: Some(location.to_string()),
        travelingToLocation: traveling.map(|t| t.to_string()),
        worldId: None,
        canRequestInvite: None,
        user: EventUser {
            id: id.to_string(),
            displayName: format!("name of {id}"),
            userIcon: String::new(),
            bio: "I \u{ff20} home".to_string(),
            bioLinks: Vec::new(),
            profilePicOverride: String::new(),
            statusDescription: "\u{ff08}busy\u{ff09}".to_string(),
            currentAvatarImageUrl: String::new(),
            currentAvatarThumbnailImageUrl: String::new(),
            currentAvatarTags: Vec::new(),
            state: "online".to_string(),
            tags: Vec::new(),
            developerType: "none".to_string(),
            last_login: String::new(),
            last_platform: String::new(),
            allowAvatarCopying: false,
            status,
            isFriend: true,
            friendKey: String::new(),
            last_activity: String::new(),
        },
        world: None,
    }
}

#[test]
fn sort_is_stable_by_status() {
    let mut list = vec![
        user("a", Status::Busy, None),
        user("b", Status::JoinMe, None),
        user("c", Status::Offline, None),
        user("d", Status::Active, None),
        user("e", Status::JoinMe, None),
        user("f", Status::AskMe, None),
        user("g", Status::Active, None),
    ];
    sort_by_status(&mut list);
    assert_eq!(ids(&list), vec!["b", "e", "d", "g", "f", "a", "c"]);
    sort_by_status(&mut list);
    assert_eq!(ids(&list), vec!["b", "e", "d", "g", "f", "a", "c"]);
}

#[test]
fn push_and_sort_places_by_status() {
    let mut list = vec![user("a", Status::JoinMe, None), user("b", Status::Busy, None)];
    push_and_sort(&mut list, user("c", Status::Active, None));
    assert_eq!(ids(&list), vec!["a", "c", "b"]);
    push_and_sort(&mut list, user("d", Status::JoinMe, None));
    assert_eq!(ids(&list), vec!["a", "d", "c", "b"]);
}

#[test]
fn find_remove_takes_the_first_match() {
    let mut list = vec![
        user("a", Status::Active, None),
        user("b", Status::Busy, None),
        user("b", Status::JoinMe, None),
    ];
    let removed = find_remove(&mut list, &"b".to_string()).unwrap();
    assert_eq!(removed.status, Status::Busy);
    assert_eq!(ids(&list), vec!["a", "b"]);
    assert!(find_remove(&mut list, &"z".to_string()).is_none());
    assert_eq!(ids(&list), vec!["a", "b"]);
}

#[test]
fn friend_online_moves_from_offline_to_online() {
    let mut users = Users::new();
    users.online = vec![user("a", Status::Busy, Some("wrld_1:1"))];
    users.offline = vec![user("x", Status::Offline, None), user("b", Status::Offline, None)];
    let (mut u, _) = location_event("b", Status::JoinMe, "wrld_2:2", None).normalize();
    u.unsanitize();
    assert_eq!(u.bio, "I @ home");
    assert_eq!(u.statusDescription, "(busy)");
    let notice = users.on_friend_location(u);
    assert!(notice.is_none());
    assert_eq!(ids(&users.online), vec!["b", "a"]);
    assert_eq!(ids(&users.offline), vec!["x"]);
    assert_eq!(users.online[0].location.as_deref(), Some("wrld_2:2"));
}

#[test]
fn friend_location_replaces_in_place_and_reports_travel() {
    let mut users = Users::new();
    users.online = vec![user("a", Status::JoinMe, None), user("b", Status::Active, None)];
    let (u, _) = location_event("a", Status::JoinMe, "wrld_3:3", Some("wrld_9:9")).normalize();
    let notice = users.on_friend_location(u).unwrap();
    assert_eq!(notice.location, "wrld_9:9");
    assert_eq!(notice.display_name, "name of a");
    assert_eq!(ids(&users.online), vec!["a", "b"]);
    assert_eq!(users.online[0].location.as_deref(), Some("wrld_3:3"));

    let (u, _) = location_event("a", Status::Busy, "wrld_3:3", None).normalize();
    users.on_friend_location(u);
    assert_eq!(ids(&users.online), vec!["b", "a"]);
}

#[test]
fn friend_online_from_web() {
    let mut users = Users::new();
    users.web = vec![user("w", Status::Active, None)];
    let (u, _) = location_event("w", Status::Active, "wrld_1:1", None).normalize();
    users.on_friend_location(u);
    assert!(users.web.is_empty());
    assert_eq!(ids(&users.online), vec!["w"]);
}

#[test]
fn friend_active_moves_to_web() {
    let mut users = Users::new();
    users.online = vec![user("a", Status::Active, Some("wrld_1:1"))];
    users.web = vec![user("c", Status::Busy, None)];
    users.on_friend_active(user("a", Status::Active, None));
    assert!(users.online.is_empty());
    assert_eq!(ids(&users.web), vec!["a", "c"]);
}

#[test]
fn friend_add_places_by_location_and_status() {
    let mut users = Users::new();
    users.on_friend_add(user("off", Status::Offline, Some("offline")), false);
    users.on_friend_add(user("none", Status::Active, None), false);
    users.on_friend_add(user("game", Status::Busy, Some("wrld_1:1")), false);
    users.on_friend_add(user("site", Status::AskMe, Some("private")), true);
    users.on_friend_add(user("join", Status::JoinMe, Some("wrld_2:2")), true);
    assert_eq!(ids(&users.offline), vec!["off", "none"]);
    assert_eq!(ids(&users.online), vec!["join", "game"]);
    assert_eq!(ids(&users.web), vec!["site"]);
}

#[test]
fn friend_offline_resets_status_and_location() {
    let mut users = Users::new();
    users.online = vec![user("a", Status::JoinMe, Some("wrld_1:1"))];
    users.web = vec![user("b", Status::Active, None)];
    users.on_friend_offline(&"b".to_string());
    users.on_friend_offline(&"a".to_string());
    users.on_friend_offline(&"missing".to_string());
    assert!(users.online.is_empty());
    assert!(users.web.is_empty());
    assert_eq!(ids(&users.offline), vec!["b", "a"]);
    assert_eq!(users.offline[1].status, Status::Offline);
    assert_eq!(users.offline[1].location, None);
    assert_eq!(users.offline[1].travelingToLocation, None);
}

#[test]
fn friend_delete_removes_first_found() {
    let mut users = Users::new();
    users.online = vec![user("a", Status::JoinMe, None)];
    users.web = vec![user("b", Status::Active, None)];
    users.offline = vec![user("c", Status::Offline, None)];
    users.on_friend_delete(&"b".to_string());
    users.on_friend_delete(&"c".to_string());
    users.on_friend_delete(&"a".to_string());
    assert!(users.online.is_empty() && users.web.is_empty() && users.offline.is_empty());
}

#[test]
fn user_location_sets_myself() {
    let mut users = Users::new();
    assert!(users.myself.is_none());
    let (me, world) = location_event("me", Status::Active, "wrld_5:5", None).normalize();
    assert!(world.is_none());
    users.on_user_location(me);
    let me = users.myself.as_ref().unwrap();
    assert_eq!(me.id, "me");
    assert_eq!(me.bio, "I \u{ff20} home");
}

#[test]
fn a_friend_stays_listed_once() {
    let mut users = Users::new();
    users.offline = vec![user("a", Status::Offline, None)];
    let (u, _) = location_event("a", Status::JoinMe, "wrld_1:1", None).normalize();
    users.on_friend_location(u);
    users.on_friend_active(user("a", Status::Active, None));
    users.on_friend_offline(&"a".to_string());
    let (u, _) = location_event("a", Status::Busy, "wrld_1:1", None).normalize();
    users.on_friend_location(u);
    let count = [&users.online, &users.web, &users.offline]
        .iter()
        .map(|l| l.iter().filter(|u| u.id == "a").count())
        .sum::<usize>();
    assert_eq!(count, 1);
    assert_eq!(ids(&users.online), vec!["a"]);
}

#[test]
fn status_default_is_offline() {
    assert_eq!(Status::default(), Status::Offline);
    assert_eq!(Status::Busy.rank(), 3);
}
