use vrc_yutils::init::{initial_users, partition_active, FriendPager};
use vrc_yutils::model::{GoogleDetails, Presence, Status, SteamDetails, User, UserProfile};

fn friend(id: &str, status: Status) -> User {
    User {
        id: id.to_string(),
        location: None,
        travelingToLocation: None,
        displayName: id.to_uppercase(),
        userIcon: String::new(),
        bio: "a \u{ff06} b".to_string(),
        bioLinks: Vec::new(),
        profilePicOverride: String::new(),
        statusDescription: String::new(),
        currentAvatarImageUrl: String::new(),
        currentAvatarThumbnailImageUrl: String::new(),
        tags: Vec::new(),
        developerType: String::new(),
        last_login: String::new(),
        last_platform: String::new(),
        status,
        isFriend: true,
        friendKey: String::new(),
    }
}

fn s(x: &str) -> String {
    x.to_string()
}

fn profile(world: &str, instance: &str, active: &[&str]) -> UserProfile {
    UserProfile {
        id: s("usr_me"),
        displayName: s("Me"),
        userIcon: s("icon"),
        bio: s("my bio"),
        bioLinks: vec![s("https://example.com")],
        profilePicOverride: s(""),
        statusDescription: s("hello"),
        username: s("me"),
        pastDisplayNames: Vec::new(),
        hasEmail: true,
        hasPendingEmail: false,
        obfuscatedEmail: s("m***@example.com"),
        obfuscatedPendingEmail: s(""),
        emailVerified: true,
        hasBirthday: false,
        hideContentFilterSettings: false,
        unsubscribe: false,
        statusHistory: Vec::new(),
        statusFirstTime: false,
        friends: Vec::new(),
        friendGroupNames: Vec::new(),
        queuedInstance: None,
        userLanguage: s("ja"),
        userLanguageCode: s("ja"),
        currentAvatarImageUrl: s("avatar"),
        currentAvatarThumbnailImageUrl: s("thumb"),
        currentAvatarTags: Vec::new(),
        currentAvatar: s("avtr_1"),
        currentAvatarAssetUrl: s(""),
        fallbackAvatar: s(""),
        accountDeletionDate: None,
        accountDeletionLog: None,
        acceptedTOSVersion: 9,
        acceptedPrivacyVersion: 2,
        steamId: s(""),
        steamDetails: SteamDetails {},
        googleId: s(""),
        googleDetails: GoogleDetails {},
        oculusId: s(""),
        picoId: s(""),
        viveId: s(""),
        hasLoggedInFromClient: true,
        homeLocation: s(""),
        twoFactorAuthEnabled: true,
        twoFactorAuthEnabledDate: None,
        updated_at: s(""),
        state: s("online"),
        tags: vec![s("system_trust_basic")],
        developerType: s("none"),
        last_login: s(""),
        last_platform: s("standalonewindows"),
        allowAvatarCopying: false,
        status: Status::Active,
        isFriend: false,
        friendKey: s(""),
        last_activity: s(""),
        onlineFriends: Vec::new(),
        activeFriends: active.iter().map(|x| s(x)).collect(),
        presence: Presence {
            platform: s("standalonewindows"),
            instance: s(instance),
            profilePicOverride: s(""),
            currentAvatarTags: s(""),
            avatarThumbnail: s(""),
            status: Status::Active,
            instanceType: s("public"),
            travelingToWorld: s(""),
            travelingToInstance: s(""),
            groups: Vec::new(),
            world: s(world),
            displayName: s("Me"),
            id: s("usr_me"),
            debugflag: s(""),
            isRejoining: s(""),
            userIcon: s(""),
        },
        offlineFriends: Vec::new(),
    }
}

#[test]
fn start_up_lists() {
    let online = vec![
        friend("a", Status::Active),
        friend("b", Status::Busy),
        friend("c", Status::JoinMe),
    ];
    let offline = vec![friend("z", Status::Offline)];
    let users = initial_users(profile("wrld_1", "42", &["b"]), online, offline);
    let me = users.myself.unwrap();
    assert_eq!(me.id, "usr_me");
    assert_eq!(me.location.as_deref(), Some("wrld_1:42"));
    assert_eq!(me.travelingToLocation, None);
    assert_eq!(me.statusDescription, "hello");
    let ids = |l: &Vec<User>| l.iter().map(|u| u.id.clone()).collect::<Vec<_>>();
    assert_eq!(ids(&users.web), vec!["b"]);
    assert_eq!(ids(&users.online), vec!["a", "c"]);
    assert_eq!(ids(&users.offline), vec!["z"]);
}

#[test]
fn myself_without_instance_has_no_location() {
    let users = initial_users(profile("wrld_1", "", &[]), Vec::new(), Vec::new());
    assert_eq!(users.myself.unwrap().location, None);
}

#[test]
fn partition_keeps_everyone() {
    let online = vec![friend("a", Status::Active), friend("b", Status::Busy)];
    let (web, rest) = partition_active(online, &vec![s("a"), s("q")]);
    assert_eq!(web.len() + rest.len(), 2);
    assert_eq!(web[0].id, "a");
    assert_eq!(rest[0].id, "b");
}

#[test]
fn pager_collects_pages_and_unsanitizes() {
    let mut pager = FriendPager::new();
    assert!(pager.accept(vec![friend("a", Status::Active), friend("b", Status::Busy)]));
    assert_eq!(pager.offset, 50);
    assert!(pager.accept(vec![friend("c", Status::Active)]));
    assert_eq!(pager.offset, 100);
    assert!(!pager.accept(Vec::new()));
    assert_eq!(pager.offset, 100);
    let all = pager.finish();
    assert_eq!(all.len(), 3);
    assert_eq!(all[2].id, "c");
    assert_eq!(all[0].bio, "a & b");
}

#[test]
fn users_compare_by_status() {
    assert!(friend("a", Status::Busy) == friend("b", Status::Busy));
    assert!(friend("a", Status::Busy) != friend("a", Status::Active));
}
