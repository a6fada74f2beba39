//! Building the friend lists at start-up: the signed-in user's own record,
//! the split of online friends into in-game and website-only, and the paging
//! through the friends endpoint.

use vstd::prelude::*;

use crate::model::{is_unsanitized_of, User, UserProfile};
use crate::text::{concat, decimal, decimal_string};
use crate::users::Users;

verus! {

/// "world:instance" when both parts are given, as the API writes a location.
pub open spec fn location_of(world: Seq<char>, instance: Seq<char>) -> Option<Seq<char>> {
    if world.len() > 0 && instance.len() > 0 {
        Some(world + ":"@ + instance)
    } else {
        None
    }
}

/// The location "world:instance", when neither part is empty.
pub fn make_location(world: &str, instance: &str) -> (r: Option<String>)
    ensures
        r matches Some(s) ==> location_of(world@, instance@) == Some(s@),
        r is None <==> location_of(world@, instance@) is None,
{
    if world.is_empty() || instance.is_empty() {
        None
    } else {
        let mut s = concat(world, ":");
        s.append(instance);
        Some(s)
    }
}

/// `u` is the record of the signed-in user that `p` describes.
pub open spec fn is_profile_user(u: User, p: UserProfile) -> bool {
    &&& u.id == p.id
    &&& u.displayName == p.displayName
    &&& u.userIcon == p.userIcon
    &&& u.bio == p.bio
    &&& u.bioLinks == p.bioLinks
    &&& u.profilePicOverride == p.profilePicOverride
    &&& u.statusDescription == p.statusDescription
    &&& u.currentAvatarImageUrl == p.currentAvatarImageUrl
    &&& u.currentAvatarThumbnailImageUrl == p.currentAvatarThumbnailImageUrl
    &&& u.tags == p.tags
    &&& u.developerType == p.developerType
    &&& u.last_login == p.last_login
    &&& u.last_platform == p.last_platform
    &&& u.status == p.status
    &&& u.isFriend == p.isFriend
    &&& u.friendKey == p.friendKey
    &&& match u.location {
        Some(l) => location_of(p.presence.world@, p.presence.instance@) == Some(l@),
        None => location_of(p.presence.world@, p.presence.instance@) is None,
    }
    &&& match u.travelingToLocation {
        Some(l) => location_of(p.presence.travelingToWorld@, p.presence.travelingToInstance@)
            == Some(l@),
        None => location_of(p.presence.travelingToWorld@, p.presence.travelingToInstance@) is None,
    }
}

impl UserProfile {
    /// The signed-in user's record, with the locations taken from the
    /// presence.
    pub fn into_user(self) -> (u: User)
        ensures
            is_profile_user(u, self),
    {
        let location = make_location(self.presence.world.as_str(), self.presence.instance.as_str());
        let traveling = make_location(
            self.presence.travelingToWorld.as_str(),
            self.presence.travelingToInstance.as_str(),
        );
        User {
            bio: self.bio,
            bioLinks: self.bioLinks,
            currentAvatarThumbnailImageUrl: self.currentAvatarThumbnailImageUrl,
            displayName: self.displayName,
            id: self.id,
            isFriend: self.isFriend,
            location,
            travelingToLocation: traveling,
            status: self.status,
            statusDescription: self.statusDescription,
            tags: self.tags,
            userIcon: self.userIcon,
            profilePicOverride: self.profilePicOverride,
            currentAvatarImageUrl: self.currentAvatarImageUrl,
            developerType: self.developerType,
            last_login: self.last_login,
            last_platform: self.last_platform,
            friendKey: self.friendKey,
        }
    }
}

/// Some string of `ids` reads `id`.
pub open spec fn lists_id(ids: Seq<String>, id: Seq<char>) -> bool {
    exists|k: int| 0 <= k < ids.len() && ids[k]@ == id
}

/// Holds the users whose id `ids` lists.
pub open spec fn listed_in(ids: Seq<String>) -> spec_fn(User) -> bool {
    |u: User| lists_id(ids, u.id@)
}

/// Holds the users whose id `ids` does not list.
pub open spec fn not_listed_in(ids: Seq<String>) -> spec_fn(User) -> bool {
    |u: User| !lists_id(ids, u.id@)
}

/// Whether `ids` holds `id`.
pub fn contains_id(ids: &Vec<String>, id: &String) -> (b: bool)
    ensures
        b == lists_id(ids@, id@),
{
    let mut k: usize = 0;
    while k < ids.len()
        invariant
            k <= ids.len(),
            forall|j: int| 0 <= j < k ==> ids@[j]@ != id@,
        decreases ids.len() - k,
    {
        if ids[k] == *id {
            return true;
        }
        k = k + 1;
    }
    false
}

/// Splits the online friends into those active on the website (their id
/// in `active`) and the rest, each part in the order given.
pub fn partition_active(online: Vec<User>, active: &Vec<String>) -> (r: (Vec<User>, Vec<User>))
    ensures
        r.0@ == online@.filter(listed_in(active@)),
        r.1@ == online@.filter(not_listed_in(active@)),
{
    let ghost s = online@;
    let mut web: Vec<User> = Vec::new();
    let mut rest: Vec<User> = Vec::new();
    proof {
        reveal(Seq::filter);
        assert(s.take(0) =~= Seq::<User>::empty());
    }
    for u in it: online.into_iter()
        invariant
            it.seq() == s,
            web@ == s.take(it.index() as int).filter(listed_in(active@)),
            rest@ == s.take(it.index() as int).filter(not_listed_in(active@)),
    {
        let ghost k = it.index() as int;
        proof {
            assert(s.take(k + 1) =~= s.take(k).push(u));
            s.take(k).lemma_filter_push(u, listed_in(active@));
            s.take(k).lemma_filter_push(u, not_listed_in(active@));
        }
        if contains_id(active, &u.id) {
            web.push(u);
        } else {
            rest.push(u);
        }
    }
    proof {
        assert(s.take(s.len() as int) =~= s);
    }
    (web, rest)
}

/// Splitting loses no one: the two parts together are as long as the list.
pub proof fn lemma_partition_keeps_all(s: Seq<User>, ids: Seq<String>)
    ensures
        s.filter(listed_in(ids)).len() + s.filter(not_listed_in(ids)).len() == s.len(),
    decreases s.len(),
{
    if s.len() == 0 {
        reveal(Seq::filter);
    } else {
        let p = s.drop_last();
        assert(s =~= p.push(s.last()));
        lemma_partition_keeps_all(p, ids);
        p.lemma_filter_push(s.last(), listed_in(ids));
        p.lemma_filter_push(s.last(), not_listed_in(ids));
    }
}

/// The users signed in as `profile`: the profile's own record, the online
/// friends split by whether the profile lists them as active on the
/// website, and the offline friends, all in the order given.
pub fn initial_users(profile: UserProfile, online: Vec<User>, offline: Vec<User>) -> (r: Users)
    ensures
        r.myself matches Some(me) && is_profile_user(me, profile),
        r.web@ == online@.filter(listed_in(profile.activeFriends@)),
        r.online@ == online@.filter(not_listed_in(profile.activeFriends@)),
        r.offline == offline,
{
    let (web, rest) = partition_active(online, &profile.activeFriends);
    let myself = profile.into_user();
    Users { myself: Some(myself), online: rest, web, offline }
}

/// The address of one page of fifty friends, online or offline, from
/// `offset`.
pub open spec fn friends_page_url(is_offline: bool, offset: u16) -> Seq<char> {
    "https://api.vrchat.cloud/api/1/auth/user/friends?offline="@ + (if is_offline {
        "true"@
    } else {
        "false"@
    }) + "&n=50&offset="@ + decimal(offset as nat)
}

/// The address of one page of fifty friends, online or offline, from
/// `offset`.
pub fn friends_url(is_offline: bool, offset: u16) -> (s: String)
    ensures
        s@ == friends_page_url(is_offline, offset),
{
    let mut s = String::from_str("https://api.vrchat.cloud/api/1/auth/user/friends?offline=");
    if is_offline {
        s.append("true");
    } else {
        s.append("false");
    }
    s.append("&n=50&offset=");
    let n = decimal_string(offset);
    s.append(n.as_str());
    s
}

/// Collects the friends page by page: pages of fifty, requested from
/// offset 0 on, until an empty page comes back.
pub struct FriendPager {
    pub offset: u16,
    pub friends: Vec<User>,
}

impl FriendPager {
    /// Nothing collected yet; the first page is at offset 0.
    pub fn new() -> (p: Self)
        ensures
            p.offset == 0,
            p.friends@ == Seq::<User>::empty(),
    {
        FriendPager { offset: 0, friends: Vec::new() }
    }

    /// Takes in one page. Returns whether another page is to be requested:
    /// an empty page ends the paging, any other moves the offset on by fifty.
    pub fn accept(&mut self, page: Vec<User>) -> (more: bool)
        requires
            page.len() == 0 || old(self).offset + 50 <= u16::MAX,
        ensures
            more == (page.len() > 0),
            more ==> final(self).friends@ == old(self).friends@ + page@ && final(self).offset
                == old(self).offset + 50,
            !more ==> *final(self) == *old(self),
    {
        if page.len() == 0 {
            return false;
        }
        let mut page = page;
        self.friends.append(&mut page);
        self.offset = self.offset + 50;
        true
    }

    /// The collected friends, with their texts unsanitized.
    pub fn finish(self) -> (r: Vec<User>)
        ensures
            r.len() == self.friends.len(),
            forall|i: int| 0 <= i < r.len() ==> is_unsanitized_of(#[trigger] r@[i], self.friends@[i]),
    {
        unsanitize_all(self.friends)
    }
}

/// Every user with their texts unsanitized, in the same order.
pub fn unsanitize_all(users: Vec<User>) -> (r: Vec<User>)
    ensures
        r.len() == users.len(),
        forall|i: int| 0 <= i < r.len() ==> is_unsanitized_of(#[trigger] r@[i], users@[i]),
{
    let ghost s = users@;
    let mut r: Vec<User> = Vec::new();
    for u in it: users.into_iter()
        invariant
            it.seq() == s,
            r.len() == it.index(),
            forall|i: int| 0 <= i < r.len() ==> is_unsanitized_of(#[trigger] r@[i], s[i]),
    {
        let mut u = u;
        u.unsanitize();
        r.push(u);
    }
    r
}

} // verus!
