//! The records that the VRChat API and its pipeline stream deliver, as plain
//! values, and the conversions between them.

#![allow(non_snake_case)]

use vstd::prelude::*;

use crate::sanitize::{unsanitize, unsanitized};

verus! {

/// A user's online status. The declaration order is the order in which
/// friend lists are sorted.
#[derive(Clone, Copy, Debug, PartialEq, Eq, Structural, PartialOrd, Ord)]
pub enum Status {
    JoinMe,
    Active,
    AskMe,
    Busy,
    Offline,
}

impl Default for Status {
    fn default() -> (s: Self)
        ensures
            s == Status::Offline,
    {
        Status::Offline
    }
}

/// The position of a status in the sort order of friend lists.
pub open spec fn rank(s: Status) -> int {
    match s {
        Status::JoinMe => 0,
        Status::Active => 1,
        Status::AskMe => 2,
        Status::Busy => 3,
        Status::Offline => 4,
    }
}

impl Status {
    /// The position of this status in the sort order of friend lists.
    pub fn rank(&self) -> (r: u8)
        ensures
            r as int == rank(*self),
    {
        match self {
            Status::JoinMe => 0,
            Status::Active => 1,
            Status::AskMe => 2,
            Status::Busy => 3,
            Status::Offline => 4,
        }
    }
}

/// A user as the friend lists hold it. Two users compare equal when their
/// statuses are equal (the comparison the lists are sorted by).
#[derive(Clone, Eq)]
pub struct User {
    pub id: String,
    pub location: Option<String>,
    pub travelingToLocation: Option<String>,
    pub displayName: String,
    pub userIcon: String,
    pub bio: String,
    pub bioLinks: Vec<String>,
    pub profilePicOverride: String,
    pub statusDescription: String,
    pub currentAvatarImageUrl: String,
    pub currentAvatarThumbnailImageUrl: String,
    pub tags: Vec<String>,
    pub developerType: String,
    pub last_login: String,
    pub last_platform: String,
    pub status: Status,
    pub isFriend: bool,
    pub friendKey: String,
}

impl PartialEq for User {
    fn eq(&self, other: &Self) -> (r: bool) {
        self.status == other.status
    }
}

impl vstd::std_specs::cmp::PartialEqSpecImpl for User {
    open spec fn obeys_eq_spec() -> bool {
        true
    }

    open spec fn eq_spec(&self, other: &Self) -> bool {
        self.status == other.status
    }
}

/// `b` is `a` with its bio and status description unsanitized and every
/// other field left as it was.
pub open spec fn is_unsanitized_of(b: User, a: User) -> bool {
    &&& b.bio@ == unsanitized(a.bio@)
    &&& b.statusDescription@ == unsanitized(a.statusDescription@)
    &&& b.id == a.id
    &&& b.location == a.location
    &&& b.travelingToLocation == a.travelingToLocation
    &&& b.displayName == a.displayName
    &&& b.userIcon == a.userIcon
    &&& b.bioLinks == a.bioLinks
    &&& b.profilePicOverride == a.profilePicOverride
    &&& b.currentAvatarImageUrl == a.currentAvatarImageUrl
    &&& b.currentAvatarThumbnailImageUrl == a.currentAvatarThumbnailImageUrl
    &&& b.tags == a.tags
    &&& b.developerType == a.developerType
    &&& b.last_login == a.last_login
    &&& b.last_platform == a.last_platform
    &&& b.status == a.status
    &&& b.isFriend == a.isFriend
    &&& b.friendKey == a.friendKey
}

impl User {
    /// Restores the characters that the API replaced in the bio and the
    /// status description.
    pub fn unsanitize(&mut self)
        ensures
            is_unsanitized_of(*final(self), *old(self)),
    {
        self.bio = unsanitize(self.bio.as_str());
        self.statusDescription = unsanitize(self.statusDescription.as_str());
    }
}

/// The body of one message of the pipeline stream: an event type and its
/// content, itself JSON text.
pub struct StreamBody {
    pub event_type: String,
    pub content: String,
}

/// The content of events that only name a user.
pub struct UserIdContent {
    pub userId: String,
}

/// The content of a `friend-active` event.
pub struct FriendActive {
    pub user: User,
}

/// The content of `friend-online`, `friend-location` and `user-location`
/// events.
pub struct FriendLocation {
    pub userId: String,
    pub location: Option<String>,
    pub travelingToLocation: Option<String>,
    pub worldId: Option<String>,
    pub canRequestInvite: Option<bool>,
    pub user: EventUser,
    pub world: Option<World>,
}

/// A user as location events carry it (without the location fields).
pub struct EventUser {
    pub id: String,
    pub displayName: String,
    pub userIcon: String,
    pub bio: String,
    pub bioLinks: Vec<String>,
    pub profilePicOverride: String,
    pub statusDescription: String,
    pub currentAvatarImageUrl: String,
    pub currentAvatarThumbnailImageUrl: String,
    pub currentAvatarTags: Vec<String>,
    pub state: String,
    pub tags: Vec<String>,
    pub developerType: String,
    pub last_login: String,
    pub last_platform: String,
    pub allowAvatarCopying: bool,
    pub status: Status,
    pub isFriend: bool,
    pub friendKey: String,
    pub last_activity: String,
}

/// A world.
pub struct World {
    pub id: String,
    pub name: String,
    pub description: String,
    pub authorId: String,
    pub authorName: String,
    pub releaseStatus: String,
    pub featured: bool,
    pub capacity: i32,
    pub recommendedCapacity: i32,
    pub imageUrl: String,
    pub thumbnailImageUrl: String,
    pub namespace: String,
    pub version: i32,
    pub organization: String,
    pub previewYoutubeId: Option<String>,
    pub udonProducts: Vec<String>,
    pub favorites: i32,
    pub visits: i32,
    pub popularity: i32,
    pub heat: i32,
    pub publicationDate: String,
    pub labsPublicationDate: String,
    pub instances: Vec<String>,
    pub publicOccupants: i32,
    pub privateOccupants: i32,
    pub occupants: i32,
    pub tags: Vec<String>,
    pub created_at: String,
    pub updated_at: String,
}

/// The user record of a location event: the event's user with the
/// event's location fields.
pub open spec fn normalized_user(loc: FriendLocation) -> User {
    User {
        id: loc.user.id,
        location: loc.location,
        travelingToLocation: loc.travelingToLocation,
        displayName: loc.user.displayName,
        userIcon: loc.user.userIcon,
        bio: loc.user.bio,
        bioLinks: loc.user.bioLinks,
        profilePicOverride: loc.user.profilePicOverride,
        statusDescription: loc.user.statusDescription,
        currentAvatarImageUrl: loc.user.currentAvatarImageUrl,
        currentAvatarThumbnailImageUrl: loc.user.currentAvatarThumbnailImageUrl,
        tags: loc.user.tags,
        developerType: loc.user.developerType,
        last_login: loc.user.last_login,
        last_platform: loc.user.last_platform,
        status: loc.user.status,
        isFriend: loc.user.isFriend,
        friendKey: loc.user.friendKey,
    }
}

/// The user record of a location event keeps every field of the event's
/// user under its own name, and takes the location fields from the event.
pub proof fn lemma_normalized_fields(loc: FriendLocation)
    ensures
        normalized_user(loc).location == loc.location,
        normalized_user(loc).travelingToLocation == loc.travelingToLocation,
        normalized_user(loc).id == loc.user.id,
        normalized_user(loc).displayName == loc.user.displayName,
        normalized_user(loc).userIcon == loc.user.userIcon,
        normalized_user(loc).bio == loc.user.bio,
        normalized_user(loc).bioLinks == loc.user.bioLinks,
        normalized_user(loc).profilePicOverride == loc.user.profilePicOverride,
        normalized_user(loc).statusDescription == loc.user.statusDescription,
        normalized_user(loc).currentAvatarImageUrl == loc.user.currentAvatarImageUrl,
        normalized_user(loc).currentAvatarThumbnailImageUrl == loc.user.currentAvatarThumbnailImageUrl,
        normalized_user(loc).tags == loc.user.tags,
        normalized_user(loc).developerType == loc.user.developerType,
        normalized_user(loc).last_login == loc.user.last_login,
        normalized_user(loc).last_platform == loc.user.last_platform,
        normalized_user(loc).status == loc.user.status,
        normalized_user(loc).isFriend == loc.user.isFriend,
        normalized_user(loc).friendKey == loc.user.friendKey,
{
}

impl FriendLocation {
    /// Splits a location event into the user record and the world.
    pub fn normalize(self) -> (r: (User, Option<World>))
        ensures
            r.0 == normalized_user(self),
            r.1 == self.world,
            r.0.location == self.location,
            r.0.travelingToLocation == self.travelingToLocation,
            r.0.id == self.user.id,
            r.0.displayName == self.user.displayName,
            r.0.userIcon == self.user.userIcon,
            r.0.bio == self.user.bio,
            r.0.bioLinks == self.user.bioLinks,
            r.0.profilePicOverride == self.user.profilePicOverride,
            r.0.statusDescription == self.user.statusDescription,
            r.0.currentAvatarImageUrl == self.user.currentAvatarImageUrl,
            r.0.currentAvatarThumbnailImageUrl == self.user.currentAvatarThumbnailImageUrl,
            r.0.tags == self.user.tags,
            r.0.developerType == self.user.developerType,
            r.0.last_login == self.user.last_login,
            r.0.last_platform == self.user.last_platform,
            r.0.status == self.user.status,
            r.0.isFriend == self.user.isFriend,
            r.0.friendKey == self.user.friendKey,
    {
        (
            User {
                bio: self.user.bio,
                bioLinks: self.user.bioLinks,
                currentAvatarThumbnailImageUrl: self.user.currentAvatarThumbnailImageUrl,
                displayName: self.user.displayName,
                id: self.user.id,
                isFriend: self.user.isFriend,
                location: self.location,
                travelingToLocation: self.travelingToLocation,
                status: self.user.status,
                statusDescription: self.user.statusDescription,
                tags: self.user.tags,
                userIcon: self.user.userIcon,
                profilePicOverride: self.user.profilePicOverride,
                currentAvatarImageUrl: self.user.currentAvatarImageUrl,
                developerType: self.user.developerType,
                last_login: self.user.last_login,
                last_platform: self.user.last_platform,
                friendKey: self.user.friendKey,
            },
            self.world,
        )
    }
}

/// The signed-in user's own profile.
pub struct UserProfile {
    pub id: String,
    pub displayName: String,
    pub userIcon: String,
    pub bio: String,
    pub bioLinks: Vec<String>,
    pub profilePicOverride: String,
    pub statusDescription: String,
    pub username: String,
    pub pastDisplayNames: Vec<String>,
    pub hasEmail: bool,
    pub hasPendingEmail: bool,
    pub obfuscatedEmail: String,
    pub obfuscatedPendingEmail: String,
    pub emailVerified: bool,
    pub hasBirthday: bool,
    pub hideContentFilterSettings: bool,
    pub unsubscribe: bool,
    pub statusHistory: Vec<String>,
    pub statusFirstTime: bool,
    pub friends: Vec<String>,
    pub friendGroupNames: Vec<String>,
    pub queuedInstance: Option<String>,
    pub userLanguage: String,
    pub userLanguageCode: String,
    pub currentAvatarImageUrl: String,
    pub currentAvatarThumbnailImageUrl: String,
    pub currentAvatarTags: Vec<String>,
    pub currentAvatar: String,
    pub currentAvatarAssetUrl: String,
    pub fallbackAvatar: String,
    pub accountDeletionDate: Option<String>,
    pub accountDeletionLog: Option<String>,
    pub acceptedTOSVersion: u32,
    pub acceptedPrivacyVersion: u32,
    pub steamId: String,
    pub steamDetails: SteamDetails,
    pub googleId: String,
    pub googleDetails: GoogleDetails,
    pub oculusId: String,
    pub picoId: String,
    pub viveId: String,
    pub hasLoggedInFromClient: bool,
    pub homeLocation: String,
    pub twoFactorAuthEnabled: bool,
    pub twoFactorAuthEnabledDate: Option<String>,
    pub updated_at: String,
    pub state: String,
    pub tags: Vec<String>,
    pub developerType: String,
    pub last_login: String,
    pub last_platform: String,
    pub allowAvatarCopying: bool,
    pub status: Status,
    pub isFriend: bool,
    pub friendKey: String,
    pub last_activity: String,
    pub onlineFriends: Vec<String>,
    pub activeFriends: Vec<String>,
    pub presence: Presence,
    pub offlineFriends: Vec<String>,
}

/// Steam account details (no fields are read).
pub struct SteamDetails {}

/// Google account details (no fields are read).
pub struct GoogleDetails {}

/// Where and how the signed-in user is present.
pub struct Presence {
    pub platform: String,
    pub instance: String,
    pub profilePicOverride: String,
    pub currentAvatarTags: String,
    pub avatarThumbnail: String,
    pub status: Status,
    pub instanceType: String,
    pub travelingToWorld: String,
    pub travelingToInstance: String,
    pub groups: Vec<String>,
    pub world: String,
    pub displayName: String,
    pub id: String,
    pub debugflag: String,
    pub isRejoining: String,
    pub userIcon: String,
}

} // verus!
