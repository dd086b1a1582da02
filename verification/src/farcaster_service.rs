//! Social features on Farcaster. Nothing is fetched yet: every answer is made up here.

use crate::text::{decimal, lower_hex, numeral};
use std::collections::HashMap;
use vstd::prelude::*;
use vstd::string::StringExecFns;

verus! {

broadcast use vstd::std_specs::hash::group_hash_axioms;

/// A user of Farcaster.
#[derive(Debug, Clone)]
pub struct FarcasterUser {
    pub fid: u64,
    pub username: String,
    pub display_name: Option<String>,
    pub bio: Option<String>,
    pub follower_count: u32,
    pub following_count: u32,
}

/// A cast on Farcaster.
#[derive(Debug, Clone)]
pub struct FarcasterCast {
    pub hash: String,
    pub author_fid: u64,
    pub text: String,
    pub timestamp: String,
    pub replies_count: u32,
    pub reactions_count: u32,
}

/// Whether `user` is the profile that is made up for the user `fid`.
pub open spec fn is_placeholder_profile(user: FarcasterUser, fid: u64) -> bool {
    &&& user.fid == fid
    &&& user.username@ == "user"@ + numeral(fid as nat, 10)
    &&& user.display_name.deep_view() == Some("Farcaster User "@ + numeral(fid as nat, 10))
    &&& user.bio.deep_view() == Some("Music lover on Farcaster"@)
    &&& user.follower_count == 100
    &&& user.following_count == 50
}

/// The profile that is made up for the user `fid`.
fn placeholder_profile(fid: u64) -> (user: FarcasterUser)
    ensures
        is_placeholder_profile(user, fid),
{
    let number = decimal(fid);
    let mut username = "user".to_owned();
    username.append(number.as_str());
    let mut display_name = "Farcaster User ".to_owned();
    display_name.append(number.as_str());
    FarcasterUser {
        fid,
        username,
        display_name: Some(display_name),
        bio: Some("Music lover on Farcaster".to_owned()),
        follower_count: 100,
        following_count: 50,
    }
}

/// The hash of the cast that announces a version: `0x` and, in hexadecimal,
/// the number of bytes of the text and of the embedded address together.
pub open spec fn cast_hash(text_len: nat, url_len: nat) -> Seq<char> {
    "0x"@ + numeral(text_len + url_len, 16)
}

/// Farcaster service, with the profiles that it has handed out.
#[derive(Debug, Clone)]
pub struct FarcasterService {
    user_cache: HashMap<u64, FarcasterUser>,
}

impl FarcasterService {
    /// The profiles that have been handed out, by user.
    pub closed spec fn users(&self) -> Map<u64, FarcasterUser> {
        self.user_cache@
    }

    pub fn new() -> (service: Self)
        ensures
            service.users() == Map::<u64, FarcasterUser>::empty(),
    {
        FarcasterService { user_cache: HashMap::new() }
    }

    /// The profile of the user `fid`: a copy of the one that was handed out
    /// before, if one was; else a made-up one, which is kept.
    pub fn get_user_profile(&mut self, fid: u64) -> (user: FarcasterUser)
        ensures
            old(self).users().contains_key(fid) ==> {
                &&& final(self).users() == old(self).users()
                &&& cloned(old(self).users()[fid], user)
            },
            !old(self).users().contains_key(fid) ==> {
                &&& is_placeholder_profile(user, fid)
                &&& final(self).users().dom() == old(self).users().dom().insert(fid)
                &&& is_placeholder_profile(final(self).users()[fid], fid)
                &&& forall|other: u64|
                    old(self).users().contains_key(other) ==> final(self).users()[other] == old(
                        self,
                    ).users()[other]
            },
    {
        match self.user_cache.get(&fid) {
            Some(user) => {
                return user.clone();
            },
            None => {},
        }
        self.user_cache.insert(fid, placeholder_profile(fid));
        assert(self.users().dom() =~= old(self).users().dom().insert(fid));
        placeholder_profile(fid)
    }

    /// The users that the user `fid` is connected to.
    pub fn get_social_graph(&self, fid: u64) -> (graph: Vec<u64>)
        ensures
            graph@ == seq![1u64, 2u64, 3u64, 4u64, 5u64],
    {
        let graph = vec![1, 2, 3, 4, 5];
        assert(graph@ =~= seq![1u64, 2u64, 3u64, 4u64, 5u64]);
        graph
    }

    /// Announces a version in a cast with the text `text` and the embedded
    /// address `embed_url`, and returns the hash of the cast.
    pub fn cast_version_discovery(&self, text: &str, embed_url: &str) -> (hash: String)
        ensures
            hash@ == cast_hash(text.len() as nat, embed_url.len() as nat),
    {
        let mut hash = "0x".to_owned();
        hash.append(lower_hex(text.len() as u128 + embed_url.len() as u128).as_str());
        hash
    }

    /// The casts that discuss the version `version_id`.
    pub fn get_version_discussions(&self, version_id: &str) -> (casts: Vec<FarcasterCast>)
        ensures
            casts@.len() == 2,
            casts@[0].hash@ == "0x123"@,
            casts@[0].author_fid == 1,
            casts@[0].text@ == "Love this version of "@ + version_id@ + "!"@,
            casts@[0].timestamp@ == "2024-01-01T00:00:00Z"@,
            casts@[0].replies_count == 5,
            casts@[0].reactions_count == 20,
            casts@[1].hash@ == "0x456"@,
            casts@[1].author_fid == 2,
            casts@[1].text@ == "This "@ + version_id@ + " version hits different! 🔥"@,
            casts@[1].timestamp@ == "2024-01-02T00:00:00Z"@,
            casts@[1].replies_count == 3,
            casts@[1].reactions_count == 15,
    {
        let mut first_text = "Love this version of ".to_owned();
        first_text.append(version_id);
        first_text.append("!");
        let mut second_text = "This ".to_owned();
        second_text.append(version_id);
        second_text.append(" version hits different! 🔥");
        let mut casts: Vec<FarcasterCast> = Vec::new();
        casts.push(
            FarcasterCast {
                hash: "0x123".to_owned(),
                author_fid: 1,
                text: first_text,
                timestamp: "2024-01-01T00:00:00Z".to_owned(),
                replies_count: 5,
                reactions_count: 20,
            },
        );
        casts.push(
            FarcasterCast {
                hash: "0x456".to_owned(),
                author_fid: 2,
                text: second_text,
                timestamp: "2024-01-02T00:00:00Z".to_owned(),
                replies_count: 3,
                reactions_count: 15,
            },
        );
        casts
    }
}

impl Default for FarcasterService {
    fn default() -> (service: Self)
        ensures
            service.users() == Map::<u64, FarcasterUser>::empty(),
    {
        FarcasterService::new()
    }
}

} // verus!
