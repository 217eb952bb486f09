//! A cache of Keybase profile pictures, by username, whose entries live for
//! an hour after they were stored.
use vstd::prelude::*;
use transient_hashmap::TransientHashMap;
use crate::slack_side::opt_view;

verus! {

/// A `TransientHashMap` of picture URLs by username, kept out of Verus's
/// sight: it is read and changed only through the functions below.
#[verifier::external_body]
pub struct PictureMap {
    map: TransientHashMap<String, String>,
}

#[verifier::external_type_specification]
#[verifier::external_body]
pub struct ExReqwestError(reqwest::Error);

#[verifier::external_type_specification]
#[verifier::external_body]
pub struct ExJsonError(serde_json::Error);

/// The entries a transient map of picture URLs holds, by username.
pub uninterp spec fn pictures_held(m: PictureMap) -> Map<Seq<char>, Seq<char>>;

/// The lifetime, in seconds, a transient map of picture URLs was made with.
pub uninterp spec fn lifetime_held(m: PictureMap) -> nat;

/// Relies on `TransientHashMap::new`: an empty map whose entries live for
/// `lifetime` seconds.
#[verifier::external_body]
fn new_picture_map(lifetime: u32) -> (r: PictureMap)
    ensures
        pictures_held(r).dom().is_empty(),
        lifetime_held(r) == lifetime,
{
    PictureMap { map: TransientHashMap::new(lifetime) }
}

/// Relies on `TransientHashMap::prune`: it removes the entries stamped a
/// lifetime ago or earlier and leaves the others as they are.
#[verifier::external_body]
fn prune_pictures(m: &mut PictureMap)
    ensures
        pictures_held(*final(m)).submap_of(pictures_held(*old(m))),
        lifetime_held(*final(m)) == lifetime_held(*old(m)),
{
    m.map.prune();
}

/// Relies on `TransientHashMap::direct`: the backing map, read without
/// prolonging the entry's life.
#[verifier::external_body]
fn peek_picture(m: &PictureMap, username: &String) -> (r: Option<String>)
    ensures
        r matches Some(u) ==> pictures_held(*m).contains_key(username@) && pictures_held(
            *m,
        )[username@] == u@,
        r is None ==> !pictures_held(*m).contains_key(username@),
{
    m.map.direct().get(username).cloned()
}

/// Relies on `TransientHashMap::insert`: it sets the entry and stamps it
/// with the time now.
#[verifier::external_body]
fn insert_picture(m: &mut PictureMap, username: String, url: String)
    ensures
        pictures_held(*final(m)) == pictures_held(*old(m)).insert(username@, url@),
        lifetime_held(*final(m)) == lifetime_held(*old(m)),
{
    m.map.insert(username, url);
}

/// How long a cached picture stays valid, in seconds.
pub const PICTURE_LIFETIME: u32 = 3600;

/// Why no picture URL could be had for a user.
pub enum KBProfileError {
    /// The lookup answered, but without a picture.
    Simple(String),
    /// The lookup request failed.
    Reqwest(reqwest::Error),
    /// The lookup's answer could not be parsed.
    Parsing(serde_json::Error),
}

/// The answer of a Keybase user lookup, with the fields the cache reads.
pub struct KeybaseProfileResp {
    pub them: Vec<KeybaseProfile>,
}

pub struct KeybaseProfile {
    pub pictures: Option<KeybasePics>,
}

pub struct KeybasePics {
    pub primary: Option<KeybasePicPrimary>,
}

pub struct KeybasePicPrimary {
    pub url: Option<String>,
}

/// The URL of the primary picture of the first profile of a lookup, if it
/// has one.
pub open spec fn primary_picture(resp: KeybaseProfileResp) -> Option<Seq<char>> {
    if resp.them@.len() == 0 {
        None
    } else {
        match resp.them@[0].pictures {
            Some(pics) => match pics.primary {
                Some(primary) => opt_view(primary.url),
                None => None,
            },
            None => None,
        }
    }
}

/// Picks the primary picture's URL out of a lookup's answer.
pub fn primary_picture_url(resp: &KeybaseProfileResp) -> (r: Option<String>)
    ensures
        opt_view(r) == primary_picture(*resp),
{
    if resp.them.len() == 0 {
        return None;
    }
    match &resp.them[0].pictures {
        Some(pics) => match &pics.primary {
            Some(primary) => match &primary.url {
                Some(url) => Some(url.clone()),
                None => None,
            },
            None => None,
        },
        None => None,
    }
}

/// Profile picture URLs by Keybase username.
pub struct KeybaseProfilePictureCache {
    cache: PictureMap,
}

impl KeybaseProfilePictureCache {
    /// The URLs the cache holds, by username.
    pub closed spec fn pictures(&self) -> Map<Seq<char>, Seq<char>> {
        pictures_held(self.cache)
    }

    /// How long, in seconds, an entry lives after it was stored.
    pub closed spec fn lifetime(&self) -> nat {
        lifetime_held(self.cache)
    }

    /// An empty cache whose entries live for an hour.
    pub fn new() -> (c: Self)
        ensures
            c.pictures() == Map::<Seq<char>, Seq<char>>::empty(),
            c.lifetime() == PICTURE_LIFETIME,
    {
        let c = KeybaseProfilePictureCache { cache: new_picture_map(PICTURE_LIFETIME) };
        assert(c.pictures() =~= Map::empty());
        c
    }

    /// Looks for a live entry for `username`. Expired entries are dropped
    /// first; a live one is returned as it is, and nothing else changes.
    /// `None` means the picture has to be looked up.
    pub fn cached_picture(&mut self, username: &String) -> (r: Option<String>)
        ensures
            final(self).pictures().submap_of(old(self).pictures()),
            final(self).lifetime() == old(self).lifetime(),
            r matches Some(u) ==> final(self).pictures().contains_key(username@)
                && final(self).pictures()[username@] == u@ && old(self).pictures().contains_key(
                username@,
            ) && old(self).pictures()[username@] == u@,
            r is None ==> !final(self).pictures().contains_key(username@),
    {
        prune_pictures(&mut self.cache);
        peek_picture(&self.cache, username)
    }

    /// Takes in the outcome of a lookup of `username`. A picture found is
    /// stored (its life starting now) and returned; a failed lookup, or one
    /// without a picture, is returned as an error and stores nothing, so
    /// the next request looks the user up again.
    pub fn record_lookup(
        &mut self,
        username: &String,
        fetched: Result<KeybaseProfileResp, KBProfileError>,
    ) -> (r: Result<String, KBProfileError>)
        ensures
            final(self).lifetime() == old(self).lifetime(),
            match fetched {
                Ok(resp) => match primary_picture(resp) {
                    Some(u) => {
                        &&& r matches Ok(x) && x@ == u
                        &&& final(self).pictures() == old(self).pictures().insert(username@, u)
                    },
                    None => {
                        &&& r matches Err(KBProfileError::Simple(_))
                        &&& final(self).pictures() == old(self).pictures()
                    },
                },
                Err(e) => {
                    &&& r == Err::<String, KBProfileError>(e)
                    &&& final(self).pictures() == old(self).pictures()
                },
            },
    {
        let resp = match fetched {
            Ok(resp) => resp,
            Err(e) => return Err(e),
        };
        match primary_picture_url(&resp) {
            Some(url) => {
                insert_picture(&mut self.cache, username.clone(), url.clone());
                Ok(url)
            },
            None => Err(KBProfileError::Simple(String::from_str("no profile picture"))),
        }
    }
}

impl Default for KeybaseProfilePictureCache {
    fn default() -> (c: Self)
        ensures
            c.pictures() == Map::<Seq<char>, Seq<char>>::empty(),
            c.lifetime() == PICTURE_LIFETIME,
    {
        Self::new()
    }
}

} // verus!
