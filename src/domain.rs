use vstd::prelude::*;
use crate::flickr;
use crate::monument::{now_timestamp, fresh_id};

verus! {

/// A photo license, as stored.
pub struct License {
    /// The storage id.
    pub id: String,
    /// The id under which Flickr knows the license.
    pub flickr_id: i32,
    pub name: String,
    pub url: Option<String>,
    /// Seconds since the Unix epoch.
    pub created_at: i64,
    /// Seconds since the Unix epoch.
    pub updated_at: i64,
}

impl License {
    /// The stored form of a license of the catalog, with a fresh id and
    /// created now.
    pub fn from_raw(rl: flickr::License) -> (r: License)
        ensures
            r.id@.len() == 36,
            r.flickr_id == rl.id,
            r.name == rl.name,
            r.url == rl.url,
            r.created_at == r.updated_at,
    {
        let now = now_timestamp();
        License {
            id: fresh_id(),
            flickr_id: rl.id,
            name: rl.name,
            url: rl.url,
            created_at: now,
            updated_at: now,
        }
    }
}

/// A photo of a monument, as stored.
pub struct Picture {
    /// The storage id.
    pub id: String,
    /// The id of the photo on Flickr.
    pub flickr_id: String,
    pub monument_id: String,
    /// The storage id of the photo's license.
    pub license_id: String,
    pub author: String,
    /// The address of the full-size image.
    pub url: String,
    /// Seconds since the Unix epoch.
    pub created_at: i64,
    /// Seconds since the Unix epoch.
    pub updated_at: i64,
}

/// What a picture records, apart from its storage id and timestamps.
pub struct PictureView {
    pub flickr_id: Seq<char>,
    pub monument_id: Seq<char>,
    pub license_id: Seq<char>,
    pub author: Seq<char>,
    pub url: Seq<char>,
}

impl View for Picture {
    type V = PictureView;

    open spec fn view(&self) -> PictureView {
        PictureView {
            flickr_id: self.flickr_id@,
            monument_id: self.monument_id@,
            license_id: self.license_id@,
            author: self.author@,
            url: self.url@,
        }
    }
}

impl Picture {
    /// A picture with a fresh storage id, created now.
    pub fn new(flickr_id: String, monument_id: String, license_id: String, author: String, url: String) -> (r: Picture)
        ensures
            r.id@.len() == 36,
            r.flickr_id == flickr_id,
            r.monument_id == monument_id,
            r.license_id == license_id,
            r.author == author,
            r.url == url,
            r.created_at == r.updated_at,
    {
        let now = now_timestamp();
        Picture {
            id: fresh_id(),
            flickr_id,
            monument_id,
            license_id,
            author,
            url,
            created_at: now,
            updated_at: now,
        }
    }
}

/// The map from Flickr license id to storage id that a list of stored
/// licenses gives; a later license of the same Flickr id wins.
pub open spec fn license_map(ls: Seq<License>) -> Map<int, Seq<char>>
    decreases ls.len(),
{
    if ls.len() == 0 {
        Map::empty()
    } else {
        license_map(ls.drop_last()).insert(ls.last().flickr_id as int, ls.last().id@)
    }
}

/// Looks up the storage id of a license by its Flickr id.
pub struct LicenseIndex {
    entries: Vec<(i32, String)>,
}

pub open spec fn entry_map(es: Seq<(i32, String)>) -> Map<int, Seq<char>>
    decreases es.len(),
{
    if es.len() == 0 {
        Map::empty()
    } else {
        entry_map(es.drop_last()).insert(es.last().0 as int, es.last().1@)
    }
}

impl View for LicenseIndex {
    type V = Map<int, Seq<char>>;

    closed spec fn view(&self) -> Map<int, Seq<char>> {
        entry_map(self.entries@)
    }
}

impl LicenseIndex {
    /// The index of the stored licenses `ls`.
    pub fn from_licenses(ls: &Vec<License>) -> (r: LicenseIndex)
        ensures
            r@ == license_map(ls@),
    {
        let mut entries: Vec<(i32, String)> = Vec::new();
        let mut i: usize = 0;
        assert(ls@.take(0) == Seq::<License>::empty());
        while i < ls.len()
            invariant
                i <= ls@.len(),
                entry_map(entries@) == license_map(ls@.take(i as int)),
            decreases ls.len() - i,
        {
            let ghost before = entries@;
            entries.push((ls[i].flickr_id, ls[i].id.clone()));
            assert(entries@.drop_last() == before);
            assert(ls@.take(i + 1).drop_last() == ls@.take(i as int));
            i = i + 1;
        }
        assert(ls@.take(i as int) == ls@);
        LicenseIndex { entries }
    }

    /// The storage id of the license that Flickr knows as `flickr_id`.
    pub fn get(&self, flickr_id: i32) -> (r: Option<String>)
        ensures
            r is Some <==> self@.contains_key(flickr_id as int),
            r matches Some(id) ==> id@ == self@[flickr_id as int],
    {
        let mut found: Option<usize> = None;
        let mut i: usize = 0;
        while i < self.entries.len()
            invariant
                i <= self.entries@.len(),
                match found {
                    Some(j) => j < i && entry_map(self.entries@.take(i as int)).contains_key(flickr_id as int)
                        && entry_map(self.entries@.take(i as int))[flickr_id as int] == self.entries@[j as int].1@,
                    None => !entry_map(self.entries@.take(i as int)).contains_key(flickr_id as int),
                },
            decreases self.entries.len() - i,
        {
            assert(self.entries@.take(i + 1).drop_last() == self.entries@.take(i as int));
            if self.entries[i].0 == flickr_id {
                found = Some(i);
            }
            i = i + 1;
        }
        assert(self.entries@.take(i as int) == self.entries@);
        match found {
            Some(j) => Some(self.entries[j].1.clone()),
            None => None,
        }
    }
}

/// An id that the license map gives comes from a stored license of that
/// Flickr id.
pub proof fn lemma_license_map_source(ls: Seq<License>, flickr_id: int)
    requires
        license_map(ls).contains_key(flickr_id),
    ensures
        exists|i: int| 0 <= i < ls.len() && ls[i].flickr_id as int == flickr_id
            && ls[i].id@ == license_map(ls)[flickr_id],
    decreases ls.len(),
{
    let last = ls.last();
    if last.flickr_id as int != flickr_id {
        lemma_license_map_source(ls.drop_last(), flickr_id);
        let i = choose|i: int| 0 <= i < ls.drop_last().len() && ls.drop_last()[i].flickr_id as int == flickr_id
            && ls.drop_last()[i].id@ == license_map(ls.drop_last())[flickr_id];
        assert(ls[i] == ls.drop_last()[i]);
    } else {
        assert(ls[ls.len() - 1] == last);
    }
}

} // verus!
