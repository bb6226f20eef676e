//! The shared metadata carried by every record kind: identity, versioning,
//! authorship, the deletion flag and the tag store. A record's deletion flag
//! is a tombstone: setting it erases nothing else.

use crate::tags::TagMap;
use crate::tags::entries_view;
use crate::tags::keys_distinct;
use crate::tags::map_of;
use crate::types::ObjId;
use crate::types::TimestampFormat;
use vstd::prelude::*;

verus! {

/// The ghost value of a record's shared metadata.
#[verifier::ext_equal]
pub struct MetaView {
    pub id: ObjId,
    pub version: Option<u32>,
    pub deleted: bool,
    pub changeset_id: Option<u32>,
    pub timestamp: Option<TimestampFormat>,
    pub uid: Option<u32>,
    pub user: Option<Seq<char>>,
    pub tags: Seq<(Seq<char>, Seq<char>)>,
}

/// The characters of an optional author name.
pub open spec fn user_view(u: Option<String>) -> Option<Seq<char>> {
    match u {
        Some(s) => Some(s@),
        None => None,
    }
}

/// Fresh metadata: the given identity, everything else absent, no tags,
/// not deleted.
pub open spec fn empty_meta(id: ObjId) -> MetaView {
    MetaView {
        id,
        version: None,
        deleted: false,
        changeset_id: None,
        timestamp: None,
        uid: None,
        user: None,
        tags: Seq::empty(),
    }
}

/// The shared metadata block of one record.
pub struct Metadata {
    id: ObjId,
    version: Option<u32>,
    deleted: bool,
    changeset_id: Option<u32>,
    timestamp: Option<TimestampFormat>,
    uid: Option<u32>,
    user: Option<String>,
    tags: TagMap,
}

impl View for Metadata {
    type V = MetaView;

    closed spec fn view(&self) -> MetaView {
        MetaView {
            id: self.id,
            version: self.version,
            deleted: self.deleted,
            changeset_id: self.changeset_id,
            timestamp: self.timestamp,
            uid: self.uid,
            user: user_view(self.user),
            tags: self.tags@,
        }
    }
}

impl Metadata {
    /// Fresh metadata for a record with the given identity.
    pub fn new(id: ObjId) -> (r: Metadata)
        ensures
            r@ == empty_meta(id),
    {
        let r = Metadata {
            id,
            version: None,
            deleted: false,
            changeset_id: None,
            timestamp: None,
            uid: None,
            user: None,
            tags: TagMap::new(),
        };
        proof {
            assert(r@ =~= empty_meta(id));
        }
        r
    }

    pub fn id(&self) -> (r: ObjId)
        ensures
            r == self@.id,
    {
        self.id
    }

    pub fn version(&self) -> (r: Option<u32>)
        ensures
            r == self@.version,
    {
        self.version
    }

    pub fn deleted(&self) -> (r: bool)
        ensures
            r == self@.deleted,
    {
        self.deleted
    }

    pub fn changeset_id(&self) -> (r: Option<u32>)
        ensures
            r == self@.changeset_id,
    {
        self.changeset_id
    }

    pub fn timestamp(&self) -> (r: &Option<TimestampFormat>)
        ensures
            *r == self@.timestamp,
    {
        &self.timestamp
    }

    pub fn uid(&self) -> (r: Option<u32>)
        ensures
            r == self@.uid,
    {
        self.uid
    }

    pub fn user(&self) -> (r: Option<&str>)
        ensures
            self@.user is Some ==> (r matches Some(s) && self@.user == Some(s@)),
            self@.user is None ==> r is None,
    {
        match &self.user {
            Some(s) => Some(s.as_str()),
            None => None,
        }
    }

    pub fn set_id(&mut self, val: ObjId)
        ensures
            final(self)@ == (MetaView { id: val, ..old(self)@ }),
    {
        self.id = val;
    }

    pub fn set_version(&mut self, val: Option<u32>)
        ensures
            final(self)@ == (MetaView { version: val, ..old(self)@ }),
    {
        self.version = val;
    }

    pub fn set_deleted(&mut self, val: bool)
        ensures
            final(self)@ == (MetaView { deleted: val, ..old(self)@ }),
    {
        self.deleted = val;
    }

    pub fn set_changeset_id(&mut self, val: Option<u32>)
        ensures
            final(self)@ == (MetaView { changeset_id: val, ..old(self)@ }),
    {
        self.changeset_id = val;
    }

    pub fn set_timestamp(&mut self, val: Option<TimestampFormat>)
        ensures
            final(self)@ == (MetaView { timestamp: val, ..old(self)@ }),
    {
        self.timestamp = val;
    }

    pub fn set_uid(&mut self, val: Option<u32>)
        ensures
            final(self)@ == (MetaView { uid: val, ..old(self)@ }),
    {
        self.uid = val;
    }

    pub fn set_user(&mut self, val: Option<String>)
        ensures
            final(self)@ == (MetaView { user: user_view(val), ..old(self)@ }),
    {
        self.user = val;
    }

    /// The tag entries: finite, re-iterable, order unspecified, keys unique.
    pub fn tags(&self) -> (r: &Vec<(String, String)>)
        ensures
            entries_view(r@) == self@.tags,
            keys_distinct(self@.tags),
    {
        self.tags.entries()
    }

    /// Exact-match tag lookup by key.
    pub fn tag(&self, key: &str) -> (r: Option<&str>)
        ensures
            match r {
                Some(v) => map_of(self@.tags).contains_key(key@) && v@ == map_of(self@.tags)[key@],
                None => !map_of(self@.tags).contains_key(key@),
            },
    {
        self.tags.get(key)
    }

    /// Inserts or overwrites a tag; everything but the tag store is kept.
    pub fn set_tag(&mut self, key: &str, value: &str)
        ensures
            map_of(final(self)@.tags) == map_of(old(self)@.tags).insert(key@, value@),
            keys_distinct(final(self)@.tags),
            final(self)@ == (MetaView { tags: final(self)@.tags, ..old(self)@ }),
    {
        self.tags.insert(key, value);
    }

    /// Removes a tag if present (no error if absent); everything but the
    /// tag store is kept.
    pub fn unset_tag(&mut self, key: &str)
        ensures
            map_of(final(self)@.tags) == map_of(old(self)@.tags).remove(key@),
            keys_distinct(final(self)@.tags),
            final(self)@ == (MetaView { tags: final(self)@.tags, ..old(self)@ }),
    {
        self.tags.remove(key);
    }
}

} // verus!
