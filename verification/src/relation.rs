//! The relation record: shared metadata plus an ordered list of typed
//! member references, whose order is semantically significant and
//! round-trips exactly.

use crate::meta::MetaView;
use crate::meta::Metadata;
use crate::meta::empty_meta;
use crate::meta::user_view;
use crate::tags::entries_view;
use crate::tags::keys_distinct;
use crate::tags::map_of;
use crate::types::OSMObjectType;
use crate::types::ObjId;
use crate::types::TimestampFormat;
use vstd::prelude::*;

verus! {

/// A relation: an ordered list of typed references to records of any
/// kind, each with a role label (possibly empty).
pub struct RcRelation {
    meta: Metadata,
    members: Vec<(OSMObjectType, ObjId, String)>,
}

/// The ghost value of a relation record.
#[verifier::ext_equal]
pub struct RelationView {
    pub meta: MetaView,
    pub members: Seq<(OSMObjectType, ObjId, String)>,
}

impl View for RcRelation {
    type V = RelationView;

    closed spec fn view(&self) -> RelationView {
        RelationView { meta: self.meta@, members: self.members@ }
    }
}

impl RcRelation {
    /// A fresh relation with the given identity and member list (order
    /// preserved), no tags, and every other metadata field absent.
    pub fn new(id: ObjId, members: Vec<(OSMObjectType, ObjId, String)>) -> (r: RcRelation)
        ensures
            r@ == (RelationView { meta: empty_meta(id), members: members@ }),
    {
        RcRelation { meta: Metadata::new(id), members }
    }

    pub fn id(&self) -> (r: ObjId)
        ensures
            r == self@.meta.id,
    {
        self.meta.id()
    }

    pub fn version(&self) -> (r: Option<u32>)
        ensures
            r == self@.meta.version,
    {
        self.meta.version()
    }

    pub fn deleted(&self) -> (r: bool)
        ensures
            r == self@.meta.deleted,
    {
        self.meta.deleted()
    }

    pub fn changeset_id(&self) -> (r: Option<u32>)
        ensures
            r == self@.meta.changeset_id,
    {
        self.meta.changeset_id()
    }

    pub fn timestamp(&self) -> (r: &Option<TimestampFormat>)
        ensures
            *r == self@.meta.timestamp,
    {
        self.meta.timestamp()
    }

    pub fn uid(&self) -> (r: Option<u32>)
        ensures
            r == self@.meta.uid,
    {
        self.meta.uid()
    }

    pub fn user(&self) -> (r: Option<&str>)
        ensures
            self@.meta.user is Some ==> (r matches Some(s) && self@.meta.user == Some(s@)),
            self@.meta.user is None ==> r is None,
    {
        self.meta.user()
    }

    pub fn set_id(&mut self, val: ObjId)
        ensures
            final(self)@ == (RelationView {
                meta: MetaView { id: val, ..old(self)@.meta },
                ..old(self)@
            }),
    {
        self.meta.set_id(val);
    }

    pub fn set_version(&mut self, val: Option<u32>)
        ensures
            final(self)@ == (RelationView {
                meta: MetaView { version: val, ..old(self)@.meta },
                ..old(self)@
            }),
    {
        self.meta.set_version(val);
    }

    /// Setting the tombstone flag erases nothing: tags, version and all
    /// other metadata are retained.
    pub fn set_deleted(&mut self, val: bool)
        ensures
            final(self)@ == (RelationView {
                meta: MetaView { deleted: val, ..old(self)@.meta },
                ..old(self)@
            }),
    {
        self.meta.set_deleted(val);
    }

    pub fn set_changeset_id(&mut self, val: Option<u32>)
        ensures
            final(self)@ == (RelationView {
                meta: MetaView { changeset_id: val, ..old(self)@.meta },
                ..old(self)@
            }),
    {
        self.meta.set_changeset_id(val);
    }

    pub fn set_timestamp(&mut self, val: Option<TimestampFormat>)
        ensures
            final(self)@ == (RelationView {
                meta: MetaView { timestamp: val, ..old(self)@.meta },
                ..old(self)@
            }),
    {
        self.meta.set_timestamp(val);
    }

    pub fn set_uid(&mut self, val: Option<u32>)
        ensures
            final(self)@ == (RelationView {
                meta: MetaView { uid: val, ..old(self)@.meta },
                ..old(self)@
            }),
    {
        self.meta.set_uid(val);
    }

    pub fn set_user(&mut self, val: Option<String>)
        ensures
            final(self)@ == (RelationView {
                meta: MetaView { user: user_view(val), ..old(self)@.meta },
                ..old(self)@
            }),
    {
        self.meta.set_user(val);
    }

    /// The tag entries: finite, re-iterable, order unspecified, keys unique.
    pub fn tags(&self) -> (r: &Vec<(String, String)>)
        ensures
            entries_view(r@) == self@.meta.tags,
            keys_distinct(self@.meta.tags),
    {
        self.meta.tags()
    }

    /// Exact-match tag lookup by key.
    pub fn tag(&self, key: &str) -> (r: Option<&str>)
        ensures
            match r {
                Some(v) => map_of(self@.meta.tags).contains_key(key@) && v@ == map_of(
                    self@.meta.tags,
                )[key@],
                None => !map_of(self@.meta.tags).contains_key(key@),
            },
    {
        self.meta.tag(key)
    }

    /// Inserts or overwrites a tag; everything else is kept.
    pub fn set_tag(&mut self, key: &str, value: &str)
        ensures
            map_of(final(self)@.meta.tags) == map_of(old(self)@.meta.tags).insert(key@, value@),
            keys_distinct(final(self)@.meta.tags),
            final(self)@ == (RelationView {
                meta: MetaView { tags: final(self)@.meta.tags, ..old(self)@.meta },
                ..old(self)@
            }),
    {
        self.meta.set_tag(key, value);
    }

    /// Removes a tag if present (no error if absent); everything else is
    /// kept.
    pub fn unset_tag(&mut self, key: &str)
        ensures
            map_of(final(self)@.meta.tags) == map_of(old(self)@.meta.tags).remove(key@),
            keys_distinct(final(self)@.meta.tags),
            final(self)@ == (RelationView {
                meta: MetaView { tags: final(self)@.meta.tags, ..old(self)@.meta },
                ..old(self)@
            }),
    {
        self.meta.unset_tag(key);
    }

    /// The members, in insertion order: each a (kind, id, role) triple;
    /// a read-only, zero-copy, re-iterable view.
    pub fn members(&self) -> (r: &Vec<(OSMObjectType, ObjId, String)>)
        ensures
            r@ == self@.members,
    {
        &self.members
    }
}

} // verus!
