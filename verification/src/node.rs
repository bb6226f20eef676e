//! The node record: a point feature, shared metadata plus an optional
//! fixed-precision coordinate.

use crate::meta::MetaView;
use crate::meta::Metadata;
use crate::meta::empty_meta;
use crate::meta::user_view;
use crate::tags::entries_view;
use crate::tags::keys_distinct;
use crate::tags::map_of;
use crate::types::Lat;
use crate::types::Lon;
use crate::types::ObjId;
use crate::types::TimestampFormat;
use vstd::prelude::*;

verus! {

/// A point feature.
pub struct RcNode {
    meta: Metadata,
    lat_lon: Option<(Lat, Lon)>,
}

/// The ghost value of a node record.
#[verifier::ext_equal]
pub struct NodeView {
    pub meta: MetaView,
    pub lat_lon: Option<(Lat, Lon)>,
}

impl View for RcNode {
    type V = NodeView;

    closed spec fn view(&self) -> NodeView {
        NodeView { meta: self.meta@, lat_lon: self.lat_lon }
    }
}

impl RcNode {
    /// A fresh node with the given identity, no coordinate, no tags, and
    /// every other metadata field absent.
    pub fn new(id: ObjId) -> (r: RcNode)
        ensures
            r@ == (NodeView { meta: empty_meta(id), lat_lon: None }),
    {
        RcNode { meta: Metadata::new(id), lat_lon: None }
    }

    pub fn id(&self) -> (r: ObjId)
        ensures
            r == self@.meta.id,
    {
        self.meta.id()
    }

    pub fn version(&self) -> (r: Option<u32>)
        ensures
            r == self@.meta.version,
    {
        self.meta.version()
    }

    pub fn deleted(&self) -> (r: bool)
        ensures
            r == self@.meta.deleted,
    {
        self.meta.deleted()
    }

    pub fn changeset_id(&self) -> (r: Option<u32>)
        ensures
            r == self@.meta.changeset_id,
    {
        self.meta.changeset_id()
    }

    pub fn timestamp(&self) -> (r: &Option<TimestampFormat>)
        ensures
            *r == self@.meta.timestamp,
    {
        self.meta.timestamp()
    }

    pub fn uid(&self) -> (r: Option<u32>)
        ensures
            r == self@.meta.uid,
    {
        self.meta.uid()
    }

    pub fn user(&self) -> (r: Option<&str>)
        ensures
            self@.meta.user is Some ==> (r matches Some(s) && self@.meta.user == Some(s@)),
            self@.meta.user is None ==> r is None,
    {
        self.meta.user()
    }

    pub fn set_id(&mut self, val: ObjId)
        ensures
            final(self)@ == (NodeView {
                meta: MetaView { id: val, ..old(self)@.meta },
                ..old(self)@
            }),
    {
        self.meta.set_id(val);
    }

    pub fn set_version(&mut self, val: Option<u32>)
        ensures
            final(self)@ == (NodeView {
                meta: MetaView { version: val, ..old(self)@.meta },
                ..old(self)@
            }),
    {
        self.meta.set_version(val);
    }

    /// Setting the tombstone flag erases nothing: tags, version and all
    /// other metadata are retained.
    pub fn set_deleted(&mut self, val: bool)
        ensures
            final(self)@ == (NodeView {
                meta: MetaView { deleted: val, ..old(self)@.meta },
                ..old(self)@
            }),
    {
        self.meta.set_deleted(val);
    }

    pub fn set_changeset_id(&mut self, val: Option<u32>)
        ensures
            final(self)@ == (NodeView {
                meta: MetaView { changeset_id: val, ..old(self)@.meta },
                ..old(self)@
            }),
    {
        self.meta.set_changeset_id(val);
    }

    pub fn set_timestamp(&mut self, val: Option<TimestampFormat>)
        ensures
            final(self)@ == (NodeView {
                meta: MetaView { timestamp: val, ..old(self)@.meta },
                ..old(self)@
            }),
    {
        self.meta.set_timestamp(val);
    }

    pub fn set_uid(&mut self, val: Option<u32>)
        ensures
            final(self)@ == (NodeView {
                meta: MetaView { uid: val, ..old(self)@.meta },
                ..old(self)@
            }),
    {
        self.meta.set_uid(val);
    }

    pub fn set_user(&mut self, val: Option<String>)
        ensures
            final(self)@ == (NodeView {
                meta: MetaView { user: user_view(val), ..old(self)@.meta },
                ..old(self)@
            }),
    {
        self.meta.set_user(val);
    }

    /// The tag entries: finite, re-iterable, order unspecified, keys unique.
    pub fn tags(&self) -> (r: &Vec<(String, String)>)
        ensures
            entries_view(r@) == self@.meta.tags,
            keys_distinct(self@.meta.tags),
    {
        self.meta.tags()
    }

    /// Exact-match tag lookup by key.
    pub fn tag(&self, key: &str) -> (r: Option<&str>)
        ensures
            match r {
                Some(v) => map_of(self@.meta.tags).contains_key(key@) && v@ == map_of(
                    self@.meta.tags,
                )[key@],
                None => !map_of(self@.meta.tags).contains_key(key@),
            },
    {
        self.meta.tag(key)
    }

    /// Inserts or overwrites a tag; everything else is kept.
    pub fn set_tag(&mut self, key: &str, value: &str)
        ensures
            map_of(final(self)@.meta.tags) == map_of(old(self)@.meta.tags).insert(key@, value@),
            keys_distinct(final(self)@.meta.tags),
            final(self)@ == (NodeView {
                meta: MetaView { tags: final(self)@.meta.tags, ..old(self)@.meta },
                ..old(self)@
            }),
    {
        self.meta.set_tag(key, value);
    }

    /// Removes a tag if present (no error if absent); everything else is
    /// kept.
    pub fn unset_tag(&mut self, key: &str)
        ensures
            map_of(final(self)@.meta.tags) == map_of(old(self)@.meta.tags).remove(key@),
            keys_distinct(final(self)@.meta.tags),
            final(self)@ == (NodeView {
                meta: MetaView { tags: final(self)@.meta.tags, ..old(self)@.meta },
                ..old(self)@
            }),
    {
        self.meta.unset_tag(key);
    }

    /// The coordinate, if one is set: a placeholder or deleted node may
    /// have none.
    pub fn lat_lon(&self) -> (r: Option<(Lat, Lon)>)
        ensures
            r == self@.lat_lon,
    {
        self.lat_lon
    }

    pub fn set_lat_lon(&mut self, loc: Option<(Lat, Lon)>)
        ensures
            final(self)@ == (NodeView { lat_lon: loc, ..old(self)@ }),
    {
        self.lat_lon = loc;
    }
}

} // verus!
