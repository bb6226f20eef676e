//! The unified object: a closed variant over the three record kinds,
//! presenting one capability set so that calling code can stay
//! kind-agnostic. Dispatch is an exhaustive three-way match on a fixed
//! discriminant; no open-ended dynamic dispatch and no empty or mixed
//! state exists.

use crate::meta::MetaView;
use crate::meta::user_view;
use crate::node::NodeView;
use crate::node::RcNode;
use crate::relation::RcRelation;
use crate::relation::RelationView;
use crate::tags::entries_view;
use crate::tags::keys_distinct;
use crate::tags::map_of;
use crate::types::OSMObjectType;
use crate::types::ObjId;
use crate::types::TimestampFormat;
use crate::way::RcWay;
use crate::way::WayView;
use vstd::prelude::*;

verus! {

/// One record of any of the three kinds; always exactly one.
pub enum RcOSMObj {
    Node(RcNode),
    Way(RcWay),
    Relation(RcRelation),
}

/// The ghost value of a unified object.
#[verifier::ext_equal]
pub enum ObjView {
    Node(NodeView),
    Way(WayView),
    Relation(RelationView),
}

impl ObjView {
    /// The shared metadata of whichever kind is held.
    pub open spec fn meta(self) -> MetaView {
        match self {
            ObjView::Node(n) => n.meta,
            ObjView::Way(w) => w.meta,
            ObjView::Relation(r) => r.meta,
        }
    }

    /// The discriminant of the held record.
    pub open spec fn kind(self) -> OSMObjectType {
        match self {
            ObjView::Node(_) => OSMObjectType::Node,
            ObjView::Way(_) => OSMObjectType::Way,
            ObjView::Relation(_) => OSMObjectType::Relation,
        }
    }

    /// The same object with its shared metadata replaced and its kind and
    /// kind-specific payload kept.
    pub open spec fn with_meta(self, m: MetaView) -> ObjView {
        match self {
            ObjView::Node(n) => ObjView::Node(NodeView { meta: m, ..n }),
            ObjView::Way(w) => ObjView::Way(WayView { meta: m, ..w }),
            ObjView::Relation(r) => ObjView::Relation(RelationView { meta: m, ..r }),
        }
    }
}

impl View for RcOSMObj {
    type V = ObjView;

    open spec fn view(&self) -> ObjView {
        match self {
            RcOSMObj::Node(n) => ObjView::Node(n@),
            RcOSMObj::Way(w) => ObjView::Way(w@),
            RcOSMObj::Relation(r) => ObjView::Relation(r@),
        }
    }
}

impl RcOSMObj {
    pub fn id(&self) -> (r: ObjId)
        ensures
            r == self@.meta().id,
    {
        match self {
            RcOSMObj::Node(n) => n.id(),
            RcOSMObj::Way(w) => w.id(),
            RcOSMObj::Relation(rel) => rel.id(),
        }
    }

    pub fn version(&self) -> (r: Option<u32>)
        ensures
            r == self@.meta().version,
    {
        match self {
            RcOSMObj::Node(n) => n.version(),
            RcOSMObj::Way(w) => w.version(),
            RcOSMObj::Relation(rel) => rel.version(),
        }
    }

    pub fn deleted(&self) -> (r: bool)
        ensures
            r == self@.meta().deleted,
    {
        match self {
            RcOSMObj::Node(n) => n.deleted(),
            RcOSMObj::Way(w) => w.deleted(),
            RcOSMObj::Relation(rel) => rel.deleted(),
        }
    }

    pub fn changeset_id(&self) -> (r: Option<u32>)
        ensures
            r == self@.meta().changeset_id,
    {
        match self {
            RcOSMObj::Node(n) => n.changeset_id(),
            RcOSMObj::Way(w) => w.changeset_id(),
            RcOSMObj::Relation(rel) => rel.changeset_id(),
        }
    }

    pub fn timestamp(&self) -> (r: &Option<TimestampFormat>)
        ensures
            *r == self@.meta().timestamp,
    {
        match self {
            RcOSMObj::Node(n) => n.timestamp(),
            RcOSMObj::Way(w) => w.timestamp(),
            RcOSMObj::Relation(rel) => rel.timestamp(),
        }
    }

    pub fn uid(&self) -> (r: Option<u32>)
        ensures
            r == self@.meta().uid,
    {
        match self {
            RcOSMObj::Node(n) => n.uid(),
            RcOSMObj::Way(w) => w.uid(),
            RcOSMObj::Relation(rel) => rel.uid(),
        }
    }

    pub fn user(&self) -> (r: Option<&str>)
        ensures
            self@.meta().user is Some ==> (r matches Some(s) && self@.meta().user == Some(s@)),
            self@.meta().user is None ==> r is None,
    {
        match self {
            RcOSMObj::Node(n) => n.user(),
            RcOSMObj::Way(w) => w.user(),
            RcOSMObj::Relation(rel) => rel.user(),
        }
    }

    pub fn set_id(&mut self, val: ObjId)
        ensures
            final(self)@ == old(self)@.with_meta(MetaView { id: val, ..old(self)@.meta() }),
    {
        match self {
            RcOSMObj::Node(n) => n.set_id(val),
            RcOSMObj::Way(w) => w.set_id(val),
            RcOSMObj::Relation(rel) => rel.set_id(val),
        }
    }

    pub fn set_version(&mut self, val: Option<u32>)
        ensures
            final(self)@ == old(self)@.with_meta(MetaView { version: val, ..old(self)@.meta() }),
    {
        match self {
            RcOSMObj::Node(n) => n.set_version(val),
            RcOSMObj::Way(w) => w.set_version(val),
            RcOSMObj::Relation(rel) => rel.set_version(val),
        }
    }

    /// Setting the tombstone flag erases nothing: tags, version and all
    /// other metadata are retained, as is the kind-specific payload.
    pub fn set_deleted(&mut self, val: bool)
        ensures
            final(self)@ == old(self)@.with_meta(MetaView { deleted: val, ..old(self)@.meta() }),
    {
        match self {
            RcOSMObj::Node(n) => n.set_deleted(val),
            RcOSMObj::Way(w) => w.set_deleted(val),
            RcOSMObj::Relation(rel) => rel.set_deleted(val),
        }
    }

    pub fn set_changeset_id(&mut self, val: Option<u32>)
        ensures
            final(self)@ == old(self)@.with_meta(
                MetaView { changeset_id: val, ..old(self)@.meta() },
            ),
    {
        match self {
            RcOSMObj::Node(n) => n.set_changeset_id(val),
            RcOSMObj::Way(w) => w.set_changeset_id(val),
            RcOSMObj::Relation(rel) => rel.set_changeset_id(val),
        }
    }

    pub fn set_timestamp(&mut self, val: Option<TimestampFormat>)
        ensures
            final(self)@ == old(self)@.with_meta(
                MetaView { timestamp: val, ..old(self)@.meta() },
            ),
    {
        match self {
            RcOSMObj::Node(n) => n.set_timestamp(val),
            RcOSMObj::Way(w) => w.set_timestamp(val),
            RcOSMObj::Relation(rel) => rel.set_timestamp(val),
        }
    }

    pub fn set_uid(&mut self, val: Option<u32>)
        ensures
            final(self)@ == old(self)@.with_meta(MetaView { uid: val, ..old(self)@.meta() }),
    {
        match self {
            RcOSMObj::Node(n) => n.set_uid(val),
            RcOSMObj::Way(w) => w.set_uid(val),
            RcOSMObj::Relation(rel) => rel.set_uid(val),
        }
    }

    pub fn set_user(&mut self, val: Option<String>)
        ensures
            final(self)@ == old(self)@.with_meta(
                MetaView { user: user_view(val), ..old(self)@.meta() },
            ),
    {
        match self {
            RcOSMObj::Node(n) => n.set_user(val),
            RcOSMObj::Way(w) => w.set_user(val),
            RcOSMObj::Relation(rel) => rel.set_user(val),
        }
    }

    /// The tag entries: finite, re-iterable, order unspecified, keys unique.
    pub fn tags(&self) -> (r: &Vec<(String, String)>)
        ensures
            entries_view(r@) == self@.meta().tags,
            keys_distinct(self@.meta().tags),
    {
        match self {
            RcOSMObj::Node(n) => n.tags(),
            RcOSMObj::Way(w) => w.tags(),
            RcOSMObj::Relation(rel) => rel.tags(),
        }
    }

    /// Exact-match tag lookup by key.
    pub fn tag(&self, key: &str) -> (r: Option<&str>)
        ensures
            match r {
                Some(v) => map_of(self@.meta().tags).contains_key(key@) && v@ == map_of(
                    self@.meta().tags,
                )[key@],
                None => !map_of(self@.meta().tags).contains_key(key@),
            },
    {
        match self {
            RcOSMObj::Node(n) => n.tag(key),
            RcOSMObj::Way(w) => w.tag(key),
            RcOSMObj::Relation(rel) => rel.tag(key),
        }
    }

    /// Inserts or overwrites a tag; the kind, the payload and all other
    /// metadata are kept.
    pub fn set_tag(&mut self, key: &str, value: &str)
        ensures
            map_of(final(self)@.meta().tags) == map_of(old(self)@.meta().tags).insert(
                key@,
                value@,
            ),
            keys_distinct(final(self)@.meta().tags),
            final(self)@ == old(self)@.with_meta(
                MetaView { tags: final(self)@.meta().tags, ..old(self)@.meta() },
            ),
    {
        match self {
            RcOSMObj::Node(n) => n.set_tag(key, value),
            RcOSMObj::Way(w) => w.set_tag(key, value),
            RcOSMObj::Relation(rel) => rel.set_tag(key, value),
        }
    }

    /// Removes a tag if present (no error if absent); the kind, the
    /// payload and all other metadata are kept.
    pub fn unset_tag(&mut self, key: &str)
        ensures
            map_of(final(self)@.meta().tags) == map_of(old(self)@.meta().tags).remove(key@),
            keys_distinct(final(self)@.meta().tags),
            final(self)@ == old(self)@.with_meta(
                MetaView { tags: final(self)@.meta().tags, ..old(self)@.meta() },
            ),
    {
        match self {
            RcOSMObj::Node(n) => n.unset_tag(key),
            RcOSMObj::Way(w) => w.unset_tag(key),
            RcOSMObj::Relation(rel) => rel.unset_tag(key),
        }
    }

    /// The discriminant of the held record: a closed three-way choice.
    pub fn object_type(&self) -> (r: OSMObjectType)
        ensures
            r == self@.kind(),
    {
        match self {
            RcOSMObj::Node(_) => OSMObjectType::Node,
            RcOSMObj::Way(_) => OSMObjectType::Way,
            RcOSMObj::Relation(_) => OSMObjectType::Relation,
        }
    }

    /// Consuming narrowing to a node: on a kind mismatch the original
    /// object comes back unchanged, so no data is lost.
    pub fn into_node(self) -> (r: Result<RcNode, RcOSMObj>)
        ensures
            self@ is Node ==> (r matches Ok(n) && self@ == ObjView::Node(n@)),
            !(self@ is Node) ==> (r matches Err(o) && o@ == self@),
    {
        match self {
            RcOSMObj::Node(n) => Ok(n),
            other => Err(other),
        }
    }

    /// Consuming narrowing to a way: on a kind mismatch the original
    /// object comes back unchanged, so no data is lost.
    pub fn into_way(self) -> (r: Result<RcWay, RcOSMObj>)
        ensures
            self@ is Way ==> (r matches Ok(w) && self@ == ObjView::Way(w@)),
            !(self@ is Way) ==> (r matches Err(o) && o@ == self@),
    {
        match self {
            RcOSMObj::Way(w) => Ok(w),
            other => Err(other),
        }
    }

    /// Consuming narrowing to a relation: on a kind mismatch the original
    /// object comes back unchanged, so no data is lost.
    pub fn into_relation(self) -> (r: Result<RcRelation, RcOSMObj>)
        ensures
            self@ is Relation ==> (r matches Ok(rel) && self@ == ObjView::Relation(rel@)),
            !(self@ is Relation) ==> (r matches Err(o) && o@ == self@),
    {
        match self {
            RcOSMObj::Relation(rel) => Ok(rel),
            other => Err(other),
        }
    }

    /// Borrowing narrowing to a node: absent on a kind mismatch, without
    /// side effects.
    pub fn as_node(&self) -> (r: Option<&RcNode>)
        ensures
            self@ is Node ==> (r matches Some(n) && self@ == ObjView::Node(n@)),
            !(self@ is Node) ==> r is None,
    {
        match self {
            RcOSMObj::Node(n) => Some(n),
            _ => None,
        }
    }

    /// Borrowing narrowing to a way: absent on a kind mismatch, without
    /// side effects.
    pub fn as_way(&self) -> (r: Option<&RcWay>)
        ensures
            self@ is Way ==> (r matches Some(w) && self@ == ObjView::Way(w@)),
            !(self@ is Way) ==> r is None,
    {
        match self {
            RcOSMObj::Way(w) => Some(w),
            _ => None,
        }
    }

    /// Borrowing narrowing to a relation: absent on a kind mismatch,
    /// without side effects.
    pub fn as_relation(&self) -> (r: Option<&RcRelation>)
        ensures
            self@ is Relation ==> (r matches Some(rel) && self@ == ObjView::Relation(rel@)),
            !(self@ is Relation) ==> r is None,
    {
        match self {
            RcOSMObj::Relation(rel) => Some(rel),
            _ => None,
        }
    }
}

/// Law: storing tag `k = v` and then looking `k` up yields `v`. The
/// premise is what `set_tag` ensures of any record; the conclusion is
/// what `tag` then reports.
pub proof fn lemma_set_tag_then_tag(before: ObjView, after: ObjView, k: Seq<char>, v: Seq<char>)
    requires
        map_of(after.meta().tags) == map_of(before.meta().tags).insert(k, v),
    ensures
        map_of(after.meta().tags).contains_key(k),
        map_of(after.meta().tags)[k] == v,
{
}

/// Law: removing tag `k` and then looking `k` up yields absent. The
/// premise is what `unset_tag` ensures of any record; the conclusion is
/// what `tag` then reports.
pub proof fn lemma_unset_tag_then_tag(before: ObjView, after: ObjView, k: Seq<char>)
    requires
        map_of(after.meta().tags) == map_of(before.meta().tags).remove(k),
    ensures
        !map_of(after.meta().tags).contains_key(k),
{
}

/// Law: replacing the shared metadata never changes the kind, so the
/// discriminant an object reports is independent of which interface
/// method was last called.
pub proof fn lemma_with_meta_preserves_kind(o: ObjView, m: MetaView)
    ensures
        o.with_meta(m).kind() == o.kind(),
{
}

/// Law: a tombstone retains history. Setting the deletion flag leaves
/// the tags, the version and every other metadata field as they were.
pub proof fn lemma_tombstone_retains_metadata(m: MetaView, val: bool)
    ensures
        (MetaView { deleted: val, ..m }).deleted == val,
        (MetaView { deleted: val, ..m }).tags == m.tags,
        (MetaView { deleted: val, ..m }).version == m.version,
        (MetaView { deleted: val, ..m }).id == m.id,
        (MetaView { deleted: val, ..m }).changeset_id == m.changeset_id,
        (MetaView { deleted: val, ..m }).timestamp == m.timestamp,
        (MetaView { deleted: val, ..m }).uid == m.uid,
        (MetaView { deleted: val, ..m }).user == m.user,
{
}

/// Law: replacing the shared metadata keeps the kind-specific payload:
/// a node's coordinate, a way's node list, a relation's member list.
pub proof fn lemma_with_meta_keeps_payload(o: ObjView, m: MetaView)
    ensures
        o matches ObjView::Node(n) ==> o.with_meta(m) == ObjView::Node(
            NodeView { meta: m, lat_lon: n.lat_lon },
        ),
        o matches ObjView::Way(w) ==> o.with_meta(m) == ObjView::Way(
            WayView { meta: m, nodes: w.nodes },
        ),
        o matches ObjView::Relation(r) ==> o.with_meta(m) == ObjView::Relation(
            RelationView { meta: m, members: r.members },
        ),
{
}

} // verus!
