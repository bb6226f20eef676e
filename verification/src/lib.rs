//! An in-memory object model for OpenStreetMap-style map data.
//!
//! Three record kinds — node (point feature), way (ordered node list) and
//! relation (ordered list of typed member references) — share one block of
//! metadata (identity, versioning, authorship, deletion flag, tags) and are
//! unified behind the closed variant `RcOSMObj`, so that readers, writers
//! and transformation passes can stay kind-agnostic until they need a
//! kind-specific payload.

pub mod meta;
pub mod node;
pub mod object;
pub mod relation;
pub mod tags;
pub mod types;
pub mod way;

pub use meta::MetaView;
pub use node::NodeView;
pub use node::RcNode;
pub use object::ObjView;
pub use object::RcOSMObj;
pub use relation::RcRelation;
pub use relation::RelationView;
pub use tags::TagMap;
pub use way::RcWay;
pub use way::WayView;
pub use types::InvalidMemberKind;
pub use types::Lat;
pub use types::Lon;
pub use types::OSMObjectType;
pub use types::ObjId;
pub use types::TimestampFormat;
