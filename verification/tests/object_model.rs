use osmio::InvalidMemberKind;
use osmio::Lat;
use osmio::Lon;
use osmio::OSMObjectType;
use osmio::RcNode;
use osmio::RcOSMObj;
use osmio::RcRelation;
use osmio::RcWay;
use osmio::TagMap;
use osmio::TimestampFormat;
use osmio::types::decode_member_kind;
use osmio::types::encode_member_kind;

#[test]
fn set_tag_then_tag_returns_value() {
    let mut n = RcNode::new(1);
    n.set_tag("highway", "residential");
    assert_eq!(n.tag("highway"), Some("residential"));

    let mut o = RcOSMObj::Way(RcWay::new(2, vec![]));
    o.set_tag("name", "Main Street");
    assert_eq!(o.tag("name"), Some("Main Street"));

    let mut r = RcRelation::new(3, vec![]);
    r.set_tag("type", "multipolygon");
    assert_eq!(r.tag("type"), Some("multipolygon"));
}

#[test]
fn unset_tag_then_tag_returns_absent() {
    let mut o = RcOSMObj::Node(RcNode::new(1));
    o.set_tag("highway", "residential");
    o.unset_tag("highway");
    assert_eq!(o.tag("highway"), None);
    // removing an absent key is no error
    o.unset_tag("never-there");
    assert_eq!(o.tag("never-there"), None);
}

#[test]
fn set_tag_overwrites_without_duplicate_keys() {
    let mut o = RcOSMObj::Node(RcNode::new(1));
    o.set_tag("highway", "residential");
    o.set_tag("highway", "primary");
    o.set_tag("name", "High Street");
    o.unset_tag("name");
    o.set_tag("ref", "A1");
    assert_eq!(o.tag("highway"), Some("primary"));
    let entries = o.tags();
    assert_eq!(entries.len(), 2);
    for i in 0..entries.len() {
        for j in 0..entries.len() {
            if i != j {
                assert_ne!(entries[i].0, entries[j].0);
            }
        }
    }
}

#[test]
fn tags_iteration_is_reiterable_and_complete() {
    let mut n = RcNode::new(9);
    n.set_tag("a", "1");
    n.set_tag("b", "2");
    let first: Vec<(String, String)> = n.tags().clone();
    let second = n.tags();
    assert_eq!(&first, second);
    assert!(first.contains(&("a".to_string(), "1".to_string())));
    assert!(first.contains(&("b".to_string(), "2".to_string())));
}

#[test]
fn way_nodes_round_trip_in_order_with_duplicates() {
    let w = RcWay::new(44, vec![1, 2, 2, 3]);
    assert_eq!(w.nodes(), &[1, 2, 2, 3]);
    assert_eq!(w.num_nodes(), 4);
}

#[test]
fn relation_members_round_trip_in_order() {
    let members = vec![
        (OSMObjectType::Way, 10, "outer".to_string()),
        (OSMObjectType::Way, 11, "inner".to_string()),
    ];
    let r = RcRelation::new(77, members.clone());
    assert_eq!(r.members(), &members);
}

#[test]
fn relation_member_roles_may_be_empty_and_typed() {
    let members = vec![
        (OSMObjectType::Node, 1, "".to_string()),
        (OSMObjectType::Relation, 2, "subarea".to_string()),
    ];
    let r = RcRelation::new(5, members.clone());
    assert_eq!(r.members(), &members);
}

#[test]
fn narrowing_point_to_way_is_absent_to_point_is_identity() {
    let mut p = RcNode::new(5);
    p.set_lat_lon(Some((Lat(515000000), Lon(-1000000))));
    let o = RcOSMObj::Node(p);
    let back = o.into_way();
    let original = match back {
        Ok(_) => panic!("a wrapped point must not narrow to a way"),
        Err(original) => original,
    };
    // nothing was lost on the mismatch
    let n = match original.into_node() {
        Ok(n) => n,
        Err(_) => panic!("a wrapped point must narrow to a point"),
    };
    assert_eq!(n.id(), 5);
    assert_eq!(n.lat_lon(), Some((Lat(515000000), Lon(-1000000))));
}

#[test]
fn borrowing_narrowing_has_no_side_effects() {
    let o = RcOSMObj::Way(RcWay::new(8, vec![4, 5]));
    assert!(o.as_node().is_none());
    assert!(o.as_relation().is_none());
    let w = o.as_way().expect("a wrapped way must narrow to a way");
    assert_eq!(w.id(), 8);
    // the object is untouched and can be read again
    assert_eq!(o.as_way().expect("still a way").nodes(), &[4, 5]);
}

#[test]
fn object_type_is_stable_across_interface_calls() {
    let mut o = RcOSMObj::Relation(RcRelation::new(3, vec![]));
    assert_eq!(o.object_type(), OSMObjectType::Relation);
    o.set_tag("type", "route");
    assert_eq!(o.object_type(), OSMObjectType::Relation);
    o.set_deleted(true);
    assert_eq!(o.object_type(), OSMObjectType::Relation);
    o.unset_tag("type");
    o.set_version(Some(9));
    o.set_id(12);
    assert_eq!(o.object_type(), OSMObjectType::Relation);
}

#[test]
fn tombstone_retains_metadata() {
    let mut o = RcOSMObj::Node(RcNode::new(21));
    o.set_version(Some(4));
    o.set_changeset_id(Some(900));
    o.set_timestamp(Some(TimestampFormat::EpochNumber(1700000000)));
    o.set_uid(Some(77));
    o.set_user(Some("alice".to_string()));
    o.set_tag("amenity", "bench");
    o.set_deleted(true);
    assert!(o.deleted());
    assert_eq!(o.id(), 21);
    assert_eq!(o.version(), Some(4));
    assert_eq!(o.changeset_id(), Some(900));
    assert_eq!(
        o.timestamp(),
        &Some(TimestampFormat::EpochNumber(1700000000))
    );
    assert_eq!(o.uid(), Some(77));
    assert_eq!(o.user(), Some("alice"));
    assert_eq!(o.tag("amenity"), Some("bench"));
    assert_eq!(o.tags().len(), 1);
}

#[test]
fn way_node_index_is_bounds_checked() {
    let w = RcWay::new(1, vec![10, 20, 30]);
    assert_eq!(w.node(0), Some(10));
    assert_eq!(w.node(1), Some(20));
    assert_eq!(w.node(2), Some(30));
    assert_eq!(w.node(3), None);
    assert_eq!(w.node(4), None);
    assert_eq!(w.node(usize::MAX), None);
}

#[test]
fn metadata_defaults_are_absent() {
    let n = RcNode::new(6);
    assert_eq!(n.id(), 6);
    assert_eq!(n.version(), None);
    assert!(!n.deleted());
    assert_eq!(n.changeset_id(), None);
    assert_eq!(n.timestamp(), &None);
    assert_eq!(n.uid(), None);
    assert_eq!(n.user(), None);
    assert_eq!(n.lat_lon(), None);
    assert_eq!(n.tag("anything"), None);
    assert!(n.tags().is_empty());
}

#[test]
fn metadata_setters_round_trip_through_unified_interface() {
    let mut o = RcOSMObj::Way(RcWay::new(0, vec![]));
    o.set_id(-42);
    assert_eq!(o.id(), -42);
    o.set_version(Some(2));
    assert_eq!(o.version(), Some(2));
    o.set_version(None);
    assert_eq!(o.version(), None);
    o.set_timestamp(Some(TimestampFormat::ISOString(
        "2017-01-01T00:00:00Z".to_string(),
    )));
    assert_eq!(
        o.timestamp(),
        &Some(TimestampFormat::ISOString("2017-01-01T00:00:00Z".to_string()))
    );
    o.set_user(Some("bob".to_string()));
    assert_eq!(o.user(), Some("bob"));
    o.set_user(None);
    assert_eq!(o.user(), None);
}

#[test]
fn member_kind_markers_round_trip() {
    for kind in [
        OSMObjectType::Node,
        OSMObjectType::Way,
        OSMObjectType::Relation,
    ] {
        let marker = encode_member_kind(kind);
        assert_eq!(decode_member_kind(marker), Ok(kind));
    }
    assert_eq!(decode_member_kind('n'), Ok(OSMObjectType::Node));
    assert_eq!(decode_member_kind('w'), Ok(OSMObjectType::Way));
    assert_eq!(decode_member_kind('r'), Ok(OSMObjectType::Relation));
}

#[test]
fn member_kind_marker_outside_the_closed_set_is_an_error() {
    assert_eq!(
        decode_member_kind('x'),
        Err(InvalidMemberKind { marker: 'x' })
    );
    assert_eq!(
        decode_member_kind('N'),
        Err(InvalidMemberKind { marker: 'N' })
    );
}

#[test]
fn tag_store_stands_alone() {
    let mut t = TagMap::new();
    assert_eq!(t.get("k"), None);
    t.insert("k", "v1");
    assert_eq!(t.get("k"), Some("v1"));
    t.insert("k", "v2");
    assert_eq!(t.get("k"), Some("v2"));
    assert_eq!(t.entries().len(), 1);
    t.remove("k");
    assert_eq!(t.get("k"), None);
    t.remove("k");
    assert!(t.entries().is_empty());
}
