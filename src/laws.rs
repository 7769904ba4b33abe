use vstd::prelude::*;

use crate::general::{nullability_list, General, Nullability};
use crate::keyed::{keyed_decodes_to, keyed_field, KeyShape, Record};
use crate::method_and_property::{Kind, Method, Parameter, Property, PropertyKey};
use crate::mid_level::{Class, Enumerator, Function, Global, Protocol, Tag, Typedef};
use crate::node::{field, flag, opt_named, opt_text, Named, Node};
use crate::top_level::{version_of_text, Data, Version};

verus! {

/// A sequence in which two records yield the same key decodes to no map at
/// all, whatever the key shape and the payload.
pub proof fn duplicate_keys_never_decode<K: KeyShape, V: Record>(
    items: Vec<Node>,
    i: int,
    j: int,
    m: Seq<(K, V)>,
)
    requires
        0 <= i < j < items@.len(),
        K::key_of(items@[i]) is Some,
        K::key_of(items@[j]) is Some,
        K::key_of(items@[i])->0.same_key(K::key_of(items@[j])->0),
    ensures
        !keyed_decodes_to(Node::Sequence(items), m),
{
    if keyed_decodes_to(Node::Sequence(items), m) {
        assert(K::key_of(items@[i]) == Some(m[i].0));
        assert(K::key_of(items@[j]) == Some(m[j].0));
    }
}

/// A collection attribute that is absent, null, or an empty sequence decodes
/// to the empty map, and to nothing else: the three forms are equivalent.
pub proof fn absent_and_empty_collections_agree<K: KeyShape, V: Record>(
    n: Node,
    name: Seq<char>,
    m: Seq<(K, V)>,
)
    requires
        field(n, name) is None || field(n, name) == Some(Node::Null) || (field(n, name) matches Some(
            Node::Sequence(items),
        ) && items@.len() == 0),
    ensures
        keyed_field::<K, V>(n, name, m) <==> m.len() == 0,
{
}

/// An attribute left out of a record reads as its default: no text, no
/// enumeration value, no list, `false`, and an empty collection.
pub proof fn absent_attributes_read_as_defaults<E: Named, K: KeyShape, V: Record>(
    n: Node,
    name: Seq<char>,
    l: Option<Vec<Nullability>>,
    m: Seq<(K, V)>,
)
    requires
        field(n, name) is None,
    ensures
        opt_text(field(n, name)) == Some(None::<String>),
        opt_named::<E>(field(n, name)) == Some(None::<E>),
        flag(field(n, name)) == Some(false),
        nullability_list(field(n, name), l) <==> l is None,
        keyed_field::<K, V>(n, name, m) <==> m.len() == 0,
{
}

/// A record that carries no attribute decodes, for each payload type, to the
/// value whose every attribute holds its default.
pub proof fn bare_record_decodes_to_defaults(
    n: Node,
    g: General,
    me: Method,
    p: Property,
    pa: Parameter,
    c: Class,
    pr: Protocol,
    t: Tag,
    td: Typedef,
    gl: Global,
    e: Enumerator,
    f: Function,
    d: Data,
)
    requires
        n matches Node::Mapping(es) && es@.len() == 0,
    ensures
        General::decodes_to(n, g) <==> g.is_default(),
        Method::decodes_to(n, me) <==> {
            &&& me.general.is_default()
            &&& me.nullability_of_ret is None
            &&& me.nullability is None
            &&& me.result_type is None
            &&& !me.designated_init
            &&& me.parameters@.len() == 0
        },
        Property::decodes_to(n, p) <==> {
            &&& p.general.is_default()
            &&& p.nullability is None
            &&& !p.swift_import_as_accessors
            &&& p.type_ is None
        },
        Parameter::decodes_to(n, pa) <==> {
            &&& pa.general.is_default()
            &&& pa.nullability is None
            &&& pa.type_ is None
            &&& !pa.no_escape
        },
        Class::decodes_to(n, c) <==> {
            &&& c.general.is_default()
            &&& c.methods@.len() == 0
            &&& c.properties@.len() == 0
            &&& c.swift_bridge is None
        },
        Protocol::decodes_to(n, pr) <==> {
            &&& pr.general.is_default()
            &&& pr.methods@.len() == 0
            &&& pr.properties@.len() == 0
        },
        Tag::decodes_to(n, t) <==> {
            &&& t.general.is_default()
            &&& t.error_domain is None
            &&& t.enum_kind is None
        },
        Typedef::decodes_to(n, td) <==> td.general.is_default() && td.swift_wrapper is None,
        Global::decodes_to(n, gl) <==> {
            &&& gl.general.is_default()
            &&& gl.nullability is None
            &&& gl.type_ is None
        },
        Enumerator::decodes_to(n, e) <==> e.general.is_default(),
        Function::decodes_to(n, f) <==> {
            &&& f.general.is_default()
            &&& f.nullability_of_ret is None
            &&& f.result_type is None
            &&& f.parameters@.len() == 0
        },
        Data::decodes_to(n, d) <==> d.is_empty(),
{
    if let Node::Mapping(es) = n {
        assert forall|name: Seq<char>| field(n, name) is None by {
            assert(crate::node::find_entry(es@, name) is None);
        }
    }
}

/// A property record that leaves out `PropertyKind` yields a key of its own,
/// which no record with the same name and an explicit kind repeats.
pub proof fn property_without_kind_is_distinct(a: Node, b: Node)
    requires
        PropertyKey::key_of(a) is Some,
        PropertyKey::key_of(b) is Some,
        field(a, "PropertyKind"@) is None,
        field(b, "PropertyKind"@) matches Some(Node::Str(s)) && Kind::from_name(s@) is Some,
    ensures
        PropertyKey::key_of(a)->0.kind is None,
        PropertyKey::key_of(b)->0.kind is Some,
        !PropertyKey::key_of(a)->0.same_key(PropertyKey::key_of(b)->0),
        !PropertyKey::key_of(b)->0.same_key(PropertyKey::key_of(a)->0),
{
}

/// The numbers 3.0, 4.0, 4.2 and 5.0 (and the integers 3, 4 and 5) denote the
/// four supported versions; a record whose `Version` is any other number
/// makes the whole `SwiftVersions` sequence fail to decode.
pub proof fn versions_normalize(items: Vec<Node>, i: int, t: String, m: Seq<(Version, Data)>)
    requires
        0 <= i < items@.len(),
        field(items@[i], "Version"@) == Some(Node::Number(t)),
        version_of_text(t@) is None,
    ensures
        version_of_text("3.0"@) == Some(Version::V3),
        version_of_text("4.0"@) == Some(Version::V4),
        version_of_text("4.2"@) == Some(Version::V4_2),
        version_of_text("5.0"@) == Some(Version::V5),
        !keyed_decodes_to(Node::Sequence(items), m),
{
    reveal_strlit("3");
    reveal_strlit("3.0");
    reveal_strlit("4");
    reveal_strlit("4.0");
    reveal_strlit("4.2");
    reveal_strlit("5.0");
    assert("4.0"@[0] != "3.0"@[0]);
    assert("4.2"@[0] != "3.0"@[0]);
    assert("4.2"@[2] != "4.0"@[2]);
    assert("4.2"@.len() != "4"@.len() && "4.2"@.len() != "3"@.len());
    assert("4.0"@.len() != "3"@.len() && "5.0"@.len() != "4"@.len());
    assert("5.0"@[0] != "3.0"@[0] && "5.0"@[0] != "4.0"@[0] && "5.0"@[0] != "4.2"@[0]);
    if keyed_decodes_to(Node::Sequence(items), m) {
        assert(Version::key_of(items@[i]) == Some(m[i].0));
    }
}

} // verus!
