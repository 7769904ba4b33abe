use vstd::prelude::*;

use crate::error::{Error, ErrorKind};
use crate::node::{field, req_text, Node};

verus! {

/// The map type used by this library: one entry per record, in the order of
/// the records, with pairwise distinct keys.
pub type KeyedMap<K, V> = Vec<(K, V)>;

/// How the identifying attributes of a record become a key.
pub trait KeyShape: Sized {
    /// The key that a record yields, if its identifying attributes are
    /// present and well formed.
    spec fn key_of(n: Node) -> Option<Self>;

    /// Whether two keys name the same symbol.
    spec fn same_key(self, other: Self) -> bool;

    /// What a collection keyed by this shape must look like: a fixed
    /// description of the identifying attributes, used in error messages.
    spec fn expected_text() -> Seq<char>;

    /// What an error met while reading the key of record `n` says of it.
    spec fn key_error(n: Node, e: Error) -> bool;

    fn expected() -> (r: &'static str)
        ensures
            r@ == Self::expected_text(),
    ;

    fn extract(n: &Node) -> (r: Result<Self, Error>)
        ensures
            match r {
                Ok(k) => Self::key_of(*n) == Some(k),
                Err(e) => Self::key_of(*n) is None && Self::key_error(*n, e),
            },
    ;

    fn same(&self, other: &Self) -> (r: bool)
        ensures
            r == self.same_key(*other),
    ;
}

/// A record keyed by its `Name` attribute.
impl KeyShape for String {
    open spec fn key_of(n: Node) -> Option<String> {
        req_text(field(n, "Name"@))
    }

    open spec fn same_key(self, other: String) -> bool {
        self@ == other@
    }

    open spec fn expected_text() -> Seq<char> {
        "a sequence of maps, each of which contains a `Name` attribute"@
    }

    open spec fn key_error(n: Node, e: Error) -> bool {
        field(n, "Name"@) is None ==> (e.kind matches ErrorKind::MissingField(m) && m@ == "Name"@)
    }

    fn expected() -> (r: &'static str) {
        "a sequence of maps, each of which contains a `Name` attribute"
    }

    fn extract(n: &Node) -> (r: Result<String, Error>) {
        n.req_text_at("Name")
    }

    fn same(&self, other: &String) -> (r: bool) {
        *self == *other
    }
}

/// The attribute payload of a record.
pub trait Record: Sized {
    /// Whether `v` is what record `n` decodes to.
    spec fn decodes_to(n: Node, v: Self) -> bool;

    fn decode(n: &Node) -> (r: Result<Self, Error>)
        ensures
            match r {
                Ok(v) => Self::decodes_to(*n, v),
                Err(_) => forall|v: Self| !Self::decodes_to(*n, v),
            },
    ;
}

/// No two entries carry the same key.
pub open spec fn distinct_keys<K: KeyShape, V>(m: Seq<(K, V)>) -> bool {
    forall|i: int, j: int|
        0 <= i < j < m.len() ==> !(#[trigger] m[i].0).same_key(#[trigger] m[j].0)
}

/// Whether `m` is what the sequence of records `n` decodes to: null reads as
/// empty; otherwise entry `i` holds the key and the payload of record `i`, and
/// the keys are pairwise distinct.
pub open spec fn keyed_decodes_to<K: KeyShape, V: Record>(n: Node, m: Seq<(K, V)>) -> bool {
    match n {
        Node::Null => m.len() == 0,
        Node::Sequence(items) => {
            &&& m.len() == items@.len()
            &&& forall|i: int|
                0 <= i < m.len() ==> K::key_of(items@[i]) == Some((#[trigger] m[i]).0)
                    && V::decodes_to(items@[i], m[i].1)
            &&& distinct_keys(m)
        },
        _ => false,
    }
}

/// The collection attribute `name` of record `n`: an absent one reads as empty.
pub open spec fn keyed_field<K: KeyShape, V: Record>(
    n: Node,
    name: Seq<char>,
    m: Seq<(K, V)>,
) -> bool {
    match field(n, name) {
        None => m.len() == 0,
        Some(f) => keyed_decodes_to(f, m),
    }
}

/// Every record yields a key and decodes to some payload.
pub open spec fn records_decode<K: KeyShape, V: Record>(items: Seq<Node>) -> bool {
    forall|i: int|
        0 <= i < items.len() ==> (#[trigger] K::key_of(items[i])) is Some && exists|v: V|
            V::decodes_to(items[i], v)
}

/// Two records yield keys that name the same symbol.
pub open spec fn repeats_key<K: KeyShape>(items: Seq<Node>) -> bool {
    exists|i: int, j: int|
        0 <= i < j < items.len() && (#[trigger] K::key_of(items[i])) is Some && (
        #[trigger] K::key_of(items[j])) is Some && K::key_of(items[i])->0.same_key(
            K::key_of(items[j])->0,
        )
}

/// Decodes a sequence of records into a map, failing on the first record
/// that does not decode and on the first key that repeats an earlier one.
pub fn decode_keyed<K: KeyShape, V: Record>(n: &Node) -> (r: Result<KeyedMap<K, V>, Error>)
    ensures
        match r {
            Ok(m) => keyed_decodes_to(*n, m@),
            Err(_) => forall|m: Seq<(K, V)>| !keyed_decodes_to(*n, m),
        },
        !(n is Null || n is Sequence) ==> (r matches Err(e) && e.kind matches ErrorKind::InvalidType(t)
            && t@ == K::expected_text()),
        (n matches Node::Sequence(items) && records_decode::<K, V>(items@) && repeats_key::<K>(
            items@,
        )) ==> (r matches Err(e) && e.kind matches ErrorKind::DuplicateEntry(t) && t@
            == K::expected_text()),
{
    match n {
        Node::Null => Ok(Vec::new()),
        Node::Sequence(items) => {
            let mut out: Vec<(K, V)> = Vec::new();
            let mut i: usize = 0;
            while i < items.len()
                invariant
                    *n == Node::Sequence(*items),
                    0 <= i <= items@.len(),
                    out@.len() == i,
                    forall|j: int|
                        0 <= j < i ==> K::key_of(items@[j]) == Some((#[trigger] out@[j]).0)
                            && V::decodes_to(items@[j], out@[j].1),
                    distinct_keys(out@),
                decreases items@.len() - i,
            {
                let k = match K::extract(&items[i]) {
                    Ok(k) => k,
                    Err(e) => {
                        proof {
                            assert forall|m: Seq<(K, V)>| !keyed_decodes_to(*n, m) by {
                                if keyed_decodes_to(*n, m) {
                                    assert(K::key_of(items@[i as int]) == Some(m[i as int].0));
                                }
                            }
                        }
                        return Err(e);
                    },
                };
                let mut j: usize = 0;
                while j < out.len()
                    invariant
                        *n == Node::Sequence(*items),
                        0 <= i < items@.len(),
                        out@.len() == i,
                        K::key_of(items@[i as int]) == Some(k),
                        forall|jj: int|
                            0 <= jj < i ==> K::key_of(items@[jj]) == Some((#[trigger] out@[jj]).0),
                        0 <= j <= out@.len(),
                        forall|jj: int| 0 <= jj < j ==> !(#[trigger] out@[jj]).0.same_key(k),
                    decreases out@.len() - j,
                {
                    if out[j].0.same(&k) {
                        proof {
                            assert forall|m: Seq<(K, V)>| !keyed_decodes_to(*n, m) by {
                                if keyed_decodes_to(*n, m) {
                                    assert(m[j as int].0 == out@[j as int].0);
                                    assert(m[i as int].0 == k);
                                }
                            }
                        }
                        return Err(Error::duplicate_entry(K::expected()));
                    }
                    j = j + 1;
                }
                let v = match V::decode(&items[i]) {
                    Ok(v) => v,
                    Err(e) => {
                        proof {
                            assert forall|m: Seq<(K, V)>| !keyed_decodes_to(*n, m) by {
                                if keyed_decodes_to(*n, m) {
                                    assert(V::decodes_to(items@[i as int], m[i as int].1));
                                }
                            }
                        }
                        return Err(e);
                    },
                };
                let ghost before = out@;
                out.push((k, v));
                assert(out@[i as int] == (k, v));
                assert forall|a: int, b: int| 0 <= a < b < out@.len() implies !(
                #[trigger] out@[a]).0.same_key(#[trigger] out@[b].0) by {
                    if b < i {
                        assert(before[a] == out@[a] && before[b] == out@[b]);
                    }
                }
                i = i + 1;
            }
            proof {
                if records_decode::<K, V>(items@) && repeats_key::<K>(items@) {
                    let (a, b) = choose|a: int, b: int|
                        0 <= a < b < items@.len() && (#[trigger] K::key_of(items@[a])) is Some && (
                        #[trigger] K::key_of(items@[b])) is Some && K::key_of(items@[a])->0.same_key(
                            K::key_of(items@[b])->0,
                        );
                    assert(K::key_of(items@[a]) == Some(out@[a].0));
                    assert(K::key_of(items@[b]) == Some(out@[b].0));
                    assert(!out@[a].0.same_key(out@[b].0));
                }
            }
            Ok(out)
        },
        _ => Err(Error::invalid_type(K::expected())),
    }
}

/// Reads the collection attribute `name` of record `n`; an absent one is empty.
pub fn keyed_at<K: KeyShape, V: Record>(n: &Node, name: &str) -> (r: Result<KeyedMap<K, V>, Error>)
    ensures
        match r {
            Ok(m) => keyed_field::<K, V>(*n, name@, m@),
            Err(_) => forall|m: Seq<(K, V)>| !keyed_field::<K, V>(*n, name@, m),
        },
        (field(*n, name@) matches Some(f) && !(f is Null || f is Sequence)) ==> (r matches Err(e)
            && e.kind matches ErrorKind::InvalidType(t) && t@ == K::expected_text()),
        (field(*n, name@) matches Some(Node::Sequence(items)) && records_decode::<K, V>(items@)
            && repeats_key::<K>(items@)) ==> (r matches Err(e) && e.kind matches ErrorKind::DuplicateEntry(
            t,
        ) && t@ == K::expected_text()),
{
    match n.get(name) {
        None => Ok(Vec::new()),
        Some(f) => decode_keyed::<K, V>(f),
    }
}

} // verus!
