use vstd::prelude::*;
use vstd::string::StrSliceExecFns;

use crate::error::{Error, ErrorKind};

verus! {

/// A YAML document as a tree of plain values.
///
/// Numbers keep the text that YAML prints for them: decimal digits for
/// integers, the shortest round-trip form (`4.2`, `3.0`) for floats.
#[derive(Debug, PartialEq)]
pub enum Node {
    Null,
    Bool(bool),
    Number(String),
    Str(String),
    Sequence(Vec<Node>),
    Mapping(Vec<(Node, Node)>),
    Tagged(String, Box<Node>),
}

/// Whether a mapping key is the string `name`.
pub open spec fn names(k: Node, name: Seq<char>) -> bool {
    match k {
        Node::Str(s) => s@ == name,
        _ => false,
    }
}

/// The value of the first entry whose key is `name`.
pub open spec fn find_entry(es: Seq<(Node, Node)>, name: Seq<char>) -> Option<Node>
    decreases es.len(),
{
    if es.len() == 0 {
        None
    } else if names(es[0].0, name) {
        Some(es[0].1)
    } else {
        find_entry(es.drop_first(), name)
    }
}

/// The attribute `name` of a record; `None` where it is absent or `n` is no mapping.
pub open spec fn field(n: Node, name: Seq<char>) -> Option<Node> {
    match n {
        Node::Mapping(es) => find_entry(es@, name),
        _ => None,
    }
}

/// An optional text attribute: absent and null read as `None`; `None` overall
/// where the value is no string.
pub open spec fn opt_text(f: Option<Node>) -> Option<Option<String>> {
    match f {
        None => Some(None),
        Some(Node::Null) => Some(None),
        Some(Node::Str(s)) => Some(Some(s)),
        _ => None,
    }
}

/// A flag attribute: absent reads as `false`; `None` where the value is no boolean.
pub open spec fn flag(f: Option<Node>) -> Option<bool> {
    match f {
        None => Some(false),
        Some(Node::Bool(b)) => Some(b),
        _ => None,
    }
}

/// A required text attribute.
pub open spec fn req_text(f: Option<Node>) -> Option<String> {
    match f {
        Some(Node::Str(s)) => Some(s),
        _ => None,
    }
}

pub open spec fn is_digit(c: char) -> bool {
    '0' <= c && c <= '9'
}

/// The number written by a string of decimal digits.
pub open spec fn decimal(t: Seq<char>) -> int
    decreases t.len(),
{
    if t.len() == 0 {
        0
    } else {
        decimal(t.drop_last()) * 10 + (t.last() as int - '0' as int)
    }
}

/// The byte that a number's text denotes, if it is a plain decimal integer up to 255.
pub open spec fn byte_of_text(t: Seq<char>) -> Option<u8> {
    if t.len() > 0 && (forall|i: int| 0 <= i < t.len() ==> is_digit(#[trigger] t[i])) && decimal(t)
        <= 255 {
        Some(decimal(t) as u8)
    } else {
        None
    }
}

/// An enumeration written in a record by one of a few fixed names.
pub trait Named: Sized {
    /// The value that the name `t` stands for.
    spec fn from_name(t: Seq<char>) -> Option<Self>;

    fn parse_name(s: &String) -> (r: Option<Self>)
        ensures
            r == Self::from_name(s@),
    ;
}

/// An optional enumeration attribute: absent and null read as `None`.
pub open spec fn opt_named<E: Named>(f: Option<Node>) -> Option<Option<E>> {
    match f {
        None => Some(None),
        Some(Node::Null) => Some(None),
        Some(Node::Str(s)) => match E::from_name(s@) {
            Some(e) => Some(Some(e)),
            None => None,
        },
        _ => None,
    }
}

/// A required enumeration attribute.
pub open spec fn req_named<E: Named>(f: Option<Node>) -> Option<E> {
    match f {
        Some(Node::Str(s)) => E::from_name(s@),
        _ => None,
    }
}

/// Whether a string holds exactly the text of `lit`.
pub fn text_is(s: &String, lit: &str) -> (r: bool)
    ensures
        r == (s@ == lit@),
{
    let owned = lit.to_owned();
    *s == owned
}

impl Node {
    /// Whether this is a mapping, the shape of every record.
    pub fn is_mapping(&self) -> (r: bool)
        ensures
            r == self is Mapping,
    {
        matches!(self, Node::Mapping(_))
    }

    /// The attribute `name` of this record, as `field` states it.
    pub fn get<'a>(&'a self, name: &str) -> (r: Option<&'a Node>)
        ensures
            match r {
                Some(x) => field(*self, name@) == Some(*x),
                None => field(*self, name@) is None,
            },
    {
        match self {
            Node::Mapping(entries) => {
                let key = name.to_owned();
                let mut i: usize = 0;
                assert(entries@.subrange(0, entries@.len() as int) =~= entries@);
                assert(field(*self, name@) == find_entry(entries@, name@));
                while i < entries.len()
                    invariant
                        0 <= i <= entries@.len(),
                        key@ == name@,
                        field(*self, name@) == find_entry(entries@, name@),
                        find_entry(entries@, name@) == find_entry(
                            entries@.subrange(i as int, entries@.len() as int),
                            name@,
                        ),
                    decreases entries@.len() - i,
                {
                    let ghost rest = entries@.subrange(i as int, entries@.len() as int);
                    assert(rest[0] == entries@[i as int]);
                    let e = &entries[i];
                    if let Node::Str(s) = &e.0 {
                        if *s == key {
                            assert(names(rest[0].0, name@));
                            assert(find_entry(rest, name@) == Some(rest[0].1));
                            assert(e.1 == rest[0].1);
                            return Some(&e.1);
                        }
                    }
                    assert(rest.drop_first() =~= entries@.subrange(i + 1, entries@.len() as int));
                    i = i + 1;
                }
                assert(entries@.subrange(i as int, entries@.len() as int).len() == 0);
                None
            },
            _ => None,
        }
    }

    /// Reads an optional text attribute.
    pub fn opt_text_at(&self, name: &str) -> (r: Result<Option<String>, Error>)
        ensures
            match r {
                Ok(v) => opt_text(field(*self, name@)) == Some(v),
                Err(_) => opt_text(field(*self, name@)) is None,
            },
    {
        match self.get(name) {
            None => Ok(None),
            Some(Node::Null) => Ok(None),
            Some(Node::Str(s)) => Ok(Some(s.clone())),
            Some(_) => Err(Error::invalid_type("a string")),
        }
    }

    /// Reads a required text attribute.
    pub fn req_text_at(&self, name: &str) -> (r: Result<String, Error>)
        ensures
            match r {
                Ok(v) => req_text(field(*self, name@)) == Some(v),
                Err(e) => {
                    &&& req_text(field(*self, name@)) is None
                    &&& field(*self, name@) is None ==> (e.kind matches ErrorKind::MissingField(m)
                        && m@ == name@)
                },
            },
    {
        match self.get(name) {
            None => Err(Error::missing_field(name)),
            Some(Node::Str(s)) => Ok(s.clone()),
            Some(_) => Err(Error::invalid_type("a string")),
        }
    }

    /// Reads an optional enumeration attribute.
    pub fn opt_named_at<E: Named>(&self, name: &str) -> (r: Result<Option<E>, Error>)
        ensures
            match r {
                Ok(v) => opt_named::<E>(field(*self, name@)) == Some(v),
                Err(_) => opt_named::<E>(field(*self, name@)) is None,
            },
    {
        match self.get(name) {
            None => Ok(None),
            Some(Node::Null) => Ok(None),
            Some(Node::Str(s)) => match E::parse_name(s) {
                Some(e) => Ok(Some(e)),
                None => Err(Error::unknown_variant(s)),
            },
            Some(_) => Err(Error::invalid_type("a name")),
        }
    }

    /// Reads a required enumeration attribute.
    pub fn req_named_at<E: Named>(&self, name: &str) -> (r: Result<E, Error>)
        ensures
            match r {
                Ok(v) => req_named::<E>(field(*self, name@)) == Some(v),
                Err(e) => {
                    &&& req_named::<E>(field(*self, name@)) is None
                    &&& field(*self, name@) is None ==> (e.kind matches ErrorKind::MissingField(m)
                        && m@ == name@)
                },
            },
    {
        match self.get(name) {
            None => Err(Error::missing_field(name)),
            Some(Node::Str(s)) => match E::parse_name(s) {
                Some(e) => Ok(e),
                None => Err(Error::unknown_variant(s)),
            },
            Some(_) => Err(Error::invalid_type("a name")),
        }
    }

    /// Reads a flag attribute.
    pub fn flag_at(&self, name: &str) -> (r: Result<bool, Error>)
        ensures
            match r {
                Ok(v) => flag(field(*self, name@)) == Some(v),
                Err(_) => flag(field(*self, name@)) is None,
            },
    {
        match self.get(name) {
            None => Ok(false),
            Some(Node::Bool(b)) => Ok(*b),
            Some(_) => Err(Error::invalid_type("a boolean")),
        }
    }
}

/// Reads the byte that a number's text denotes.
pub fn byte_from_text(t: &String) -> (r: Option<u8>)
    ensures
        r == byte_of_text(t@),
{
    let s = t.as_str();
    let n = s.unicode_len();
    if n == 0 {
        return None;
    }
    let mut acc: u32 = 0;
    let mut i: usize = 0;
    while i < n
        invariant
            n == t@.len(),
            s@ == t@,
            0 <= i <= n,
            forall|j: int| 0 <= j < i ==> is_digit(#[trigger] t@[j]),
            decimal(t@.subrange(0, i as int)) >= 0,
            acc == (if decimal(t@.subrange(0, i as int)) > 255 {
                256
            } else {
                decimal(t@.subrange(0, i as int))
            }),
        decreases n - i,
    {
        let c = s.get_char(i);
        if !('0' <= c && c <= '9') {
            assert(!is_digit(t@[i as int]));
            return None;
        }
        let d = (c as u32) - ('0' as u32);
        assert(t@.subrange(0, i + 1).drop_last() =~= t@.subrange(0, i as int));
        if acc > 255 {
            acc = 256;
        } else {
            acc = acc * 10 + d;
            if acc > 255 {
                acc = 256;
            }
        }
        i = i + 1;
    }
    assert(t@.subrange(0, n as int) =~= t@);
    if acc > 255 {
        None
    } else {
        Some(acc as u8)
    }
}

} // verus!
