use vstd::prelude::*;

use crate::error::Error;
use crate::keyed::Record;
use crate::node::{field, flag, opt_named, opt_text, text_is, Named, Node};

verus! {

/// An availability note, as written in the file.
pub type Availability = String;

/// A type, as C source would spell it.
pub type Type = String;

/// General attributes.
#[derive(Clone, Debug, PartialEq)]
pub struct General {
    pub swift_name: Option<String>,
    pub availability: Option<Availability>,
    pub availability_msg: Option<String>,
    pub swift_private: bool,
}

impl General {
    /// Whether every attribute holds its default: absent, or `false`.
    pub open spec fn is_default(self) -> bool {
        &&& self.swift_name is None
        &&& self.availability is None
        &&& self.availability_msg is None
        &&& !self.swift_private
    }
}

impl Default for General {
    fn default() -> (r: General)
        ensures
            r.is_default(),
    {
        General { swift_name: None, availability: None, availability_msg: None, swift_private: false }
    }
}

impl Record for General {
    open spec fn decodes_to(n: Node, v: General) -> bool {
        &&& n is Mapping
        &&& opt_text(field(n, "SwiftName"@)) == Some(v.swift_name)
        &&& opt_text(field(n, "Availability"@)) == Some(v.availability)
        &&& opt_text(field(n, "AvailabilityMsg"@)) == Some(v.availability_msg)
        &&& flag(field(n, "SwiftPrivate"@)) == Some(v.swift_private)
    }

    fn decode(n: &Node) -> (r: Result<General, Error>) {
        if !n.is_mapping() {
            return Err(Error::invalid_type("a mapping"));
        }
        let swift_name = n.opt_text_at("SwiftName")?;
        let availability = n.opt_text_at("Availability")?;
        let availability_msg = n.opt_text_at("AvailabilityMsg")?;
        let swift_private = n.flag_at("SwiftPrivate")?;
        Ok(General { swift_name, availability, availability_msg, swift_private })
    }
}

/// Note that this is overridden by `Type`, even in a `SwiftVersions` section.
#[derive(Clone, Copy, Debug, PartialEq, Eq, Structural, Hash)]
pub enum Nullability {
    Nonnull,
    Optional,
    Unspecified,
    Scalar,
}

impl Named for Nullability {
    open spec fn from_name(t: Seq<char>) -> Option<Nullability> {
        if t == "Nonnull"@ || t == "N"@ {
            Some(Nullability::Nonnull)
        } else if t == "Optional"@ || t == "O"@ {
            Some(Nullability::Optional)
        } else if t == "Unspecified"@ || t == "U"@ {
            Some(Nullability::Unspecified)
        } else if t == "Scalar"@ || t == "S"@ {
            Some(Nullability::Scalar)
        } else {
            None
        }
    }

    fn parse_name(s: &String) -> (r: Option<Nullability>) {
        if text_is(s, "Nonnull") || text_is(s, "N") {
            Some(Nullability::Nonnull)
        } else if text_is(s, "Optional") || text_is(s, "O") {
            Some(Nullability::Optional)
        } else if text_is(s, "Unspecified") || text_is(s, "U") {
            Some(Nullability::Unspecified)
        } else if text_is(s, "Scalar") || text_is(s, "S") {
            Some(Nullability::Scalar)
        } else {
            None
        }
    }
}

/// A list of nullabilities, one per parameter: absent and null read as `None`.
pub open spec fn nullability_list(f: Option<Node>, v: Option<Vec<Nullability>>) -> bool {
    match f {
        None => v is None,
        Some(Node::Null) => v is None,
        Some(Node::Sequence(items)) => match v {
            Some(l) => l@.len() == items@.len() && forall|i: int|
                0 <= i < l@.len() ==> opt_named::<Nullability>(Some(items@[i])) == Some(
                    Some(#[trigger] l@[i]),
                ),
            None => false,
        },
        _ => false,
    }
}

/// Reads the list of nullabilities held by attribute `name` of `n`.
pub fn read_nullability_list(n: &Node, name: &str) -> (r: Result<Option<Vec<Nullability>>, Error>)
    ensures
        match r {
            Ok(v) => nullability_list(field(*n, name@), v),
            Err(_) => forall|v: Option<Vec<Nullability>>| !nullability_list(field(*n, name@), v),
        },
{
    match n.get(name) {
        None => Ok(None),
        Some(Node::Null) => Ok(None),
        Some(Node::Sequence(items)) => {
            let mut out: Vec<Nullability> = Vec::new();
            let mut i: usize = 0;
            while i < items.len()
                invariant
                    field(*n, name@) == Some(Node::Sequence(*items)),
                    0 <= i <= items@.len(),
                    out@.len() == i,
                    forall|j: int|
                        0 <= j < i ==> opt_named::<Nullability>(Some(items@[j])) == Some(
                            Some(#[trigger] out@[j]),
                        ),
                decreases items@.len() - i,
            {
                let e = match &items[i] {
                    Node::Str(s) => match Nullability::parse_name(s) {
                        Some(e) => e,
                        None => {
                            proof {
                                assert forall|v: Option<Vec<Nullability>>| !nullability_list(field(*n, name@), v) by {
                                    if let Some(l) = v {
                                        if l@.len() == items@.len() {
                                            assert(opt_named::<Nullability>(Some(items@[i as int])) != Some(Some(l@[i as int])));
                                        }
                                    }
                                }
                            }
                            return Err(Error::unknown_variant(s));
                        },
                    },
                    _ => {
                        proof {
                            assert forall|v: Option<Vec<Nullability>>| !nullability_list(field(*n, name@), v) by {
                                if let Some(l) = v {
                                    if l@.len() == items@.len() {
                                        assert(opt_named::<Nullability>(Some(items@[i as int])) != Some(Some(l@[i as int])));
                                    }
                                }
                            }
                        }
                        return Err(Error::invalid_type("a nullability"));
                    },
                };
                out.push(e);
                i = i + 1;
            }
            Ok(Some(out))
        },
        Some(_) => Err(Error::invalid_type("a list of nullabilities")),
    }
}

} // verus!
