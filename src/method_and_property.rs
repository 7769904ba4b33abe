use vstd::prelude::*;

use crate::error::{Error, ErrorKind};
use crate::general::{nullability_list, read_nullability_list, General, Nullability, Type};
use crate::keyed::{keyed_at, keyed_field, KeyShape, KeyedMap, Record};
use crate::node::{byte_from_text, byte_of_text, field, flag, opt_named, opt_text, req_named, req_text, text_is, Named, Node};

verus! {

/// Whether a method or property belongs to instances or to the class.
#[derive(Clone, Copy, Debug, PartialEq, Eq, Structural, Hash)]
pub enum Kind {
    Instance,
    Class,
}

impl Named for Kind {
    open spec fn from_name(t: Seq<char>) -> Option<Kind> {
        if t == "Instance"@ {
            Some(Kind::Instance)
        } else if t == "Class"@ {
            Some(Kind::Class)
        } else {
            None
        }
    }

    fn parse_name(s: &String) -> (r: Option<Kind>) {
        if text_is(s, "Instance") {
            Some(Kind::Instance)
        } else if text_is(s, "Class") {
            Some(Kind::Class)
        } else {
            None
        }
    }
}

/// The key of a method: its selector and its kind.
#[derive(Clone, Debug, PartialEq, Eq, Hash)]
pub struct MethodKey {
    pub selector: String,
    pub kind: Kind,
}

impl KeyShape for MethodKey {
    open spec fn key_of(n: Node) -> Option<MethodKey> {
        match (req_text(field(n, "Selector"@)), req_named::<Kind>(field(n, "MethodKind"@))) {
            (Some(selector), Some(kind)) => Some(MethodKey { selector, kind }),
            _ => None,
        }
    }

    open spec fn same_key(self, other: MethodKey) -> bool {
        self.selector@ == other.selector@ && self.kind == other.kind
    }

    open spec fn expected_text() -> Seq<char> {
        "a sequence of maps, each of which contains a `Selector` and a `MethodKind` attribute"@
    }

    open spec fn key_error(n: Node, e: Error) -> bool {
        field(n, "Selector"@) is None ==> (e.kind matches ErrorKind::MissingField(m) && m@ == "Selector"@)
    }

    fn expected() -> (r: &'static str) {
        "a sequence of maps, each of which contains a `Selector` and a `MethodKind` attribute"
    }

    fn extract(n: &Node) -> (r: Result<MethodKey, Error>) {
        let selector = n.req_text_at("Selector")?;
        let kind = n.req_named_at::<Kind>("MethodKind")?;
        Ok(MethodKey { selector, kind })
    }

    fn same(&self, other: &MethodKey) -> (r: bool) {
        self.selector == other.selector && self.kind == other.kind
    }
}

/// The key of a property: its name and, where given, its kind.
#[derive(Clone, Debug, PartialEq, Eq, Hash)]
pub struct PropertyKey {
    pub name: String,
    /// `None` means that the property signifies both a class and an instance
    /// property.
    pub kind: Option<Kind>,
}

impl KeyShape for PropertyKey {
    open spec fn key_of(n: Node) -> Option<PropertyKey> {
        match (req_text(field(n, "Name"@)), opt_named::<Kind>(field(n, "PropertyKind"@))) {
            (Some(name), Some(kind)) => Some(PropertyKey { name, kind }),
            _ => None,
        }
    }

    open spec fn same_key(self, other: PropertyKey) -> bool {
        self.name@ == other.name@ && self.kind == other.kind
    }

    open spec fn expected_text() -> Seq<char> {
        "a sequence of maps, each of which contains a `Name` and a `PropertyKind` attribute"@
    }

    open spec fn key_error(n: Node, e: Error) -> bool {
        field(n, "Name"@) is None ==> (e.kind matches ErrorKind::MissingField(m) && m@ == "Name"@)
    }

    fn expected() -> (r: &'static str) {
        "a sequence of maps, each of which contains a `Name` and a `PropertyKind` attribute"
    }

    fn extract(n: &Node) -> (r: Result<PropertyKey, Error>) {
        let name = n.req_text_at("Name")?;
        let kind = n.opt_named_at::<Kind>("PropertyKind")?;
        Ok(PropertyKey { name, kind })
    }

    fn same(&self, other: &PropertyKey) -> (r: bool) {
        let same_kind = match (self.kind, other.kind) {
            (None, None) => true,
            (Some(a), Some(b)) => a == b,
            _ => false,
        };
        self.name == other.name && same_kind
    }
}

/// The position of a parameter, counted from zero.
pub type Position = u8;

impl KeyShape for Position {
    open spec fn key_of(n: Node) -> Option<u8> {
        match field(n, "Position"@) {
            Some(Node::Number(t)) => byte_of_text(t@),
            _ => None,
        }
    }

    open spec fn same_key(self, other: u8) -> bool {
        self == other
    }

    open spec fn expected_text() -> Seq<char> {
        "a sequence of maps, each of which contains a `Position` attribute"@
    }

    open spec fn key_error(n: Node, e: Error) -> bool {
        field(n, "Position"@) is None ==> (e.kind matches ErrorKind::MissingField(m) && m@ == "Position"@)
    }

    fn expected() -> (r: &'static str) {
        "a sequence of maps, each of which contains a `Position` attribute"
    }

    fn extract(n: &Node) -> (r: Result<u8, Error>) {
        match n.get("Position") {
            Some(Node::Number(t)) => match byte_from_text(t) {
                Some(p) => Ok(p),
                None => Err(Error::invalid_type("a position from 0 to 255")),
            },
            Some(_) => Err(Error::invalid_type("a position from 0 to 255")),
            None => Err(Error::missing_field("Position")),
        }
    }

    fn same(&self, other: &u8) -> (r: bool) {
        *self == *other
    }
}

/// Attributes of a method.
#[derive(Clone, Debug, PartialEq)]
pub struct Method {
    pub general: General,
    pub nullability_of_ret: Option<Nullability>,
    pub nullability: Option<Vec<Nullability>>,
    pub result_type: Option<Type>,
    pub designated_init: bool,
    pub parameters: KeyedMap<Position, Parameter>,
}

impl Default for Method {
    fn default() -> (r: Method)
        ensures
            r.general.is_default(),
            r.nullability_of_ret is None,
            r.nullability is None,
            r.result_type is None,
            !r.designated_init,
            r.parameters@.len() == 0,
    {
        Method {
            general: General::default(),
            nullability_of_ret: None,
            nullability: None,
            result_type: None,
            designated_init: false,
            parameters: Vec::new(),
        }
    }
}

impl Record for Method {
    open spec fn decodes_to(n: Node, v: Method) -> bool {
        &&& General::decodes_to(n, v.general)
        &&& opt_named::<Nullability>(field(n, "NullabilityOfRet"@)) == Some(v.nullability_of_ret)
        &&& nullability_list(field(n, "Nullability"@), v.nullability)
        &&& opt_text(field(n, "ResultType"@)) == Some(v.result_type)
        &&& flag(field(n, "DesignatedInit"@)) == Some(v.designated_init)
        &&& keyed_field::<Position, Parameter>(n, "Parameters"@, v.parameters@)
    }

    fn decode(n: &Node) -> (r: Result<Method, Error>) {
        let general = General::decode(n)?;
        let nullability_of_ret = n.opt_named_at::<Nullability>("NullabilityOfRet")?;
        let nullability = read_nullability_list(n, "Nullability")?;
        let result_type = n.opt_text_at("ResultType")?;
        let designated_init = n.flag_at("DesignatedInit")?;
        let parameters = keyed_at::<Position, Parameter>(n, "Parameters")?;
        Ok(Method { general, nullability_of_ret, nullability, result_type, designated_init, parameters })
    }
}

/// Attributes of a property.
#[derive(Clone, Debug, PartialEq)]
pub struct Property {
    pub general: General,
    pub nullability: Option<Nullability>,
    pub swift_import_as_accessors: bool,
    pub type_: Option<Type>,
}

impl Default for Property {
    fn default() -> (r: Property)
        ensures
            r.general.is_default(),
            r.nullability is None,
            !r.swift_import_as_accessors,
            r.type_ is None,
    {
        Property { general: General::default(), nullability: None, swift_import_as_accessors: false, type_: None }
    }
}

impl Record for Property {
    open spec fn decodes_to(n: Node, v: Property) -> bool {
        &&& General::decodes_to(n, v.general)
        &&& opt_named::<Nullability>(field(n, "Nullability"@)) == Some(v.nullability)
        &&& flag(field(n, "SwiftImportAsAccessors"@)) == Some(v.swift_import_as_accessors)
        &&& opt_text(field(n, "Type"@)) == Some(v.type_)
    }

    fn decode(n: &Node) -> (r: Result<Property, Error>) {
        let general = General::decode(n)?;
        let nullability = n.opt_named_at::<Nullability>("Nullability")?;
        let swift_import_as_accessors = n.flag_at("SwiftImportAsAccessors")?;
        let type_ = n.opt_text_at("Type")?;
        Ok(Property { general, nullability, swift_import_as_accessors, type_ })
    }
}

/// Attributes of a parameter.
#[derive(Clone, Debug, PartialEq)]
pub struct Parameter {
    pub general: General,
    pub nullability: Option<Nullability>,
    pub type_: Option<Type>,
    /// Only used on block parameters.
    pub no_escape: bool,
}

impl Default for Parameter {
    fn default() -> (r: Parameter)
        ensures
            r.general.is_default(),
            r.nullability is None,
            r.type_ is None,
            !r.no_escape,
    {
        Parameter { general: General::default(), nullability: None, type_: None, no_escape: false }
    }
}

impl Record for Parameter {
    open spec fn decodes_to(n: Node, v: Parameter) -> bool {
        &&& General::decodes_to(n, v.general)
        &&& opt_named::<Nullability>(field(n, "Nullability"@)) == Some(v.nullability)
        &&& opt_text(field(n, "Type"@)) == Some(v.type_)
        &&& flag(field(n, "NoEscape"@)) == Some(v.no_escape)
    }

    fn decode(n: &Node) -> (r: Result<Parameter, Error>) {
        let general = General::decode(n)?;
        let nullability = n.opt_named_at::<Nullability>("Nullability")?;
        let type_ = n.opt_text_at("Type")?;
        let no_escape = n.flag_at("NoEscape")?;
        Ok(Parameter { general, nullability, type_, no_escape })
    }
}

} // verus!
