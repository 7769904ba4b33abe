use vstd::prelude::*;

use crate::error::Error;
use crate::general::{General, Nullability, Type};
use crate::keyed::{keyed_at, keyed_field, KeyedMap, Record};
use crate::method_and_property::{Method, MethodKey, Parameter, Position, Property, PropertyKey};
use crate::node::{field, opt_named, opt_text, text_is, Named, Node};

verus! {

/// Attributes of an Objective-C class.
#[derive(Clone, Debug, PartialEq)]
pub struct Class {
    pub general: General,
    pub methods: KeyedMap<MethodKey, Method>,
    pub properties: KeyedMap<PropertyKey, Property>,
    pub swift_bridge: Option<String>,
}

impl Default for Class {
    fn default() -> (r: Class)
        ensures
            r.general.is_default(),
            r.methods@.len() == 0,
            r.properties@.len() == 0,
            r.swift_bridge is None,
    {
        Class { general: General::default(), methods: Vec::new(), properties: Vec::new(), swift_bridge: None }
    }
}

impl Record for Class {
    open spec fn decodes_to(n: Node, v: Class) -> bool {
        &&& General::decodes_to(n, v.general)
        &&& keyed_field::<MethodKey, Method>(n, "Methods"@, v.methods@)
        &&& keyed_field::<PropertyKey, Property>(n, "Properties"@, v.properties@)
        &&& opt_text(field(n, "SwiftBridge"@)) == Some(v.swift_bridge)
    }

    fn decode(n: &Node) -> (r: Result<Class, Error>) {
        let general = General::decode(n)?;
        let methods = keyed_at::<MethodKey, Method>(n, "Methods")?;
        let properties = keyed_at::<PropertyKey, Property>(n, "Properties")?;
        let swift_bridge = n.opt_text_at("SwiftBridge")?;
        Ok(Class { general, methods, properties, swift_bridge })
    }
}

/// Attributes of an Objective-C protocol.
#[derive(Clone, Debug, PartialEq)]
pub struct Protocol {
    pub general: General,
    pub methods: KeyedMap<MethodKey, Method>,
    pub properties: KeyedMap<PropertyKey, Property>,
}

impl Default for Protocol {
    fn default() -> (r: Protocol)
        ensures
            r.general.is_default(),
            r.methods@.len() == 0,
            r.properties@.len() == 0,
    {
        Protocol { general: General::default(), methods: Vec::new(), properties: Vec::new() }
    }
}

impl Record for Protocol {
    open spec fn decodes_to(n: Node, v: Protocol) -> bool {
        &&& General::decodes_to(n, v.general)
        &&& keyed_field::<MethodKey, Method>(n, "Methods"@, v.methods@)
        &&& keyed_field::<PropertyKey, Property>(n, "Properties"@, v.properties@)
    }

    fn decode(n: &Node) -> (r: Result<Protocol, Error>) {
        let general = General::decode(n)?;
        let methods = keyed_at::<MethodKey, Method>(n, "Methods")?;
        let properties = keyed_at::<PropertyKey, Property>(n, "Properties")?;
        Ok(Protocol { general, methods, properties })
    }
}

/// How an enumeration is imported.
#[derive(Clone, Copy, Debug, PartialEq, Eq, Structural, Hash)]
pub enum EnumKind {
    NSEnum,
    NSClosedEnum,
    NSOptions,
    /// Written `none`.
    NoEnumKind,
}

impl Named for EnumKind {
    open spec fn from_name(t: Seq<char>) -> Option<EnumKind> {
        if t == "NSEnum"@ || t == "CFEnum"@ {
            Some(EnumKind::NSEnum)
        } else if t == "NSClosedEnum"@ || t == "CFClosedEnum"@ {
            Some(EnumKind::NSClosedEnum)
        } else if t == "NSOptions"@ || t == "CFOptions"@ {
            Some(EnumKind::NSOptions)
        } else if t == "none"@ {
            Some(EnumKind::NoEnumKind)
        } else {
            None
        }
    }

    fn parse_name(s: &String) -> (r: Option<EnumKind>) {
        if text_is(s, "NSEnum") || text_is(s, "CFEnum") {
            Some(EnumKind::NSEnum)
        } else if text_is(s, "NSClosedEnum") || text_is(s, "CFClosedEnum") {
            Some(EnumKind::NSClosedEnum)
        } else if text_is(s, "NSOptions") || text_is(s, "CFOptions") {
            Some(EnumKind::NSOptions)
        } else if text_is(s, "none") {
            Some(EnumKind::NoEnumKind)
        } else {
            None
        }
    }
}

/// Structs, enums, and unions.
#[derive(Clone, Debug, PartialEq)]
pub struct Tag {
    pub general: General,
    /// Only used on enums.
    pub error_domain: Option<String>,
    /// Only used on enums.
    pub enum_kind: Option<EnumKind>,
}

impl Default for Tag {
    fn default() -> (r: Tag)
        ensures
            r.general.is_default(),
            r.error_domain is None,
            r.enum_kind is None,
    {
        Tag { general: General::default(), error_domain: None, enum_kind: None }
    }
}

impl Record for Tag {
    open spec fn decodes_to(n: Node, v: Tag) -> bool {
        &&& General::decodes_to(n, v.general)
        &&& opt_text(field(n, "NSErrorDomain"@)) == Some(v.error_domain)
        &&& opt_named::<EnumKind>(field(n, "EnumKind"@)) == Some(v.enum_kind)
    }

    fn decode(n: &Node) -> (r: Result<Tag, Error>) {
        let general = General::decode(n)?;
        let error_domain = n.opt_text_at("NSErrorDomain")?;
        let enum_kind = n.opt_named_at::<EnumKind>("EnumKind")?;
        Ok(Tag { general, error_domain, enum_kind })
    }
}

/// How a typedef is wrapped when imported.
#[derive(Clone, Copy, Debug, PartialEq, Eq, Structural, Hash)]
pub enum SwiftWrapper {
    Struct,
    Enum,
    /// Written `none`.
    NoWrapper,
}

impl Named for SwiftWrapper {
    open spec fn from_name(t: Seq<char>) -> Option<SwiftWrapper> {
        if t == "struct"@ {
            Some(SwiftWrapper::Struct)
        } else if t == "enum"@ {
            Some(SwiftWrapper::Enum)
        } else if t == "none"@ {
            Some(SwiftWrapper::NoWrapper)
        } else {
            None
        }
    }

    fn parse_name(s: &String) -> (r: Option<SwiftWrapper>) {
        if text_is(s, "struct") {
            Some(SwiftWrapper::Struct)
        } else if text_is(s, "enum") {
            Some(SwiftWrapper::Enum)
        } else if text_is(s, "none") {
            Some(SwiftWrapper::NoWrapper)
        } else {
            None
        }
    }
}

/// Attributes of a typedef.
#[derive(Clone, Debug, PartialEq)]
pub struct Typedef {
    pub general: General,
    pub swift_wrapper: Option<SwiftWrapper>,
}

impl Default for Typedef {
    fn default() -> (r: Typedef)
        ensures
            r.general.is_default(),
            r.swift_wrapper is None,
    {
        Typedef { general: General::default(), swift_wrapper: None }
    }
}

impl Record for Typedef {
    open spec fn decodes_to(n: Node, v: Typedef) -> bool {
        &&& General::decodes_to(n, v.general)
        &&& opt_named::<SwiftWrapper>(field(n, "SwiftWrapper"@)) == Some(v.swift_wrapper)
    }

    fn decode(n: &Node) -> (r: Result<Typedef, Error>) {
        let general = General::decode(n)?;
        let swift_wrapper = n.opt_named_at::<SwiftWrapper>("SwiftWrapper")?;
        Ok(Typedef { general, swift_wrapper })
    }
}

/// Attributes of a global variable.
#[derive(Clone, Debug, PartialEq)]
pub struct Global {
    pub general: General,
    pub nullability: Option<Nullability>,
    pub type_: Option<Type>,
}

impl Default for Global {
    fn default() -> (r: Global)
        ensures
            r.general.is_default(),
            r.nullability is None,
            r.type_ is None,
    {
        Global { general: General::default(), nullability: None, type_: None }
    }
}

impl Record for Global {
    open spec fn decodes_to(n: Node, v: Global) -> bool {
        &&& General::decodes_to(n, v.general)
        &&& opt_named::<Nullability>(field(n, "Nullability"@)) == Some(v.nullability)
        &&& opt_text(field(n, "Type"@)) == Some(v.type_)
    }

    fn decode(n: &Node) -> (r: Result<Global, Error>) {
        let general = General::decode(n)?;
        let nullability = n.opt_named_at::<Nullability>("Nullability")?;
        let type_ = n.opt_text_at("Type")?;
        Ok(Global { general, nullability, type_ })
    }
}

/// Enum cases.
#[derive(Clone, Debug, PartialEq)]
pub struct Enumerator {
    pub general: General,
}

impl Default for Enumerator {
    fn default() -> (r: Enumerator)
        ensures
            r.general.is_default(),
    {
        Enumerator { general: General::default() }
    }
}

impl Record for Enumerator {
    open spec fn decodes_to(n: Node, v: Enumerator) -> bool {
        General::decodes_to(n, v.general)
    }

    fn decode(n: &Node) -> (r: Result<Enumerator, Error>) {
        let general = General::decode(n)?;
        Ok(Enumerator { general })
    }
}

/// Attributes of a C function.
#[derive(Clone, Debug, PartialEq)]
pub struct Function {
    pub general: General,
    pub nullability_of_ret: Option<Nullability>,
    pub result_type: Option<Type>,
    pub parameters: KeyedMap<Position, Parameter>,
}

impl Default for Function {
    fn default() -> (r: Function)
        ensures
            r.general.is_default(),
            r.nullability_of_ret is None,
            r.result_type is None,
            r.parameters@.len() == 0,
    {
        Function { general: General::default(), nullability_of_ret: None, result_type: None, parameters: Vec::new() }
    }
}

impl Record for Function {
    open spec fn decodes_to(n: Node, v: Function) -> bool {
        &&& General::decodes_to(n, v.general)
        &&& opt_named::<Nullability>(field(n, "NullabilityOfRet"@)) == Some(v.nullability_of_ret)
        &&& opt_text(field(n, "ResultType"@)) == Some(v.result_type)
        &&& keyed_field::<Position, Parameter>(n, "Parameters"@, v.parameters@)
    }

    fn decode(n: &Node) -> (r: Result<Function, Error>) {
        let general = General::decode(n)?;
        let nullability_of_ret = n.opt_named_at::<Nullability>("NullabilityOfRet")?;
        let result_type = n.opt_text_at("ResultType")?;
        let parameters = keyed_at::<Position, Parameter>(n, "Parameters")?;
        Ok(Function { general, nullability_of_ret, result_type, parameters })
    }
}

} // verus!
