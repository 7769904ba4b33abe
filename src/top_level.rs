use vstd::prelude::*;

use crate::error::{Error, ErrorKind};
use crate::keyed::{keyed_at, keyed_field, KeyShape, KeyedMap, Record};
use crate::mid_level::{Class, Enumerator, Function, Global, Protocol, Tag, Typedef};
use crate::node::{field, req_text, text_is, Node};
use crate::yaml::{parse_yaml, yaml_tree};

verus! {

/// The contents of one API notes file.
#[derive(Clone, Debug, PartialEq)]
pub struct ApiNotes {
    pub name: String,
    /// Overrides that apply to one Swift version each.
    pub swift_versions: KeyedMap<Version, Data>,
    /// What applies to every Swift version.
    pub data: Data,
}

/// A supported Swift version.
#[allow(non_camel_case_types)]
#[derive(Clone, Copy, Debug, PartialEq, Eq, Structural, Hash)]
pub enum Version {
    V3,
    V4,
    V4_2,
    V5,
}

/// The version that a number, as YAML prints it, denotes.
pub open spec fn version_of_text(t: Seq<char>) -> Option<Version> {
    if t == "3"@ || t == "3.0"@ {
        Some(Version::V3)
    } else if t == "4"@ || t == "4.0"@ {
        Some(Version::V4)
    } else if t == "4.2"@ {
        Some(Version::V4_2)
    } else if t == "5"@ || t == "5.0"@ {
        Some(Version::V5)
    } else {
        None
    }
}

/// Reads the version that a number's text denotes.
pub fn version_from_text(t: &String) -> (r: Option<Version>)
    ensures
        r == version_of_text(t@),
{
    if text_is(t, "3") || text_is(t, "3.0") {
        Some(Version::V3)
    } else if text_is(t, "4") || text_is(t, "4.0") {
        Some(Version::V4)
    } else if text_is(t, "4.2") {
        Some(Version::V4_2)
    } else if text_is(t, "5") || text_is(t, "5.0") {
        Some(Version::V5)
    } else {
        None
    }
}

/// A record keyed by its `Version` number.
impl KeyShape for Version {
    open spec fn key_of(n: Node) -> Option<Version> {
        match field(n, "Version"@) {
            Some(Node::Number(t)) => version_of_text(t@),
            _ => None,
        }
    }

    open spec fn same_key(self, other: Version) -> bool {
        self == other
    }

    open spec fn expected_text() -> Seq<char> {
        "a sequence of maps, each of which contains a `Version` attribute"@
    }

    open spec fn key_error(n: Node, e: Error) -> bool {
        match field(n, "Version"@) {
            None => e.kind matches ErrorKind::MissingField(m) && m@ == "Version"@,
            Some(Node::Number(t)) => version_of_text(t@) is None ==> (
            e.kind matches ErrorKind::UnsupportedVersion(m) && m@ == t@),
            _ => true,
        }
    }

    fn expected() -> (r: &'static str) {
        "a sequence of maps, each of which contains a `Version` attribute"
    }

    fn extract(n: &Node) -> (r: Result<Version, Error>) {
        match n.get("Version") {
            Some(Node::Number(t)) => match version_from_text(t) {
                Some(v) => Ok(v),
                None => Err(Error::unsupported_version(t)),
            },
            Some(_) => Err(Error::invalid_type("a version number")),
            None => Err(Error::missing_field("Version")),
        }
    }

    fn same(&self, other: &Version) -> (r: bool) {
        *self == *other
    }
}

/// The collections of one API notes file, or of one of its version overrides.
#[derive(Clone, Debug, PartialEq)]
pub struct Data {
    pub classes: KeyedMap<String, Class>,
    pub protocols: KeyedMap<String, Protocol>,
    pub tags: KeyedMap<String, Tag>,
    pub typedefs: KeyedMap<String, Typedef>,
    pub globals: KeyedMap<String, Global>,
    pub enumerators: KeyedMap<String, Enumerator>,
    pub functions: KeyedMap<String, Function>,
}

impl Data {
    /// Whether every collection is empty.
    pub open spec fn is_empty(self) -> bool {
        &&& self.classes@.len() == 0
        &&& self.protocols@.len() == 0
        &&& self.tags@.len() == 0
        &&& self.typedefs@.len() == 0
        &&& self.globals@.len() == 0
        &&& self.enumerators@.len() == 0
        &&& self.functions@.len() == 0
    }
}

impl Default for Data {
    fn default() -> (r: Data)
        ensures
            r.is_empty(),
    {
        Data {
            classes: Vec::new(),
            protocols: Vec::new(),
            tags: Vec::new(),
            typedefs: Vec::new(),
            globals: Vec::new(),
            enumerators: Vec::new(),
            functions: Vec::new(),
        }
    }
}

impl Record for Data {
    open spec fn decodes_to(n: Node, v: Data) -> bool {
        &&& n is Mapping
        &&& keyed_field::<String, Class>(n, "Classes"@, v.classes@)
        &&& keyed_field::<String, Protocol>(n, "Protocols"@, v.protocols@)
        &&& keyed_field::<String, Tag>(n, "Tags"@, v.tags@)
        &&& keyed_field::<String, Typedef>(n, "Typedefs"@, v.typedefs@)
        &&& keyed_field::<String, Global>(n, "Globals"@, v.globals@)
        &&& keyed_field::<String, Enumerator>(n, "Enumerators"@, v.enumerators@)
        &&& keyed_field::<String, Function>(n, "Functions"@, v.functions@)
    }

    fn decode(n: &Node) -> (r: Result<Data, Error>) {
        if !n.is_mapping() {
            return Err(Error::invalid_type("a mapping"));
        }
        let classes = keyed_at::<String, Class>(n, "Classes")?;
        let protocols = keyed_at::<String, Protocol>(n, "Protocols")?;
        let tags = keyed_at::<String, Tag>(n, "Tags")?;
        let typedefs = keyed_at::<String, Typedef>(n, "Typedefs")?;
        let globals = keyed_at::<String, Global>(n, "Globals")?;
        let enumerators = keyed_at::<String, Enumerator>(n, "Enumerators")?;
        let functions = keyed_at::<String, Function>(n, "Functions")?;
        Ok(Data { classes, protocols, tags, typedefs, globals, enumerators, functions })
    }
}

impl Default for ApiNotes {
    fn default() -> (r: ApiNotes)
        ensures
            r.name@.len() == 0,
            r.swift_versions@.len() == 0,
            r.data.is_empty(),
    {
        ApiNotes { name: String::new(), swift_versions: Vec::new(), data: Data::default() }
    }
}

impl Record for ApiNotes {
    /// The root record carries `Name`, the optional `SwiftVersions`, and the
    /// collections of `Data` side by side.
    open spec fn decodes_to(n: Node, v: ApiNotes) -> bool {
        &&& req_text(field(n, "Name"@)) == Some(v.name)
        &&& keyed_field::<Version, Data>(n, "SwiftVersions"@, v.swift_versions@)
        &&& Data::decodes_to(n, v.data)
    }

    fn decode(n: &Node) -> (r: Result<ApiNotes, Error>) {
        let name = n.req_text_at("Name")?;
        let swift_versions = keyed_at::<Version, Data>(n, "SwiftVersions")?;
        let data = Data::decode(n)?;
        Ok(ApiNotes { name, swift_versions, data })
    }
}

impl ApiNotes {
    /// Decodes the text of an API notes file.
    pub fn from_yaml_str(s: &str) -> (r: Result<ApiNotes, Error>)
        ensures
            match yaml_tree(s@) {
                None => r matches Err(e) && e.kind is Syntax,
                Some(n) => match r {
                    Ok(v) => ApiNotes::decodes_to(n, v),
                    Err(_) => forall|v: ApiNotes| !ApiNotes::decodes_to(n, v),
                },
            },
    {
        match parse_yaml(s) {
            Ok(n) => ApiNotes::decode(&n),
            Err(m) => Err(Error::new(ErrorKind::Syntax(m))),
        }
    }
}

impl std::str::FromStr for ApiNotes {
    type Err = Error;

    /// Decodes the text of an API notes file, as `ApiNotes::from_yaml_str` does.
    fn from_str(s: &str) -> (r: Result<ApiNotes, Error>)
        ensures
            match yaml_tree(s@) {
                None => r matches Err(e) && e.kind is Syntax,
                Some(n) => match r {
                    Ok(v) => ApiNotes::decodes_to(n, v),
                    Err(_) => forall|v: ApiNotes| !ApiNotes::decodes_to(n, v),
                },
            },
    {
        ApiNotes::from_yaml_str(s)
    }
}

} // verus!
