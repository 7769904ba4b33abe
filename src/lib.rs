//! Decoding of clang API notes, the `.apinotes` overlay files that attach
//! nullability, renaming and availability metadata to the symbols of a
//! C or Objective-C interface.
//!
//! A YAML document is read into a [`Node`] tree; every collection of the
//! schema is then decoded from a sequence of flat records into a [`KeyedMap`]
//! whose keys are proved pairwise distinct.

mod error;
mod general;
mod keyed;
mod laws;
mod method_and_property;
mod mid_level;
mod node;
mod top_level;
mod yaml;

pub use self::error::{Error, ErrorKind};
pub use self::general::{Availability, General, Nullability, Type};
pub use self::keyed::{decode_keyed, KeyShape, KeyedMap, Record};
pub use self::laws::{
    absent_and_empty_collections_agree, absent_attributes_read_as_defaults, bare_record_decodes_to_defaults,
    duplicate_keys_never_decode, property_without_kind_is_distinct, versions_normalize,
};
pub use self::method_and_property::{Kind, Method, MethodKey, Parameter, Position, Property, PropertyKey};
pub use self::mid_level::{Class, EnumKind, Enumerator, Function, Global, Protocol, SwiftWrapper, Tag, Typedef};
pub use self::node::Node;
pub use self::top_level::{ApiNotes, Data, Version};
pub use self::yaml::yaml_tree;

use vstd::prelude::*;

verus! {

/// The file extension (without the leading dot) that API notes use.
pub const EXTENSION: &'static str = "apinotes";

} // verus!
