//! A few API notes files from LLVM's test suite (clang/test/APINotes),
//! decoded and compared with the values they describe.

use apinotes::{
    ApiNotes, Class, Data, Function, General, Global, Kind, Method, MethodKey, Nullability,
    Parameter, Property, PropertyKey, Protocol, Tag, Version,
};

fn method_key(selector: &str, kind: Kind) -> MethodKey {
    MethodKey {
        selector: selector.into(),
        kind,
    }
}

fn property_key(name: &str, kind: Kind) -> PropertyKey {
    PropertyKey {
        name: name.into(),
        kind: Some(kind),
    }
}

fn default<T: Default>() -> T {
    Default::default()
}

fn assert_eq_to_text(expected: ApiNotes, text: &str) {
    let actual: ApiNotes = text.parse().expect("ApiNotes::from_str");
    assert_eq!(expected.name, actual.name);
    assert_eq!(expected.swift_versions, actual.swift_versions);
    assert_eq!(expected.data.classes, actual.data.classes);
    assert_eq!(expected.data.protocols, actual.data.protocols);
    assert_eq!(expected.data.tags, actual.data.tags);
    assert_eq!(expected.data.typedefs, actual.data.typedefs);
    assert_eq!(expected.data.globals, actual.data.globals);
    assert_eq!(expected.data.enumerators, actual.data.enumerators);
    assert_eq!(expected.data.functions, actual.data.functions);
    assert_eq!(expected, actual);
}

const SIMPLE: &str = r#"
Name: SimpleKit
Classes:
  - Name: I
    Properties:
      - Name: nonnullProperty
        PropertyKind: Class
        Nullability: N
      - Name: nonnullNewProperty
        PropertyKind: Class
        Nullability: Nonnull
      - Name: optionalProperty
        PropertyKind: Class
        Nullability: O
      - Name: optionalNewProperty
        PropertyKind: Class
        Nullability: Optional
      - Name: unspecifiedProperty
        PropertyKind: Instance
        Nullability: U
      - Name: unspecifiedNewProperty
        PropertyKind: Instance
        Nullability: Unspecified
      - Name: scalarProperty
        PropertyKind: Instance
        Nullability: S
      - Name: scalarNewProperty
        PropertyKind: Instance
        Nullability: Scalar
"#;

const SIMPLE_KIT: &str = r#"
Name: SimpleKit
Tags:
- Name: RenamedAgainInAPINotesA
  SwiftName: SuccessfullyRenamedA
- Name: RenamedAgainInAPINotesB
  SwiftName: SuccessfullyRenamedB
Functions:
- Name: getCFOwnedToUnowned
  RetainCountConvention: CFReturnsNotRetained
- Name: getCFUnownedToOwned
  RetainCountConvention: CFReturnsRetained
- Name: getCFOwnedToNone
  RetainCountConvention: none
- Name: getObjCOwnedToUnowned
  RetainCountConvention: NSReturnsNotRetained
- Name: getObjCUnownedToOwned
  RetainCountConvention: NSReturnsRetained
- Name: indirectGetCFOwnedToUnowned
  Parameters:
    - Position: 0
- Name: indirectGetCFUnownedToOwned
  Parameters:
    - Position: 0
      RetainCountConvention: CFReturnsRetained
- Name: indirectGetCFOwnedToNone
  Parameters:
    - Position: 0
      RetainCountConvention: none
- Name: indirectGetCFNoneToOwned
  Parameters:
    - Position: 0
      RetainCountConvention: CFReturnsNotRetained
- Name: getCFAuditedToUnowned_DUMP
  RetainCountConvention: CFReturnsNotRetained
- Name: getCFAuditedToOwned_DUMP
  RetainCountConvention: CFReturnsRetained
- Name: getCFAuditedToNone_DUMP
  RetainCountConvention: none
Classes:
- Name: MethodTest
  Methods:
  - Selector: getOwnedToUnowned
    MethodKind: Instance
    RetainCountConvention: NSReturnsNotRetained
  - Selector: getUnownedToOwned
    MethodKind: Instance
    RetainCountConvention: NSReturnsRetained
"#;

const SOME_KIT: &str = r#"
---
Name: SomeKit
Classes:
  - Name: A
    Methods:
      - Selector:        "transform:"
        MethodKind:      Instance
        Availability:    none
        AvailabilityMsg: "anything but this"
      - Selector: "transform:integer:"
        MethodKind:      Instance
        NullabilityOfRet: N
        Nullability:      [ N, S ]
      - Selector: "implicitGetOnlyInstance"
        MethodKind:      Instance
        Availability:    none
        AvailabilityMsg: "getter gone"
      - Selector: "implicitGetOnlyClass"
        MethodKind:      Class
        Availability:    none
        AvailabilityMsg: "getter gone"
      - Selector: "implicitGetSetInstance"
        MethodKind:      Instance
        Availability:    none
        AvailabilityMsg: "getter gone"
      - Selector: "implicitGetSetClass"
        MethodKind:      Class
        Availability:    none
        AvailabilityMsg: "getter gone"
      - Selector: "setImplicitGetSetInstance:"
        MethodKind:      Instance
        Availability:    none
        AvailabilityMsg: "setter gone"
      - Selector: "setImplicitGetSetClass:"
        MethodKind:      Class
        Availability:    none
        AvailabilityMsg: "setter gone"
    Properties:
      - Name: intValue
        PropertyKind:    Instance
        Availability: none
        AvailabilityMsg: "wouldn't work anyway"
      - Name: nonnullAInstance
        PropertyKind:    Instance
        Nullability:     N
      - Name: nonnullAClass
        PropertyKind:    Class
        Nullability:     N
      - Name: nonnullABoth
        Nullability:     N
  - Name: B
    Availability: none
    AvailabilityMsg: "just don't"
  - Name: C
    Methods:
      - Selector: "initWithA:"
        MethodKind: Instance
        DesignatedInit: true
  - Name: OverriddenTypes
    Methods:
      - Selector: "methodToMangle:second:"
        MethodKind: Instance
        ResultType: 'char *'
        Parameters:
          - Position: 0
            Type: 'SOMEKIT_DOUBLE *'
          - Position: 1
            Type: 'float *'
    Properties:
      - Name: intPropertyToMangle
        PropertyKind: Instance
        Type: 'double *'
Functions:
  - Name: global_int_fun
    ResultType: 'char *'
    Parameters:
      - Position: 0
        Type: 'double *'
      - Position: 1
        Type: 'float *'
Globals:
  - Name: global_int_ptr
    Type: 'double (*)(int, int)'
SwiftVersions:
  - Version: 3.0
    Classes:
      - Name: A
        Methods:
          - Selector: "transform:integer:"
            MethodKind:      Instance
            NullabilityOfRet: O
            Nullability:      [ O, S ]
        Properties:
          - Name: explicitNonnullInstance
            PropertyKind:    Instance
            Nullability:     O
          - Name: explicitNullableInstance
            PropertyKind:    Instance
            Nullability:     N
"#;

const SOME_KIT_PRIVATE: &str = r#"
Name: SomeKit
Classes:
  - Name: A
    Methods:
      - Selector: "privateTransform:input:"
        MethodKind:      Instance
        NullabilityOfRet: N
        Nullability:      [ N, S ]
    Properties:
      - Name: internalProperty
        Nullability: N
Protocols:
  - Name: InternalProtocol
    Availability: none
    AvailabilityMsg: "not for you"
"#;

#[test]
fn simple() {
    let properties: Vec<(PropertyKey, Property)> = vec![
        (
            property_key("nonnullProperty", Kind::Class),
            Property {
                nullability: Some(Nullability::Nonnull),
                ..default()
            },
        ),
        (
            property_key("nonnullNewProperty", Kind::Class),
            Property {
                nullability: Some(Nullability::Nonnull),
                ..default()
            },
        ),
        (
            property_key("optionalProperty", Kind::Class),
            Property {
                nullability: Some(Nullability::Optional),
                ..default()
            },
        ),
        (
            property_key("optionalNewProperty", Kind::Class),
            Property {
                nullability: Some(Nullability::Optional),
                ..default()
            },
        ),
        (
            property_key("unspecifiedProperty", Kind::Instance),
            Property {
                nullability: Some(Nullability::Unspecified),
                ..default()
            },
        ),
        (
            property_key("unspecifiedNewProperty", Kind::Instance),
            Property {
                nullability: Some(Nullability::Unspecified),
                ..default()
            },
        ),
        (
            property_key("scalarProperty", Kind::Instance),
            Property {
                nullability: Some(Nullability::Scalar),
                ..default()
            },
        ),
        (
            property_key("scalarNewProperty", Kind::Instance),
            Property {
                nullability: Some(Nullability::Scalar),
                ..default()
            },
        ),
    ];
    let expected = ApiNotes {
        name: "SimpleKit".into(),
        swift_versions: default(),
        data: Data {
            classes: vec![(
                "I".into(),
                Class {
                    properties,
                    ..default()
                },
            )],
            ..default()
        },
    };

    assert_eq_to_text(expected, SIMPLE);
}

#[test]
fn simple_kit() {
    let expected = ApiNotes {
        name: "SimpleKit".into(),
        data: Data {
            classes: vec![(
                "MethodTest".into(),
                Class {
                    methods: vec![
                        (
                            method_key("getOwnedToUnowned", Kind::Instance),
                            Method { ..default() },
                        ),
                        (
                            method_key("getUnownedToOwned", Kind::Instance),
                            Method { ..default() },
                        ),
                    ],
                    ..default()
                },
            )],
            tags: vec![
                (
                    "RenamedAgainInAPINotesA".into(),
                    Tag {
                        general: General {
                            swift_name: Some("SuccessfullyRenamedA".into()),
                            ..default()
                        },
                        ..default()
                    },
                ),
                (
                    "RenamedAgainInAPINotesB".into(),
                    Tag {
                        general: General {
                            swift_name: Some("SuccessfullyRenamedB".into()),
                            ..default()
                        },
                        ..default()
                    },
                ),
            ],
            functions: vec![
                ("getCFOwnedToUnowned".into(), Function { ..default() }),
                ("getCFUnownedToOwned".into(), Function { ..default() }),
                ("getCFOwnedToNone".into(), Function { ..default() }),
                ("getObjCOwnedToUnowned".into(), Function { ..default() }),
                ("getObjCUnownedToOwned".into(), Function { ..default() }),
                (
                    "indirectGetCFOwnedToUnowned".into(),
                    Function {
                        parameters: vec![(0, Parameter { ..default() })],
                        ..default()
                    },
                ),
                (
                    "indirectGetCFUnownedToOwned".into(),
                    Function {
                        parameters: vec![(0, Parameter { ..default() })],
                        ..default()
                    },
                ),
                (
                    "indirectGetCFOwnedToNone".into(),
                    Function {
                        parameters: vec![(0, Parameter { ..default() })],
                        ..default()
                    },
                ),
                (
                    "indirectGetCFNoneToOwned".into(),
                    Function {
                        parameters: vec![(0, Parameter { ..default() })],
                        ..default()
                    },
                ),
                (
                    "getCFAuditedToUnowned_DUMP".into(),
                    Function { ..default() },
                ),
                ("getCFAuditedToOwned_DUMP".into(), Function { ..default() }),
                ("getCFAuditedToNone_DUMP".into(), Function { ..default() }),
            ],
            ..default()
        },
        ..default()
    };

    assert_eq_to_text(expected, SIMPLE_KIT);
}

fn unavailable(message: &str) -> General {
    General {
        availability: Some("none".into()),
        availability_msg: Some(message.into()),
        ..default()
    }
}

#[test]
fn some_kit() {
    let expected = ApiNotes {
        name: "SomeKit".into(),
        data: Data {
            classes: vec![
                (
                    "A".into(),
                    Class {
                        methods: vec![
                            (
                                method_key("transform:", Kind::Instance),
                                Method {
                                    general: unavailable("anything but this"),
                                    ..default()
                                },
                            ),
                            (
                                method_key("transform:integer:", Kind::Instance),
                                Method {
                                    nullability_of_ret: Some(Nullability::Nonnull),
                                    nullability: Some(vec![
                                        Nullability::Nonnull,
                                        Nullability::Scalar,
                                    ]),
                                    ..default()
                                },
                            ),
                            (
                                method_key("implicitGetOnlyInstance", Kind::Instance),
                                Method {
                                    general: unavailable("getter gone"),
                                    ..default()
                                },
                            ),
                            (
                                method_key("implicitGetOnlyClass", Kind::Class),
                                Method {
                                    general: unavailable("getter gone"),
                                    ..default()
                                },
                            ),
                            (
                                method_key("implicitGetSetInstance", Kind::Instance),
                                Method {
                                    general: unavailable("getter gone"),
                                    ..default()
                                },
                            ),
                            (
                                method_key("implicitGetSetClass", Kind::Class),
                                Method {
                                    general: unavailable("getter gone"),
                                    ..default()
                                },
                            ),
                            (
                                method_key("setImplicitGetSetInstance:", Kind::Instance),
                                Method {
                                    general: unavailable("setter gone"),
                                    ..default()
                                },
                            ),
                            (
                                method_key("setImplicitGetSetClass:", Kind::Class),
                                Method {
                                    general: unavailable("setter gone"),
                                    ..default()
                                },
                            ),
                        ],
                        properties: vec![
                            (
                                property_key("intValue", Kind::Instance),
                                Property {
                                    general: unavailable("wouldn't work anyway"),
                                    ..default()
                                },
                            ),
                            (
                                property_key("nonnullAInstance", Kind::Instance),
                                Property {
                                    nullability: Some(Nullability::Nonnull),
                                    ..default()
                                },
                            ),
                            (
                                property_key("nonnullAClass", Kind::Class),
                                Property {
                                    nullability: Some(Nullability::Nonnull),
                                    ..default()
                                },
                            ),
                            (
                                PropertyKey {
                                    name: "nonnullABoth".into(),
                                    kind: None,
                                },
                                Property {
                                    nullability: Some(Nullability::Nonnull),
                                    ..default()
                                },
                            ),
                        ],
                        ..default()
                    },
                ),
                (
                    "B".into(),
                    Class {
                        general: unavailable("just don't"),
                        ..default()
                    },
                ),
                (
                    "C".into(),
                    Class {
                        methods: vec![(
                            method_key("initWithA:", Kind::Instance),
                            Method {
                                designated_init: true,
                                ..default()
                            },
                        )],
                        ..default()
                    },
                ),
                (
                    "OverriddenTypes".into(),
                    Class {
                        methods: vec![(
                            method_key("methodToMangle:second:", Kind::Instance),
                            Method {
                                result_type: Some("char *".into()),
                                parameters: vec![
                                    (
                                        0,
                                        Parameter {
                                            type_: Some("SOMEKIT_DOUBLE *".into()),
                                            ..default()
                                        },
                                    ),
                                    (
                                        1,
                                        Parameter {
                                            type_: Some("float *".into()),
                                            ..default()
                                        },
                                    ),
                                ],
                                ..default()
                            },
                        )],
                        properties: vec![(
                            property_key("intPropertyToMangle", Kind::Instance),
                            Property {
                                type_: Some("double *".into()),
                                ..default()
                            },
                        )],
                        ..default()
                    },
                ),
            ],
            functions: vec![(
                "global_int_fun".into(),
                Function {
                    result_type: Some("char *".into()),
                    parameters: vec![
                        (
                            0,
                            Parameter {
                                type_: Some("double *".into()),
                                ..default()
                            },
                        ),
                        (
                            1,
                            Parameter {
                                type_: Some("float *".into()),
                                ..default()
                            },
                        ),
                    ],
                    ..default()
                },
            )],
            globals: vec![(
                "global_int_ptr".into(),
                Global {
                    type_: Some("double (*)(int, int)".into()),
                    ..default()
                },
            )],
            ..default()
        },
        swift_versions: vec![(
            Version::V3,
            Data {
                classes: vec![(
                    "A".into(),
                    Class {
                        methods: vec![(
                            method_key("transform:integer:", Kind::Instance),
                            Method {
                                nullability_of_ret: Some(Nullability::Optional),
                                nullability: Some(vec![Nullability::Optional, Nullability::Scalar]),
                                ..default()
                            },
                        )],
                        properties: vec![
                            (
                                property_key("explicitNonnullInstance", Kind::Instance),
                                Property {
                                    nullability: Some(Nullability::Optional),
                                    ..default()
                                },
                            ),
                            (
                                property_key("explicitNullableInstance", Kind::Instance),
                                Property {
                                    nullability: Some(Nullability::Nonnull),
                                    ..default()
                                },
                            ),
                        ],
                        ..default()
                    },
                )],
                ..default()
            },
        )],
    };

    assert_eq_to_text(expected, SOME_KIT);
}

#[test]
fn some_kit_private() {
    let expected = ApiNotes {
        name: "SomeKit".into(),
        data: Data {
            classes: vec![(
                "A".into(),
                Class {
                    methods: vec![(
                        method_key("privateTransform:input:", Kind::Instance),
                        Method {
                            nullability_of_ret: Some(Nullability::Nonnull),
                            nullability: Some(vec![Nullability::Nonnull, Nullability::Scalar]),
                            ..default()
                        },
                    )],
                    properties: vec![(
                        PropertyKey {
                            name: "internalProperty".into(),
                            kind: None,
                        },
                        Property {
                            nullability: Some(Nullability::Nonnull),
                            ..default()
                        },
                    )],
                    ..default()
                },
            )],
            protocols: vec![(
                "InternalProtocol".into(),
                Protocol {
                    general: unavailable("not for you"),
                    ..default()
                },
            )],
            ..default()
        },
        ..default()
    };

    assert_eq_to_text(expected, SOME_KIT_PRIVATE);
}
