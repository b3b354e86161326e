use enum_derived::context::Context;
use enum_derived::program::{
    EntityFields, EntityGenerator, EntityName, FieldGenerator, NamedGenerator, PrimitiveType,
    Weight,
};
use enum_derived::sampler::Rand;
use enum_derived::schema::{
    Annotation, AnnotationArg, FieldList, FieldSchema, NamedField, SchemaError, TypeData,
    TypeSchema, VariantSchema,
};
use enum_derived::value::{NamedValue, Value, ValueFields};
use enum_derived::{
    assemble_entity, generate_primitive, resolve_weights, GenerationError, Registry, WeightError,
};
use rand::rngs::StdRng;
use rand::SeedableRng;
use std::collections::HashSet;

struct Lab {
    flag: bool,
    heavy: i64,
}

impl Context for Lab {
    fn custom_field(name: &str, _rng: &mut StdRng) -> Value {
        match name {
            "simple_rand" => Value::U8(0),
            "always_false" => Value::Bool(false),
            other => panic!("no function {other}"),
        }
    }

    fn custom_member(&self, name: &str, _rng: &mut StdRng) -> Value {
        match name {
            "is_rand" => Value::Bool(self.flag),
            other => panic!("no method {other}"),
        }
    }

    fn custom_variant(&self, name: &str, rng: &mut StdRng) -> Value {
        match name {
            "make_odd" => {
                let byte: u8 = <u8 as Rand<Lab>>::rand(self, rng);
                Value::Entity {
                    entity: entity("Number", Some("Odd")),
                    fields: ValueFields::Positional(vec![Value::U8(byte | 1)]),
                }
            }
            other => panic!("no function {other}"),
        }
    }

    fn weight(&self, expr: &str) -> i64 {
        match expr {
            "HEAVY" => self.heavy,
            other => panic!("no weight {other}"),
        }
    }
}

fn lab() -> Lab {
    Lab { flag: true, heavy: 3 }
}

fn ident(name: &str, arg: &str) -> Annotation {
    Annotation { name: Some(name.to_string()), arg: AnnotationArg::Ident(arg.to_string()) }
}

fn integer(name: &str, n: i64) -> Annotation {
    Annotation { name: Some(name.to_string()), arg: AnnotationArg::Integer(n) }
}

fn field(ty: &str, attrs: Vec<Annotation>) -> FieldSchema {
    FieldSchema { ty: ty.to_string(), attrs }
}

fn entity(ty: &str, variant: Option<&str>) -> EntityName {
    EntityName { ty: ty.to_string(), variant: variant.map(|v| v.to_string()) }
}

fn unit(ty: &str, variant: &str) -> Value {
    Value::Entity { entity: entity(ty, Some(variant)), fields: ValueFields::Unit }
}

fn strukt(name: &str, fields: FieldList) -> TypeSchema {
    TypeSchema {
        name: name.to_string(),
        attrs: vec![ident("usr", "Lab")],
        data: TypeData::Struct(fields),
    }
}

fn enumeration(name: &str, variants: Vec<VariantSchema>) -> TypeSchema {
    TypeSchema {
        name: name.to_string(),
        attrs: vec![ident("usr", "Lab")],
        data: TypeData::Enum(variants),
    }
}

fn unit_variant(name: &str, attrs: Vec<Annotation>) -> VariantSchema {
    VariantSchema { name: name.to_string(), fields: FieldList::Unit, attrs }
}

fn registry_of(schemas: Vec<TypeSchema>) -> Registry {
    let mut registry = Registry::new();
    for schema in &schemas {
        registry.register(schema).unwrap();
    }
    registry
}

fn positional(value: Value) -> Vec<Value> {
    match value {
        Value::Entity { fields: ValueFields::Positional(values), .. } => values,
        other => panic!("no positional entity: {other:?}"),
    }
}

#[test]
fn byte_covers_its_range_beside_a_constant_field() {
    let registry = registry_of(vec![strukt(
        "Sample",
        FieldList::Positional(vec![
            field("u8", vec![]),
            field("bool", vec![ident("custom_rand", "always_false")]),
        ]),
    )]);
    let mut rng = StdRng::seed_from_u64(11);
    let mut seen = HashSet::new();
    for _ in 0..10_000 {
        let values = positional(registry.generate("Sample", &lab(), &mut rng).unwrap());
        assert_eq!(values.len(), 2);
        assert_eq!(values[1], Value::Bool(false));
        match values[0] {
            Value::U8(byte) => {
                seen.insert(byte);
            }
            ref other => panic!("no byte: {other:?}"),
        }
    }
    assert_eq!(seen.len(), u8::MAX as usize + 1);
}

#[test]
fn literal_function_wins_over_the_member() {
    let registry = registry_of(vec![strukt(
        "Both",
        FieldList::Positional(vec![field(
            "bool",
            vec![ident("custom_rand_member", "is_rand"), ident("custom_rand", "always_false")],
        )]),
    )]);
    let mut rng = StdRng::seed_from_u64(3);
    for flag in [true, false] {
        let usr = Lab { flag, heavy: 1 };
        for _ in 0..50 {
            let values = positional(registry.generate("Both", &usr, &mut rng).unwrap());
            assert_eq!(values, vec![Value::Bool(false)]);
        }
    }
}

#[test]
fn member_follows_the_context() {
    let registry = registry_of(vec![strukt(
        "Flag",
        FieldList::Positional(vec![field("bool", vec![ident("custom_rand_member", "is_rand")])]),
    )]);
    let mut rng = StdRng::seed_from_u64(3);
    for flag in [true, false] {
        let usr = Lab { flag, heavy: 1 };
        let values = positional(registry.generate("Flag", &usr, &mut rng).unwrap());
        assert_eq!(values, vec![Value::Bool(flag)]);
    }
}

#[test]
fn same_seed_gives_the_same_struct() {
    let registry = registry_of(vec![strukt(
        "Wide",
        FieldList::Positional(vec![
            field("u64", vec![]),
            field("i32", vec![]),
            field("bool", vec![]),
            field("u16", vec![]),
            field("i8", vec![]),
        ]),
    )]);
    for seed in 0..20 {
        let mut a = StdRng::seed_from_u64(seed);
        let mut b = StdRng::seed_from_u64(seed);
        let first = registry.generate("Wide", &lab(), &mut a).unwrap();
        let second = registry.generate("Wide", &lab(), &mut b).unwrap();
        assert_eq!(first, second);
    }
}

#[test]
fn fields_are_drawn_in_declaration_order() {
    let registry = registry_of(vec![strukt(
        "Ordered",
        FieldList::Positional(vec![
            field("u8", vec![]),
            field("u64", vec![]),
            field("bool", vec![]),
            field("i16", vec![]),
        ]),
    )]);
    let mut rng = StdRng::seed_from_u64(99);
    let mut same = StdRng::seed_from_u64(99);
    for _ in 0..50 {
        let values = positional(registry.generate("Ordered", &lab(), &mut rng).unwrap());
        let expected = vec![
            Value::U8(<u8 as Rand<Lab>>::rand(&lab(), &mut same)),
            Value::U64(<u64 as Rand<Lab>>::rand(&lab(), &mut same)),
            Value::Bool(<bool as Rand<Lab>>::rand(&lab(), &mut same)),
            Value::I16(<i16 as Rand<Lab>>::rand(&lab(), &mut same)),
        ];
        assert_eq!(values, expected);
    }
}

#[test]
fn every_weighted_variant_comes_out_and_no_other() {
    let registry = registry_of(vec![enumeration(
        "Dna",
        vec![
            unit_variant("A", vec![integer("weight", 4)]),
            unit_variant("C", vec![integer("weight", 0)]),
            unit_variant("G", vec![]),
            unit_variant("T", vec![integer("weight", 2)]),
        ],
    )]);
    let mut rng = StdRng::seed_from_u64(8);
    let mut seen = Vec::new();
    for _ in 0..2000 {
        let value = registry.generate("Dna", &lab(), &mut rng).unwrap();
        assert_ne!(value, unit("Dna", "C"));
        if !seen.contains(&value) {
            seen.push(value);
        }
    }
    assert_eq!(seen.len(), 3);
    assert!(seen.contains(&unit("Dna", "A")));
    assert!(seen.contains(&unit("Dna", "G")));
    assert!(seen.contains(&unit("Dna", "T")));
}

#[test]
fn variant_frequency_follows_the_weights() {
    let registry = registry_of(vec![enumeration(
        "Coin",
        vec![
            unit_variant("Heads", vec![integer("weight", 3)]),
            unit_variant("Tails", vec![integer("weight", 1)]),
        ],
    )]);
    let mut rng = StdRng::seed_from_u64(31);
    let draws = 40_000;
    let mut heads = 0u32;
    for _ in 0..draws {
        if registry.generate("Coin", &lab(), &mut rng).unwrap() == unit("Coin", "Heads") {
            heads += 1;
        }
    }
    let frequency = heads as f64 / draws as f64;
    assert!((frequency - 0.75).abs() < 0.02, "frequency {frequency}");
}

#[test]
fn same_seed_gives_the_same_variant_and_fields() {
    let registry = registry_of(vec![enumeration(
        "Shape",
        vec![
            VariantSchema {
                name: "Dot".to_string(),
                fields: FieldList::Unit,
                attrs: vec![],
            },
            VariantSchema {
                name: "Line".to_string(),
                fields: FieldList::Positional(vec![field("u32", vec![]), field("u32", vec![])]),
                attrs: vec![integer("weight", 5)],
            },
        ],
    )]);
    let mut a = StdRng::seed_from_u64(123);
    let mut b = StdRng::seed_from_u64(123);
    for _ in 0..200 {
        assert_eq!(
            registry.generate("Shape", &lab(), &mut a),
            registry.generate("Shape", &lab(), &mut b)
        );
    }
}

#[test]
fn named_fields_keep_their_identifiers() {
    let registry = registry_of(vec![strukt(
        "Point",
        FieldList::Named(vec![
            NamedField { ident: "x".to_string(), field: field("i32", vec![]) },
            NamedField {
                ident: "fixed".to_string(),
                field: field("u8", vec![ident("custom_rand", "simple_rand")]),
            },
        ]),
    )]);
    let mut rng = StdRng::seed_from_u64(17);
    let mut same = StdRng::seed_from_u64(17);
    let value = registry.generate("Point", &lab(), &mut rng).unwrap();
    let x = <i32 as Rand<Lab>>::rand(&lab(), &mut same);
    assert_eq!(
        value,
        Value::Entity {
            entity: entity("Point", None),
            fields: ValueFields::Named(vec![
                NamedValue { ident: "x".to_string(), value: Value::I32(x) },
                NamedValue { ident: "fixed".to_string(), value: Value::U8(0) },
            ]),
        }
    );
}

#[test]
fn unit_struct_is_itself() {
    let registry = registry_of(vec![strukt("Marker", FieldList::Unit)]);
    let mut rng = StdRng::seed_from_u64(1);
    assert_eq!(
        registry.generate("Marker", &lab(), &mut rng),
        Ok(Value::Entity { entity: entity("Marker", None), fields: ValueFields::Unit })
    );
}

#[test]
fn field_of_a_registered_type_runs_that_type() {
    let registry = registry_of(vec![
        enumeration(
            "Dna",
            vec![unit_variant("A", vec![integer("weight", 0)]), unit_variant("C", vec![])],
        ),
        strukt("Pair", FieldList::Positional(vec![field("Dna", vec![]), field("bool", vec![])])),
        strukt("Outer", FieldList::Positional(vec![field("Pair", vec![])])),
    ]);
    assert_eq!(registry.len(), 3);
    let mut rng = StdRng::seed_from_u64(6);
    for _ in 0..100 {
        let outer = positional(registry.generate("Outer", &lab(), &mut rng).unwrap());
        assert_eq!(outer.len(), 1);
        match &outer[0] {
            Value::Entity { entity: name, fields: ValueFields::Positional(pair) } => {
                assert_eq!(*name, entity("Pair", None));
                assert_eq!(pair.len(), 2);
                assert_eq!(pair[0], unit("Dna", "C"));
                assert!(matches!(pair[1], Value::Bool(_)));
            }
            other => panic!("no pair: {other:?}"),
        }
    }
}

#[test]
fn field_of_an_unknown_type_is_refused() {
    let mut registry = Registry::new();
    let outer = strukt("Outer", FieldList::Positional(vec![field("Inner", vec![])]));
    assert_eq!(registry.register(&outer), Err(SchemaError::MissingEntryPoint));
    assert_eq!(registry.len(), 0);
    assert!(registry.program("Outer").is_none());
    let recursive = enumeration(
        "List",
        vec![
            unit_variant("Nil", vec![]),
            VariantSchema {
                name: "Cons".to_string(),
                fields: FieldList::Named(vec![NamedField {
                    ident: "tail".to_string(),
                    field: field("List", vec![]),
                }]),
                attrs: vec![],
            },
        ],
    );
    assert_eq!(registry.register(&recursive), Err(SchemaError::MissingEntryPoint));
    registry.register(&strukt("Inner", FieldList::Unit)).unwrap();
    assert_eq!(registry.register(&outer), Ok(()));
    assert_eq!(registry.len(), 2);
}

#[test]
fn override_needs_no_entry_point() {
    let mut registry = Registry::new();
    let schema = strukt(
        "Outer",
        FieldList::Positional(vec![field("Opaque", vec![ident("custom_rand", "simple_rand")])]),
    );
    assert_eq!(registry.register(&schema), Ok(()));
    let mut rng = StdRng::seed_from_u64(1);
    assert_eq!(positional(registry.generate("Outer", &lab(), &mut rng).unwrap()), vec![Value::U8(0)]);
}

#[test]
fn schema_that_does_not_compile_is_not_registered() {
    let mut registry = Registry::new();
    let union = TypeSchema {
        name: "Overlay".to_string(),
        attrs: vec![ident("usr", "Lab")],
        data: TypeData::Union,
    };
    assert_eq!(registry.register(&union), Err(SchemaError::UnionNotSupported));
    assert_eq!(registry.register(&enumeration("Never", vec![])), Err(SchemaError::EmptyEnum));
    assert_eq!(registry.len(), 0);
    let mut rng = StdRng::seed_from_u64(1);
    assert_eq!(
        registry.generate("Overlay", &lab(), &mut rng),
        Err(GenerationError::UnknownType)
    );
    assert_eq!(registry.generate("Never", &lab(), &mut rng), Err(GenerationError::UnknownType));
}

#[test]
fn registered_program_is_found_by_name() {
    let mut registry = registry_of(vec![strukt("Marker", FieldList::Unit)]);
    assert_eq!(registry.program("Marker").unwrap().ty, "Marker");
    assert_eq!(registry.program("Marker").unwrap().context, "Lab");
    assert!(registry.program("Other").is_none());
    registry
        .register(&strukt("Marker", FieldList::Positional(vec![field("bool", vec![])])))
        .unwrap();
    assert_eq!(registry.len(), 2);
    let mut rng = StdRng::seed_from_u64(1);
    let values = positional(registry.generate("Marker", &lab(), &mut rng).unwrap());
    assert_eq!(values.len(), 1);
}

#[test]
fn weights_without_a_distribution_fail_when_generating() {
    let registry = registry_of(vec![
        enumeration(
            "Zero",
            vec![
                unit_variant("A", vec![integer("weight", 0)]),
                unit_variant("B", vec![integer("weight", 0)]),
            ],
        ),
        enumeration(
            "Negative",
            vec![unit_variant("A", vec![]), unit_variant("B", vec![integer("weight", -1)])],
        ),
        enumeration(
            "Huge",
            vec![
                unit_variant("A", vec![integer("weight", i64::MAX)]),
                unit_variant("B", vec![]),
            ],
        ),
        strukt("Holder", FieldList::Positional(vec![field("bool", vec![]), field("Zero", vec![])])),
    ]);
    let mut rng = StdRng::seed_from_u64(4);
    assert_eq!(
        registry.generate("Zero", &lab(), &mut rng),
        Err(GenerationError::Weights(WeightError::AllWeightsZero))
    );
    assert_eq!(
        registry.generate("Negative", &lab(), &mut rng),
        Err(GenerationError::Weights(WeightError::InvalidWeight))
    );
    assert_eq!(
        registry.generate("Huge", &lab(), &mut rng),
        Err(GenerationError::Weights(WeightError::InvalidWeight))
    );
    assert_eq!(
        registry.generate("Holder", &lab(), &mut rng),
        Err(GenerationError::Weights(WeightError::AllWeightsZero))
    );
}

#[test]
fn symbolic_weight_is_what_the_context_makes_of_it() {
    let registry = registry_of(vec![enumeration(
        "Load",
        vec![unit_variant("Light", vec![]), unit_variant("Heavy", vec![ident("weight", "HEAVY")])],
    )]);
    let mut rng = StdRng::seed_from_u64(12);
    let none = Lab { flag: true, heavy: 0 };
    for _ in 0..200 {
        assert_eq!(registry.generate("Load", &none, &mut rng), Ok(unit("Load", "Light")));
    }
    let broken = Lab { flag: true, heavy: -5 };
    assert_eq!(
        registry.generate("Load", &broken, &mut rng),
        Err(GenerationError::Weights(WeightError::InvalidWeight))
    );
    let mut heavy = 0;
    for _ in 0..2000 {
        if registry.generate("Load", &lab(), &mut rng) == Ok(unit("Load", "Heavy")) {
            heavy += 1;
        }
    }
    assert!(heavy > 1300 && heavy < 1700, "heavy {heavy}");
}

#[test]
fn resolved_weights_keep_the_numbers() {
    let weights = vec![
        Weight::Literal(4),
        Weight::Symbolic("HEAVY".to_string()),
        Weight::Literal(-7),
        Weight::Literal(0),
    ];
    let usr = Lab { flag: false, heavy: 21 };
    assert_eq!(resolve_weights(&weights, &usr), vec![4, 21, -7, 0]);
    assert_eq!(resolve_weights(&Vec::new(), &usr), Vec::<i64>::new());
}

#[test]
fn custom_variant_replaces_the_fields() {
    let registry = registry_of(vec![enumeration(
        "Number",
        vec![VariantSchema {
            name: "Odd".to_string(),
            fields: FieldList::Positional(vec![field("u8", vec![])]),
            attrs: vec![ident("custom_rand", "make_odd")],
        }],
    )]);
    let mut rng = StdRng::seed_from_u64(2);
    for _ in 0..200 {
        let values = positional(registry.generate("Number", &lab(), &mut rng).unwrap());
        match values[0] {
            Value::U8(byte) => assert_eq!(byte % 2, 1),
            ref other => panic!("no byte: {other:?}"),
        }
    }
}

#[test]
fn primitive_has_the_type_asked_for() {
    let mut rng = StdRng::seed_from_u64(10);
    let usr = lab();
    assert!(matches!(generate_primitive(PrimitiveType::Bool, &usr, &mut rng), Value::Bool(_)));
    assert!(matches!(generate_primitive(PrimitiveType::U8, &usr, &mut rng), Value::U8(_)));
    assert!(matches!(generate_primitive(PrimitiveType::U16, &usr, &mut rng), Value::U16(_)));
    assert!(matches!(generate_primitive(PrimitiveType::U32, &usr, &mut rng), Value::U32(_)));
    assert!(matches!(generate_primitive(PrimitiveType::U64, &usr, &mut rng), Value::U64(_)));
    assert!(matches!(generate_primitive(PrimitiveType::I8, &usr, &mut rng), Value::I8(_)));
    assert!(matches!(generate_primitive(PrimitiveType::I16, &usr, &mut rng), Value::I16(_)));
    assert!(matches!(generate_primitive(PrimitiveType::I32, &usr, &mut rng), Value::I32(_)));
    assert!(matches!(generate_primitive(PrimitiveType::I64, &usr, &mut rng), Value::I64(_)));
    assert!(matches!(generate_primitive(PrimitiveType::U128, &usr, &mut rng), Value::U128(_)));
    assert!(matches!(generate_primitive(PrimitiveType::Usize, &usr, &mut rng), Value::Usize(_)));
    assert!(matches!(generate_primitive(PrimitiveType::I128, &usr, &mut rng), Value::I128(_)));
    assert!(matches!(generate_primitive(PrimitiveType::Isize, &usr, &mut rng), Value::Isize(_)));
    assert!(matches!(generate_primitive(PrimitiveType::Char, &usr, &mut rng), Value::Char(_)));
}

fn record_generator() -> EntityGenerator {
    EntityGenerator {
        entity: entity("P", None),
        fields: EntityFields::Named(vec![
            NamedGenerator {
                ident: "z".to_string(),
                generator: FieldGenerator::Primitive(PrimitiveType::U8),
            },
            NamedGenerator {
                ident: "a".to_string(),
                generator: FieldGenerator::Primitive(PrimitiveType::U8),
            },
        ]),
    }
}

#[test]
fn record_holds_each_value_under_its_identifier() {
    let value = assemble_entity(&record_generator(), vec![Value::U8(7), Value::U8(9)]);
    assert_eq!(
        value,
        Some(Value::Entity {
            entity: entity("P", None),
            fields: ValueFields::Named(vec![
                NamedValue { ident: "z".to_string(), value: Value::U8(7) },
                NamedValue { ident: "a".to_string(), value: Value::U8(9) },
            ]),
        })
    );
}

#[test]
fn positional_entity_holds_the_values_as_they_came() {
    let generator = EntityGenerator {
        entity: entity("T", None),
        fields: EntityFields::Positional(vec![
            FieldGenerator::Primitive(PrimitiveType::U8),
            FieldGenerator::Literal("always_false".to_string()),
        ]),
    };
    assert_eq!(
        assemble_entity(&generator, vec![Value::U8(5), Value::Bool(false)]),
        Some(Value::Entity {
            entity: entity("T", None),
            fields: ValueFields::Positional(vec![Value::U8(5), Value::Bool(false)]),
        })
    );
    let nested = assemble_entity(&generator, vec![unit("Dna", "A"), Value::I64(-3)]).unwrap();
    assert_eq!(positional(nested), vec![unit("Dna", "A"), Value::I64(-3)]);
}

#[test]
fn unit_entity_holds_no_value() {
    let generator =
        EntityGenerator { entity: entity("Dna", Some("A")), fields: EntityFields::Unit };
    assert_eq!(assemble_entity(&generator, vec![]), Some(unit("Dna", "A")));
    assert_eq!(assemble_entity(&generator, vec![Value::U8(1)]), None);
}

#[test]
fn entity_needs_one_value_for_each_field() {
    assert_eq!(assemble_entity(&record_generator(), vec![Value::U8(7)]), None);
    assert_eq!(assemble_entity(&record_generator(), vec![]), None);
    assert_eq!(
        assemble_entity(&record_generator(), vec![Value::U8(7), Value::U8(9), Value::U8(1)]),
        None
    );
    let empty = EntityGenerator {
        entity: entity("E", None),
        fields: EntityFields::Positional(vec![]),
    };
    assert_eq!(
        assemble_entity(&empty, vec![]),
        Some(Value::Entity { entity: entity("E", None), fields: ValueFields::Positional(vec![]) })
    );
}

#[test]
fn unit_struct_leaves_the_random_source_as_it_was() {
    let registry = registry_of(vec![
        strukt("Marker", FieldList::Unit),
        strukt("Empty", FieldList::Positional(vec![])),
    ]);
    let mut rng = StdRng::seed_from_u64(55);
    let mut same = StdRng::seed_from_u64(55);
    for _ in 0..10 {
        registry.generate("Marker", &lab(), &mut rng).unwrap();
        registry.generate("Empty", &lab(), &mut rng).unwrap();
        assert_eq!(
            registry.generate("Unknown", &lab(), &mut rng),
            Err(GenerationError::UnknownType)
        );
        assert_eq!(
            <u64 as Rand<Lab>>::rand(&lab(), &mut rng),
            <u64 as Rand<Lab>>::rand(&lab(), &mut same)
        );
    }
}

#[test]
fn variant_at_an_index_is_the_one_that_runs() {
    let registry = registry_of(vec![
        enumeration(
            "Shape",
            vec![
                unit_variant("Dot", vec![integer("weight", 0)]),
                VariantSchema {
                    name: "Line".to_string(),
                    fields: FieldList::Positional(vec![field("u32", vec![])]),
                    attrs: vec![],
                },
                VariantSchema {
                    name: "Odd".to_string(),
                    fields: FieldList::Unit,
                    attrs: vec![ident("custom_rand", "make_odd")],
                },
            ],
        ),
        strukt("Marker", FieldList::Unit),
    ]);
    let mut rng = StdRng::seed_from_u64(14);
    let mut same = StdRng::seed_from_u64(14);
    assert_eq!(registry.generate_variant("Shape", 0, &lab(), &mut rng), Ok(unit("Shape", "Dot")));
    let line = registry.generate_variant("Shape", 1, &lab(), &mut rng).unwrap();
    assert_eq!(
        line,
        Value::Entity {
            entity: entity("Shape", Some("Line")),
            fields: ValueFields::Positional(vec![Value::U32(<u32 as Rand<Lab>>::rand(
                &lab(),
                &mut same
            ))]),
        }
    );
    let odd = positional(registry.generate_variant("Shape", 2, &lab(), &mut rng).unwrap());
    assert!(matches!(odd[0], Value::U8(byte) if byte % 2 == 1));
}

#[test]
fn variant_that_is_not_there_is_refused() {
    let registry = registry_of(vec![
        enumeration("One", vec![unit_variant("Only", vec![])]),
        strukt("Marker", FieldList::Unit),
    ]);
    let mut rng = StdRng::seed_from_u64(14);
    let mut same = StdRng::seed_from_u64(14);
    assert_eq!(
        registry.generate_variant("One", 1, &lab(), &mut rng),
        Err(GenerationError::NoSuchVariant)
    );
    assert_eq!(
        registry.generate_variant("Marker", 0, &lab(), &mut rng),
        Err(GenerationError::NoSuchVariant)
    );
    assert_eq!(
        registry.generate_variant("Missing", 0, &lab(), &mut rng),
        Err(GenerationError::UnknownType)
    );
    assert_eq!(
        <u64 as Rand<Lab>>::rand(&lab(), &mut rng),
        <u64 as Rand<Lab>>::rand(&lab(), &mut same)
    );
}

#[test]
fn wide_scalars_are_fields_like_the_others() {
    let registry = registry_of(vec![strukt(
        "Wide",
        FieldList::Positional(vec![
            field("u128", vec![]),
            field("char", vec![]),
            field("isize", vec![]),
            field("i128", vec![]),
            field("usize", vec![]),
        ]),
    )]);
    let mut rng = StdRng::seed_from_u64(70);
    let mut same = StdRng::seed_from_u64(70);
    let values = positional(registry.generate("Wide", &lab(), &mut rng).unwrap());
    assert_eq!(
        values,
        vec![
            Value::U128(<u128 as Rand<Lab>>::rand(&lab(), &mut same)),
            Value::Char(<char as Rand<Lab>>::rand(&lab(), &mut same)),
            Value::Isize(<isize as Rand<Lab>>::rand(&lab(), &mut same)),
            Value::I128(<i128 as Rand<Lab>>::rand(&lab(), &mut same)),
            Value::Usize(<usize as Rand<Lab>>::rand(&lab(), &mut same)),
        ]
    );
}
