use oas3::{
    ComponentMap, Components, Document, Error, Example, ObjectOrReference, RefError, RefType,
    Schema, Type,
};

fn object_schema() -> Schema {
    Schema { schema_type: Some(Type::Object), ..Default::default() }
}

fn string_schema() -> Schema {
    Schema { schema_type: Some(Type::String), ..Default::default() }
}

/// A document with `components.schemas.Pet = {type: object}` and an example
/// stored under the same name, so kind mismatches can be told from absences.
fn pet_doc() -> Document {
    let mut schemas = ComponentMap::new();
    schemas.insert("Pet".to_owned(), ObjectOrReference::Object(object_schema()));
    let mut examples = ComponentMap::new();
    examples.insert(
        "Pet".to_owned(),
        ObjectOrReference::Object(Example {
            summary: Some("a pet".to_owned()),
            ..Default::default()
        }),
    );
    Document { components: Some(Components { schemas, examples }) }
}

#[test]
fn scenario_a_resolves_existing_schema() {
    let doc = pet_doc();
    let r = Schema::from_ref(&doc, "#/components/schemas/Pet");
    assert_eq!(r, Ok(&object_schema()));
}

#[test]
fn scenario_b_absent_name_is_unresolvable() {
    let doc = pet_doc();
    let r = Schema::from_ref(&doc, "#/components/schemas/Dog");
    assert_eq!(r, Err(RefError::Unresolvable("#/components/schemas/Dog".to_owned())));
}

#[test]
fn scenario_c_wrong_kind_is_mismatch() {
    let doc = pet_doc();
    let r = Schema::from_ref(&doc, "#/components/examples/Pet");
    assert_eq!(r, Err(RefError::MismatchedType(RefType::Example, RefType::Schema)));
}

#[test]
fn scenario_d_property_entry_resolves() {
    let mut schemas = ComponentMap::new();
    schemas.insert("NameType".to_owned(), ObjectOrReference::Object(string_schema()));
    let doc = Document {
        components: Some(Components { schemas, examples: ComponentMap::new() }),
    };
    let parent = Schema {
        properties: vec![(
            "name".to_owned(),
            ObjectOrReference::Ref { ref_path: "#/components/schemas/NameType".to_owned() },
        )],
        ..Default::default()
    };
    let entry = parent.property(&"name".to_owned()).expect("property is present");
    assert_eq!(entry.resolve(&doc), Ok(&string_schema()));
}

#[test]
fn inline_schema_resolves_without_lookup() {
    // The document deliberately has no collections at all: an inline value
    // must come back unchanged without consulting them.
    let doc = Document { components: None };
    let slot = ObjectOrReference::Object(object_schema());
    assert_eq!(slot.resolve(&doc), Ok(&object_schema()));
}

#[test]
fn inline_example_resolves_without_lookup() {
    let doc = Document { components: None };
    let ex = Example { description: Some("inline".to_owned()), ..Default::default() };
    let slot = ObjectOrReference::Object(ex.clone());
    assert_eq!(slot.resolve(&doc), Some(&ex));
}

#[test]
fn reference_to_inline_target_resolves_to_it() {
    let doc = pet_doc();
    let slot: ObjectOrReference<Schema> =
        ObjectOrReference::Ref { ref_path: "#/components/schemas/Pet".to_owned() };
    assert_eq!(slot.resolve(&doc), Ok(&object_schema()));
}

#[test]
fn reference_to_reference_stops_after_one_hop() {
    let mut schemas = ComponentMap::new();
    schemas.insert("Pet".to_owned(), ObjectOrReference::Object(object_schema()));
    schemas.insert(
        "Alias".to_owned(),
        ObjectOrReference::Ref { ref_path: "#/components/schemas/Pet".to_owned() },
    );
    let doc = Document {
        components: Some(Components { schemas, examples: ComponentMap::new() }),
    };
    let r = Schema::from_ref(&doc, "#/components/schemas/Alias");
    // One hop only: the caller is handed the next path to follow.
    assert_eq!(r, Err(RefError::Unresolvable("#/components/schemas/Pet".to_owned())));
}

#[test]
fn missing_components_is_unresolvable() {
    let doc = Document { components: None };
    let r = Schema::from_ref(&doc, "#/components/schemas/Pet");
    assert_eq!(r, Err(RefError::Unresolvable("#/components/schemas/Pet".to_owned())));
}

#[test]
fn malformed_references_are_invalid() {
    let doc = pet_doc();
    assert_eq!(
        Schema::from_ref(&doc, "Pet"),
        Err(RefError::InvalidRef("Pet".to_owned()))
    );
    assert_eq!(
        Schema::from_ref(&doc, "#/components/schemas/"),
        Err(RefError::InvalidRef("#/components/schemas/".to_owned()))
    );
    assert_eq!(
        Schema::from_ref(&doc, "#/components/widgets/Pet"),
        Err(RefError::InvalidRef("#/components/widgets/Pet".to_owned()))
    );
    assert_eq!(Schema::from_ref(&doc, ""), Err(RefError::InvalidRef("".to_owned())));
}

#[test]
fn example_from_ref_finds_inline_example() {
    let doc = pet_doc();
    let r = Example::from_ref(&doc, "#/components/examples/Pet");
    assert_eq!(
        r,
        Some(&Example { summary: Some("a pet".to_owned()), ..Default::default() })
    );
}

#[test]
fn example_from_ref_unrecognized_kind_is_none() {
    // The loose form: a kind meant for another resolver is "not mine", not
    // an error.
    let doc = pet_doc();
    assert_eq!(Example::from_ref(&doc, "#/components/schemas/Pet"), None);
    assert_eq!(Example::from_ref(&doc, "#/components/widgets/Pet"), None);
}

#[test]
fn example_from_ref_absent_name_is_none() {
    let doc = pet_doc();
    assert_eq!(Example::from_ref(&doc, "#/components/examples/Ghost"), None);
}

#[test]
fn example_from_ref_reference_entry_is_none() {
    let mut examples = ComponentMap::new();
    examples.insert(
        "Alias".to_owned(),
        ObjectOrReference::Ref { ref_path: "#/components/examples/Pet".to_owned() },
    );
    let doc = Document {
        components: Some(Components { schemas: ComponentMap::new(), examples }),
    };
    assert_eq!(Example::from_ref(&doc, "#/components/examples/Alias"), None);
}

#[test]
fn component_map_later_entry_shadows_earlier() {
    let mut schemas = ComponentMap::new();
    schemas.insert("Pet".to_owned(), ObjectOrReference::Object(object_schema()));
    schemas.insert("Pet".to_owned(), ObjectOrReference::Object(string_schema()));
    assert_eq!(
        schemas.get(&"Pet".to_owned()),
        Some(&ObjectOrReference::Object(string_schema()))
    );
    assert_eq!(schemas.get(&"Dog".to_owned()), None);
}

#[test]
fn error_messages() {
    assert_eq!(Error::NoType.message(), "Missing type property");
    assert_eq!(
        Error::UnknownType("blob".to_owned()).message(),
        "Unknown type: blob"
    );
    assert_eq!(
        Error::RequiredSpecifiedOnNonObject.message(),
        "Required fields specified on a non-object schema"
    );
}
