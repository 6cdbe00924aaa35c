use oas3::{Path, Ref, RefError, RefPath, RefType};

#[test]
fn new_path_is_root() {
    let p = Path::new('/');
    assert!(p.is_root());
    assert_eq!(p.render(), "");
}

#[test]
fn push_and_render_join_with_separator() {
    let mut p = Path::new('/');
    p.push("components");
    p.push("schemas");
    p.push("Pet");
    assert!(!p.is_root());
    assert_eq!(p.render(), "components/schemas/Pet");
}

#[test]
fn pop_returns_last_segment() {
    let mut p = Path::new('.');
    p.push("a");
    p.push("b");
    assert_eq!(p.pop(), Some("b".to_owned()));
    assert_eq!(p.pop(), Some("a".to_owned()));
    assert_eq!(p.pop(), None);
    assert!(p.is_root());
}

#[test]
fn extend_leaves_base_unchanged() {
    let mut base = Path::new('/');
    base.push("components");
    let child = base.extend("schemas");
    assert_eq!(base.render(), "components");
    assert_eq!(child.render(), "components/schemas");
}

#[test]
fn equality_compares_segments_not_separator() {
    let mut a = Path::new('/');
    a.push("x");
    a.push("y");
    let mut b = Path::new('.');
    b.push("x");
    b.push("y");
    assert_eq!(a, b);
    let mut c = Path::new('/');
    c.push("x");
    assert_ne!(a, c);
}

#[test]
fn default_path_is_root_with_slash() {
    let p = Path::default();
    assert!(p.is_root());
    assert_eq!(p.render(), "");
    assert_eq!(p, Path::new('#'));
}

#[test]
fn single_segment_renders_without_separator() {
    let mut p = Path::new('/');
    p.push("alone");
    assert_eq!(p.render(), "alone");
}

#[test]
fn loose_parse_takes_final_two_segments() {
    let rp = RefPath::from_str("#/components/schemas/Pet");
    assert_eq!(rp.kind, "schemas");
    assert_eq!(rp.name, "Pet");
}

#[test]
fn loose_parse_without_segments_has_empty_kind() {
    let rp = RefPath::from_str("Pet");
    assert_eq!(rp.kind, "");
    assert_eq!(rp.name, "Pet");
}

#[test]
fn loose_parse_keeps_unknown_kind_token() {
    let rp = RefPath::from_str("#/components/widgets/Pet");
    assert_eq!(rp.kind, "widgets");
    assert_eq!(rp.name, "Pet");
}

#[test]
fn strict_parse_recognizes_each_collection() {
    let cases = [
        ("schemas", RefType::Schema),
        ("responses", RefType::Response),
        ("parameters", RefType::Parameter),
        ("examples", RefType::Example),
        ("requestBodies", RefType::RequestBody),
        ("headers", RefType::Header),
        ("securitySchemes", RefType::SecurityScheme),
        ("links", RefType::Link),
        ("callbacks", RefType::Callback),
    ];
    for (token, expected) in cases {
        let raw = format!("#/components/{}/Thing", token);
        let r = Ref::from_str(&raw).expect("known kind parses");
        assert_eq!(r.kind, expected);
        assert_eq!(r.name, "Thing");
    }
}

#[test]
fn strict_parse_rejects_malformed_strings() {
    assert_eq!(
        Ref::from_str("NoSegments"),
        Err(RefError::InvalidRef("NoSegments".to_owned()))
    );
    assert_eq!(
        Ref::from_str("#/components/schemas/"),
        Err(RefError::InvalidRef("#/components/schemas/".to_owned()))
    );
    assert_eq!(
        Ref::from_str("#/components/widgets/Pet"),
        Err(RefError::InvalidRef("#/components/widgets/Pet".to_owned()))
    );
}
