use pronouner::json::parse;
use pronouner::{DialogMacro, DialogMacroMod, DialogMacroType, Error, ErrorKind, Json};

fn text(s: &str) -> Json {
    Json::Text(s.to_string())
}

fn object(members: Vec<(&str, Json)>) -> Json {
    Json::Object(members.into_iter().map(|(k, v)| (k.to_string(), v)).collect())
}

fn is_malformed(doc: &Json) -> bool {
    match DialogMacro::from_json(doc) {
        Err(e) => matches!(e, Error::Serde(_)) && e.kind() == ErrorKind::MalformedMacro,
        Ok(_) => false,
    }
}

#[test]
fn kinds_are_named_by_their_tags() {
    let table = [
        ("VerbConjugate", DialogMacroType::VerbConjugate),
        ("Name", DialogMacroType::Name),
        ("TitlePlusName", DialogMacroType::TitlePlusName),
        ("SubjectivePronoun", DialogMacroType::SubjectivePronoun),
        ("ObjectivePronoun", DialogMacroType::ObjectivePronoun),
        ("PossessiveDeterminer", DialogMacroType::PossessiveDeterminer),
        ("PossessivePronoun", DialogMacroType::PossessivePronoun),
        ("ReflexivePronoun", DialogMacroType::ReflexivePronoun),
        ("PersonDescriptor", DialogMacroType::PersonDescriptor),
    ];
    for (tag, kind) in table {
        assert_eq!(DialogMacroType::from_tag(tag), Some(kind));
    }
    for tag in ["", "name", "NAME", "Name ", "Alchemy", "Capitalized"] {
        assert_eq!(DialogMacroType::from_tag(tag), None);
    }
}

#[test]
fn modifiers_are_named_by_their_tags() {
    assert_eq!(DialogMacroMod::from_tag("Capitalized"), Some(DialogMacroMod::Capitalized));
    assert_eq!(DialogMacroMod::from_tag("UpperCase"), Some(DialogMacroMod::UpperCase));
    assert_eq!(DialogMacroMod::from_tag("LowerCase"), Some(DialogMacroMod::LowerCase));
    for tag in ["", "Uppercase", "capitalized", "Name", "Supercalifragilisticexpialidocious"] {
        assert_eq!(DialogMacroMod::from_tag(tag), None);
    }
}

#[test]
fn from_json_reads_every_member() {
    let doc = object(vec![
        ("character_id", text("pidge")),
        ("kind", text("VerbConjugate")),
        ("data", text("to be")),
        ("mods", Json::List(vec![text("LowerCase"), text("Capitalized"), text("LowerCase")])),
    ]);
    let made = DialogMacro::from_json(&doc).unwrap();
    assert_eq!(made.character_id(), "pidge");
    assert_eq!(made.kind(), DialogMacroType::VerbConjugate);
    assert_eq!(made.data(), Some("to be"));
    assert_eq!(
        made.mods(),
        &[
            DialogMacroMod::LowerCase,
            DialogMacroMod::Capitalized,
            DialogMacroMod::LowerCase
        ]
    );
}

#[test]
fn new_keeps_its_parts() {
    let made = DialogMacro::new(
        "tupo",
        DialogMacroType::ReflexivePronoun,
        None,
        vec![DialogMacroMod::UpperCase],
    );
    assert_eq!(made.character_id(), "tupo");
    assert_eq!(made.kind(), DialogMacroType::ReflexivePronoun);
    assert_eq!(made.data(), None);
    assert_eq!(made.mods(), &[DialogMacroMod::UpperCase]);
    let copy = made.clone();
    assert_eq!(copy.character_id(), "tupo");
    assert_eq!(copy.mods(), &[DialogMacroMod::UpperCase]);
}

#[test]
fn data_may_be_null_or_missing() {
    let with_null = object(vec![
        ("character_id", text("pidge")),
        ("kind", text("Name")),
        ("data", Json::Null),
        ("mods", Json::List(vec![])),
    ]);
    assert_eq!(DialogMacro::from_json(&with_null).unwrap().data(), None);

    let without = object(vec![
        ("character_id", text("pidge")),
        ("kind", text("Name")),
        ("mods", Json::List(vec![])),
    ]);
    let made = DialogMacro::from_json(&without).unwrap();
    assert_eq!(made.data(), None);
    assert_eq!(made.mods(), &[]);
}

#[test]
fn kind_may_stand_under_type() {
    let under_type = object(vec![
        ("character_id", text("pidge")),
        ("_type", text("Name")),
        ("mods", Json::List(vec![])),
    ]);
    assert_eq!(DialogMacro::from_json(&under_type).unwrap().kind(), DialogMacroType::Name);

    let both = object(vec![
        ("character_id", text("pidge")),
        ("_type", text("Name")),
        ("kind", text("TitlePlusName")),
        ("mods", Json::List(vec![])),
    ]);
    assert_eq!(
        DialogMacro::from_json(&both).unwrap().kind(),
        DialogMacroType::TitlePlusName
    );

    let kind_is_wrong = object(vec![
        ("character_id", text("pidge")),
        ("_type", text("Name")),
        ("kind", text("Alchemy")),
        ("mods", Json::List(vec![])),
    ]);
    assert!(is_malformed(&kind_is_wrong));
}

#[test]
fn other_members_are_passed_over() {
    let doc = object(vec![
        ("comment", Json::List(vec![Json::Number("1".to_string())])),
        ("mods", Json::List(vec![])),
        ("kind", text("PersonDescriptor")),
        ("character_id", text("hunk")),
        ("extra", Json::Bool(true)),
    ]);
    let made = DialogMacro::from_json(&doc).unwrap();
    assert_eq!(made.character_id(), "hunk");
    assert_eq!(made.kind(), DialogMacroType::PersonDescriptor);
}

#[test]
fn character_id_must_be_a_text() {
    for id in [
        None,
        Some(Json::Null),
        Some(Json::Number("1".to_string())),
        Some(Json::Bool(true)),
        Some(Json::List(vec![text("pidge")])),
    ] {
        let mut members = vec![("kind", text("Name")), ("mods", Json::List(vec![]))];
        if let Some(id) = id {
            members.push(("character_id", id));
        }
        assert!(is_malformed(&object(members)));
    }
}

#[test]
fn kind_must_be_a_known_tag() {
    for kind in [
        None,
        Some(Json::Null),
        Some(text("Alchemy")),
        Some(text("name")),
        Some(Json::Number("1".to_string())),
        Some(object(vec![("Name", Json::Null)])),
    ] {
        let mut members = vec![("character_id", text("pidge")), ("mods", Json::List(vec![]))];
        if let Some(kind) = kind {
            members.push(("kind", kind));
        }
        assert!(is_malformed(&object(members)));
    }
}

#[test]
fn data_must_be_a_text_or_null() {
    for data in [
        Json::Number("1".to_string()),
        Json::Bool(false),
        Json::List(vec![]),
        object(vec![]),
    ] {
        let doc = object(vec![
            ("character_id", text("pidge")),
            ("kind", text("VerbConjugate")),
            ("data", data),
            ("mods", Json::List(vec![])),
        ]);
        assert!(is_malformed(&doc));
    }
}

#[test]
fn mods_must_be_a_list_of_known_tags() {
    for mods in [
        None,
        Some(Json::Null),
        Some(text("UpperCase")),
        Some(object(vec![])),
        Some(Json::List(vec![text("Supercalifragilisticexpialidocious")])),
        Some(Json::List(vec![text("UpperCase"), Json::Null])),
        Some(Json::List(vec![text("UpperCase"), text("uppercase")])),
        Some(Json::List(vec![Json::List(vec![text("UpperCase")])])),
    ] {
        let mut members = vec![("character_id", text("pidge")), ("kind", text("Name"))];
        if let Some(mods) = mods {
            members.push(("mods", mods));
        }
        assert!(is_malformed(&object(members)));
    }
}

#[test]
fn document_must_be_an_object() {
    for doc in [
        Json::Null,
        text("pidge"),
        Json::List(vec![text("pidge"), text("Name"), Json::Null, Json::List(vec![])]),
        object(vec![]),
    ] {
        assert!(is_malformed(&doc));
    }
}

#[test]
fn macro_is_read_from_its_text() {
    let doc = parse(
        r#"{"character_id":"pi\"dge","kind":"VerbConjugate","data":"to {be}","mods":["UpperCase"]}"#,
    )
    .unwrap();
    let made = DialogMacro::from_json(&doc).unwrap();
    assert_eq!(made.character_id(), "pi\"dge");
    assert_eq!(made.kind(), DialogMacroType::VerbConjugate);
    assert_eq!(made.data(), Some("to {be}"));
    assert_eq!(made.mods(), &[DialogMacroMod::UpperCase]);
}
