use pronouner::{ConjugatePerson, Dictionary, Error, ErrorKind, Verb};

type Res = Result<(), Error>;

fn gen_dict() -> Dictionary<'static> {
    let to_be = Verb::new(
        "to be",
        Some("be"),
        Some("am"),
        Some("are"),
        Some("is"),
        Some("are"),
        Some("are"),
        Some("are"),
    );

    let to_have = Verb::new(
        "to have",
        Some("have"),
        Some("have"),
        Some("have"),
        Some("has"),
        None,
        None,
        None,
    );

    let mut dict = Dictionary::default();

    dict.insert("to be".to_string(), to_be);
    dict.insert("to have".to_string(), to_have);

    dict
}

#[test]
fn verb_test() -> Res {
    let foo = Verb::new(
        "to be",
        None,
        Some("am"),
        Some("are"),
        Some("is"),
        None,
        Some("are"),
        Some("are"),
    );

    println!("{}", foo.describe());
    assert_eq!(
        foo.describe(),
        "\"to be\" -- to N/A:\n  I am.\n  You are.\n  He/she/it is.\n  We N/A.\n  You are.\n  They are.\n"
    );

    Ok(())
}

#[test]
fn verb_has_one_form_for_each_person() {
    let verb = Verb::new(
        "to go",
        Some("go"),
        Some("go"),
        Some("goest"),
        Some("goes"),
        Some("wend"),
        Some("fare"),
        Some("walk"),
    );
    assert_eq!(verb.get(ConjugatePerson::FirstSingular), Some("go"));
    assert_eq!(verb.get(ConjugatePerson::SecondSingular), Some("goest"));
    assert_eq!(verb.get(ConjugatePerson::ThirdSingular), Some("goes"));
    assert_eq!(verb.get(ConjugatePerson::FirstPlural), Some("wend"));
    assert_eq!(verb.get(ConjugatePerson::SecondPlural), Some("fare"));
    assert_eq!(verb.get(ConjugatePerson::ThirdPlural), Some("walk"));
    assert_eq!(
        verb.describe(),
        "\"to go\" -- to go:\n  I go.\n  You goest.\n  He/she/it goes.\n  We wend.\n  You fare.\n  They walk.\n"
    );
}

#[test]
fn each_form_may_be_missing_alone() {
    let verb = Verb::new("to rain", None, None, None, Some("rains"), None, None, None);
    assert_eq!(verb.debug_ident(), "to rain");
    assert_eq!(verb.infinitive(), None);
    assert_eq!(
        Verb::new("to be", Some("be"), None, None, None, None, None, None).infinitive(),
        Some("be")
    );
    assert_eq!(verb.get(ConjugatePerson::ThirdSingular), Some("rains"));
    assert_eq!(verb.get(ConjugatePerson::FirstSingular), None);
    assert_eq!(verb.get(ConjugatePerson::ThirdPlural), None);
}

#[test]
fn conjugate_gives_the_form() -> Res {
    let dict = gen_dict();
    assert_eq!(dict.conjugate("to be", ConjugatePerson::FirstSingular)?, "am");
    assert_eq!(dict.conjugate("to be", ConjugatePerson::ThirdPlural)?, "are");
    assert_eq!(dict.conjugate("to have", ConjugatePerson::ThirdSingular)?, "has");
    Ok(())
}

#[test]
fn conjugate_tells_a_missing_verb_from_a_missing_form() {
    let dict = gen_dict();
    assert!(matches!(
        dict.conjugate("to be or not to be", ConjugatePerson::ThirdPlural),
        Err(Error::UnknownVerbKey)
    ));
    assert!(matches!(
        dict.conjugate("to have", ConjugatePerson::ThirdPlural),
        Err(Error::UndefinedVerbCase)
    ));
    let e = dict.conjugate("", ConjugatePerson::ThirdPlural).unwrap_err();
    assert_eq!(e.kind(), ErrorKind::UnknownVerbKey);
}

#[test]
fn dictionary_holds_one_verb_for_each_key() {
    let mut dict = Dictionary::default();
    assert!(dict.remove("to be").is_none());

    let first = Verb::new("first", None, Some("am"), None, None, None, None, None);
    let second = Verb::new("second", None, Some("be"), None, None, None, None, None);
    assert!(dict.insert("to be".to_string(), first).is_none());
    let before = dict.insert("to be".to_string(), second);
    assert_eq!(
        before.map(|v| v.get(ConjugatePerson::FirstSingular)),
        Some(Some("am"))
    );
    assert_eq!(
        dict.conjugate("to be", ConjugatePerson::FirstSingular).unwrap(),
        "be"
    );
    let taken = dict.remove("to be");
    assert_eq!(
        taken.map(|v| v.get(ConjugatePerson::FirstSingular)),
        Some(Some("be"))
    );
    assert!(matches!(
        dict.conjugate("to be", ConjugatePerson::FirstSingular),
        Err(Error::UnknownVerbKey)
    ));
}
