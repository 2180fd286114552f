use pronouner::{
    CharacterCast, ConjugatePerson, GrammaticalCharacter, Pronouns, Title,
};

fn get_characters() -> [GrammaticalCharacter; 4] {
    let pidge = GrammaticalCharacter::new(
        "Pidge".into(),
        Pronouns::TheyThem,
        Some(Title::NoTitle),
        Some("Person".to_string()),
    );

    let alfons = GrammaticalCharacter::new(
        "Alfons".into(),
        Pronouns::Name,
        Some(Title::Custom("King".into())),
        Some("Man".to_string()),
    );

    let tupo = GrammaticalCharacter::new(
        "Tupo".to_string(),
        Pronouns::XeXyr,
        Some(Title::NoTitle),
        Some("Laru".to_string()),
    );

    let hunk = GrammaticalCharacter::new(
        "Hunk".to_string(),
        Pronouns::HeHim,
        Some(Title::Mr),
        Some("Man".to_string()),
    );

    [pidge, alfons, tupo, hunk]
}

fn named(name: &str, pronouns: Pronouns) -> GrammaticalCharacter {
    GrammaticalCharacter::new(name.to_string(), pronouns, None, None)
}

fn custom_pronouns() -> Pronouns {
    Pronouns::custom(
        "fae".to_string(),
        "faer".to_string(),
        "faers".to_string(),
        "faer".to_string(),
        "faerself".to_string(),
        ConjugatePerson::SecondPlural,
    )
}

#[test]
fn no_pronoun_test() {
    let [pidge, alfons, tupo, _] = get_characters();

    assert_eq!(
        format!(
            "{} is super smart! I love {}! Have you seen {} sentient robot?",
            pidge.name(),
            pidge.objective_pronoun(),
            pidge.possessive_determiner(),
        ),
        "Pidge is super smart! I love them! Have you seen their sentient robot?"
    );
    assert_eq!(
        format!("{} lion has been lost.", alfons.possessive_determiner(),),
        "Alfons' lion has been lost.",
    );
    assert_eq!(
        format!(
            "{} is still going through puberty. Give {} some time to grow into {} legs.",
            tupo.name(),
            tupo.objective_pronoun(),
            tupo.possessive_determiner(),
        ),
        "Tupo is still going through puberty. Give xem some time to grow into xyr legs."
    );
}

#[test]
fn preset_pronouns_fill_every_slot() {
    let table: [(Pronouns, [&str; 5]); 5] = [
        (Pronouns::HeHim, ["he", "him", "his", "his", "himself"]),
        (Pronouns::SheHer, ["she", "her", "her", "hers", "herself"]),
        (Pronouns::ItIts, ["it", "it", "its", "its", "itself"]),
        (Pronouns::TheyThem, ["they", "them", "their", "theirs", "themself"]),
        (Pronouns::XeXyr, ["xe", "xem", "xyr", "xyrs", "xyrself"]),
    ];
    for (pronouns, expected) in table {
        let character = named("Robin", pronouns);
        assert_eq!(character.subjective_pronoun(), expected[0]);
        assert_eq!(character.objective_pronoun(), expected[1]);
        assert_eq!(character.possessive_determiner(), expected[2]);
        assert_eq!(character.possessive_pronoun(), expected[3]);
        assert_eq!(character.reflexive_pronoun(), expected[4]);
    }
}

#[test]
fn name_as_pronoun_uses_the_name() {
    let hunk = named("Hunk", Pronouns::Name);
    assert_eq!(hunk.subjective_pronoun(), "Hunk");
    assert_eq!(hunk.objective_pronoun(), "Hunk");
    assert_eq!(hunk.possessive_determiner(), "Hunk's");
    assert_eq!(hunk.possessive_pronoun(), "Hunk's");
    assert_eq!(hunk.reflexive_pronoun(), "Hunk's self");
}

#[test]
fn name_ending_in_s_takes_a_bare_apostrophe() {
    let alfons = named("Alfons", Pronouns::Name);
    assert_eq!(alfons.possessive_determiner(), "Alfons'");
    assert_eq!(alfons.possessive_pronoun(), "Alfons'");
    assert_eq!(alfons.reflexive_pronoun(), "Alfons' self");

    let jess = named("JESS", Pronouns::Name);
    assert_eq!(jess.possessive_determiner(), "JESS'");
    assert_eq!(jess.possessive_pronoun(), "JESS'");
    assert_eq!(jess.reflexive_pronoun(), "JESS' self");
}

#[test]
fn name_with_another_last_character_takes_apostrophe_s() {
    assert_eq!(named("Pidge", Pronouns::Name).possessive_determiner(), "Pidge's");
    assert_eq!(named("Zoë", Pronouns::Name).possessive_determiner(), "Zoë's");
    // The long s is no `s`.
    assert_eq!(named("Johanneſ", Pronouns::Name).possessive_determiner(), "Johanneſ's");
    assert_eq!(named("", Pronouns::Name).possessive_determiner(), "'s");
}

#[test]
fn pidge_with_they_them_has_their() {
    let pidge = named("Pidge", Pronouns::TheyThem);
    assert_eq!(pidge.possessive_determiner(), "their");
}

#[test]
fn custom_pronouns_give_their_own_texts() {
    let character = named("Ash", custom_pronouns());
    assert_eq!(character.subjective_pronoun(), "fae");
    assert_eq!(character.objective_pronoun(), "faer");
    assert_eq!(character.possessive_pronoun(), "faers");
    assert_eq!(character.possessive_determiner(), "faer");
    assert_eq!(character.reflexive_pronoun(), "faerself");
    assert_eq!(character.conjugate_case(), ConjugatePerson::SecondPlural);
}

#[test]
fn custom_takes_the_possessive_before_the_determiner() {
    let pronouns = Pronouns::custom(
        "a".to_string(),
        "b".to_string(),
        "c".to_string(),
        "d".to_string(),
        "e".to_string(),
        ConjugatePerson::FirstSingular,
    );
    assert_eq!(
        pronouns,
        Pronouns::Custom {
            subjective: "a".to_string(),
            objective: "b".to_string(),
            possessive_determiner: "d".to_string(),
            possessive: "c".to_string(),
            reflexive: "e".to_string(),
            conjugate_case: ConjugatePerson::FirstSingular,
        }
    );
}

#[test]
fn presets_have_a_fixed_person_and_number() {
    for pronouns in [
        Pronouns::HeHim,
        Pronouns::SheHer,
        Pronouns::ItIts,
        Pronouns::XeXyr,
        Pronouns::Name,
    ] {
        assert_eq!(
            named("Robin", pronouns).conjugate_case(),
            ConjugatePerson::ThirdSingular
        );
    }
    assert_eq!(
        named("Robin", Pronouns::TheyThem).conjugate_case(),
        ConjugatePerson::ThirdPlural
    );
}

#[test]
fn titles_are_written_with_a_full_stop() {
    assert_eq!(Title::Mr.str(), "Mr.");
    assert_eq!(Title::Ms.str(), "Ms.");
    assert_eq!(Title::Mrs.str(), "Mrs.");
    assert_eq!(Title::Mx.str(), "Mx.");
    assert_eq!(Title::NoTitle.str(), "");
    assert_eq!(Title::custom("King".to_string()).str(), "King");
    assert_eq!(Title::custom("King".to_string()), Title::Custom("King".to_string()));
    assert_eq!(Title::Mrs.to_string(), "Mrs.");
    assert_eq!(Title::Custom("Dr.".to_string()).to_string(), "Dr.");
}

#[test]
fn defaults_are_they_them_and_mx() {
    assert_eq!(Pronouns::default(), Pronouns::TheyThem);
    assert_eq!(Title::default(), Title::Mx);
    let nobody = GrammaticalCharacter::default();
    assert_eq!(nobody.name(), "##MISSING CHARACTER#");
    assert_eq!(nobody.subjective_pronoun(), "they");
    assert!(nobody.title().is_none());
    assert!(nobody.person_descriptor().is_none());
}

#[test]
fn getters_give_back_what_new_was_given() {
    let [_, alfons, _, hunk] = get_characters();
    assert_eq!(alfons.name(), "Alfons");
    assert_eq!(alfons.pronouns(), &Pronouns::Name);
    assert_eq!(hunk.pronouns(), &Pronouns::HeHim);
    assert_eq!(alfons.title(), Some(&Title::Custom("King".to_string())));
    assert_eq!(alfons.person_descriptor(), Some(&"Man".to_string()));
    assert_eq!(hunk.title(), Some(&Title::Mr));
    let copy = alfons.clone();
    assert_eq!(copy.name(), "Alfons");
    assert_eq!(copy.title(), Some(&Title::Custom("King".to_string())));
    assert_eq!(copy.possessive_determiner(), "Alfons'");
}

#[test]
fn cast_holds_one_character_for_each_key() {
    let mut cast = CharacterCast::default();
    assert!(cast.get("pidge").is_none());

    let [pidge, alfons, _, _] = get_characters();
    assert!(cast.insert("pidge".to_string(), pidge).is_none());
    assert_eq!(cast.get("pidge").map(|c| c.name()), Some("Pidge"));
    assert!(cast.get("Pidge").is_none());

    let before = cast.insert("pidge".to_string(), alfons);
    assert_eq!(before.map(|c| c.name().to_string()), Some("Pidge".to_string()));
    assert_eq!(cast.get("pidge").map(|c| c.name()), Some("Alfons"));

    let taken = cast.remove("pidge");
    assert_eq!(taken.map(|c| c.name().to_string()), Some("Alfons".to_string()));
    assert!(cast.get("pidge").is_none());
    assert!(cast.remove("pidge").is_none());
}
