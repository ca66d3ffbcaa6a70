use jmorph::Conjungation;
use jmorph::ConjungationForm;
use jmorph::ConjungationKind;
use jmorph::Dimension;
use jmorph::Morpheme;
use jmorph::Origin;
use jmorph::SyllableRow;
use jmorph::VerbType;
use jmorph::WordClass;

const RUN_FEATURE: &str = "動詞,一般,*,*,五段-ラ行,終止形,走る,ハシル,ハシル,ハシル,走る,ハシル,和";

#[test]
fn godan_verb_scenario() {
    let m = Morpheme::from(String::from("走る"), 0, RUN_FEATURE).unwrap();
    assert_eq!(m.surface, "走る");
    assert_eq!(m.start, 0);
    assert_eq!(m.word_class, WordClass::Verb(VerbType::Godan(SyllableRow::R)));
    assert_eq!(
        m.conjungation,
        Conjungation { kind: ConjungationKind::Sentinel, form: ConjungationForm::Plain }
    );
    assert_eq!(m.basic, "走る");
    assert_eq!(m.reading, "ハシル");
    assert_eq!(m.lexeme, "走る");
    assert_eq!(m.origin, Some(Origin::Japan));
}

#[test]
fn classification_is_deterministic() {
    let first = Morpheme::from(String::from("走る"), 0, RUN_FEATURE);
    let second = Morpheme::from(String::from("走る"), 0, RUN_FEATURE);
    assert_eq!(first, second);
    let bad = Morpheme::from(String::from("x"), 0, "未知語,*");
    let bad_again = Morpheme::from(String::from("x"), 0, "未知語,*");
    assert_eq!(bad, bad_again);
}

#[test]
fn surface_and_start_come_from_the_input() {
    let text = "走った";
    let m = Morpheme::from(String::from(&text[0..6]), 0, "動詞,一般,*,*,五段-ラ行,連用形,走る").unwrap();
    assert_eq!(m.surface, "走っ");
    assert_eq!(m.start, 0);
    assert_ne!(m.surface, m.basic);
}

#[test]
fn short_tuple_defaults_optional_fields() {
    let m = Morpheme::from(String::from("はい"), 0, "感動詞,一般,*,*,*,*").unwrap();
    assert_eq!(m.word_class, WordClass::Interjection);
    assert_eq!(m.origin, None);
    assert_eq!(m.basic, "");
    assert_eq!(m.reading, "");
    assert_eq!(m.lexeme, "");
    assert_eq!(m.conjungation.form, ConjungationForm::Absent);
}

#[test]
fn twelve_field_tuple_has_no_origin() {
    let feature = "動詞,一般,*,*,五段-ラ行,終止形,走る,ハシル,ハシル,ハシル,走る,ハシル";
    let m = Morpheme::from(String::from("走る"), 0, feature).unwrap();
    assert_eq!(m.origin, None);
    assert_eq!(m.lexeme, "走る");
}

#[test]
fn ten_field_tuple_has_empty_lexeme() {
    let feature = "動詞,一般,*,*,五段-ラ行,終止形,走る,ハシル,ハシル,ハシル";
    let m = Morpheme::from(String::from("走る"), 0, feature).unwrap();
    assert_eq!(m.origin, None);
    assert_eq!(m.lexeme, "");
    assert_eq!(m.reading, "ハシル");
}

#[test]
fn unrecognized_origin_marker_is_not_an_error() {
    let feature = "動詞,一般,*,*,五段-ラ行,終止形,走る,ハシル,ハシル,ハシル,走る,ハシル,洋";
    let m = Morpheme::from(String::from("走る"), 0, feature).unwrap();
    assert_eq!(m.origin, None);
}

#[test]
fn empty_feature_string_fails_on_word_class() {
    let err = Morpheme::from(String::from("x"), 0, "").unwrap_err();
    assert_eq!(err.dimension, Dimension::WordClass);
    assert_eq!(err.tag, "");
}

#[test]
fn mandatory_form_failure_fails_the_tuple() {
    let err = Morpheme::from(String::from("走る"), 0, "動詞,一般,*,*,五段-ラ行,連結形").unwrap_err();
    assert_eq!(err.dimension, Dimension::ConjungationForm);
    assert_eq!(err.tag, "連結形");
}

#[test]
fn word_class_fails_before_conjugation_form() {
    let err = Morpheme::from(String::from("x"), 0, "未知語,*,*,*,*,連結形").unwrap_err();
    assert_eq!(err.dimension, Dimension::WordClass);
    assert_eq!(err.tag, "未知語");
}

#[test]
fn interpunct_composite_classifies_like_hyphen() {
    let with_hyphen = Morpheme::from(String::from("走る"), 0, "動詞,一般,*,*,五段-ラ行,終止形,走る").unwrap();
    let with_interpunct =
        Morpheme::from(String::from("走る"), 0, "動詞,一般,*,*,五段・ラ行,終止形,走る").unwrap();
    assert_eq!(with_hyphen.word_class, with_interpunct.word_class);
}
