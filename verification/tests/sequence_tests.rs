use jmorph::Dimension;
use jmorph::Origin;
use jmorph::RawMorpheme;
use jmorph::SyllableRow;
use jmorph::VerbType;
use jmorph::WordClass;
use jmorph::classify_all;

fn raw(surface: &str, start: usize, feature: &str) -> RawMorpheme {
    RawMorpheme { surface: String::from(surface), start, feature: String::from(feature) }
}

#[test]
fn empty_sequence_classifies_to_nothing() {
    let ms = classify_all(&Vec::new()).unwrap();
    assert!(ms.is_empty());
}

#[test]
fn sequence_is_classified_in_order() {
    let raws = vec![
        raw("走っ", 0, "動詞,一般,*,*,五段-ラ行,連用形,走る,ハシッ,ハシル,走る"),
        raw("た", 2, "助動詞,*,*,*,助動詞-タ,終止形,た"),
    ];
    let ms = classify_all(&raws).unwrap();
    assert_eq!(ms.len(), 2);
    assert_eq!(ms[0].surface, "走っ");
    assert_eq!(ms[0].start, 0);
    assert_eq!(ms[0].word_class, WordClass::Verb(VerbType::Godan(SyllableRow::R)));
    assert_eq!(ms[1].surface, "た");
    assert_eq!(ms[1].start, 2);
    assert_eq!(ms[1].word_class, WordClass::Verb(VerbType::Auxilary(String::from("タ"))));
}

#[test]
fn first_unrecognized_tag_fails_the_whole_sequence() {
    let raws = vec![
        raw("日本", 0, "名詞,固有名詞,*,*,*,*,日本,ニッポン,ニッポン,ニホン,日本,ニッポン,和"),
        raw("x", 2, "未知語,*,*,*,*,*"),
        raw("語", 3, "名詞,普通名詞,*,*,*,*,語,ゴ,ゴ,ゴ,語,ゴ,漢"),
    ];
    let err = classify_all(&raws).unwrap_err();
    assert_eq!(err.dimension, Dimension::WordClass);
    assert_eq!(err.tag, "未知語");
}

#[test]
fn error_reports_the_first_failing_item() {
    let raws = vec![
        raw("a", 0, "未知語,*"),
        raw("b", 1, "謎,*"),
    ];
    let err = classify_all(&raws).unwrap_err();
    assert_eq!(err.tag, "未知語");
}

#[test]
fn origins_survive_the_sequence() {
    let raws = vec![
        raw("日本", 0, "名詞,固有名詞,*,*,*,*,日本,ニッポン,ニッポン,ニホン,日本,ニッポン,和"),
        raw("語", 2, "名詞,普通名詞,*,*,*,*,語,ゴ,ゴ,ゴ,語,ゴ,漢"),
    ];
    let ms = classify_all(&raws).unwrap();
    assert_eq!(ms[0].origin, Some(Origin::Japan));
    assert_eq!(ms[1].origin, Some(Origin::China));
}
