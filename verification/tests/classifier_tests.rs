use jmorph::AdjectiveType;
use jmorph::ConjungationForm;
use jmorph::ConjungationKind;
use jmorph::Dimension;
use jmorph::NounType;
use jmorph::Origin;
use jmorph::ParticleType;
use jmorph::SyllableRow;
use jmorph::VerbType;
use jmorph::WordClass;

fn fields(feature: &str) -> Vec<String> {
    feature.split(',').map(String::from).collect()
}

#[test]
fn noun_subtypes_known() {
    let common = NounType::try_from(&fields("名詞,普通名詞")).unwrap();
    assert_eq!(common, NounType::Common);
    let proper = NounType::try_from(&fields("名詞,固有名詞")).unwrap();
    assert_eq!(proper, NounType::Proper);
    let numeral = NounType::try_from(&fields("名詞,数詞")).unwrap();
    assert_eq!(numeral, NounType::Numeral);
}

#[test]
fn noun_subtype_unknown_is_reported() {
    let err = NounType::try_from(&fields("名詞,代名詞")).unwrap_err();
    assert_eq!(err.dimension, Dimension::Noun);
    assert_eq!(err.tag, "代名詞");
}

#[test]
fn particle_subtypes_known() {
    let cases = [
        ("係助詞", ParticleType::Connecting),
        ("終助詞", ParticleType::SentenceEnding),
        ("格助詞", ParticleType::CaseMaking),
        ("接続助詞", ParticleType::Conjungtion),
        ("副助詞", ParticleType::Adverbial),
        ("準体助詞", ParticleType::Nominalizing),
    ];
    for (tag, expected) in cases {
        let feature = format!("助詞,{}", tag);
        let got = ParticleType::try_from(&fields(&feature)).unwrap();
        assert_eq!(got, expected);
    }
}

#[test]
fn particle_subtype_unknown_is_reported() {
    let err = ParticleType::try_from(&fields("助詞,間投助詞")).unwrap_err();
    assert_eq!(err.dimension, Dimension::Particle);
    assert_eq!(err.tag, "間投助詞");
}

#[test]
fn adjective_subtypes_known() {
    let i = AdjectiveType::try_from(&fields("形容詞,一般")).unwrap();
    assert_eq!(i, AdjectiveType::I);
    let na = AdjectiveType::try_from(&fields("形状詞,一般")).unwrap();
    assert_eq!(na, AdjectiveType::Na);
}

#[test]
fn adjective_subtype_unknown_is_reported() {
    let err = AdjectiveType::try_from(&fields("動詞,一般")).unwrap_err();
    assert_eq!(err.dimension, Dimension::Adjective);
    assert_eq!(err.tag, "動詞");
}

#[test]
fn syllable_rows_known() {
    let cases = [
        ("ガ行", SyllableRow::G),
        ("カ行", SyllableRow::K),
        ("マ行", SyllableRow::M),
        ("ア行", SyllableRow::A),
        ("ラ行", SyllableRow::R),
        ("サ行", SyllableRow::S),
        ("ザ行", SyllableRow::Z),
        ("タ行", SyllableRow::T),
        ("ダ行", SyllableRow::D),
        ("ハ行", SyllableRow::H),
        ("バ行", SyllableRow::B),
        ("パ行", SyllableRow::P),
        ("ナ行", SyllableRow::N),
        ("ワア行", SyllableRow::Wa),
        ("ヤ行", SyllableRow::Y),
    ];
    for (tag, expected) in cases {
        assert_eq!(SyllableRow::try_from(tag).unwrap(), expected);
    }
}

#[test]
fn syllable_row_unknown_is_reported() {
    let err = SyllableRow::try_from("ヴ行").unwrap_err();
    assert_eq!(err.dimension, Dimension::SyllableRow);
    assert_eq!(err.tag, "ヴ行");
}

#[test]
fn verb_groups_known() {
    let godan = ["五段", "文語下二段", "文語四段", "文語上二段", "上二段"];
    for group in godan {
        let composite = format!("{}-カ行", group);
        let got = VerbType::parse_general(&composite).unwrap();
        assert_eq!(got, VerbType::Godan(SyllableRow::K));
    }
    let ichidan = ["一段", "下一段", "上一段"];
    for group in ichidan {
        let composite = format!("{}-バ行", group);
        let got = VerbType::parse_general(&composite).unwrap();
        assert_eq!(got, VerbType::Ichidan(SyllableRow::B));
    }
    assert_eq!(VerbType::parse_general("サ行変格").unwrap(), VerbType::Suru);
    assert_eq!(VerbType::parse_general("文語サ行変格").unwrap(), VerbType::Suru);
    assert_eq!(VerbType::parse_general("カ行変格").unwrap(), VerbType::Kuru);
    assert_eq!(VerbType::parse_general("ラ行変格").unwrap(), VerbType::IrregRu);
    assert_eq!(VerbType::parse_general("文語ラ行変格").unwrap(), VerbType::IrregRu);
    assert_eq!(VerbType::parse_general("ナ行変格").unwrap(), VerbType::IrregNu);
    assert_eq!(VerbType::parse_general("文語ナ行変格").unwrap(), VerbType::IrregNu);
}

#[test]
fn verb_group_aliases_agree() {
    let plain = VerbType::parse_general("五段-ラ行").unwrap();
    let written = VerbType::parse_general("文語四段-ラ行").unwrap();
    assert_eq!(plain, written);
    let plain = VerbType::parse_general("一段-マ行").unwrap();
    let written = VerbType::parse_general("上一段-マ行").unwrap();
    assert_eq!(plain, written);
}

#[test]
fn verb_group_unknown_is_reported() {
    let err = VerbType::parse_general("四段-ラ行").unwrap_err();
    assert_eq!(err.dimension, Dimension::VerbGroup);
    assert_eq!(err.tag, "四段");
}

#[test]
fn verb_row_failure_is_an_error_even_when_group_resolved() {
    let err = VerbType::parse_general("五段-ヴ行").unwrap_err();
    assert_eq!(err.dimension, Dimension::SyllableRow);
    assert_eq!(err.tag, "ヴ行");
    let err = VerbType::parse_general("五段").unwrap_err();
    assert_eq!(err.dimension, Dimension::SyllableRow);
    assert_eq!(err.tag, "");
}

#[test]
fn auxiliary_verb_keeps_raw_suffix() {
    let got = VerbType::try_from(&fields("助動詞,*,*,*,助動詞-タ,終止形")).unwrap();
    assert_eq!(got, VerbType::Auxilary(String::from("タ")));
}

#[test]
fn main_verb_resolves_group() {
    let got = VerbType::try_from(&fields("動詞,*,*,*,五段-ラ行,終止形")).unwrap();
    assert_eq!(got, VerbType::Godan(SyllableRow::R));
}

#[test]
fn verb_type_rejects_other_word_classes() {
    let err = VerbType::try_from(&fields("名詞,*,*,*,五段-ラ行")).unwrap_err();
    assert_eq!(err.dimension, Dimension::Verb);
    assert_eq!(err.tag, "名詞");
}

#[test]
fn word_classes_without_subtype() {
    let cases = [
        ("代名詞", WordClass::Pronoun),
        ("感動詞", WordClass::Interjection),
        ("補助記号", WordClass::Symbol),
        ("記号", WordClass::Symbol),
        ("接続詞", WordClass::Conjungtion),
        ("接尾辞", WordClass::Suffix),
        ("接頭辞", WordClass::Prefix),
        ("副詞", WordClass::Adverb),
        ("連体詞", WordClass::PreNoun),
    ];
    for (tag, expected) in cases {
        let feature = format!("{},*,*,*,*,*", tag);
        let got = WordClass::try_from(&fields(&feature)).unwrap();
        assert_eq!(got, expected);
    }
}

#[test]
fn word_classes_with_subtype() {
    let got = WordClass::try_from(&fields("助詞,格助詞")).unwrap();
    assert_eq!(got, WordClass::Particle(ParticleType::CaseMaking));
    let got = WordClass::try_from(&fields("形容詞,一般")).unwrap();
    assert_eq!(got, WordClass::Adjective(AdjectiveType::I));
    let got = WordClass::try_from(&fields("形状詞,一般")).unwrap();
    assert_eq!(got, WordClass::Adjective(AdjectiveType::Na));
    let got = WordClass::try_from(&fields("名詞,数詞")).unwrap();
    assert_eq!(got, WordClass::Noun(NounType::Numeral));
    let got = WordClass::try_from(&fields("動詞,*,*,*,一段-カ行")).unwrap();
    assert_eq!(got, WordClass::Verb(VerbType::Ichidan(SyllableRow::K)));
    let got = WordClass::try_from(&fields("助動詞,*,*,*,助動詞-ダ")).unwrap();
    assert_eq!(got, WordClass::Verb(VerbType::Auxilary(String::from("ダ"))));
}

#[test]
fn word_class_unknown_is_reported() {
    let err = WordClass::try_from(&fields("助数詞,*")).unwrap_err();
    assert_eq!(err.dimension, Dimension::WordClass);
    assert_eq!(err.tag, "助数詞");
}

#[test]
fn word_class_subtype_failure_propagates() {
    let err = WordClass::try_from(&fields("名詞,助数詞可能")).unwrap_err();
    assert_eq!(err.dimension, Dimension::Noun);
    assert_eq!(err.tag, "助数詞可能");
}

#[test]
fn conjugation_forms_known() {
    let cases = [
        ("*", ConjungationForm::Absent),
        ("終止形", ConjungationForm::Plain),
        ("命令形", ConjungationForm::Imperative),
        ("未然形", ConjungationForm::Negative),
        ("連体形", ConjungationForm::Attributive),
        ("連用形", ConjungationForm::Continuous),
        ("仮定形", ConjungationForm::Conditional),
        ("語幹", ConjungationForm::Stem),
        ("已然形", ConjungationForm::Realis),
        ("ク語法", ConjungationForm::Kugohou),
    ];
    for (tag, expected) in cases {
        let feature = format!("動詞,*,*,*,五段-ラ行,{}-一般", tag);
        let got = ConjungationForm::try_from(&fields(&feature)).unwrap();
        assert_eq!(got, expected);
    }
}

#[test]
fn volitional_written_form_normalizes_to_absent() {
    let got = ConjungationForm::try_from(&fields("動詞,*,*,*,五段-ラ行,意志推量形")).unwrap();
    assert_eq!(got, ConjungationForm::Absent);
}

#[test]
fn conjugation_form_unknown_is_reported() {
    let err = ConjungationForm::try_from(&fields("動詞,*,*,*,五段-ラ行,連結形")).unwrap_err();
    assert_eq!(err.dimension, Dimension::ConjungationForm);
    assert_eq!(err.tag, "連結形");
}

#[test]
fn conjugation_kind_is_always_the_sentinel() {
    let got = ConjungationKind::try_from(&fields("動詞,*,*,*,五段-ラ行,終止形")).unwrap();
    assert_eq!(got, ConjungationKind::Sentinel);
    let got = ConjungationKind::try_from(&fields("名詞,数詞")).unwrap();
    assert_eq!(got, ConjungationKind::Sentinel);
}

#[test]
fn origin_markers() {
    assert_eq!(Origin::from_string("漢"), Some(Origin::China));
    assert_eq!(Origin::from_string("和"), Some(Origin::Japan));
    assert_eq!(Origin::from_string("外"), None);
    assert_eq!(Origin::from_string(""), None);
}
