//! The word-class dimension and its subtype dimensions.
//!
//! Field 0 of the tuple selects the word class by exact, case-sensitive
//! match over a closed set of spellings; the noun, particle, adjective and
//! verb classes dispatch further into their own subtype dimensions.

use vstd::prelude::*;

use crate::error::Dimension;
use crate::error::UnrecognizedTag;
use crate::error::UnrecognizedTagV;
use crate::split::spec_field;
use crate::split::str_eq;
use crate::split::str_or_empty;
use crate::verb::VerbType;
use crate::verb::VerbTypeV;
use crate::verb::spec_verb_type;

verus! {

/// The subtype of a noun.
#[derive(Clone, Copy, Debug, PartialEq, Eq, Structural)]
pub enum NounType {
    Common,
    Proper,
    Numeral,
}

/// The subtype of a particle.
#[derive(Clone, Copy, Debug, PartialEq, Eq, Structural)]
pub enum ParticleType {
    Connecting,
    SentenceEnding,
    CaseMaking,
    Conjungtion,
    Adverbial,
    Nominalizing,
}

/// The subtype of an adjective: I-type or Na-type.
#[derive(Clone, Copy, Debug, PartialEq, Eq, Structural)]
pub enum AdjectiveType {
    I,
    Na,
}

/// The top-level part-of-speech category of a morpheme.
#[derive(Clone, Debug, PartialEq)]
pub enum WordClass {
    Particle(ParticleType),
    Verb(VerbType),
    Adjective(AdjectiveType),
    Adverb,
    Noun(NounType),
    Pronoun,
    Interjection,
    Symbol,
    Conjungtion,
    Suffix,
    Prefix,
    PreNoun,
}

/// The mathematical value of a [`WordClass`].
pub enum WordClassV {
    Particle(ParticleType),
    Verb(VerbTypeV),
    Adjective(AdjectiveType),
    Adverb,
    Noun(NounType),
    Pronoun,
    Interjection,
    Symbol,
    Conjungtion,
    Suffix,
    Prefix,
    PreNoun,
}

impl View for WordClass {
    type V = WordClassV;

    open spec fn view(&self) -> WordClassV {
        match self {
            WordClass::Particle(p) => WordClassV::Particle(*p),
            WordClass::Verb(v) => WordClassV::Verb(v@),
            WordClass::Adjective(a) => WordClassV::Adjective(*a),
            WordClass::Adverb => WordClassV::Adverb,
            WordClass::Noun(n) => WordClassV::Noun(*n),
            WordClass::Pronoun => WordClassV::Pronoun,
            WordClass::Interjection => WordClassV::Interjection,
            WordClass::Symbol => WordClassV::Symbol,
            WordClass::Conjungtion => WordClassV::Conjungtion,
            WordClass::Suffix => WordClassV::Suffix,
            WordClass::Prefix => WordClassV::Prefix,
            WordClass::PreNoun => WordClassV::PreNoun,
        }
    }
}

impl DeepView for WordClass {
    type V = WordClassV;

    open spec fn deep_view(&self) -> WordClassV {
        self@
    }
}

/// The noun subtype of a tuple, read from field 1.
pub open spec fn spec_noun_type(fields: Seq<Seq<char>>) -> Result<NounType, UnrecognizedTagV> {
    let t = spec_field(fields, 1);
    if t == "普通名詞"@ {
        Ok(NounType::Common)
    } else if t == "固有名詞"@ {
        Ok(NounType::Proper)
    } else if t == "数詞"@ {
        Ok(NounType::Numeral)
    } else {
        Err(UnrecognizedTagV { dimension: Dimension::Noun, tag: t })
    }
}

/// The particle subtype of a tuple, read from field 1.
pub open spec fn spec_particle_type(fields: Seq<Seq<char>>) -> Result<
    ParticleType,
    UnrecognizedTagV,
> {
    let t = spec_field(fields, 1);
    if t == "係助詞"@ {
        Ok(ParticleType::Connecting)
    } else if t == "終助詞"@ {
        Ok(ParticleType::SentenceEnding)
    } else if t == "格助詞"@ {
        Ok(ParticleType::CaseMaking)
    } else if t == "接続助詞"@ {
        Ok(ParticleType::Conjungtion)
    } else if t == "副助詞"@ {
        Ok(ParticleType::Adverbial)
    } else if t == "準体助詞"@ {
        Ok(ParticleType::Nominalizing)
    } else {
        Err(UnrecognizedTagV { dimension: Dimension::Particle, tag: t })
    }
}

/// The adjective subtype of a tuple: field 0 itself carries it, one
/// spelling for the I-type and one for the Na-type.
pub open spec fn spec_adjective_type(fields: Seq<Seq<char>>) -> Result<
    AdjectiveType,
    UnrecognizedTagV,
> {
    let t = spec_field(fields, 0);
    if t == "形容詞"@ {
        Ok(AdjectiveType::I)
    } else if t == "形状詞"@ {
        Ok(AdjectiveType::Na)
    } else {
        Err(UnrecognizedTagV { dimension: Dimension::Adjective, tag: t })
    }
}

/// The word class of a tuple, read from field 0 with subtype dispatch.
pub open spec fn spec_word_class(fields: Seq<Seq<char>>) -> Result<WordClassV, UnrecognizedTagV> {
    let t0 = spec_field(fields, 0);
    if t0 == "助詞"@ {
        match spec_particle_type(fields) {
            Ok(p) => Ok(WordClassV::Particle(p)),
            Err(e) => Err(e),
        }
    } else if t0 == "形容詞"@ || t0 == "形状詞"@ {
        match spec_adjective_type(fields) {
            Ok(a) => Ok(WordClassV::Adjective(a)),
            Err(e) => Err(e),
        }
    } else if t0 == "助動詞"@ || t0 == "動詞"@ {
        match spec_verb_type(fields) {
            Ok(v) => Ok(WordClassV::Verb(v)),
            Err(e) => Err(e),
        }
    } else if t0 == "代名詞"@ {
        Ok(WordClassV::Pronoun)
    } else if t0 == "感動詞"@ {
        Ok(WordClassV::Interjection)
    } else if t0 == "補助記号"@ || t0 == "記号"@ {
        Ok(WordClassV::Symbol)
    } else if t0 == "接続詞"@ {
        Ok(WordClassV::Conjungtion)
    } else if t0 == "接尾辞"@ {
        Ok(WordClassV::Suffix)
    } else if t0 == "接頭辞"@ {
        Ok(WordClassV::Prefix)
    } else if t0 == "副詞"@ {
        Ok(WordClassV::Adverb)
    } else if t0 == "名詞"@ {
        match spec_noun_type(fields) {
            Ok(n) => Ok(WordClassV::Noun(n)),
            Err(e) => Err(e),
        }
    } else if t0 == "連体詞"@ {
        Ok(WordClassV::PreNoun)
    } else {
        Err(UnrecognizedTagV { dimension: Dimension::WordClass, tag: t0 })
    }
}

impl NounType {
    /// Decodes the noun subtype of a tuple.
    pub fn try_from(value: &Vec<String>) -> (r: Result<NounType, UnrecognizedTag>)
        ensures
            r matches Ok(n) ==> spec_noun_type(value.deep_view()) == Ok::<
                NounType,
                UnrecognizedTagV,
            >(n),
            r matches Err(e) ==> spec_noun_type(value.deep_view()) == Err::<
                NounType,
                UnrecognizedTagV,
            >(e@),
    {
        let t = str_or_empty(value, 1);
        if str_eq(t, "普通名詞") {
            Ok(NounType::Common)
        } else if str_eq(t, "固有名詞") {
            Ok(NounType::Proper)
        } else if str_eq(t, "数詞") {
            Ok(NounType::Numeral)
        } else {
            Err(UnrecognizedTag { dimension: Dimension::Noun, tag: String::from_str(t) })
        }
    }
}

impl ParticleType {
    /// Decodes the particle subtype of a tuple.
    pub fn try_from(value: &Vec<String>) -> (r: Result<ParticleType, UnrecognizedTag>)
        ensures
            r matches Ok(p) ==> spec_particle_type(value.deep_view()) == Ok::<
                ParticleType,
                UnrecognizedTagV,
            >(p),
            r matches Err(e) ==> spec_particle_type(value.deep_view()) == Err::<
                ParticleType,
                UnrecognizedTagV,
            >(e@),
    {
        let t = str_or_empty(value, 1);
        if str_eq(t, "係助詞") {
            Ok(ParticleType::Connecting)
        } else if str_eq(t, "終助詞") {
            Ok(ParticleType::SentenceEnding)
        } else if str_eq(t, "格助詞") {
            Ok(ParticleType::CaseMaking)
        } else if str_eq(t, "接続助詞") {
            Ok(ParticleType::Conjungtion)
        } else if str_eq(t, "副助詞") {
            Ok(ParticleType::Adverbial)
        } else if str_eq(t, "準体助詞") {
            Ok(ParticleType::Nominalizing)
        } else {
            Err(UnrecognizedTag { dimension: Dimension::Particle, tag: String::from_str(t) })
        }
    }
}

impl AdjectiveType {
    /// Decodes the adjective subtype of a tuple.
    pub fn try_from(value: &Vec<String>) -> (r: Result<AdjectiveType, UnrecognizedTag>)
        ensures
            r matches Ok(a) ==> spec_adjective_type(value.deep_view()) == Ok::<
                AdjectiveType,
                UnrecognizedTagV,
            >(a),
            r matches Err(e) ==> spec_adjective_type(value.deep_view()) == Err::<
                AdjectiveType,
                UnrecognizedTagV,
            >(e@),
    {
        let t = str_or_empty(value, 0);
        if str_eq(t, "形容詞") {
            Ok(AdjectiveType::I)
        } else if str_eq(t, "形状詞") {
            Ok(AdjectiveType::Na)
        } else {
            Err(UnrecognizedTag { dimension: Dimension::Adjective, tag: String::from_str(t) })
        }
    }
}

impl WordClass {
    /// Decodes the word class of a tuple, dispatching into the subtype
    /// dimension the class requires.
    pub fn try_from(value: &Vec<String>) -> (r: Result<WordClass, UnrecognizedTag>)
        ensures
            r matches Ok(w) ==> spec_word_class(value.deep_view()) == Ok::<
                WordClassV,
                UnrecognizedTagV,
            >(w@),
            r matches Err(e) ==> spec_word_class(value.deep_view()) == Err::<
                WordClassV,
                UnrecognizedTagV,
            >(e@),
    {
        let t0 = str_or_empty(value, 0);
        if str_eq(t0, "助詞") {
            match ParticleType::try_from(value) {
                Ok(p) => Ok(WordClass::Particle(p)),
                Err(e) => Err(e),
            }
        } else if str_eq(t0, "形容詞") || str_eq(t0, "形状詞") {
            match AdjectiveType::try_from(value) {
                Ok(a) => Ok(WordClass::Adjective(a)),
                Err(e) => Err(e),
            }
        } else if str_eq(t0, "助動詞") || str_eq(t0, "動詞") {
            match VerbType::try_from(value) {
                Ok(v) => Ok(WordClass::Verb(v)),
                Err(e) => Err(e),
            }
        } else if str_eq(t0, "代名詞") {
            Ok(WordClass::Pronoun)
        } else if str_eq(t0, "感動詞") {
            Ok(WordClass::Interjection)
        } else if str_eq(t0, "補助記号") || str_eq(t0, "記号") {
            Ok(WordClass::Symbol)
        } else if str_eq(t0, "接続詞") {
            Ok(WordClass::Conjungtion)
        } else if str_eq(t0, "接尾辞") {
            Ok(WordClass::Suffix)
        } else if str_eq(t0, "接頭辞") {
            Ok(WordClass::Prefix)
        } else if str_eq(t0, "副詞") {
            Ok(WordClass::Adverb)
        } else if str_eq(t0, "名詞") {
            match NounType::try_from(value) {
                Ok(n) => Ok(WordClass::Noun(n)),
                Err(e) => Err(e),
            }
        } else if str_eq(t0, "連体詞") {
            Ok(WordClass::PreNoun)
        } else {
            Err(UnrecognizedTag { dimension: Dimension::WordClass, tag: String::from_str(t0) })
        }
    }
}

/// The spellings of the word-class enumeration.
pub open spec fn is_known_word_class(t: Seq<char>) -> bool {
    ||| t == "助詞"@
    ||| t == "形容詞"@
    ||| t == "形状詞"@
    ||| t == "助動詞"@
    ||| t == "動詞"@
    ||| t == "代名詞"@
    ||| t == "感動詞"@
    ||| t == "補助記号"@
    ||| t == "記号"@
    ||| t == "接続詞"@
    ||| t == "接尾辞"@
    ||| t == "接頭辞"@
    ||| t == "副詞"@
    ||| t == "名詞"@
    ||| t == "連体詞"@
}

/// Pins the word-class literals apart.
proof fn lemma_word_class_literals()
    ensures
        "助詞"@[0] == '助',
        "形容詞"@[0] == '形',
        "形状詞"@[0] == '形',
        "助動詞"@[0] == '助',
        "動詞"@[0] == '動',
        "代名詞"@[0] == '代',
        "感動詞"@[0] == '感',
        "補助記号"@[0] == '補',
        "記号"@[0] == '記',
        "接続詞"@[0] == '接',
        "接尾辞"@[0] == '接',
        "接頭辞"@[0] == '接',
        "副詞"@[0] == '副',
        "名詞"@[0] == '名',
        "連体詞"@[0] == '連',
        "形容詞"@[1] == '容',
        "形状詞"@[1] == '状',
        "接続詞"@[1] == '続',
        "接尾辞"@[1] == '尾',
        "接頭辞"@[1] == '頭',
        "助詞"@.len() == 2,
        "動詞"@.len() == 2,
        "記号"@.len() == 2,
        "副詞"@.len() == 2,
        "名詞"@.len() == 2,
        "形容詞"@.len() == 3,
        "形状詞"@.len() == 3,
        "助動詞"@.len() == 3,
        "代名詞"@.len() == 3,
        "感動詞"@.len() == 3,
        "接続詞"@.len() == 3,
        "接尾辞"@.len() == 3,
        "接頭辞"@.len() == 3,
        "連体詞"@.len() == 3,
        "補助記号"@.len() == 4,
{
    reveal_strlit("助詞");
    reveal_strlit("形容詞");
    reveal_strlit("形状詞");
    reveal_strlit("助動詞");
    reveal_strlit("動詞");
    reveal_strlit("代名詞");
    reveal_strlit("感動詞");
    reveal_strlit("補助記号");
    reveal_strlit("記号");
    reveal_strlit("接続詞");
    reveal_strlit("接尾辞");
    reveal_strlit("接頭辞");
    reveal_strlit("副詞");
    reveal_strlit("名詞");
    reveal_strlit("連体詞");
}

/// Closed-enumeration coverage of the word-class dimension: a field-0
/// spelling outside the enumeration is reported as unrecognized under this
/// dimension; each spelling inside it selects its documented variant, with
/// the subtype-carrying classes conditioned on their own dimension.
pub proof fn lemma_word_class_closed(fields: Seq<Seq<char>>)
    ensures
        !is_known_word_class(spec_field(fields, 0)) ==> spec_word_class(fields) == Err::<
            WordClassV,
            UnrecognizedTagV,
        >(UnrecognizedTagV { dimension: Dimension::WordClass, tag: spec_field(fields, 0) }),
        spec_field(fields, 0) == "助詞"@ ==> spec_word_class(fields) == (match spec_particle_type(
            fields,
        ) {
            Ok(p) => Ok::<WordClassV, UnrecognizedTagV>(WordClassV::Particle(p)),
            Err(e) => Err(e),
        }),
        (spec_field(fields, 0) == "形容詞"@ || spec_field(fields, 0) == "形状詞"@) ==>
            spec_word_class(fields) == (match spec_adjective_type(fields) {
            Ok(a) => Ok::<WordClassV, UnrecognizedTagV>(WordClassV::Adjective(a)),
            Err(e) => Err(e),
        }),
        (spec_field(fields, 0) == "助動詞"@ || spec_field(fields, 0) == "動詞"@) ==>
            spec_word_class(fields) == (match spec_verb_type(fields) {
            Ok(v) => Ok::<WordClassV, UnrecognizedTagV>(WordClassV::Verb(v)),
            Err(e) => Err(e),
        }),
        spec_field(fields, 0) == "代名詞"@ ==> spec_word_class(fields) == Ok::<
            WordClassV,
            UnrecognizedTagV,
        >(WordClassV::Pronoun),
        spec_field(fields, 0) == "感動詞"@ ==> spec_word_class(fields) == Ok::<
            WordClassV,
            UnrecognizedTagV,
        >(WordClassV::Interjection),
        (spec_field(fields, 0) == "補助記号"@ || spec_field(fields, 0) == "記号"@) ==>
            spec_word_class(fields) == Ok::<WordClassV, UnrecognizedTagV>(WordClassV::Symbol),
        spec_field(fields, 0) == "接続詞"@ ==> spec_word_class(fields) == Ok::<
            WordClassV,
            UnrecognizedTagV,
        >(WordClassV::Conjungtion),
        spec_field(fields, 0) == "接尾辞"@ ==> spec_word_class(fields) == Ok::<
            WordClassV,
            UnrecognizedTagV,
        >(WordClassV::Suffix),
        spec_field(fields, 0) == "接頭辞"@ ==> spec_word_class(fields) == Ok::<
            WordClassV,
            UnrecognizedTagV,
        >(WordClassV::Prefix),
        spec_field(fields, 0) == "副詞"@ ==> spec_word_class(fields) == Ok::<
            WordClassV,
            UnrecognizedTagV,
        >(WordClassV::Adverb),
        spec_field(fields, 0) == "名詞"@ ==> spec_word_class(fields) == (match spec_noun_type(
            fields,
        ) {
            Ok(n) => Ok::<WordClassV, UnrecognizedTagV>(WordClassV::Noun(n)),
            Err(e) => Err(e),
        }),
        spec_field(fields, 0) == "連体詞"@ ==> spec_word_class(fields) == Ok::<
            WordClassV,
            UnrecognizedTagV,
        >(WordClassV::PreNoun),
{
    lemma_word_class_literals();
}

/// Closed-enumeration coverage of the noun subtype dimension.
pub proof fn lemma_noun_type_closed(fields: Seq<Seq<char>>)
    ensures
        spec_field(fields, 1) == "普通名詞"@ ==> spec_noun_type(fields) == Ok::<
            NounType,
            UnrecognizedTagV,
        >(NounType::Common),
        spec_field(fields, 1) == "固有名詞"@ ==> spec_noun_type(fields) == Ok::<
            NounType,
            UnrecognizedTagV,
        >(NounType::Proper),
        spec_field(fields, 1) == "数詞"@ ==> spec_noun_type(fields) == Ok::<
            NounType,
            UnrecognizedTagV,
        >(NounType::Numeral),
        !(spec_field(fields, 1) == "普通名詞"@ || spec_field(fields, 1) == "固有名詞"@
            || spec_field(fields, 1) == "数詞"@) ==> spec_noun_type(fields) == Err::<
            NounType,
            UnrecognizedTagV,
        >(UnrecognizedTagV { dimension: Dimension::Noun, tag: spec_field(fields, 1) }),
{
    reveal_strlit("普通名詞");
    reveal_strlit("固有名詞");
    reveal_strlit("数詞");
    assert("普通名詞"@[0] == '普');
    assert("固有名詞"@[0] == '固');
    assert("数詞"@[0] == '数');
    assert("数詞"@.len() == 2);
    assert("普通名詞"@.len() == 4);
    assert("固有名詞"@.len() == 4);
}

/// Closed-enumeration coverage of the particle subtype dimension.
pub proof fn lemma_particle_type_closed(fields: Seq<Seq<char>>)
    ensures
        spec_field(fields, 1) == "係助詞"@ ==> spec_particle_type(fields) == Ok::<
            ParticleType,
            UnrecognizedTagV,
        >(ParticleType::Connecting),
        spec_field(fields, 1) == "終助詞"@ ==> spec_particle_type(fields) == Ok::<
            ParticleType,
            UnrecognizedTagV,
        >(ParticleType::SentenceEnding),
        spec_field(fields, 1) == "格助詞"@ ==> spec_particle_type(fields) == Ok::<
            ParticleType,
            UnrecognizedTagV,
        >(ParticleType::CaseMaking),
        spec_field(fields, 1) == "接続助詞"@ ==> spec_particle_type(fields) == Ok::<
            ParticleType,
            UnrecognizedTagV,
        >(ParticleType::Conjungtion),
        spec_field(fields, 1) == "副助詞"@ ==> spec_particle_type(fields) == Ok::<
            ParticleType,
            UnrecognizedTagV,
        >(ParticleType::Adverbial),
        spec_field(fields, 1) == "準体助詞"@ ==> spec_particle_type(fields) == Ok::<
            ParticleType,
            UnrecognizedTagV,
        >(ParticleType::Nominalizing),
        !(spec_field(fields, 1) == "係助詞"@ || spec_field(fields, 1) == "終助詞"@ || spec_field(
            fields,
            1,
        ) == "格助詞"@ || spec_field(fields, 1) == "接続助詞"@ || spec_field(fields, 1)
            == "副助詞"@ || spec_field(fields, 1) == "準体助詞"@) ==> spec_particle_type(fields)
            == Err::<ParticleType, UnrecognizedTagV>(
            UnrecognizedTagV { dimension: Dimension::Particle, tag: spec_field(fields, 1) },
        ),
{
    reveal_strlit("係助詞");
    reveal_strlit("終助詞");
    reveal_strlit("格助詞");
    reveal_strlit("接続助詞");
    reveal_strlit("副助詞");
    reveal_strlit("準体助詞");
    assert("係助詞"@[0] == '係');
    assert("終助詞"@[0] == '終');
    assert("格助詞"@[0] == '格');
    assert("接続助詞"@[0] == '接');
    assert("副助詞"@[0] == '副');
    assert("準体助詞"@[0] == '準');
}

/// Closed-enumeration coverage of the adjective subtype dimension: the two
/// spellings select the I-type and the Na-type.
pub proof fn lemma_adjective_type_closed(fields: Seq<Seq<char>>)
    ensures
        spec_field(fields, 0) == "形容詞"@ ==> spec_adjective_type(fields) == Ok::<
            AdjectiveType,
            UnrecognizedTagV,
        >(AdjectiveType::I),
        spec_field(fields, 0) == "形状詞"@ ==> spec_adjective_type(fields) == Ok::<
            AdjectiveType,
            UnrecognizedTagV,
        >(AdjectiveType::Na),
        !(spec_field(fields, 0) == "形容詞"@ || spec_field(fields, 0) == "形状詞"@) ==>
            spec_adjective_type(fields) == Err::<AdjectiveType, UnrecognizedTagV>(
            UnrecognizedTagV { dimension: Dimension::Adjective, tag: spec_field(fields, 0) },
        ),
{
    reveal_strlit("形容詞");
    reveal_strlit("形状詞");
    assert("形容詞"@[1] == '容');
    assert("形状詞"@[1] == '状');
}

} // verus!
