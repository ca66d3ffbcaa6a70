//! Classification of Japanese morpheme feature tuples.
//!
//! A morphological tagger emits, for every morpheme, a comma-separated
//! feature string.  This crate decodes such a tuple into a typed
//! grammatical model: word class, conjugation, syllable row and
//! etymological origin, failing explicitly on any unrecognized tag.

mod conjugation;
mod error;
mod morpheme;
mod origin;
mod split;
mod verb;
mod word_class;

pub use conjugation::Conjungation;
pub use conjugation::ConjungationForm;
pub use conjugation::ConjungationKind;
pub use conjugation::is_known_conjungation_form_tag;
pub use conjugation::lemma_conjungation_form_closed;
pub use conjugation::spec_conjungation_form;
pub use conjugation::spec_conjungation_form_tag;
pub use error::Dimension;
pub use error::UnrecognizedTag;
pub use error::UnrecognizedTagV;
pub use morpheme::Morpheme;
pub use morpheme::MorphemeV;
pub use morpheme::RawMorpheme;
pub use morpheme::RawMorphemeV;
pub use morpheme::classify_all;
pub use morpheme::lemma_classification_deterministic;
pub use morpheme::lemma_classify_all_fail_fast;
pub use morpheme::lemma_classify_all_ok;
pub use morpheme::lemma_morpheme_success;
pub use morpheme::lemma_optional_field_tolerance;
pub use morpheme::lemma_surface_preserved;
pub use morpheme::spec_classify_all;
pub use morpheme::spec_morpheme;
pub use morpheme::spec_raw_result;
pub use origin::Origin;
pub use origin::lemma_origin_closed;
pub use origin::spec_origin;
pub use split::spec_field;
pub use split::spec_split;
pub use split::spec_split_type;
pub use split::split_on_char;
pub use split::split_type;
pub use split::str_eq;
pub use split::str_or_empty;
pub use verb::SyllableRow;
pub use verb::VerbType;
pub use verb::VerbTypeV;
pub use verb::is_godan_group;
pub use verb::is_ichidan_group;
pub use verb::is_irreg_nu_group;
pub use verb::is_irreg_ru_group;
pub use verb::is_known_syllable_row;
pub use verb::is_kuru_group;
pub use verb::is_suru_group;
pub use verb::lemma_syllable_row_closed;
pub use verb::lemma_verb_group_aliasing;
pub use verb::lemma_verb_group_closed;
pub use verb::spec_parse_general;
pub use verb::spec_syllable_row;
pub use verb::spec_verb_group;
pub use verb::spec_verb_type;
pub use word_class::AdjectiveType;
pub use word_class::NounType;
pub use word_class::ParticleType;
pub use word_class::WordClass;
pub use word_class::WordClassV;
pub use word_class::is_known_word_class;
pub use word_class::lemma_adjective_type_closed;
pub use word_class::lemma_noun_type_closed;
pub use word_class::lemma_particle_type_closed;
pub use word_class::lemma_word_class_closed;
pub use word_class::spec_adjective_type;
pub use word_class::spec_noun_type;
pub use word_class::spec_particle_type;
pub use word_class::spec_word_class;
