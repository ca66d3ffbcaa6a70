//! The composite classifier: one feature tuple plus its surface and offset
//! become one immutable, fully typed morpheme.
//!
//! The mandatory dimensions fail fast on the first unrecognized tag; the
//! optional positions default instead of failing: the origin marker to no
//! origin, the metadata strings to empty strings.

use vstd::prelude::*;

use crate::conjugation::Conjungation;
use crate::conjugation::ConjungationForm;
use crate::conjugation::ConjungationKind;
use crate::conjugation::spec_conjungation_form;
use crate::error::UnrecognizedTag;
use crate::error::UnrecognizedTagV;
use crate::origin::Origin;
use crate::origin::spec_origin;
use crate::split::spec_field;
use crate::split::spec_split;
use crate::split::split_on_char;
use crate::split::str_or_empty;
use crate::word_class::WordClass;
use crate::word_class::WordClassV;
use crate::word_class::spec_word_class;

verus! {

/// One tagger output item, as plain values: the surface text the morpheme
/// spans, its offset in the input, and its raw feature string.
#[derive(Clone, Debug, PartialEq)]
pub struct RawMorpheme {
    pub surface: String,
    pub start: usize,
    pub feature: String,
}

/// The mathematical value of a [`RawMorpheme`].
pub struct RawMorphemeV {
    pub surface: Seq<char>,
    pub start: usize,
    pub feature: Seq<char>,
}

impl View for RawMorpheme {
    type V = RawMorphemeV;

    open spec fn view(&self) -> RawMorphemeV {
        RawMorphemeV { surface: self.surface@, start: self.start, feature: self.feature@ }
    }
}

impl DeepView for RawMorpheme {
    type V = RawMorphemeV;

    open spec fn deep_view(&self) -> RawMorphemeV {
        self@
    }
}

/// A fully decoded morpheme.  `surface` and `start` come from the input
/// text; the remaining strings come from the dictionary.  A morpheme is
/// never mutated once built.
#[derive(Clone, Debug, PartialEq)]
pub struct Morpheme {
    pub surface: String,
    pub basic: String,
    pub word_class: WordClass,
    pub conjungation: Conjungation,
    pub origin: Option<Origin>,
    pub reading: String,
    pub lexeme: String,
    pub start: usize,
}

/// The mathematical value of a [`Morpheme`].
pub struct MorphemeV {
    pub surface: Seq<char>,
    pub basic: Seq<char>,
    pub word_class: WordClassV,
    pub conjungation: Conjungation,
    pub origin: Option<Origin>,
    pub reading: Seq<char>,
    pub lexeme: Seq<char>,
    pub start: usize,
}

impl View for Morpheme {
    type V = MorphemeV;

    open spec fn view(&self) -> MorphemeV {
        MorphemeV {
            surface: self.surface@,
            basic: self.basic@,
            word_class: self.word_class@,
            conjungation: self.conjungation,
            origin: self.origin,
            reading: self.reading@,
            lexeme: self.lexeme@,
            start: self.start,
        }
    }
}

impl DeepView for Morpheme {
    type V = MorphemeV;

    open spec fn deep_view(&self) -> MorphemeV {
        self@
    }
}

/// The morpheme one tuple decodes to: the mandatory dimensions in order,
/// word class first, then conjugation form, each failing fast; then the
/// optional positions with their defaults.
pub open spec fn spec_morpheme(surface: Seq<char>, start: usize, feature: Seq<char>) -> Result<
    MorphemeV,
    UnrecognizedTagV,
> {
    let fields = spec_split(feature, ',');
    match spec_word_class(fields) {
        Err(e) => Err(e),
        Ok(wc) => match spec_conjungation_form(fields) {
            Err(e) => Err(e),
            Ok(form) => Ok(
                MorphemeV {
                    surface,
                    basic: spec_field(fields, 6),
                    word_class: wc,
                    conjungation: Conjungation { kind: ConjungationKind::Sentinel, form },
                    origin: if fields.len() > 12 {
                        spec_origin(fields[12])
                    } else {
                        None
                    },
                    reading: spec_field(fields, 9),
                    lexeme: spec_field(fields, 10),
                    start,
                },
            ),
        },
    }
}

/// The classification of one tagger output item.
pub open spec fn spec_raw_result(r: RawMorphemeV) -> Result<MorphemeV, UnrecognizedTagV> {
    spec_morpheme(r.surface, r.start, r.feature)
}

impl Morpheme {
    /// Decodes one feature tuple, with the surface text and offset the
    /// tagger assigned to it.
    pub fn from(surface: String, start: usize, feature: &str) -> (r: Result<
        Morpheme,
        UnrecognizedTag,
    >)
        ensures
            r matches Ok(m) ==> spec_morpheme(surface@, start, feature@) == Ok::<
                MorphemeV,
                UnrecognizedTagV,
            >(m@),
            r matches Err(e) ==> spec_morpheme(surface@, start, feature@) == Err::<
                MorphemeV,
                UnrecognizedTagV,
            >(e@),
    {
        let features = split_on_char(feature, ',');

        let word_class = match WordClass::try_from(&features) {
            Ok(w) => w,
            Err(e) => return Err(e),
        };
        let conjungation_form = match ConjungationForm::try_from(&features) {
            Ok(f) => f,
            Err(e) => return Err(e),
        };
        let conjungation_kind = match ConjungationKind::try_from(&features) {
            Ok(k) => k,
            Err(e) => return Err(e),
        };

        let conjungation = Conjungation { kind: conjungation_kind, form: conjungation_form };

        let origin = if features.len() > 12 {
            Origin::from_string(features[12].as_str())
        } else {
            None
        };

        let basic = String::from_str(str_or_empty(&features, 6));
        let lexeme = String::from_str(str_or_empty(&features, 10));
        let reading = String::from_str(str_or_empty(&features, 9));

        Ok(Morpheme { surface, basic, word_class, conjungation, origin, reading, lexeme, start })
    }
}

/// The classification of a whole tagger output sequence, in order, failing
/// on the first tuple whose mandatory dimensions do not decode.
pub open spec fn spec_classify_all(raws: Seq<RawMorphemeV>) -> Result<
    Seq<MorphemeV>,
    UnrecognizedTagV,
>
    decreases raws.len(),
{
    if raws.len() == 0 {
        Ok(Seq::empty())
    } else {
        match spec_raw_result(raws[0]) {
            Err(e) => Err(e),
            Ok(m) => match spec_classify_all(raws.drop_first()) {
                Err(e) => Err(e),
                Ok(rest) => Ok(seq![m] + rest),
            },
        }
    }
}

/// Fail-fast ordering: when every item before position `k` classifies and
/// the item at `k` does not, the whole sequence reports exactly the error
/// at `k`.
pub proof fn lemma_classify_all_fail_fast(raws: Seq<RawMorphemeV>, k: int)
    requires
        0 <= k < raws.len(),
        forall|j: int| 0 <= j < k ==> spec_raw_result(raws[j]) is Ok,
        spec_raw_result(raws[k]) is Err,
    ensures
        spec_classify_all(raws) == Err::<Seq<MorphemeV>, UnrecognizedTagV>(
            spec_raw_result(raws[k])->Err_0,
        ),
    decreases k,
{
    if k == 0 {
    } else {
        assert(spec_raw_result(raws[0]) is Ok);
        let rest = raws.drop_first();
        assert(forall|j: int| 0 <= j < k - 1 ==> rest[j] == raws[j + 1]);
        assert(rest[k - 1] == raws[k]);
        lemma_classify_all_fail_fast(rest, k - 1);
    }
}

/// When every item classifies, the whole sequence classifies, in order.
pub proof fn lemma_classify_all_ok(raws: Seq<RawMorphemeV>)
    requires
        forall|j: int| 0 <= j < raws.len() ==> spec_raw_result(raws[j]) is Ok,
    ensures
        spec_classify_all(raws) matches Ok(ms) && ms.len() == raws.len() && (forall|j: int|
            0 <= j < raws.len() ==> ms[j] == spec_raw_result(raws[j])->Ok_0),
    decreases raws.len(),
{
    if raws.len() == 0 {
    } else {
        let rest = raws.drop_first();
        assert(forall|j: int| 0 <= j < rest.len() ==> rest[j] == raws[j + 1]);
        lemma_classify_all_ok(rest);
        let ms = spec_classify_all(raws)->Ok_0;
        let ms_rest = spec_classify_all(rest)->Ok_0;
        assert(ms == seq![spec_raw_result(raws[0])->Ok_0] + ms_rest);
        assert(forall|j: int| 1 <= j < raws.len() ==> ms[j] == ms_rest[j - 1]);
    }
}

/// Classifies a whole tagger output sequence, in order, returning the
/// error of the first tuple that does not decode.
pub fn classify_all(raws: &Vec<RawMorpheme>) -> (r: Result<Vec<Morpheme>, UnrecognizedTag>)
    ensures
        r matches Ok(ms) ==> spec_classify_all(raws.deep_view()) == Ok::<
            Seq<MorphemeV>,
            UnrecognizedTagV,
        >(ms.deep_view()),
        r matches Err(e) ==> spec_classify_all(raws.deep_view()) == Err::<
            Seq<MorphemeV>,
            UnrecognizedTagV,
        >(e@),
{
    let ghost rv = raws.deep_view();
    let mut out: Vec<Morpheme> = Vec::new();
    let mut i: usize = 0;
    while i < raws.len()
        invariant
            i <= raws.len(),
            rv == raws.deep_view(),
            rv.len() == raws.len(),
            out.len() == i,
            forall|j: int| 0 <= j < i ==> spec_raw_result(rv[j]) is Ok,
            forall|j: int| 0 <= j < i ==> out.deep_view()[j] == spec_raw_result(rv[j])->Ok_0,
        decreases raws.len() - i,
    {
        let raw = &raws[i];
        match Morpheme::from(raw.surface.clone(), raw.start, raw.feature.as_str()) {
            Ok(m) => {
                let ghost prev = out.deep_view();
                out.push(m);
                proof {
                    assert(out.deep_view() =~= prev.push(m@));
                    assert(spec_raw_result(rv[i as int]) == Ok::<MorphemeV, UnrecognizedTagV>(m@));
                }
            },
            Err(e) => {
                proof {
                    lemma_classify_all_fail_fast(rv, i as int);
                }
                return Err(e);
            },
        }
        i += 1;
    }
    proof {
        lemma_classify_all_ok(rv);
        assert(out.deep_view() =~= spec_classify_all(rv)->Ok_0);
    }
    Ok(out)
}

/// Classification is deterministic: any two classifications of the same
/// tuple agree exactly.
pub proof fn lemma_classification_deterministic(
    surface: Seq<char>,
    start: usize,
    feature: Seq<char>,
    r1: Result<MorphemeV, UnrecognizedTagV>,
    r2: Result<MorphemeV, UnrecognizedTagV>,
)
    requires
        r1 == spec_morpheme(surface, start, feature),
        r2 == spec_morpheme(surface, start, feature),
    ensures
        r1 == r2,
{
}

/// Success is owed exactly when the mandatory dimensions decode: the
/// optional positions never decide between success and failure.
pub proof fn lemma_morpheme_success(surface: Seq<char>, start: usize, feature: Seq<char>)
    ensures
        spec_morpheme(surface, start, feature) is Ok <==> (spec_word_class(
            spec_split(feature, ','),
        ) is Ok && spec_conjungation_form(spec_split(feature, ',')) is Ok),
{
}

/// Optional-field tolerance: a tuple without the origin position yields no
/// origin, and one without the lexeme position an empty lexeme, instead of
/// failing.
pub proof fn lemma_optional_field_tolerance(surface: Seq<char>, start: usize, feature: Seq<char>)
    ensures
        spec_split(feature, ',').len() <= 12 ==> (spec_morpheme(surface, start, feature) matches Ok(
            m,
        ) ==> m.origin is None),
        spec_split(feature, ',').len() <= 10 ==> (spec_morpheme(surface, start, feature) matches Ok(
            m,
        ) ==> m.lexeme == Seq::<char>::empty()),
{
}

/// The surface and offset of a classified morpheme are exactly the
/// caller-supplied input values, not dictionary data.
pub proof fn lemma_surface_preserved(surface: Seq<char>, start: usize, feature: Seq<char>)
    ensures
        spec_morpheme(surface, start, feature) matches Ok(m) ==> m.surface == surface && m.start
            == start,
{
}

} // verus!
