//! The conjugation pair of a morpheme: a kind and a form.
//!
//! The kind dimension is reserved by the schema: every tuple resolves to its
//! single sentinel value.  The form dimension reads the group half of the
//! composite field at position 5 against a closed enumeration of spellings;
//! one rare volitional written-form spelling is deliberately normalized to
//! the absent form instead of being rejected.

use vstd::prelude::*;

use crate::error::Dimension;
use crate::error::UnrecognizedTag;
use crate::error::UnrecognizedTagV;
use crate::split::spec_field;
use crate::split::spec_split_type;
use crate::split::split_type;
use crate::split::str_eq;
use crate::split::str_or_empty;

verus! {

/// The conjugation of a morpheme.
#[derive(Clone, Copy, Debug, PartialEq, Eq, Structural)]
pub struct Conjungation {
    pub kind: ConjungationKind,
    pub form: ConjungationForm,
}

/// The conjugation kind.  The schema reserves this dimension; no tag value
/// discriminates it yet, so every tuple resolves to the sentinel.
#[derive(Clone, Copy, Debug, PartialEq, Eq, Structural)]
pub enum ConjungationKind {
    Sentinel,
}

/// The inflectional form a token appears in.
#[derive(Clone, Copy, Debug, PartialEq, Eq, Structural)]
pub enum ConjungationForm {
    Absent,
    Plain,
    Imperative,
    Negative,
    Attributive,
    Continuous,
    Conditional,
    Stem,
    Realis,
    Kugohou,
}

/// The form a conjugation-form tag spelling decodes to.  The volitional
/// written-form spelling is normalized to the absent form on purpose.
pub open spec fn spec_conjungation_form_tag(t: Seq<char>) -> Result<
    ConjungationForm,
    UnrecognizedTagV,
> {
    if t == "*"@ {
        Ok(ConjungationForm::Absent)
    } else if t == "終止形"@ {
        Ok(ConjungationForm::Plain)
    } else if t == "命令形"@ {
        Ok(ConjungationForm::Imperative)
    } else if t == "未然形"@ {
        Ok(ConjungationForm::Negative)
    } else if t == "連体形"@ {
        Ok(ConjungationForm::Attributive)
    } else if t == "連用形"@ {
        Ok(ConjungationForm::Continuous)
    } else if t == "仮定形"@ {
        Ok(ConjungationForm::Conditional)
    } else if t == "語幹"@ {
        Ok(ConjungationForm::Stem)
    } else if t == "已然形"@ {
        Ok(ConjungationForm::Realis)
    } else if t == "意志推量形"@ {
        Ok(ConjungationForm::Absent)
    } else if t == "ク語法"@ {
        Ok(ConjungationForm::Kugohou)
    } else {
        Err(UnrecognizedTagV { dimension: Dimension::ConjungationForm, tag: t })
    }
}

/// The conjugation form of a tuple: the group half of the composite field at
/// position 5, decoded against the closed enumeration.
pub open spec fn spec_conjungation_form(fields: Seq<Seq<char>>) -> Result<
    ConjungationForm,
    UnrecognizedTagV,
> {
    spec_conjungation_form_tag(spec_split_type(spec_field(fields, 5)).0)
}

impl ConjungationForm {
    /// Decodes the conjugation form of a tuple.
    pub fn try_from(value: &Vec<String>) -> (r: Result<ConjungationForm, UnrecognizedTag>)
        ensures
            r matches Ok(f) ==> spec_conjungation_form(value.deep_view())
                == Ok::<ConjungationForm, UnrecognizedTagV>(f),
            r matches Err(e) ==> spec_conjungation_form(value.deep_view())
                == Err::<ConjungationForm, UnrecognizedTagV>(e@),
    {
        let pair = split_type(str_or_empty(value, 5));
        let t = pair.0.as_str();
        if str_eq(t, "*") {
            Ok(ConjungationForm::Absent)
        } else if str_eq(t, "終止形") {
            Ok(ConjungationForm::Plain)
        } else if str_eq(t, "命令形") {
            Ok(ConjungationForm::Imperative)
        } else if str_eq(t, "未然形") {
            Ok(ConjungationForm::Negative)
        } else if str_eq(t, "連体形") {
            Ok(ConjungationForm::Attributive)
        } else if str_eq(t, "連用形") {
            Ok(ConjungationForm::Continuous)
        } else if str_eq(t, "仮定形") {
            Ok(ConjungationForm::Conditional)
        } else if str_eq(t, "語幹") {
            Ok(ConjungationForm::Stem)
        } else if str_eq(t, "已然形") {
            Ok(ConjungationForm::Realis)
        } else if str_eq(t, "意志推量形") {
            Ok(ConjungationForm::Absent)
        } else if str_eq(t, "ク語法") {
            Ok(ConjungationForm::Kugohou)
        } else {
            Err(UnrecognizedTag { dimension: Dimension::ConjungationForm, tag: pair.0 })
        }
    }
}

impl ConjungationKind {
    /// Decodes the conjugation kind of a tuple: always the sentinel, for any
    /// tuple, until the schema starts discriminating this dimension.
    pub fn try_from(_value: &Vec<String>) -> (r: Result<ConjungationKind, UnrecognizedTag>)
        ensures
            r matches Ok(k) && k == ConjungationKind::Sentinel,
    {
        Ok(ConjungationKind::Sentinel)
    }
}

/// The spellings of the conjugation-form enumeration, the normalized
/// volitional spelling included.
pub open spec fn is_known_conjungation_form_tag(t: Seq<char>) -> bool {
    ||| t == "*"@
    ||| t == "終止形"@
    ||| t == "命令形"@
    ||| t == "未然形"@
    ||| t == "連体形"@
    ||| t == "連用形"@
    ||| t == "仮定形"@
    ||| t == "語幹"@
    ||| t == "已然形"@
    ||| t == "意志推量形"@
    ||| t == "ク語法"@
}

/// Closed-enumeration coverage of the conjugation-form dimension: every
/// spelling in the enumeration decodes to its documented form, and every
/// spelling outside it is reported as unrecognized under this dimension.
pub proof fn lemma_conjungation_form_closed(t: Seq<char>)
    ensures
        is_known_conjungation_form_tag(t) <==> spec_conjungation_form_tag(t) is Ok,
        !is_known_conjungation_form_tag(t) ==> spec_conjungation_form_tag(t) == Err::<
            ConjungationForm,
            UnrecognizedTagV,
        >(UnrecognizedTagV { dimension: Dimension::ConjungationForm, tag: t }),
        t == "*"@ ==> spec_conjungation_form_tag(t) == Ok::<ConjungationForm, UnrecognizedTagV>(
            ConjungationForm::Absent,
        ),
        t == "終止形"@ ==> spec_conjungation_form_tag(t) == Ok::<
            ConjungationForm,
            UnrecognizedTagV,
        >(ConjungationForm::Plain),
        t == "命令形"@ ==> spec_conjungation_form_tag(t) == Ok::<
            ConjungationForm,
            UnrecognizedTagV,
        >(ConjungationForm::Imperative),
        t == "未然形"@ ==> spec_conjungation_form_tag(t) == Ok::<
            ConjungationForm,
            UnrecognizedTagV,
        >(ConjungationForm::Negative),
        t == "連体形"@ ==> spec_conjungation_form_tag(t) == Ok::<
            ConjungationForm,
            UnrecognizedTagV,
        >(ConjungationForm::Attributive),
        t == "連用形"@ ==> spec_conjungation_form_tag(t) == Ok::<
            ConjungationForm,
            UnrecognizedTagV,
        >(ConjungationForm::Continuous),
        t == "仮定形"@ ==> spec_conjungation_form_tag(t) == Ok::<
            ConjungationForm,
            UnrecognizedTagV,
        >(ConjungationForm::Conditional),
        t == "語幹"@ ==> spec_conjungation_form_tag(t) == Ok::<ConjungationForm, UnrecognizedTagV>(
            ConjungationForm::Stem,
        ),
        t == "已然形"@ ==> spec_conjungation_form_tag(t) == Ok::<
            ConjungationForm,
            UnrecognizedTagV,
        >(ConjungationForm::Realis),
        t == "意志推量形"@ ==> spec_conjungation_form_tag(t) == Ok::<
            ConjungationForm,
            UnrecognizedTagV,
        >(ConjungationForm::Absent),
        t == "ク語法"@ ==> spec_conjungation_form_tag(t) == Ok::<
            ConjungationForm,
            UnrecognizedTagV,
        >(ConjungationForm::Kugohou),
{
    reveal_strlit("*");
    reveal_strlit("終止形");
    reveal_strlit("命令形");
    reveal_strlit("未然形");
    reveal_strlit("連体形");
    reveal_strlit("連用形");
    reveal_strlit("仮定形");
    reveal_strlit("語幹");
    reveal_strlit("已然形");
    reveal_strlit("意志推量形");
    reveal_strlit("ク語法");
    assert("*"@.len() == 1);
    assert("語幹"@.len() == 2);
    assert("意志推量形"@.len() == 5);
    assert("*"@[0] == '*');
    assert("終止形"@[0] == '終');
    assert("命令形"@[0] == '命');
    assert("未然形"@[0] == '未');
    assert("連体形"@[0] == '連');
    assert("連用形"@[0] == '連');
    assert("連体形"@[1] == '体');
    assert("連用形"@[1] == '用');
    assert("仮定形"@[0] == '仮');
    assert("語幹"@[0] == '語');
    assert("已然形"@[0] == '已');
    assert("意志推量形"@[0] == '意');
    assert("ク語法"@[0] == 'ク');
}

} // verus!
