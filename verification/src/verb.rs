//! The verb dimension: auxiliary or main verb, conjugation group and
//! syllable row.
//!
//! The group half of the composite field at position 4 selects the
//! conjugation group.  Several historical written-register spellings alias
//! to the same modern group as their plain counterpart.  For the Godan and
//! Ichidan groups the detail half must further resolve to a syllable row,
//! and a row outside the row table is an error even when the group itself
//! resolved.

use vstd::prelude::*;

use crate::error::Dimension;
use crate::error::UnrecognizedTag;
use crate::error::UnrecognizedTagV;
use crate::split::spec_field;
use crate::split::spec_split_type;
use crate::split::split_type;
use crate::split::str_eq;
use crate::split::str_or_empty;

verus! {

/// The syllable row of a Godan or Ichidan verb stem.
#[derive(Clone, Copy, Debug, PartialEq, Eq, Structural)]
pub enum SyllableRow {
    G,
    K,
    M,
    A,
    R,
    S,
    Z,
    T,
    D,
    B,
    H,
    P,
    N,
    Wa,
    Y,
}

/// The subtype of a verb: an auxiliary with its raw suffix, or a main verb
/// in one of the conjugation groups.
#[derive(Clone, Debug, PartialEq)]
pub enum VerbType {
    Auxilary(String),
    Godan(SyllableRow),
    Ichidan(SyllableRow),
    IchidanEruConjungation,
    Suru,
    Kuru,
    IrregRu,
    IrregNu,
}

/// The mathematical value of a [`VerbType`].
pub enum VerbTypeV {
    Auxilary(Seq<char>),
    Godan(SyllableRow),
    Ichidan(SyllableRow),
    IchidanEruConjungation,
    Suru,
    Kuru,
    IrregRu,
    IrregNu,
}

impl View for VerbType {
    type V = VerbTypeV;

    open spec fn view(&self) -> VerbTypeV {
        match self {
            VerbType::Auxilary(s) => VerbTypeV::Auxilary(s@),
            VerbType::Godan(r) => VerbTypeV::Godan(*r),
            VerbType::Ichidan(r) => VerbTypeV::Ichidan(*r),
            VerbType::IchidanEruConjungation => VerbTypeV::IchidanEruConjungation,
            VerbType::Suru => VerbTypeV::Suru,
            VerbType::Kuru => VerbTypeV::Kuru,
            VerbType::IrregRu => VerbTypeV::IrregRu,
            VerbType::IrregNu => VerbTypeV::IrregNu,
        }
    }
}

impl DeepView for VerbType {
    type V = VerbTypeV;

    open spec fn deep_view(&self) -> VerbTypeV {
        self@
    }
}

/// The row a syllable-row tag spelling decodes to.
pub open spec fn spec_syllable_row(t: Seq<char>) -> Result<SyllableRow, UnrecognizedTagV> {
    if t == "ガ行"@ {
        Ok(SyllableRow::G)
    } else if t == "カ行"@ {
        Ok(SyllableRow::K)
    } else if t == "マ行"@ {
        Ok(SyllableRow::M)
    } else if t == "ア行"@ {
        Ok(SyllableRow::A)
    } else if t == "ラ行"@ {
        Ok(SyllableRow::R)
    } else if t == "サ行"@ {
        Ok(SyllableRow::S)
    } else if t == "ザ行"@ {
        Ok(SyllableRow::Z)
    } else if t == "タ行"@ {
        Ok(SyllableRow::T)
    } else if t == "ダ行"@ {
        Ok(SyllableRow::D)
    } else if t == "ハ行"@ {
        Ok(SyllableRow::H)
    } else if t == "バ行"@ {
        Ok(SyllableRow::B)
    } else if t == "パ行"@ {
        Ok(SyllableRow::P)
    } else if t == "ナ行"@ {
        Ok(SyllableRow::N)
    } else if t == "ワア行"@ {
        Ok(SyllableRow::Wa)
    } else if t == "ヤ行"@ {
        Ok(SyllableRow::Y)
    } else {
        Err(UnrecognizedTagV { dimension: Dimension::SyllableRow, tag: t })
    }
}

/// The group spellings that alias to the Godan group.
pub open spec fn is_godan_group(g: Seq<char>) -> bool {
    ||| g == "五段"@
    ||| g == "文語下二段"@
    ||| g == "文語四段"@
    ||| g == "文語上二段"@
    ||| g == "上二段"@
}

/// The group spellings that alias to the Ichidan group.
pub open spec fn is_ichidan_group(g: Seq<char>) -> bool {
    ||| g == "一段"@
    ||| g == "下一段"@
    ||| g == "上一段"@
}

/// The group spellings that alias to the Suru group.
pub open spec fn is_suru_group(g: Seq<char>) -> bool {
    ||| g == "サ行変格"@
    ||| g == "文語サ行変格"@
}

/// The group spelling of the Kuru group.
pub open spec fn is_kuru_group(g: Seq<char>) -> bool {
    g == "カ行変格"@
}

/// The group spellings that alias to the irregular-Ru group.
pub open spec fn is_irreg_ru_group(g: Seq<char>) -> bool {
    ||| g == "ラ行変格"@
    ||| g == "文語ラ行変格"@
}

/// The group spellings that alias to the irregular-Nu group.
pub open spec fn is_irreg_nu_group(g: Seq<char>) -> bool {
    ||| g == "ナ行変格"@
    ||| g == "文語ナ行変格"@
}

/// The verb subtype a (group, detail) pair decodes to.
pub open spec fn spec_verb_group(g: Seq<char>, d: Seq<char>) -> Result<
    VerbTypeV,
    UnrecognizedTagV,
> {
    if is_godan_group(g) {
        match spec_syllable_row(d) {
            Ok(row) => Ok(VerbTypeV::Godan(row)),
            Err(e) => Err(e),
        }
    } else if is_ichidan_group(g) {
        match spec_syllable_row(d) {
            Ok(row) => Ok(VerbTypeV::Ichidan(row)),
            Err(e) => Err(e),
        }
    } else if is_suru_group(g) {
        Ok(VerbTypeV::Suru)
    } else if is_kuru_group(g) {
        Ok(VerbTypeV::Kuru)
    } else if is_irreg_ru_group(g) {
        Ok(VerbTypeV::IrregRu)
    } else if is_irreg_nu_group(g) {
        Ok(VerbTypeV::IrregNu)
    } else {
        Err(UnrecognizedTagV { dimension: Dimension::VerbGroup, tag: g })
    }
}

/// The verb subtype of a main verb's composite group field.
pub open spec fn spec_parse_general(vt: Seq<char>) -> Result<VerbTypeV, UnrecognizedTagV> {
    spec_verb_group(spec_split_type(vt).0, spec_split_type(vt).1)
}

/// The verb subtype of a tuple: an auxiliary keeps the raw detail half of
/// its composite field, a main verb resolves its conjugation group.
pub open spec fn spec_verb_type(fields: Seq<Seq<char>>) -> Result<VerbTypeV, UnrecognizedTagV> {
    let t0 = spec_field(fields, 0);
    let vt = spec_field(fields, 4);
    if t0 == "助動詞"@ {
        Ok(VerbTypeV::Auxilary(spec_split_type(vt).1))
    } else if t0 == "動詞"@ {
        spec_parse_general(vt)
    } else {
        Err(UnrecognizedTagV { dimension: Dimension::Verb, tag: t0 })
    }
}

impl SyllableRow {
    /// Decodes a syllable-row tag spelling.
    pub fn try_from(value: &str) -> (r: Result<SyllableRow, UnrecognizedTag>)
        ensures
            r matches Ok(row) ==> spec_syllable_row(value@) == Ok::<SyllableRow, UnrecognizedTagV>(
                row,
            ),
            r matches Err(e) ==> spec_syllable_row(value@) == Err::<SyllableRow, UnrecognizedTagV>(
                e@,
            ),
    {
        if str_eq(value, "ガ行") {
            Ok(SyllableRow::G)
        } else if str_eq(value, "カ行") {
            Ok(SyllableRow::K)
        } else if str_eq(value, "マ行") {
            Ok(SyllableRow::M)
        } else if str_eq(value, "ア行") {
            Ok(SyllableRow::A)
        } else if str_eq(value, "ラ行") {
            Ok(SyllableRow::R)
        } else if str_eq(value, "サ行") {
            Ok(SyllableRow::S)
        } else if str_eq(value, "ザ行") {
            Ok(SyllableRow::Z)
        } else if str_eq(value, "タ行") {
            Ok(SyllableRow::T)
        } else if str_eq(value, "ダ行") {
            Ok(SyllableRow::D)
        } else if str_eq(value, "ハ行") {
            Ok(SyllableRow::H)
        } else if str_eq(value, "バ行") {
            Ok(SyllableRow::B)
        } else if str_eq(value, "パ行") {
            Ok(SyllableRow::P)
        } else if str_eq(value, "ナ行") {
            Ok(SyllableRow::N)
        } else if str_eq(value, "ワア行") {
            Ok(SyllableRow::Wa)
        } else if str_eq(value, "ヤ行") {
            Ok(SyllableRow::Y)
        } else {
            Err(UnrecognizedTag { dimension: Dimension::SyllableRow, tag: String::from_str(value) })
        }
    }
}

impl VerbType {
    /// Decodes the verb subtype of a tuple.
    pub fn try_from(value: &Vec<String>) -> (r: Result<VerbType, UnrecognizedTag>)
        ensures
            r matches Ok(v) ==> spec_verb_type(value.deep_view()) == Ok::<
                VerbTypeV,
                UnrecognizedTagV,
            >(v@),
            r matches Err(e) ==> spec_verb_type(value.deep_view()) == Err::<
                VerbTypeV,
                UnrecognizedTagV,
            >(e@),
    {
        let t0 = str_or_empty(value, 0);
        if str_eq(t0, "助動詞") {
            let pair = split_type(str_or_empty(value, 4));
            Ok(VerbType::Auxilary(pair.1))
        } else if str_eq(t0, "動詞") {
            VerbType::parse_general(str_or_empty(value, 4))
        } else {
            Err(UnrecognizedTag { dimension: Dimension::Verb, tag: String::from_str(t0) })
        }
    }

    /// Decodes the composite group field of a main verb.
    pub fn parse_general(verb_type: &str) -> (r: Result<VerbType, UnrecognizedTag>)
        ensures
            r matches Ok(v) ==> spec_parse_general(verb_type@) == Ok::<
                VerbTypeV,
                UnrecognizedTagV,
            >(v@),
            r matches Err(e) ==> spec_parse_general(verb_type@) == Err::<
                VerbTypeV,
                UnrecognizedTagV,
            >(e@),
    {
        let pair = split_type(verb_type);
        let g = pair.0.as_str();
        if str_eq(g, "五段") || str_eq(g, "文語下二段") || str_eq(g, "文語四段") || str_eq(
            g,
            "文語上二段",
        ) || str_eq(g, "上二段") {
            match SyllableRow::try_from(pair.1.as_str()) {
                Ok(row) => Ok(VerbType::Godan(row)),
                Err(e) => Err(e),
            }
        } else if str_eq(g, "一段") || str_eq(g, "下一段") || str_eq(g, "上一段") {
            match SyllableRow::try_from(pair.1.as_str()) {
                Ok(row) => Ok(VerbType::Ichidan(row)),
                Err(e) => Err(e),
            }
        } else if str_eq(g, "サ行変格") || str_eq(g, "文語サ行変格") {
            Ok(VerbType::Suru)
        } else if str_eq(g, "カ行変格") {
            Ok(VerbType::Kuru)
        } else if str_eq(g, "ラ行変格") || str_eq(g, "文語ラ行変格") {
            Ok(VerbType::IrregRu)
        } else if str_eq(g, "ナ行変格") || str_eq(g, "文語ナ行変格") {
            Ok(VerbType::IrregNu)
        } else {
            Err(UnrecognizedTag { dimension: Dimension::VerbGroup, tag: pair.0 })
        }
    }
}

/// The spellings of the syllable-row enumeration.
pub open spec fn is_known_syllable_row(t: Seq<char>) -> bool {
    ||| t == "ガ行"@
    ||| t == "カ行"@
    ||| t == "マ行"@
    ||| t == "ア行"@
    ||| t == "ラ行"@
    ||| t == "サ行"@
    ||| t == "ザ行"@
    ||| t == "タ行"@
    ||| t == "ダ行"@
    ||| t == "ハ行"@
    ||| t == "バ行"@
    ||| t == "パ行"@
    ||| t == "ナ行"@
    ||| t == "ワア行"@
    ||| t == "ヤ行"@
}

/// Closed-enumeration coverage of the syllable-row dimension: every spelling
/// in the row table decodes to its documented row, and every spelling
/// outside it is reported as unrecognized under this dimension.
pub proof fn lemma_syllable_row_closed(t: Seq<char>)
    ensures
        is_known_syllable_row(t) <==> spec_syllable_row(t) is Ok,
        !is_known_syllable_row(t) ==> spec_syllable_row(t) == Err::<SyllableRow, UnrecognizedTagV>(
            UnrecognizedTagV { dimension: Dimension::SyllableRow, tag: t },
        ),
        t == "ガ行"@ ==> spec_syllable_row(t) == Ok::<SyllableRow, UnrecognizedTagV>(SyllableRow::G),
        t == "カ行"@ ==> spec_syllable_row(t) == Ok::<SyllableRow, UnrecognizedTagV>(SyllableRow::K),
        t == "マ行"@ ==> spec_syllable_row(t) == Ok::<SyllableRow, UnrecognizedTagV>(SyllableRow::M),
        t == "ア行"@ ==> spec_syllable_row(t) == Ok::<SyllableRow, UnrecognizedTagV>(SyllableRow::A),
        t == "ラ行"@ ==> spec_syllable_row(t) == Ok::<SyllableRow, UnrecognizedTagV>(SyllableRow::R),
        t == "サ行"@ ==> spec_syllable_row(t) == Ok::<SyllableRow, UnrecognizedTagV>(SyllableRow::S),
        t == "ザ行"@ ==> spec_syllable_row(t) == Ok::<SyllableRow, UnrecognizedTagV>(SyllableRow::Z),
        t == "タ行"@ ==> spec_syllable_row(t) == Ok::<SyllableRow, UnrecognizedTagV>(SyllableRow::T),
        t == "ダ行"@ ==> spec_syllable_row(t) == Ok::<SyllableRow, UnrecognizedTagV>(SyllableRow::D),
        t == "ハ行"@ ==> spec_syllable_row(t) == Ok::<SyllableRow, UnrecognizedTagV>(SyllableRow::H),
        t == "バ行"@ ==> spec_syllable_row(t) == Ok::<SyllableRow, UnrecognizedTagV>(SyllableRow::B),
        t == "パ行"@ ==> spec_syllable_row(t) == Ok::<SyllableRow, UnrecognizedTagV>(SyllableRow::P),
        t == "ナ行"@ ==> spec_syllable_row(t) == Ok::<SyllableRow, UnrecognizedTagV>(SyllableRow::N),
        t == "ワア行"@ ==> spec_syllable_row(t) == Ok::<SyllableRow, UnrecognizedTagV>(
            SyllableRow::Wa,
        ),
        t == "ヤ行"@ ==> spec_syllable_row(t) == Ok::<SyllableRow, UnrecognizedTagV>(SyllableRow::Y),
{
    lemma_syllable_row_literals();
}

/// Pins the row-table literals apart: each has its own leading character.
proof fn lemma_syllable_row_literals()
    ensures
        "ガ行"@[0] == 'ガ',
        "カ行"@[0] == 'カ',
        "マ行"@[0] == 'マ',
        "ア行"@[0] == 'ア',
        "ラ行"@[0] == 'ラ',
        "サ行"@[0] == 'サ',
        "ザ行"@[0] == 'ザ',
        "タ行"@[0] == 'タ',
        "ダ行"@[0] == 'ダ',
        "ハ行"@[0] == 'ハ',
        "バ行"@[0] == 'バ',
        "パ行"@[0] == 'パ',
        "ナ行"@[0] == 'ナ',
        "ワア行"@[0] == 'ワ',
        "ヤ行"@[0] == 'ヤ',
        "ガ行"@.len() == 2,
        "ワア行"@.len() == 3,
{
    reveal_strlit("ガ行");
    reveal_strlit("カ行");
    reveal_strlit("マ行");
    reveal_strlit("ア行");
    reveal_strlit("ラ行");
    reveal_strlit("サ行");
    reveal_strlit("ザ行");
    reveal_strlit("タ行");
    reveal_strlit("ダ行");
    reveal_strlit("ハ行");
    reveal_strlit("バ行");
    reveal_strlit("パ行");
    reveal_strlit("ナ行");
    reveal_strlit("ワア行");
    reveal_strlit("ヤ行");
}

/// Pins the group-spelling literals apart.
proof fn lemma_verb_group_literals()
    ensures
        "五段"@[0] == '五',
        "文語下二段"@[0] == '文',
        "文語四段"@[0] == '文',
        "文語上二段"@[0] == '文',
        "上二段"@[0] == '上',
        "一段"@[0] == '一',
        "下一段"@[0] == '下',
        "上一段"@[0] == '上',
        "サ行変格"@[0] == 'サ',
        "文語サ行変格"@[0] == '文',
        "カ行変格"@[0] == 'カ',
        "ラ行変格"@[0] == 'ラ',
        "ナ行変格"@[0] == 'ナ',
        "文語ラ行変格"@[0] == '文',
        "文語ナ行変格"@[0] == '文',
        "文語下二段"@[2] == '下',
        "文語四段"@.len() == 4,
        "文語上二段"@[2] == '上',
        "文語サ行変格"@.len() == 6,
        "文語サ行変格"@[2] == 'サ',
        "文語ラ行変格"@[2] == 'ラ',
        "文語ナ行変格"@[2] == 'ナ',
        "上二段"@[1] == '二',
        "上一段"@[1] == '一',
        "五段"@.len() == 2,
        "一段"@.len() == 2,
        "下一段"@.len() == 3,
        "文語下二段"@.len() == 5,
        "文語上二段"@.len() == 5,
        "サ行変格"@.len() == 4,
        "カ行変格"@.len() == 4,
        "ラ行変格"@.len() == 4,
        "ナ行変格"@.len() == 4,
        "文語ラ行変格"@.len() == 6,
        "文語ナ行変格"@.len() == 6,
{
    reveal_strlit("五段");
    reveal_strlit("文語下二段");
    reveal_strlit("文語四段");
    reveal_strlit("文語上二段");
    reveal_strlit("上二段");
    reveal_strlit("一段");
    reveal_strlit("下一段");
    reveal_strlit("上一段");
    reveal_strlit("サ行変格");
    reveal_strlit("文語サ行変格");
    reveal_strlit("カ行変格");
    reveal_strlit("ラ行変格");
    reveal_strlit("ナ行変格");
    reveal_strlit("文語ラ行変格");
    reveal_strlit("文語ナ行変格");
}

/// Historical written-register spellings alias onto their modern group:
/// two spellings of the same group give identical subtypes for every
/// detail half.
pub proof fn lemma_verb_group_aliasing(g1: Seq<char>, g2: Seq<char>, d: Seq<char>)
    requires
        (is_godan_group(g1) && is_godan_group(g2)) || (is_ichidan_group(g1) && is_ichidan_group(g2))
            || (is_suru_group(g1) && is_suru_group(g2)) || (is_kuru_group(g1) && is_kuru_group(g2))
            || (is_irreg_ru_group(g1) && is_irreg_ru_group(g2)) || (is_irreg_nu_group(g1)
            && is_irreg_nu_group(g2)),
    ensures
        spec_verb_group(g1, d) == spec_verb_group(g2, d),
{
    lemma_verb_group_literals();
}

/// Closed-enumeration coverage of the verb-group dimension: a spelling
/// outside all groups is reported as unrecognized under this dimension, and
/// each group spelling resolves to its documented group, with the Godan and
/// Ichidan groups further conditioned on the row table.
pub proof fn lemma_verb_group_closed(g: Seq<char>, d: Seq<char>)
    ensures
        is_godan_group(g) && spec_syllable_row(d) is Ok ==> spec_verb_group(g, d) == Ok::<
            VerbTypeV,
            UnrecognizedTagV,
        >(VerbTypeV::Godan(spec_syllable_row(d)->Ok_0)),
        is_ichidan_group(g) && spec_syllable_row(d) is Ok ==> spec_verb_group(g, d) == Ok::<
            VerbTypeV,
            UnrecognizedTagV,
        >(VerbTypeV::Ichidan(spec_syllable_row(d)->Ok_0)),
        (is_godan_group(g) || is_ichidan_group(g)) && spec_syllable_row(d) is Err ==>
            spec_verb_group(g, d) == Err::<VerbTypeV, UnrecognizedTagV>(
            spec_syllable_row(d)->Err_0,
        ),
        is_suru_group(g) ==> spec_verb_group(g, d) == Ok::<VerbTypeV, UnrecognizedTagV>(
            VerbTypeV::Suru,
        ),
        is_kuru_group(g) ==> spec_verb_group(g, d) == Ok::<VerbTypeV, UnrecognizedTagV>(
            VerbTypeV::Kuru,
        ),
        is_irreg_ru_group(g) ==> spec_verb_group(g, d) == Ok::<VerbTypeV, UnrecognizedTagV>(
            VerbTypeV::IrregRu,
        ),
        is_irreg_nu_group(g) ==> spec_verb_group(g, d) == Ok::<VerbTypeV, UnrecognizedTagV>(
            VerbTypeV::IrregNu,
        ),
        !(is_godan_group(g) || is_ichidan_group(g) || is_suru_group(g) || is_kuru_group(g)
            || is_irreg_ru_group(g) || is_irreg_nu_group(g)) ==> spec_verb_group(g, d) == Err::<
            VerbTypeV,
            UnrecognizedTagV,
        >(UnrecognizedTagV { dimension: Dimension::VerbGroup, tag: g }),
{
    lemma_verb_group_literals();
}

} // verus!
