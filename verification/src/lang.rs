//! The closed set of supported languages, with `Auto` as a distinguished
//! source-only variant, the two selection lists (with and without `Auto`),
//! and the display name of each language.

use vstd::prelude::*;

verus! {

/// A supported language. `Auto` is valid only as a source language and
/// means "let the provider detect the source".
#[derive(Clone, Copy, Debug, PartialEq, Eq, Structural)]
pub enum Lang {
    Auto,
    BG,
    CS,
    DA,
    DE,
    EL,
    EN,
    ES,
    ET,
    FI,
    FR,
    HU,
    IT,
    JA,
    LT,
    LV,
    NL,
    PL,
    PT,
    RO,
    RU,
    SK,
    SL,
    SV,
    ZH,
}

/// The fallback target language used by the swap action when the pre-swap
/// source was `Auto` (which is not valid as a target).
pub open spec fn fallback_lang() -> Lang {
    Lang::EN
}

/// The languages selectable as a translation target, in display order.
/// `Auto` is not among them.
pub open spec fn target_langs() -> Seq<Lang> {
    seq![
        Lang::DE,
        Lang::EN,
        Lang::ES,
        Lang::FR,
        Lang::IT,
        Lang::JA,
        Lang::NL,
        Lang::PL,
        Lang::PT,
        Lang::RU,
        Lang::ZH,
        Lang::BG,
        Lang::CS,
        Lang::DA,
        Lang::EL,
        Lang::ET,
        Lang::FI,
        Lang::HU,
        Lang::LT,
        Lang::LV,
        Lang::RO,
        Lang::SK,
        Lang::SL,
        Lang::SV,
    ]
}

/// The languages selectable as a translation source: `Auto` first, then
/// every target language.
pub open spec fn source_langs() -> Seq<Lang> {
    seq![Lang::Auto] + target_langs()
}

/// The source-language selection list.
pub fn lang_list_with_auto() -> (r: Vec<Lang>)
    ensures
        r@ == source_langs(),
{
    let r = vec![
        Lang::Auto,
        Lang::DE,
        Lang::EN,
        Lang::ES,
        Lang::FR,
        Lang::IT,
        Lang::JA,
        Lang::NL,
        Lang::PL,
        Lang::PT,
        Lang::RU,
        Lang::ZH,
        Lang::BG,
        Lang::CS,
        Lang::DA,
        Lang::EL,
        Lang::ET,
        Lang::FI,
        Lang::HU,
        Lang::LT,
        Lang::LV,
        Lang::RO,
        Lang::SK,
        Lang::SL,
        Lang::SV,
    ];
    proof {
        assert(r@ =~= source_langs());
    }
    r
}

/// The target-language selection list.
pub fn lang_list() -> (r: Vec<Lang>)
    ensures
        r@ == target_langs(),
{
    let r = vec![
        Lang::DE,
        Lang::EN,
        Lang::ES,
        Lang::FR,
        Lang::IT,
        Lang::JA,
        Lang::NL,
        Lang::PL,
        Lang::PT,
        Lang::RU,
        Lang::ZH,
        Lang::BG,
        Lang::CS,
        Lang::DA,
        Lang::EL,
        Lang::ET,
        Lang::FI,
        Lang::HU,
        Lang::LT,
        Lang::LV,
        Lang::RO,
        Lang::SK,
        Lang::SL,
        Lang::SV,
    ];
    proof {
        assert(r@ =~= target_langs());
    }
    r
}

/// The two lists differ exactly by `Auto`: the source list starts with
/// `Auto`, its tail is the target list, `Auto` is never a target, and
/// neither list repeats a language.
pub proof fn lemma_lang_lists_disjoint_on_auto()
    ensures
        source_langs()[0] == Lang::Auto,
        source_langs().skip(1) == target_langs(),
        forall|i: int| 0 <= i < target_langs().len() ==> target_langs()[i] != Lang::Auto,
        forall|i: int, j: int|
            0 <= i < j < source_langs().len() ==> source_langs()[i] != source_langs()[j],
{
    assert(source_langs().skip(1) =~= target_langs());
    assert forall|i: int| 0 <= i < target_langs().len() implies target_langs()[i] != Lang::Auto by {
        let l = target_langs()[i];
    }
    assert forall|i: int, j: int|
        0 <= i < j < source_langs().len() implies source_langs()[i] != source_langs()[j] by {
        let a = source_langs()[i];
        let b = source_langs()[j];
    }
}

/// The display name of each language.
pub open spec fn description_spec(lang: Lang) -> Seq<char> {
    match lang {
        Lang::Auto => "自動検出"@,
        Lang::DE => "ドイツ語"@,
        Lang::EN => "英語"@,
        Lang::ES => "スペイン語"@,
        Lang::FR => "フランス語"@,
        Lang::IT => "イタリア語"@,
        Lang::JA => "日本語"@,
        Lang::NL => "オランダ語"@,
        Lang::PL => "ポーランド語"@,
        Lang::PT => "ポルトガル語"@,
        Lang::RU => "ロシア語"@,
        Lang::ZH => "中国語"@,
        Lang::BG => "ブルガリア語"@,
        Lang::CS => "チェコ語"@,
        Lang::DA => "デンマーク語"@,
        Lang::EL => "ギリシャ語"@,
        Lang::ET => "エストニア語"@,
        Lang::FI => "フィンランド語"@,
        Lang::HU => "ハンガリー語"@,
        Lang::LT => "リトアニア語"@,
        Lang::LV => "ラトビア語"@,
        Lang::RO => "ルーマニア語"@,
        Lang::SK => "スロバキア語"@,
        Lang::SL => "スロベニア語"@,
        Lang::SV => "スウェーデン語"@,
    }
}

/// The display name shown in the language pickers.
pub fn description(lang: Lang) -> (r: &'static str)
    ensures
        r@ == description_spec(lang),
{
    match lang {
        Lang::Auto => "自動検出",
        Lang::DE => "ドイツ語",
        Lang::EN => "英語",
        Lang::ES => "スペイン語",
        Lang::FR => "フランス語",
        Lang::IT => "イタリア語",
        Lang::JA => "日本語",
        Lang::NL => "オランダ語",
        Lang::PL => "ポーランド語",
        Lang::PT => "ポルトガル語",
        Lang::RU => "ロシア語",
        Lang::ZH => "中国語",
        Lang::BG => "ブルガリア語",
        Lang::CS => "チェコ語",
        Lang::DA => "デンマーク語",
        Lang::EL => "ギリシャ語",
        Lang::ET => "エストニア語",
        Lang::FI => "フィンランド語",
        Lang::HU => "ハンガリー語",
        Lang::LT => "リトアニア語",
        Lang::LV => "ラトビア語",
        Lang::RO => "ルーマニア語",
        Lang::SK => "スロバキア語",
        Lang::SL => "スロベニア語",
        Lang::SV => "スウェーデン語",
    }
}

} // verus!
