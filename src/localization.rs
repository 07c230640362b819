//! Languages, language groups, and the resolution of missing translations.

use vstd::prelude::*;

verus! {

/// Languages that can be used for translation.
#[derive(Clone, Debug)]
pub enum Language {
    /// `id-id`
    IndonesiaIndonesian,
    /// `da-dk`
    DenmarkDanish,
    /// `de-de`
    GermanyGerman,
    /// `en-gb`
    GreatBritainEnglish,
    /// `en-us`
    NorthAmericaEnglish,
    /// `es-es`
    SpainSpanish,
    /// `es-mx`
    MexicoSpanish,
    /// `fr-ca`
    CanadaFrench,
    /// `fr-fr`
    FranceFrench,
    /// `it-it`
    ItalyItalian,
    /// `hu-hu`
    HungaryHungarian,
    /// `nl-nl`
    NetherlandsDutch,
    /// `nb-no`
    NorwayBokmal,
    /// `pl-pl`
    PolandPolish,
    /// `pt-br`
    BrazilPortuguese,
    /// `pt-pt`
    PortugalProtugese,
    /// `sk-sk`
    SlovakiaSlovak,
    /// `fi-fi`
    FinlandFinnish,
    /// `sv-se`
    SwedenSwedish,
    /// `tr-tr`
    TurkeyTurkish,
    /// `cs-cz`
    CzeshRepublicCzech,
    /// `el-gr`
    GreeceGreek,
    /// `bg-bg`
    BulgariaBulgarian,
    /// `ru-ru`
    RussiaRussian,
    /// `uk-ua`
    UkraineUkrainian,
    /// `ja-jp`
    JapanJapanese,
    /// `zh-cn`
    ChinaChinese,
    /// `zh-tw`
    TaiwanChinese,
    /// `ko-kr`
    KoreaKorean,
    /// A language not natively supported by Minecraft with its ID (`xx-yy`) and name.
    Other(String, Option<String>),
}

/// Relies on `str::to_uppercase`: the result depends on the characters alone.
#[verifier::external_body]
fn to_upper(s: &str) -> (r: String)
    ensures
        r@ == upper_of(s@),
{
    s.to_uppercase()
}

/// Relies on `str::to_lowercase`: the result depends on the characters alone.
#[verifier::external_body]
fn to_lower(s: &str) -> (r: String)
    ensures
        r@ == lower_of(s@),
{
    s.to_lowercase()
}

/// What `str::to_uppercase` returns.
pub uninterp spec fn upper_of(s: Seq<char>) -> Seq<char>;

/// What `str::to_lowercase` returns.
pub uninterp spec fn lower_of(s: Seq<char>) -> Seq<char>;

/// The languages natively supported by Minecraft.
pub open spec fn vanilla_seq() -> Seq<Language> {
    seq![
        Language::IndonesiaIndonesian,
        Language::DenmarkDanish,
        Language::GermanyGerman,
        Language::GreatBritainEnglish,
        Language::NorthAmericaEnglish,
        Language::SpainSpanish,
        Language::MexicoSpanish,
        Language::CanadaFrench,
        Language::FranceFrench,
        Language::ItalyItalian,
        Language::HungaryHungarian,
        Language::NetherlandsDutch,
        Language::NorwayBokmal,
        Language::PolandPolish,
        Language::BrazilPortuguese,
        Language::PortugalProtugese,
        Language::SlovakiaSlovak,
        Language::FinlandFinnish,
        Language::SwedenSwedish,
        Language::TurkeyTurkish,
        Language::CzeshRepublicCzech,
        Language::GreeceGreek,
        Language::BulgariaBulgarian,
        Language::RussiaRussian,
        Language::UkraineUkrainian,
        Language::JapanJapanese,
        Language::ChinaChinese,
        Language::TaiwanChinese,
        Language::KoreaKorean
    ]
}

/// Whether `id` is the ID of a language natively supported by Minecraft.
pub open spec fn is_vanilla_id(id: Seq<char>) -> bool {
    exists|k: int| 0 <= k < vanilla_seq().len() && (#[trigger] vanilla_seq()[k]).id() == id
}

/// The index of the first occurrence of `c` in `s` at or after `i`, if any.
pub open spec fn index_of_from(s: Seq<char>, c: char, i: int) -> Option<int>
    decreases s.len() - i,
{
    if i < 0 || i >= s.len() {
        None
    } else if s[i] == c {
        Some(i)
    } else {
        index_of_from(s, c, i + 1)
    }
}

pub open spec fn index_of(s: Seq<char>, c: char) -> Option<int> {
    index_of_from(s, c, 0)
}

/// Finds the first `c` in `s`.
fn find_char(s: &str, c: char) -> (r: Option<usize>)
    ensures
        match index_of(s@, c) {
            Some(k) => r == Some(k as usize),
            None => r is None,
        },
{
    let n = s.unicode_len();
    let mut i: usize = 0;
    while i < n
        invariant
            n == s@.len(),
            i <= n,
            index_of(s@, c) == index_of_from(s@, c, i as int),
        decreases n - i,
    {
        if s.get_char(i) == c {
            return Some(i);
        }
        i = i + 1;
    }
    None
}

/// Splits `s` around the first `c`, as `str::split_once` does.
fn split_once(s: &str, c: char) -> (r: Option<(&str, &str)>)
    ensures
        match index_of(s@, c) {
            Some(k) => r matches Some(p) && p.0@ == s@.subrange(0, k) && p.1@ == s@.subrange(
                k + 1,
                s@.len() as int,
            ),
            None => r is None,
        },
{
    match find_char(s, c) {
        Some(k) => {
            proof {
                lemma_index_of_from_bounds(s@, c, 0);
            }
            let n = s.unicode_len();
            Some((s.substring_char(0, k), s.substring_char(k + 1, n)))
        },
        None => None,
    }
}

proof fn lemma_index_of_from_bounds(s: Seq<char>, c: char, i: int)
    ensures
        index_of_from(s, c, i) matches Some(k) ==> i <= k < s.len() && s[k] == c,
    decreases s.len() - i,
{
    if 0 <= i < s.len() && s[i] != c {
        lemma_index_of_from_bounds(s, c, i + 1);
    }
}

/// Whether two texts are equal.
fn str_eq(a: &str, b: &str) -> (r: bool)
    ensures
        r == (a@ == b@),
{
    let n = a.unicode_len();
    if n != b.unicode_len() {
        return false;
    }
    let mut i: usize = 0;
    while i < n
        invariant
            n == a@.len() == b@.len(),
            i <= n,
            a@.subrange(0, i as int) == b@.subrange(0, i as int),
        decreases n - i,
    {
        if a.get_char(i) != b.get_char(i) {
            assert(a@[i as int] != b@[i as int]);
            return false;
        }
        assert(a@.subrange(0, i + 1) =~= a@.subrange(0, i as int).push(a@[i as int]));
        assert(b@.subrange(0, i + 1) =~= b@.subrange(0, i as int).push(b@[i as int]));
        i = i + 1;
    }
    assert(a@ =~= a@.subrange(0, n as int));
    assert(b@ =~= b@.subrange(0, n as int));
    true
}

impl Language {
    /// The ID of the language (`xx-yy`).
    pub open spec fn id(self) -> Seq<char> {
        match self {
            Language::IndonesiaIndonesian => "id-id"@,
            Language::DenmarkDanish => "da-dk"@,
            Language::GermanyGerman => "de-de"@,
            Language::GreatBritainEnglish => "en-gb"@,
            Language::NorthAmericaEnglish => "en-us"@,
            Language::SpainSpanish => "es-es"@,
            Language::MexicoSpanish => "es-mx"@,
            Language::CanadaFrench => "fr-ca"@,
            Language::FranceFrench => "fr-fr"@,
            Language::ItalyItalian => "it-it"@,
            Language::HungaryHungarian => "hu-hu"@,
            Language::NetherlandsDutch => "nl-nl"@,
            Language::NorwayBokmal => "nb-no"@,
            Language::PolandPolish => "pl-pl"@,
            Language::BrazilPortuguese => "pt-br"@,
            Language::PortugalProtugese => "pt-pt"@,
            Language::SlovakiaSlovak => "sk-sk"@,
            Language::FinlandFinnish => "fi-fi"@,
            Language::SwedenSwedish => "sv-se"@,
            Language::TurkeyTurkish => "tr-tr"@,
            Language::CzeshRepublicCzech => "cs-cz"@,
            Language::GreeceGreek => "el-gr"@,
            Language::BulgariaBulgarian => "bg-bg"@,
            Language::RussiaRussian => "ru-ru"@,
            Language::UkraineUkrainian => "uk-ua"@,
            Language::JapanJapanese => "ja-jp"@,
            Language::ChinaChinese => "zh-cn"@,
            Language::TaiwanChinese => "zh-tw"@,
            Language::KoreaKorean => "ko-kr"@,
            Language::Other(id, _) => id@,
        }
    }

    /// A language is well formed when its ID has a `-`.
    pub open spec fn wf(self) -> bool {
        index_of(self.id(), '-').is_some()
    }

    /// The file ID of the language (`xx_YY`).
    pub open spec fn file_id_spec(self) -> Seq<char> {
        match self {
            Language::IndonesiaIndonesian => "id_ID"@,
            Language::DenmarkDanish => "da_DK"@,
            Language::GermanyGerman => "de_DE"@,
            Language::GreatBritainEnglish => "en_GB"@,
            Language::NorthAmericaEnglish => "en_US"@,
            Language::SpainSpanish => "es_ES"@,
            Language::MexicoSpanish => "es_MX"@,
            Language::CanadaFrench => "fr_CA"@,
            Language::FranceFrench => "fr_FR"@,
            Language::ItalyItalian => "it_IT"@,
            Language::HungaryHungarian => "hu_HU"@,
            Language::NetherlandsDutch => "nl_NL"@,
            Language::NorwayBokmal => "nb_NO"@,
            Language::PolandPolish => "pl_PL"@,
            Language::BrazilPortuguese => "pt_BR"@,
            Language::PortugalProtugese => "pt_PT"@,
            Language::SlovakiaSlovak => "sk_SK"@,
            Language::FinlandFinnish => "fi_FI"@,
            Language::SwedenSwedish => "sv_SE"@,
            Language::TurkeyTurkish => "tr_TR"@,
            Language::CzeshRepublicCzech => "cs_CZ"@,
            Language::GreeceGreek => "el_GR"@,
            Language::BulgariaBulgarian => "bg_BG"@,
            Language::RussiaRussian => "ru_RU"@,
            Language::UkraineUkrainian => "uk_UA"@,
            Language::JapanJapanese => "ja_JP"@,
            Language::ChinaChinese => "zh_CN"@,
            Language::TaiwanChinese => "zh_TW"@,
            Language::KoreaKorean => "ko_KR"@,
            Language::Other(id, _) => {
                let k = index_of(id@, '-').unwrap();
                id@.subrange(0, k) + "_"@ + upper_of(id@.subrange(k + 1, id@.len() as int))
            },
        }
    }

    /// Returns each language natively supported by Minecraft.
    pub fn vanilla() -> (r: Vec<Language>)
        ensures
            r@ == vanilla_seq(),
    {
        let r = vec![
            Language::IndonesiaIndonesian,
            Language::DenmarkDanish,
            Language::GermanyGerman,
            Language::GreatBritainEnglish,
            Language::NorthAmericaEnglish,
            Language::SpainSpanish,
            Language::MexicoSpanish,
            Language::CanadaFrench,
            Language::FranceFrench,
            Language::ItalyItalian,
            Language::HungaryHungarian,
            Language::NetherlandsDutch,
            Language::NorwayBokmal,
            Language::PolandPolish,
            Language::BrazilPortuguese,
            Language::PortugalProtugese,
            Language::SlovakiaSlovak,
            Language::FinlandFinnish,
            Language::SwedenSwedish,
            Language::TurkeyTurkish,
            Language::CzeshRepublicCzech,
            Language::GreeceGreek,
            Language::BulgariaBulgarian,
            Language::RussiaRussian,
            Language::UkraineUkrainian,
            Language::JapanJapanese,
            Language::ChinaChinese,
            Language::TaiwanChinese,
            Language::KoreaKorean
        ];
        assert(r@ =~= vanilla_seq());
        r
    }

    /// A copy of the language.
    pub fn copy(&self) -> (r: Language)
        ensures
            r == *self,
    {
        match self {
            Language::IndonesiaIndonesian => Language::IndonesiaIndonesian,
            Language::DenmarkDanish => Language::DenmarkDanish,
            Language::GermanyGerman => Language::GermanyGerman,
            Language::GreatBritainEnglish => Language::GreatBritainEnglish,
            Language::NorthAmericaEnglish => Language::NorthAmericaEnglish,
            Language::SpainSpanish => Language::SpainSpanish,
            Language::MexicoSpanish => Language::MexicoSpanish,
            Language::CanadaFrench => Language::CanadaFrench,
            Language::FranceFrench => Language::FranceFrench,
            Language::ItalyItalian => Language::ItalyItalian,
            Language::HungaryHungarian => Language::HungaryHungarian,
            Language::NetherlandsDutch => Language::NetherlandsDutch,
            Language::NorwayBokmal => Language::NorwayBokmal,
            Language::PolandPolish => Language::PolandPolish,
            Language::BrazilPortuguese => Language::BrazilPortuguese,
            Language::PortugalProtugese => Language::PortugalProtugese,
            Language::SlovakiaSlovak => Language::SlovakiaSlovak,
            Language::FinlandFinnish => Language::FinlandFinnish,
            Language::SwedenSwedish => Language::SwedenSwedish,
            Language::TurkeyTurkish => Language::TurkeyTurkish,
            Language::CzeshRepublicCzech => Language::CzeshRepublicCzech,
            Language::GreeceGreek => Language::GreeceGreek,
            Language::BulgariaBulgarian => Language::BulgariaBulgarian,
            Language::RussiaRussian => Language::RussiaRussian,
            Language::UkraineUkrainian => Language::UkraineUkrainian,
            Language::JapanJapanese => Language::JapanJapanese,
            Language::ChinaChinese => Language::ChinaChinese,
            Language::TaiwanChinese => Language::TaiwanChinese,
            Language::KoreaKorean => Language::KoreaKorean,
            Language::Other(id, name) => Language::Other(
                id.clone(),
                match name {
                    Some(n) => Some(n.clone()),
                    None => None,
                },
            ),
        }
    }

    /// The ID of the language (`xx-yy`).
    pub fn id_string(&self) -> (r: String)
        ensures
            r@ == self.id(),
    {
        match self {
            Language::IndonesiaIndonesian => String::from_str("id-id"),
            Language::DenmarkDanish => String::from_str("da-dk"),
            Language::GermanyGerman => String::from_str("de-de"),
            Language::GreatBritainEnglish => String::from_str("en-gb"),
            Language::NorthAmericaEnglish => String::from_str("en-us"),
            Language::SpainSpanish => String::from_str("es-es"),
            Language::MexicoSpanish => String::from_str("es-mx"),
            Language::CanadaFrench => String::from_str("fr-ca"),
            Language::FranceFrench => String::from_str("fr-fr"),
            Language::ItalyItalian => String::from_str("it-it"),
            Language::HungaryHungarian => String::from_str("hu-hu"),
            Language::NetherlandsDutch => String::from_str("nl-nl"),
            Language::NorwayBokmal => String::from_str("nb-no"),
            Language::PolandPolish => String::from_str("pl-pl"),
            Language::BrazilPortuguese => String::from_str("pt-br"),
            Language::PortugalProtugese => String::from_str("pt-pt"),
            Language::SlovakiaSlovak => String::from_str("sk-sk"),
            Language::FinlandFinnish => String::from_str("fi-fi"),
            Language::SwedenSwedish => String::from_str("sv-se"),
            Language::TurkeyTurkish => String::from_str("tr-tr"),
            Language::CzeshRepublicCzech => String::from_str("cs-cz"),
            Language::GreeceGreek => String::from_str("el-gr"),
            Language::BulgariaBulgarian => String::from_str("bg-bg"),
            Language::RussiaRussian => String::from_str("ru-ru"),
            Language::UkraineUkrainian => String::from_str("uk-ua"),
            Language::JapanJapanese => String::from_str("ja-jp"),
            Language::ChinaChinese => String::from_str("zh-cn"),
            Language::TaiwanChinese => String::from_str("zh-tw"),
            Language::KoreaKorean => String::from_str("ko-kr"),
            Language::Other(id, _) => id.clone(),
        }
    }

    /// Whether two languages are the same, that is have the same ID.
    pub fn same_as(&self, other: &Language) -> (r: bool)
        ensures
            r == (self.id() == other.id()),
    {
        let a = self.id_string();
        let b = other.id_string();
        a == b
    }

    /// Returns the file ID of the lanuage (e.g. `id_ID` for Indonesian).
    pub fn file_id(&self) -> (r: String)
        requires
            self.wf(),
        ensures
            r@ == self.file_id_spec(),
    {
        match self {
            Language::IndonesiaIndonesian => String::from_str("id_ID"),
            Language::DenmarkDanish => String::from_str("da_DK"),
            Language::GermanyGerman => String::from_str("de_DE"),
            Language::GreatBritainEnglish => String::from_str("en_GB"),
            Language::NorthAmericaEnglish => String::from_str("en_US"),
            Language::SpainSpanish => String::from_str("es_ES"),
            Language::MexicoSpanish => String::from_str("es_MX"),
            Language::CanadaFrench => String::from_str("fr_CA"),
            Language::FranceFrench => String::from_str("fr_FR"),
            Language::ItalyItalian => String::from_str("it_IT"),
            Language::HungaryHungarian => String::from_str("hu_HU"),
            Language::NetherlandsDutch => String::from_str("nl_NL"),
            Language::NorwayBokmal => String::from_str("nb_NO"),
            Language::PolandPolish => String::from_str("pl_PL"),
            Language::BrazilPortuguese => String::from_str("pt_BR"),
            Language::PortugalProtugese => String::from_str("pt_PT"),
            Language::SlovakiaSlovak => String::from_str("sk_SK"),
            Language::FinlandFinnish => String::from_str("fi_FI"),
            Language::SwedenSwedish => String::from_str("sv_SE"),
            Language::TurkeyTurkish => String::from_str("tr_TR"),
            Language::CzeshRepublicCzech => String::from_str("cs_CZ"),
            Language::GreeceGreek => String::from_str("el_GR"),
            Language::BulgariaBulgarian => String::from_str("bg_BG"),
            Language::RussiaRussian => String::from_str("ru_RU"),
            Language::UkraineUkrainian => String::from_str("uk_UA"),
            Language::JapanJapanese => String::from_str("ja_JP"),
            Language::ChinaChinese => String::from_str("zh_CN"),
            Language::TaiwanChinese => String::from_str("zh_TW"),
            Language::KoreaKorean => String::from_str("ko_KR"),
            Language::Other(id, _) => {
                let (head, tail) = split_once(id.as_str(), '-').unwrap();
                let mut r = String::from_str(head);
                r.append("_");
                let up = to_upper(tail);
                r.append(up.as_str());
                r
            },
        }
    }

    /// Returns the language with the ID `id`.
    fn from_id_text(id: &str) -> (r: Language)
        ensures
            r.id() == id@,
            r is Other <==> !is_vanilla_id(id@),
            r matches Language::Other(_, name) ==> name is None,
    {
        let all = Language::vanilla();
        let mut k: usize = 0;
        while k < all.len()
            invariant
                all@ == vanilla_seq(),
                k <= all@.len(),
                forall|j: int| 0 <= j < k ==> (#[trigger] vanilla_seq()[j]).id() != id@,
            decreases all@.len() - k,
        {
            let s = all[k].id_string();
            if str_eq(s.as_str(), id) {
                assert(vanilla_seq()[k as int].id() == id@);
                return all[k].copy();
            }
            k = k + 1;
        }
        Language::Other(String::from_str(id), None)
    }

    /// Returns the language that matches the pair.
    pub fn from_pair(pair: (&str, &str)) -> (r: Language)
        ensures
            r.id() == pair.0@ + "-"@ + pair.1@,
            r is Other <==> !is_vanilla_id(pair.0@ + "-"@ + pair.1@),
            r matches Language::Other(_, name) ==> name is None,
    {
        let mut id = String::from_str(pair.0);
        id.append("-");
        id.append(pair.1);
        Language::from_id_text(id.as_str())
    }

    /// Returns the language that matches the ID.
    pub fn from_id(id: &str) -> (r: Option<Language>)
        ensures
            r is Some <==> index_of(id@, '-') is Some,
            r matches Some(l) ==> l.id() == id@ && (l is Other <==> !is_vanilla_id(id@)),
    {
        match split_once(id, '-') {
            Some(p) => {
                proof {
                    reveal_strlit("-");
                    lemma_index_of_from_bounds(id@, '-', 0);
                    let k = index_of(id@, '-').unwrap();
                    assert(id@ =~= id@.subrange(0, k) + "-"@ + id@.subrange(k + 1, id@.len() as int));
                }
                Some(Language::from_pair(p))
            },
            None => None,
        }
    }

    /// Returns the language that matches the file ID (`xx_YY`); the country
    /// is read case-insensitively.
    pub fn from_file_id(id: &str) -> (r: Option<Language>)
        ensures
            r is Some <==> index_of(id@, '_') is Some,
            r matches Some(l) ==> {
                let k = index_of(id@, '_').unwrap();
                let lid = id@.subrange(0, k) + "-"@ + lower_of(id@.subrange(k + 1, id@.len() as int));
                l.id() == lid && (l is Other <==> !is_vanilla_id(lid))
            },
    {
        match split_once(id, '_') {
            Some(p) => {
                let lang = to_lower(p.1);
                Some(Language::from_pair((p.0, lang.as_str())))
            },
            None => None,
        }
    }
}

/// Whether some language of `g` has the ID `id`.
pub open spec fn has_id(g: Seq<Language>, id: Seq<char>) -> bool {
    exists|j: int| 0 <= j < g.len() && (#[trigger] g[j]).id() == id
}

/// The index of the first group at or after `i` that holds a language with the ID `id`.
pub open spec fn group_index_from(gs: Seq<Seq<Language>>, id: Seq<char>, i: int) -> Option<int>
    decreases gs.len() - i,
{
    if i < 0 || i >= gs.len() {
        None
    } else if has_id(gs[i], id) {
        Some(i)
    } else {
        group_index_from(gs, id, i + 1)
    }
}

/// The index of the group of the language with the ID `id`.
pub open spec fn group_index(gs: Seq<Seq<Language>>, id: Seq<char>) -> Option<int> {
    group_index_from(gs, id, 0)
}

/// Whether `a` and `b` stand in one configured group.
pub open spec fn same_group(gs: Seq<Seq<Language>>, a: Language, b: Language) -> bool {
    group_index(gs, a.id()) matches Some(x) && group_index(gs, b.id()) == Some(x)
}

/// The index of the first language of `given`, at or after `i`, with the ID `id`.
pub open spec fn first_with_id(given: Seq<Language>, id: Seq<char>, i: int) -> Option<int>
    decreases given.len() - i,
{
    if i < 0 || i >= given.len() {
        None
    } else if given[i].id() == id {
        Some(i)
    } else {
        first_with_id(given, id, i + 1)
    }
}

/// The index of the first language of `given`, at or after `i`, in the group of `t`.
pub open spec fn first_sibling(gs: Seq<Seq<Language>>, given: Seq<Language>, t: Language, i: int) -> Option<int>
    decreases given.len() - i,
{
    if i < 0 || i >= given.len() {
        None
    } else if same_group(gs, given[i], t) {
        Some(i)
    } else {
        first_sibling(gs, given, t, i + 1)
    }
}

/// The index in `given` of the best substitute for `target`: the target
/// itself, else the first language of its group, else `fallback`, else the
/// first language of the fallback's group, else the first language given.
pub open spec fn best_index(gs: Seq<Seq<Language>>, target: Language, given: Seq<Language>, fallback: Language) -> Option<int> {
    if first_with_id(given, target.id(), 0) is Some {
        first_with_id(given, target.id(), 0)
    } else if first_sibling(gs, given, target, 0) is Some {
        first_sibling(gs, given, target, 0)
    } else if first_with_id(given, fallback.id(), 0) is Some {
        first_with_id(given, fallback.id(), 0)
    } else if first_sibling(gs, given, fallback, 0) is Some {
        first_sibling(gs, given, fallback, 0)
    } else if given.len() > 0 {
        Some(0)
    } else {
        None
    }
}

proof fn lemma_first_with_id_bounds(given: Seq<Language>, id: Seq<char>, i: int)
    ensures
        first_with_id(given, id, i) matches Some(k) ==> i <= k < given.len() && given[k].id() == id,
    decreases given.len() - i,
{
    if 0 <= i < given.len() && given[i].id() != id {
        lemma_first_with_id_bounds(given, id, i + 1);
    }
}

proof fn lemma_first_sibling_bounds(gs: Seq<Seq<Language>>, given: Seq<Language>, t: Language, i: int)
    ensures
        first_sibling(gs, given, t, i) matches Some(k) ==> i <= k < given.len(),
    decreases given.len() - i,
{
    if 0 <= i < given.len() && !same_group(gs, given[i], t) {
        lemma_first_sibling_bounds(gs, given, t, i + 1);
    }
}

proof fn lemma_group_index_bounds(gs: Seq<Seq<Language>>, id: Seq<char>, i: int)
    ensures
        group_index_from(gs, id, i) matches Some(k) ==> i <= k < gs.len() && has_id(gs[k], id),
    decreases gs.len() - i,
{
    if 0 <= i < gs.len() && !has_id(gs[i], id) {
        lemma_group_index_bounds(gs, id, i + 1);
    }
}

/// Groups of languages used for fallbacks.
#[derive(Clone, Debug)]
pub struct LanguageGroups(pub Vec<Vec<Language>>);

/// The language groups used when a project configures none.
pub open spec fn default_groups() -> Seq<Seq<Language>> {
    seq![
        seq![Language::IndonesiaIndonesian],
        seq![Language::DenmarkDanish],
        seq![Language::GermanyGerman],
        seq![Language::GreatBritainEnglish, Language::NorthAmericaEnglish],
        seq![Language::SpainSpanish, Language::MexicoSpanish],
        seq![Language::FranceFrench, Language::CanadaFrench],
        seq![Language::ItalyItalian],
        seq![Language::HungaryHungarian],
        seq![Language::NetherlandsDutch],
        seq![Language::NorwayBokmal],
        seq![Language::PolandPolish],
        seq![Language::PortugalProtugese, Language::BrazilPortuguese],
        seq![Language::SlovakiaSlovak],
        seq![Language::FinlandFinnish],
        seq![Language::SwedenSwedish],
        seq![Language::TurkeyTurkish],
        seq![Language::CzeshRepublicCzech],
        seq![Language::GreeceGreek],
        seq![Language::BulgariaBulgarian],
        seq![Language::RussiaRussian],
        seq![Language::UkraineUkrainian],
        seq![Language::JapanJapanese],
        seq![Language::ChinaChinese, Language::TaiwanChinese],
        seq![Language::KoreaKorean]
    ]
}

impl Default for LanguageGroups {
    fn default() -> (r: LanguageGroups)
        ensures
            r.groups() == default_groups(),
    {
        let r = LanguageGroups(
            vec![
                vec![Language::IndonesiaIndonesian],
                vec![Language::DenmarkDanish],
                vec![Language::GermanyGerman],
                vec![Language::GreatBritainEnglish, Language::NorthAmericaEnglish],
                vec![Language::SpainSpanish, Language::MexicoSpanish],
                vec![Language::FranceFrench, Language::CanadaFrench],
                vec![Language::ItalyItalian],
                vec![Language::HungaryHungarian],
                vec![Language::NetherlandsDutch],
                vec![Language::NorwayBokmal],
                vec![Language::PolandPolish],
                vec![Language::PortugalProtugese, Language::BrazilPortuguese],
                vec![Language::SlovakiaSlovak],
                vec![Language::FinlandFinnish],
                vec![Language::SwedenSwedish],
                vec![Language::TurkeyTurkish],
                vec![Language::CzeshRepublicCzech],
                vec![Language::GreeceGreek],
                vec![Language::BulgariaBulgarian],
                vec![Language::RussiaRussian],
                vec![Language::UkraineUkrainian],
                vec![Language::JapanJapanese],
                vec![Language::ChinaChinese, Language::TaiwanChinese],
                vec![Language::KoreaKorean]
            ],
        );
        assert(r.0@[0]@ =~= default_groups()[0]);
        assert(r.0@[1]@ =~= default_groups()[1]);
        assert(r.0@[2]@ =~= default_groups()[2]);
        assert(r.0@[3]@ =~= default_groups()[3]);
        assert(r.0@[4]@ =~= default_groups()[4]);
        assert(r.0@[5]@ =~= default_groups()[5]);
        assert(r.0@[6]@ =~= default_groups()[6]);
        assert(r.0@[7]@ =~= default_groups()[7]);
        assert(r.0@[8]@ =~= default_groups()[8]);
        assert(r.0@[9]@ =~= default_groups()[9]);
        assert(r.0@[10]@ =~= default_groups()[10]);
        assert(r.0@[11]@ =~= default_groups()[11]);
        assert(r.0@[12]@ =~= default_groups()[12]);
        assert(r.0@[13]@ =~= default_groups()[13]);
        assert(r.0@[14]@ =~= default_groups()[14]);
        assert(r.0@[15]@ =~= default_groups()[15]);
        assert(r.0@[16]@ =~= default_groups()[16]);
        assert(r.0@[17]@ =~= default_groups()[17]);
        assert(r.0@[18]@ =~= default_groups()[18]);
        assert(r.0@[19]@ =~= default_groups()[19]);
        assert(r.0@[20]@ =~= default_groups()[20]);
        assert(r.0@[21]@ =~= default_groups()[21]);
        assert(r.0@[22]@ =~= default_groups()[22]);
        assert(r.0@[23]@ =~= default_groups()[23]);
        assert(r.groups() =~= default_groups());
        r
    }
}

/// A copy of a list of languages.
pub fn copy_languages(v: &Vec<Language>) -> (r: Vec<Language>)
    ensures
        r@ == v@,
{
    let mut r: Vec<Language> = Vec::new();
    let mut i: usize = 0;
    while i < v.len()
        invariant
            i <= v@.len(),
            r@ == v@.subrange(0, i as int),
        decreases v@.len() - i,
    {
        r.push(v[i].copy());
        assert(r@ =~= v@.subrange(0, i + 1));
        i = i + 1;
    }
    assert(v@.subrange(0, i as int) =~= v@);
    r
}

/// Finds the first language of `given` with the ID of `l`.
fn find_id(given: &Vec<Language>, l: &Language) -> (r: Option<usize>)
    ensures
        match first_with_id(given@, l.id(), 0) {
            Some(k) => r == Some(k as usize),
            None => r is None,
        },
{
    let mut i: usize = 0;
    while i < given.len()
        invariant
            i <= given@.len(),
            first_with_id(given@, l.id(), 0) == first_with_id(given@, l.id(), i as int),
        decreases given@.len() - i,
    {
        if given[i].same_as(l) {
            return Some(i);
        }
        i = i + 1;
    }
    None
}

impl LanguageGroups {
    /// The groups, each as the sequence of its languages.
    pub open spec fn groups(self) -> Seq<Seq<Language>> {
        self.0@.map_values(|g: Vec<Language>| g@)
    }

    /// A copy of the groups.
    pub fn copy(&self) -> (r: LanguageGroups)
        ensures
            r.groups() == self.groups(),
    {
        let mut out: Vec<Vec<Language>> = Vec::new();
        let mut i: usize = 0;
        while i < self.0.len()
            invariant
                i <= self.0@.len(),
                out@.map_values(|g: Vec<Language>| g@) == self.groups().subrange(0, i as int),
            decreases self.0@.len() - i,
        {
            let ghost before = out@;
            let g = copy_languages(&self.0[i]);
            out.push(g);
            assert(out@.map_values(|g: Vec<Language>| g@) =~= self.groups().subrange(0, i + 1)) by {
                assert(out@ == before.push(g));
                assert(self.groups()[i as int] == self.0@[i as int]@);
                assert(out@.map_values(|g: Vec<Language>| g@) =~= before.map_values(|g: Vec<Language>| g@).push(g@));
                assert(self.groups().subrange(0, i + 1) =~= self.groups().subrange(0, i as int).push(self.groups()[i as int]));
            }
            i = i + 1;
        }
        assert(self.groups().subrange(0, i as int) =~= self.groups());
        LanguageGroups(out)
    }

    /// The index of the group which contains `language`.
    pub fn group_index_of(&self, language: &Language) -> (r: Option<usize>)
        ensures
            match group_index(self.groups(), language.id()) {
                Some(k) => r == Some(k as usize),
                None => r is None,
            },
    {
        let mut i: usize = 0;
        while i < self.0.len()
            invariant
                i <= self.0@.len(),
                group_index(self.groups(), language.id()) == group_index_from(self.groups(), language.id(), i as int),
            decreases self.0@.len() - i,
        {
            let g = &self.0[i];
            assert(self.groups()[i as int] == g@);
            match find_id(g, language) {
                Some(k) => {
                    proof {
                        lemma_first_with_id_bounds(g@, language.id(), 0);
                    }
                    return Some(i);
                },
                None => {
                    proof {
                        if has_id(g@, language.id()) {
                            let j = choose|j: int| 0 <= j < g@.len() && (#[trigger] g@[j]).id() == language.id();
                            lemma_first_with_id_none(g@, language.id(), 0, j);
                        }
                    }
                },
            }
            i = i + 1;
        }
        None
    }

    /// Returns the language group which contains `language`, or the
    /// language's own singleton group if no group holds it.
    pub fn group_of(&self, language: &Language) -> (r: Vec<Language>)
        ensures
            r@ == match group_index(self.groups(), language.id()) {
                Some(k) => self.groups()[k],
                None => seq![*language],
            },
    {
        let n = self.0.len();
        assert(self.groups().len() == n);
        match self.group_index_of(language) {
            Some(k) => {
                proof {
                    lemma_group_index_bounds(self.groups(), language.id(), 0);
                }
                copy_languages(&self.0[k])
            },
            None => {
                let r = vec![language.copy()];
                assert(r@ =~= seq![*language]);
                r
            },
        }
    }

    /// Adds a language to its own group if it is not present in any group yet.
    pub fn with_language(&mut self, language: Language)
        ensures
            group_index(old(self).groups(), language.id()) is Some ==> *final(self) == *old(self),
            group_index(old(self).groups(), language.id()) is None ==> final(self).groups()
                == old(self).groups().push(seq![language]),
    {
        if self.group_index_of(&language).is_none() {
            let ghost before = self.groups();
            let ghost v0 = self.0@;
            let v = vec![language];
            assert(v@ =~= seq![language]);
            self.0.push(v);
            assert(self.groups() =~= before.push(seq![language])) by {
                assert(self.0@ == v0.push(v));
                assert forall|i: int| 0 <= i < before.len() implies self.groups()[i] == before[i] by {
                    assert(self.0@[i] == v0[i]);
                }
            }
        }
    }

    fn first_sibling_of(&self, given: &Vec<Language>, t: &Language) -> (r: Option<usize>)
        ensures
            match first_sibling(self.groups(), given@, *t, 0) {
                Some(k) => r == Some(k as usize),
                None => r is None,
            },
    {
        let n = self.0.len();
        assert(self.groups().len() == n);
        let tg = self.group_index_of(t);
        proof {
            lemma_group_index_bounds(self.groups(), t.id(), 0);
            lemma_first_sibling_bounds(self.groups(), given@, *t, 0);
        }
        let mut i: usize = 0;
        while i < given.len()
            invariant
                i <= given@.len(),
                first_sibling(self.groups(), given@, *t, 0) == first_sibling(self.groups(), given@, *t, i as int),
                self.groups().len() == n,
                match group_index(self.groups(), t.id()) {
                    Some(k) => tg == Some(k as usize),
                    None => tg is None,
                },
            decreases given@.len() - i,
        {
            let g = self.group_index_of(&given[i]);
            proof {
                lemma_group_index_bounds(self.groups(), given@[i as int].id(), 0);
                lemma_group_index_bounds(self.groups(), t.id(), 0);
            }
            if g.is_some() && tg.is_some() && g.unwrap() == tg.unwrap() {
                proof {
                    let gi = group_index(self.groups(), given@[i as int].id()).unwrap();
                    let ti = group_index(self.groups(), t.id()).unwrap();
                    assert(gi == ti);
                    assert(same_group(self.groups(), given@[i as int], *t));
                }
                return Some(i);
            }
            i = i + 1;
        }
        None
    }

    /// Returns the most fitting language of `given` for `target`:
    ///
    /// 1. the language of `given` that is `target`;
    /// 2. else the first language of `given` in the group of `target`;
    /// 3. else the language of `given` that is `fallback`;
    /// 4. else the first language of `given` in the group of `fallback`;
    /// 5. else the first language of `given`;
    /// 6. else none.
    pub fn best_language<'a>(&self, target: &Language, given: &'a Vec<Language>, fallback: &Language) -> (r: Option<&'a Language>)
        ensures
            match best_index(self.groups(), *target, given@, *fallback) {
                Some(k) => r matches Some(l) && *l == given@[k],
                None => r is None,
            },
    {
        let n = given.len();
        match self.best_index_of(target, given, fallback) {
            Some(k) => {
                proof {
                    lemma_best_index_bounds(self.groups(), *target, given@, *fallback);
                }
                Some(&given[k])
            },
            None => None,
        }
    }
}

proof fn lemma_first_with_id_none(given: Seq<Language>, id: Seq<char>, i: int, j: int)
    requires
        0 <= i <= j < given.len(),
        given[j].id() == id,
    ensures
        first_with_id(given, id, i) is Some,
    decreases j - i,
{
    if given[i].id() != id {
        lemma_first_with_id_none(given, id, i + 1, j);
    }
}

/// A translation key with the text given for each language.
#[derive(Clone, Debug)]
pub struct Translation {
    pub key: String,
    pub values: Vec<(Language, String)>,
}

/// A line `key=value` to append to the language file of `language`.
#[derive(Clone, Debug)]
pub struct LanguageLine {
    pub language: Language,
    pub key: String,
    pub value: String,
}

/// A line as the language, the key and the text.
pub type LineView = (Language, Seq<char>, Seq<char>);

impl LanguageLine {
    pub open spec fn view(self) -> LineView {
        (self.language, self.key@, self.value@)
    }

    /// The text of the line in the language file.
    pub fn text(&self) -> (r: String)
        ensures
            r@ == self.key@ + "="@ + self.value@ + "\t## @generated"@,
    {
        let mut r = self.key.clone();
        r.append("=");
        r.append(self.value.as_str());
        r.append("\t## @generated");
        r
    }
}

pub open spec fn lines_view(s: Seq<LanguageLine>) -> Seq<LineView> {
    s.map_values(|l: LanguageLine| l.view())
}

/// The languages a translation is given in.
pub open spec fn langs_of(vals: Seq<(Language, String)>) -> Seq<Language> {
    vals.map_values(|p: (Language, String)| p.0)
}

/// The lines of the languages a translation is given in.
pub open spec fn given_lines(key: Seq<char>, vals: Seq<(Language, String)>) -> Seq<LineView> {
    vals.map_values(|p: (Language, String)| (p.0, key, p.1@))
}

/// The line for `l`, a language of a group: none when the translation is
/// given in `l`; else the text of the best substitute, if there is one.
pub open spec fn fill_one(
    gs: Seq<Seq<Language>>,
    fallback: Language,
    key: Seq<char>,
    vals: Seq<(Language, String)>,
    l: Language,
) -> Seq<LineView> {
    if first_with_id(langs_of(vals), l.id(), 0) is Some {
        Seq::empty()
    } else {
        match best_index(gs, l, langs_of(vals), fallback) {
            Some(j) => seq![(l, key, vals[j].1@)],
            None => Seq::empty(),
        }
    }
}

/// The lines for the first `upto` languages of the group `g`.
pub open spec fn fill_group(
    gs: Seq<Seq<Language>>,
    fallback: Language,
    key: Seq<char>,
    vals: Seq<(Language, String)>,
    g: Seq<Language>,
    upto: int,
) -> Seq<LineView>
    decreases upto,
{
    if upto <= 0 {
        Seq::empty()
    } else {
        fill_group(gs, fallback, key, vals, g, upto - 1) + fill_one(gs, fallback, key, vals, g[upto - 1])
    }
}

/// The lines for the languages of the first `upto` groups.
pub open spec fn fill_groups(
    gs: Seq<Seq<Language>>,
    fallback: Language,
    key: Seq<char>,
    vals: Seq<(Language, String)>,
    upto: int,
) -> Seq<LineView>
    decreases upto,
{
    if upto <= 0 {
        Seq::empty()
    } else {
        fill_groups(gs, fallback, key, vals, upto - 1) + fill_group(
            gs,
            fallback,
            key,
            vals,
            gs[upto - 1],
            gs[upto - 1].len() as int,
        )
    }
}

/// The lines of one translation: those of the languages it is given in, in
/// order, then one for each language of the groups it is not given in that
/// has a substitute.
pub open spec fn translation_lines(gs: Seq<Seq<Language>>, fallback: Language, t: Translation) -> Seq<LineView> {
    given_lines(t.key@, t.values@) + fill_groups(gs, fallback, t.key@, t.values@, gs.len() as int)
}

/// The lines of the first `upto` translations.
pub open spec fn all_lines(gs: Seq<Seq<Language>>, fallback: Language, data: Seq<Translation>, upto: int) -> Seq<LineView>
    decreases upto,
{
    if upto <= 0 {
        Seq::empty()
    } else {
        all_lines(gs, fallback, data, upto - 1) + translation_lines(gs, fallback, data[upto - 1])
    }
}

proof fn lemma_push_line(s: Seq<LanguageLine>, l: LanguageLine)
    ensures
        lines_view(s.push(l)) == lines_view(s) + seq![l.view()],
{
    assert(lines_view(s.push(l)) =~= lines_view(s) + seq![l.view()]);
}

impl LanguageGroups {
    /// The index in `given` of the most fitting language, as [`LanguageGroups::best_language`] picks it.
    pub fn best_index_of(&self, target: &Language, given: &Vec<Language>, fallback: &Language) -> (r: Option<usize>)
        ensures
            match best_index(self.groups(), *target, given@, *fallback) {
                Some(k) => r == Some(k as usize),
                None => r is None,
            },
    {
        proof {
            lemma_first_with_id_bounds(given@, target.id(), 0);
            lemma_first_with_id_bounds(given@, fallback.id(), 0);
            lemma_first_sibling_bounds(self.groups(), given@, *target, 0);
            lemma_first_sibling_bounds(self.groups(), given@, *fallback, 0);
        }
        let n = given.len();
        if let Some(k) = find_id(given, target) {
            return Some(k);
        }
        if let Some(k) = self.first_sibling_of(given, target) {
            return Some(k);
        }
        if let Some(k) = find_id(given, fallback) {
            return Some(k);
        }
        if let Some(k) = self.first_sibling_of(given, fallback) {
            return Some(k);
        }
        if n == 0 {
            None
        } else {
            Some(0)
        }
    }

    fn fill_lines(
        &self,
        fallback: &Language,
        key: &String,
        vals: &Vec<(Language, String)>,
        covered: &Vec<Language>,
        out: &mut Vec<LanguageLine>,
    )
        requires
            covered@ == langs_of(vals@),
        ensures
            lines_view(final(out)@) == lines_view(old(out)@) + fill_groups(
                self.groups(),
                *fallback,
                key@,
                vals@,
                self.groups().len() as int,
            ),
    {
        let ghost gs = self.groups();
        let ghost start = lines_view(out@);
        let nv = vals.len();
        let n = self.0.len();
        let mut gi: usize = 0;
        while gi < n
            invariant
                n == self.0@.len() == gs.len(),
                gs == self.groups(),
                gi <= n,
                nv == vals@.len(),
                covered@ == langs_of(vals@),
                lines_view(out@) == start + fill_groups(gs, *fallback, key@, vals@, gi as int),
            decreases n - gi,
        {
            let g = &self.0[gi];
            assert(gs[gi as int] == g@);
            let m = g.len();
            let mut li: usize = 0;
            while li < m
                invariant
                    n == self.0@.len() == gs.len(),
                    gs == self.groups(),
                    gi < n,
                    gs[gi as int] == g@,
                    m == g@.len(),
                    li <= m,
                    nv == vals@.len(),
                    covered@ == langs_of(vals@),
                    lines_view(out@) == start + fill_groups(gs, *fallback, key@, vals@, gi as int)
                        + fill_group(gs, *fallback, key@, vals@, g@, li as int),
                decreases m - li,
            {
                let l = &g[li];
                let ghost before = out@;
                let ghost f1 = fill_one(gs, *fallback, key@, vals@, g@[li as int]);
                assert(fill_group(gs, *fallback, key@, vals@, g@, li + 1) == fill_group(
                    gs,
                    *fallback,
                    key@,
                    vals@,
                    g@,
                    li as int,
                ) + f1);
                if find_id(covered, l).is_none() {
                    match self.best_index_of(l, covered, fallback) {
                        Some(j) => {
                            proof {
                                lemma_best_index_bounds(gs, *l, covered@, *fallback);
                            }
                            let line = LanguageLine {
                                language: l.copy(),
                                key: key.clone(),
                                value: vals[j].1.clone(),
                            };
                            out.push(line);
                            proof {
                                lemma_push_line(before, line);
                                assert(f1 == seq![line.view()]);
                            }
                        },
                        None => {
                            assert(f1 =~= Seq::<LineView>::empty());
                            assert(out@ == before);
                        },
                    }
                } else {
                    assert(f1 =~= Seq::<LineView>::empty());
                }
                assert(lines_view(out@) =~= start + fill_groups(gs, *fallback, key@, vals@, gi as int)
                    + fill_group(gs, *fallback, key@, vals@, g@, li + 1));
                li = li + 1;
            }
            assert(lines_view(out@) =~= start + fill_groups(gs, *fallback, key@, vals@, gi + 1));
            gi = gi + 1;
        }
    }
}

proof fn lemma_best_index_bounds(gs: Seq<Seq<Language>>, t: Language, given: Seq<Language>, fb: Language)
    ensures
        best_index(gs, t, given, fb) matches Some(k) ==> 0 <= k < given.len(),
{
    lemma_first_with_id_bounds(given, t.id(), 0);
    lemma_first_with_id_bounds(given, fb.id(), 0);
    lemma_first_sibling_bounds(gs, given, t, 0);
    lemma_first_sibling_bounds(gs, given, fb, 0);
}

/// Computes the lines to append to the language files.
///
/// For each translation key, in order: one line for each language it is
/// given in, then, for every language of `groups` it is not given in, a line
/// with the text of the best substitute ([`LanguageGroups::best_language`])
/// among the languages it is given in. A language without a substitute gets
/// no line.
pub fn update_language_files(groups: &LanguageGroups, fallback: &Language, data: &Vec<Translation>) -> (r: Vec<LanguageLine>)
    ensures
        lines_view(r@) == all_lines(groups.groups(), *fallback, data@, data@.len() as int),
{
    let mut out: Vec<LanguageLine> = Vec::new();
    let mut ti: usize = 0;
    assert(lines_view(out@) =~= Seq::<LineView>::empty());
    while ti < data.len()
        invariant
            ti <= data@.len(),
            lines_view(out@) == all_lines(groups.groups(), *fallback, data@, ti as int),
        decreases data@.len() - ti,
    {
        let t = &data[ti];
        let ghost base = lines_view(out@);
        let mut covered: Vec<Language> = Vec::new();
        let mut vi: usize = 0;
        while vi < t.values.len()
            invariant
                vi <= t.values@.len(),
                covered@ == langs_of(t.values@.subrange(0, vi as int)),
                lines_view(out@) == base + given_lines(t.key@, t.values@.subrange(0, vi as int)),
            decreases t.values@.len() - vi,
        {
            let ghost before = out@;
            let (lang, text) = &t.values[vi];
            let line = LanguageLine { language: lang.copy(), key: t.key.clone(), value: text.clone() };
            out.push(line);
            covered.push(lang.copy());
            proof {
                lemma_push_line(before, line);
                let s1 = t.values@.subrange(0, vi + 1);
                let s0 = t.values@.subrange(0, vi as int);
                assert(s1 =~= s0.push(t.values@[vi as int]));
                assert(langs_of(s1) =~= langs_of(s0).push(*lang));
                assert(given_lines(t.key@, s1) =~= given_lines(t.key@, s0) + seq![line.view()]);
            }
            vi = vi + 1;
        }
        assert(t.values@.subrange(0, vi as int) =~= t.values@);
        groups.fill_lines(fallback, &t.key, &t.values, &covered, &mut out);
        assert(lines_view(out@) =~= all_lines(groups.groups(), *fallback, data@, ti + 1));
        ti = ti + 1;
    }
    out
}


/// The name of a language as shown to people.
pub open spec fn display_of(l: Language) -> Seq<char> {
    match l {
            Language::IndonesiaIndonesian => "Indonesian"@,
            Language::DenmarkDanish => "Danish"@,
            Language::GermanyGerman => "German"@,
            Language::GreatBritainEnglish => "UK English"@,
            Language::NorthAmericaEnglish => "US English"@,
            Language::SpainSpanish => "Spanish"@,
            Language::MexicoSpanish => "Mexican Spanish"@,
            Language::CanadaFrench => "Canadian"@,
            Language::FranceFrench => "French"@,
            Language::ItalyItalian => "Italian"@,
            Language::HungaryHungarian => "Hungarian"@,
            Language::NetherlandsDutch => "Dutch"@,
            Language::NorwayBokmal => "Bokmål"@,
            Language::PolandPolish => "Polish"@,
            Language::BrazilPortuguese => "Brazilian Portuguese"@,
            Language::PortugalProtugese => "Portuguese"@,
            Language::SlovakiaSlovak => "Slovak"@,
            Language::FinlandFinnish => "Finnish"@,
            Language::SwedenSwedish => "Swedish"@,
            Language::TurkeyTurkish => "Turkish"@,
            Language::CzeshRepublicCzech => "Czech"@,
            Language::GreeceGreek => "Greek"@,
            Language::BulgariaBulgarian => "Bulgarian"@,
            Language::RussiaRussian => "Russian"@,
            Language::UkraineUkrainian => "Ukrainian"@,
            Language::JapanJapanese => "Japanese"@,
            Language::ChinaChinese => "Chinese (Simplified)"@,
            Language::TaiwanChinese => "Chinese (Traditional)"@,
            Language::KoreaKorean => "Korean"@,
        Language::Other(id, name) => match name {
            Some(n) => n@ + " ("@ + id@ + ")"@,
            None => "Language with id "@ + id@,
        },
    }
}

/// The text with each `_` replaced by `-`.
pub open spec fn dashed(s: Seq<char>) -> Seq<char> {
    s.map_values(|c: char| if c == '_' { '-' } else { c })
}

/// What `serde_json` writes for an array of strings.
pub uninterp spec fn json_of_strings(v: Seq<Seq<char>>) -> Seq<char>;

/// Relies on `serde_json::to_string`: the compact JSON text of an array of strings.
#[verifier::external_body]
fn json_array(v: &Vec<String>) -> (r: String)
    ensures
        r@ == json_of_strings(v@.map_values(|s: String| s@)),
{
    match serde_json::to_string(v) {
        Ok(t) => t,
        Err(_) => String::new(),
    }
}

/// The stems that are language file IDs (they have a `_`), in order.
pub open spec fn language_stems(stems: Seq<Seq<char>>, upto: int) -> Seq<Seq<char>>
    decreases upto,
{
    if upto <= 0 {
        Seq::empty()
    } else if index_of(stems[upto - 1], '_') is Some {
        language_stems(stems, upto - 1).push(stems[upto - 1])
    } else {
        language_stems(stems, upto - 1)
    }
}

/// The text of `languages.json`: the array of the file stems of the
/// language files, given the stems of the `.lang` files of a directory.
pub fn generate_language_json(stems: &Vec<String>) -> (r: String)
    ensures
        r@ == json_of_strings(language_stems(stems@.map_values(|s: String| s@), stems@.len() as int)),
{
    let ghost views = stems@.map_values(|s: String| s@);
    let mut langs: Vec<String> = Vec::new();
    let mut i: usize = 0;
    while i < stems.len()
        invariant
            i <= stems@.len(),
            views == stems@.map_values(|s: String| s@),
            langs@.map_values(|s: String| s@) == language_stems(views, i as int),
        decreases stems@.len() - i,
    {
        let ghost before = langs@;
        if Language::from_file_id(stems[i].as_str()).is_some() {
            langs.push(stems[i].clone());
            assert(langs@.map_values(|s: String| s@) =~= before.map_values(|s: String| s@).push(views[i as int]));
        }
        i = i + 1;
    }
    json_array(&langs)
}

impl Language {
    /// The name of the language as shown to people.
    pub fn display_name(&self) -> (r: String)
        ensures
            r@ == display_of(*self),
    {
        match self {
            Language::IndonesiaIndonesian => String::from_str("Indonesian"),
            Language::DenmarkDanish => String::from_str("Danish"),
            Language::GermanyGerman => String::from_str("German"),
            Language::GreatBritainEnglish => String::from_str("UK English"),
            Language::NorthAmericaEnglish => String::from_str("US English"),
            Language::SpainSpanish => String::from_str("Spanish"),
            Language::MexicoSpanish => String::from_str("Mexican Spanish"),
            Language::CanadaFrench => String::from_str("Canadian"),
            Language::FranceFrench => String::from_str("French"),
            Language::ItalyItalian => String::from_str("Italian"),
            Language::HungaryHungarian => String::from_str("Hungarian"),
            Language::NetherlandsDutch => String::from_str("Dutch"),
            Language::NorwayBokmal => String::from_str("Bokmål"),
            Language::PolandPolish => String::from_str("Polish"),
            Language::BrazilPortuguese => String::from_str("Brazilian Portuguese"),
            Language::PortugalProtugese => String::from_str("Portuguese"),
            Language::SlovakiaSlovak => String::from_str("Slovak"),
            Language::FinlandFinnish => String::from_str("Finnish"),
            Language::SwedenSwedish => String::from_str("Swedish"),
            Language::TurkeyTurkish => String::from_str("Turkish"),
            Language::CzeshRepublicCzech => String::from_str("Czech"),
            Language::GreeceGreek => String::from_str("Greek"),
            Language::BulgariaBulgarian => String::from_str("Bulgarian"),
            Language::RussiaRussian => String::from_str("Russian"),
            Language::UkraineUkrainian => String::from_str("Ukrainian"),
            Language::JapanJapanese => String::from_str("Japanese"),
            Language::ChinaChinese => String::from_str("Chinese (Simplified)"),
            Language::TaiwanChinese => String::from_str("Chinese (Traditional)"),
            Language::KoreaKorean => String::from_str("Korean"),
            Language::Other(id, name) => match name {
                Some(n) => {
                    let mut r = n.clone();
                    r.append(" (");
                    r.append(id.as_str());
                    r.append(")");
                    r
                },
                None => {
                    let mut r = String::from_str("Language with id ");
                    r.append(id.as_str());
                    r
                },
            },
        }
    }

    /// The language of an ID as a configuration writes it: case and `_`
    /// or `-` as separator do not matter.
    pub fn from_config_id(s: &str) -> (r: Language)
        ensures
            r.id() == dashed(lower_of(s@)),
            r is Other <==> !is_vanilla_id(dashed(lower_of(s@))),
            r matches Language::Other(_, name) ==> name is None,
    {
        let lower = to_lower(s);
        let n = lower.unicode_len();
        let mut out = String::new();
        let mut i: usize = 0;
        while i < n
            invariant
                n == lower@.len(),
                i <= n,
                out@ == dashed(lower@.subrange(0, i as int)),
            decreases n - i,
        {
            let c = lower.get_char(i);
            if c == '_' {
                out.append("-");
            } else {
                out.append(lower.as_str().substring_char(i, i + 1));
            }
            proof {
                reveal_strlit("-");
            }
            assert(out@ =~= dashed(lower@.subrange(0, i + 1)));
            i = i + 1;
        }
        assert(lower@.subrange(0, n as int) =~= lower@);
        Language::from_id_text(out.as_str())
    }
}

} // verus!
