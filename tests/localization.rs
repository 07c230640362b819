use allay::localization::{update_language_files, Language, LanguageGroups, Translation};

fn es_en_groups() -> LanguageGroups {
    LanguageGroups(vec![
        vec![Language::GreatBritainEnglish, Language::NorthAmericaEnglish],
        vec![Language::SpainSpanish, Language::MexicoSpanish],
    ])
}

#[test]
fn best_language_prefers_sibling_of_target() {
    let groups = es_en_groups();
    let given = vec![Language::NorthAmericaEnglish, Language::MexicoSpanish];
    let r = groups.best_language(&Language::SpainSpanish, &given, &Language::NorthAmericaEnglish);
    assert_eq!(r.map(|l| l.id_string()), Some("es-mx".to_string()));
}

#[test]
fn best_language_falls_back_to_fallback() {
    let groups = es_en_groups();
    let given = vec![Language::NorthAmericaEnglish];
    let r = groups.best_language(&Language::SpainSpanish, &given, &Language::NorthAmericaEnglish);
    assert_eq!(r.map(|l| l.id_string()), Some("en-us".to_string()));
}

#[test]
fn best_language_none_when_nothing_given() {
    let groups = es_en_groups();
    let given: Vec<Language> = vec![];
    let r = groups.best_language(&Language::SpainSpanish, &given, &Language::NorthAmericaEnglish);
    assert!(r.is_none());
}

#[test]
fn best_language_exact_match_first() {
    let groups = LanguageGroups::default();
    let given = vec![Language::SpainSpanish, Language::NorthAmericaEnglish, Language::MexicoSpanish];
    let r = groups.best_language(&Language::NorthAmericaEnglish, &given, &Language::NorthAmericaEnglish);
    assert_eq!(r.map(|l| l.id_string()), Some("en-us".to_string()));
    let given = vec![Language::SpainSpanish, Language::MexicoSpanish];
    let r = groups.best_language(&Language::SpainSpanish, &given, &Language::NorthAmericaEnglish);
    assert_eq!(r.map(|l| l.id_string()), Some("es-es".to_string()));
}

#[test]
fn best_language_sibling_of_fallback_then_first() {
    let groups = es_en_groups();
    let given = vec![Language::GermanyGerman, Language::GreatBritainEnglish];
    let r = groups.best_language(&Language::FranceFrench, &given, &Language::NorthAmericaEnglish);
    assert_eq!(r.map(|l| l.id_string()), Some("en-gb".to_string()));
    let given = vec![Language::GermanyGerman, Language::ItalyItalian];
    let r = groups.best_language(&Language::FranceFrench, &given, &Language::NorthAmericaEnglish);
    assert_eq!(r.map(|l| l.id_string()), Some("de-de".to_string()));
}

#[test]
fn group_of_and_with_language() {
    let mut groups = es_en_groups();
    assert_eq!(groups.group_index_of(&Language::MexicoSpanish), Some(1));
    let own = groups.group_of(&Language::GermanyGerman);
    assert_eq!(own.len(), 1);
    assert!(own[0].same_as(&Language::GermanyGerman));
    let en = groups.group_of(&Language::NorthAmericaEnglish);
    assert_eq!(en.iter().map(|l| l.id_string()).collect::<Vec<_>>(), vec!["en-gb", "en-us"]);
    groups.with_language(Language::GermanyGerman);
    assert_eq!(groups.0.len(), 3);
    assert_eq!(groups.group_index_of(&Language::GermanyGerman), Some(2));
    groups.with_language(Language::NorthAmericaEnglish);
    assert_eq!(groups.0.len(), 3);
}

#[test]
fn default_groups_pair_dialects() {
    let groups = LanguageGroups::default();
    assert_eq!(groups.0.len(), 24);
    assert_eq!(
        groups.group_index_of(&Language::BrazilPortuguese),
        groups.group_index_of(&Language::PortugalProtugese)
    );
    assert_ne!(
        groups.group_index_of(&Language::BrazilPortuguese),
        groups.group_index_of(&Language::SpainSpanish)
    );
}

#[test]
fn language_ids() {
    assert_eq!(Language::from_id("de-de").map(|l| l.id_string()), Some("de-de".to_string()));
    assert!(matches!(Language::from_id("de-de"), Some(Language::GermanyGerman)));
    assert!(matches!(Language::from_id("at-at"), Some(Language::Other(ref id, None)) if id == "at-at"));
    assert!(Language::from_id("de_DE").is_none());
    assert!(matches!(Language::from_file_id("de_DE"), Some(Language::GermanyGerman)));
    assert!(matches!(Language::from_file_id("at_AT"), Some(Language::Other(ref id, None)) if id == "at-at"));
    assert!(Language::from_file_id("de-DE").is_none());
    assert!(matches!(Language::from_pair(("en", "us")), Language::NorthAmericaEnglish));
    assert_eq!(Language::vanilla().len(), 29);
}

#[test]
fn file_ids() {
    assert_eq!(Language::IndonesiaIndonesian.file_id(), "id_ID");
    assert_eq!(Language::NorwayBokmal.file_id(), "nb_NO");
    assert_eq!(Language::Other("at-at".to_string(), None).file_id(), "at_AT");
    assert!(Language::Other("de-de".to_string(), None).same_as(&Language::GermanyGerman));
    assert!(!Language::SpainSpanish.same_as(&Language::MexicoSpanish));
}

#[test]
fn language_lines_fill_missing_languages() {
    let groups = es_en_groups();
    let data = vec![Translation {
        key: "pack.name".to_string(),
        values: vec![
            (Language::NorthAmericaEnglish, "Name".to_string()),
            (Language::MexicoSpanish, "Nombre".to_string()),
        ],
    }];
    let lines = update_language_files(&groups, &Language::NorthAmericaEnglish, &data);
    let got: Vec<(String, String, String)> = lines
        .iter()
        .map(|l| (l.language.id_string(), l.key.clone(), l.value.clone()))
        .collect();
    let want: Vec<(String, String, String)> = vec![
        ("en-us", "pack.name", "Name"),
        ("es-mx", "pack.name", "Nombre"),
        ("en-gb", "pack.name", "Name"),
        ("es-es", "pack.name", "Nombre"),
    ]
    .into_iter()
    .map(|(a, b, c)| (a.to_string(), b.to_string(), c.to_string()))
    .collect();
    assert_eq!(got, want);
    assert_eq!(lines[0].text(), "pack.name=Name\t## @generated");
}

#[test]
fn language_lines_without_translation_skip() {
    let groups = es_en_groups();
    let data = vec![Translation { key: "k".to_string(), values: vec![] }];
    let lines = update_language_files(&groups, &Language::NorthAmericaEnglish, &data);
    assert!(lines.is_empty());
}

#[test]
fn display_names() {
    assert_eq!(Language::TaiwanChinese.display_name(), "Chinese (Traditional)");
    assert_eq!(Language::NorwayBokmal.display_name(), "Bokmål");
    assert_eq!(
        Language::Other("at-at".to_string(), Some("Austrian German".to_string())).display_name(),
        "Austrian German (at-at)"
    );
    assert_eq!(Language::Other("at-at".to_string(), None).display_name(), "Language with id at-at");
}

#[test]
fn config_language_ids() {
    assert!(matches!(Language::from_config_id("EN_us"), Language::NorthAmericaEnglish));
    assert!(matches!(Language::from_config_id("at_AT"), Language::Other(ref id, None) if id == "at-at"));
}

#[test]
fn languages_json() {
    let stems = vec!["en_US".to_string(), "readme".to_string(), "de_DE".to_string()];
    assert_eq!(allay::localization::generate_language_json(&stems), "[\"en_US\",\"de_DE\"]");
    assert_eq!(allay::localization::generate_language_json(&vec![]), "[]");
}
