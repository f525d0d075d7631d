use c3pm::generator::Generator;
use c3pm::model::{parse_generator, parse_standard, BuildConfig, CStandard, CppStandard, Language};

#[test]
fn language_from_str_ignores_case_and_spaces() {
    assert_eq!(Language::from_str(" CPP17 "), Ok(Language::Cpp17));
    assert_eq!(Language::from_str("c11"), Ok(Language::C11));
    assert_eq!(Language::from_str("rust"), Err("Unknown language: rust".to_string()));
}

#[test]
fn language_facts() {
    assert!(Language::C23.is_c());
    assert!(!Language::Cpp98.is_c());
    assert_eq!(Language::Cpp20.get_lang_and_standard(), ("C++".to_string(), "20".to_string()));
    assert_eq!(Language::C99.get_lang_and_standard(), ("C".to_string(), "99".to_string()));
    assert_eq!(Language::Cpp14.label(), "cpp14");
    assert_eq!(Language::from_label("CPP14"), None);
}

#[test]
fn c_standard_parsing() {
    assert_eq!(CStandard::try_from("90"), Ok(CStandard::C89));
    assert_eq!(CStandard::try_from("89"), Ok(CStandard::C89));
    assert_eq!(CStandard::C89.number(), "90");
    assert_eq!(
        CStandard::try_from(""),
        Err("Standard was not provided! Possible values are: 89, 90, 99, 11, 17, 23".to_string())
    );
    assert_eq!(
        CStandard::try_from("12"),
        Err("Invalid standard version! Possible values are: 89, 90, 99, 11, 17, 23".to_string())
    );
}

#[test]
fn cpp_standard_parsing() {
    assert_eq!(CppStandard::try_from("17"), Ok(CppStandard::Cpp17));
    assert_eq!(CppStandard::Cpp23.number(), "23");
    assert!(CppStandard::try_from("99").is_err());
}

#[test]
fn parse_standard_lowercases_and_takes_first_match() {
    let pairs = [(1u8, "a"), (2u8, "b"), (3u8, "b")];
    assert_eq!(parse_standard("B", &pairs), Ok(2));
    assert_eq!(
        parse_standard("z", &pairs),
        Err("Invalid standard version! Possible values are: a, b, b".to_string())
    );
}

#[test]
fn parse_generator_is_case_sensitive() {
    let pairs = [(1u8, "Ninja")];
    assert_eq!(parse_generator("Ninja", &pairs), Ok(1));
    assert_eq!(
        parse_generator("ninja", &pairs),
        Err("Invalid generator name! Possible values are: Ninja".to_string())
    );
    assert_eq!(
        parse_generator("", &pairs),
        Err("Generator was not provided! Possible values are: Ninja".to_string())
    );
}

#[test]
fn build_config_parsing() {
    assert_eq!(BuildConfig::from_str("Release"), Ok(BuildConfig::Release));
    assert_eq!(BuildConfig::from_str("relwithdebinfo"), Ok(BuildConfig::RelWithDebInfo));
    assert_eq!(
        BuildConfig::from_str("fast"),
        Err("Invalid BuildConfig. Possible values are: Debug, RelWithDebInfo, Release, MinSizeRel".to_string())
    );
    assert_eq!(BuildConfig::MinSizeRel.name(), "MinSizeRel");
}

#[test]
fn generator_names() {
    assert_eq!(Generator::try_from("Ninja"), Ok(Generator::Ninja));
    assert_eq!(
        Generator::try_from("CodeBlocks - NMake Makefiles"),
        Ok(Generator::CodeblocksNMake)
    );
    assert_eq!(Generator::VisualStudio2022.label(), "Visual Studio 17 2022");
    assert_eq!(Generator::GreenHillsMulti.label(), "Green Hill MULTI");
    let err = Generator::try_from("Make").unwrap_err();
    assert!(err.starts_with("Invalid generator name! Possible values are: Visual Studio 17 2022, "));
    assert!(err.ends_with(", Sublime Text 2 - Unix Makefiles"));
    assert!(Generator::try_from("").unwrap_err().starts_with("Generator was not provided!"));
}

#[test]
fn language_labels_read_back() {
    let all = [
        Language::C99, Language::C11, Language::C17, Language::C23, Language::Cpp98,
        Language::Cpp11, Language::Cpp14, Language::Cpp17, Language::Cpp20, Language::Cpp23,
    ];
    for l in all {
        assert_eq!(Language::from_label(l.label()), Some(l));
        assert_eq!(Language::from_str(l.label()), Ok(l));
    }
}
