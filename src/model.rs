use vstd::prelude::*;
use vstd::string::*;

use crate::text::{find_label, join, join_labels, labels, lookup, lower_of, lowercase, str_eq, trim, trimmed_of};

verus! {

/// A language together with the standard a project is built against.
#[derive(PartialEq, Eq, Structural, Clone, Copy, Debug)]
pub enum Language {
    C99,
    C11,
    C17,
    C23,
    Cpp98,
    Cpp11,
    Cpp14,
    Cpp17,
    Cpp20,
    Cpp23,
}

/// How a language is written on the command line and shown (`c99`, `cpp17`, ...).
pub open spec fn language_label(l: Language) -> Seq<char> {
    match l {
        Language::C99 => "c99"@,
        Language::C11 => "c11"@,
        Language::C17 => "c17"@,
        Language::C23 => "c23"@,
        Language::Cpp98 => "cpp98"@,
        Language::Cpp11 => "cpp11"@,
        Language::Cpp14 => "cpp14"@,
        Language::Cpp17 => "cpp17"@,
        Language::Cpp20 => "cpp20"@,
        Language::Cpp23 => "cpp23"@,
    }
}

/// The language whose label is `s`.
pub open spec fn language_of_label(s: Seq<char>) -> Option<Language> {
    if s == "c99"@ {
        Some(Language::C99)
    } else if s == "c11"@ {
        Some(Language::C11)
    } else if s == "c17"@ {
        Some(Language::C17)
    } else if s == "c23"@ {
        Some(Language::C23)
    } else if s == "cpp98"@ {
        Some(Language::Cpp98)
    } else if s == "cpp11"@ {
        Some(Language::Cpp11)
    } else if s == "cpp14"@ {
        Some(Language::Cpp14)
    } else if s == "cpp17"@ {
        Some(Language::Cpp17)
    } else if s == "cpp20"@ {
        Some(Language::Cpp20)
    } else if s == "cpp23"@ {
        Some(Language::Cpp23)
    } else {
        None
    }
}

/// The standard's number, as CMake's `CMAKE_<LANG>_STANDARD` takes it.
pub open spec fn standard_number(l: Language) -> Seq<char> {
    match l {
        Language::C99 => "99"@,
        Language::C11 => "11"@,
        Language::C17 => "17"@,
        Language::C23 => "23"@,
        Language::Cpp98 => "98"@,
        Language::Cpp11 => "11"@,
        Language::Cpp14 => "14"@,
        Language::Cpp17 => "17"@,
        Language::Cpp20 => "20"@,
        Language::Cpp23 => "23"@,
    }
}

impl Language {
    pub open spec fn spec_is_c(self) -> bool {
        self is C99 || self is C11 || self is C17 || self is C23
    }

    /// Whether this is a C (rather than C++) standard.
    pub fn is_c(&self) -> (r: bool)
        ensures
            r == self.spec_is_c(),
    {
        match self {
            Language::C99 | Language::C11 | Language::C17 | Language::C23 => true,
            _ => false,
        }
    }

    /// The language's name (`C` or `C++`) and the standard's number.
    pub fn get_lang_and_standard(&self) -> (r: (String, String))
        ensures
            r.0@ == (if self.spec_is_c() { "C"@ } else { "C++"@ }),
            r.1@ == standard_number(*self),
    {
        let lang = if self.is_c() {
            String::from_str("C")
        } else {
            String::from_str("C++")
        };
        let number = match self {
            Language::C99 => "99",
            Language::C11 => "11",
            Language::C17 => "17",
            Language::C23 => "23",
            Language::Cpp98 => "98",
            Language::Cpp11 => "11",
            Language::Cpp14 => "14",
            Language::Cpp17 => "17",
            Language::Cpp20 => "20",
            Language::Cpp23 => "23",
        };
        (lang, String::from_str(number))
    }

    /// The language's label (`c99`, `cpp17`, ...).
    pub fn label(&self) -> (r: &'static str)
        ensures
            r@ == language_label(*self),
    {
        match self {
            Language::C99 => "c99",
            Language::C11 => "c11",
            Language::C17 => "c17",
            Language::C23 => "c23",
            Language::Cpp98 => "cpp98",
            Language::Cpp11 => "cpp11",
            Language::Cpp14 => "cpp14",
            Language::Cpp17 => "cpp17",
            Language::Cpp20 => "cpp20",
            Language::Cpp23 => "cpp23",
        }
    }

    /// The language labelled exactly `label`.
    pub fn from_label(label: &str) -> (r: Option<Language>)
        ensures
            r == language_of_label(label@),
    {
        if str_eq(label, "c99") {
            Some(Language::C99)
        } else if str_eq(label, "c11") {
            Some(Language::C11)
        } else if str_eq(label, "c17") {
            Some(Language::C17)
        } else if str_eq(label, "c23") {
            Some(Language::C23)
        } else if str_eq(label, "cpp98") {
            Some(Language::Cpp98)
        } else if str_eq(label, "cpp11") {
            Some(Language::Cpp11)
        } else if str_eq(label, "cpp14") {
            Some(Language::Cpp14)
        } else if str_eq(label, "cpp17") {
            Some(Language::Cpp17)
        } else if str_eq(label, "cpp20") {
            Some(Language::Cpp20)
        } else if str_eq(label, "cpp23") {
            Some(Language::Cpp23)
        } else {
            None
        }
    }

    /// Reads a language label, ignoring case and surrounding whitespace.
    pub fn from_str(s: &str) -> (r: Result<Language, String>)
        ensures
            match language_of_label(trimmed_of(lower_of(s@))) {
                Some(l) => r == Ok::<Language, String>(l),
                None => r matches Err(m) && m@ == "Unknown language: "@ + s@,
            },
    {
        let lowered = lowercase(s);
        match Language::from_label(trim(lowered.as_str())) {
            Some(l) => Ok(l),
            None => {
                let mut m = String::from_str("Unknown language: ");
                m.append(s);
                Err(m)
            },
        }
    }
}

/// Reading a language's label gives the language back.
pub proof fn lemma_language_label_round_trip(l: Language)
    ensures
        language_of_label(language_label(l)) == Some(l),
{
    reveal_strlit("c99");
    reveal_strlit("c11");
    reveal_strlit("c17");
    reveal_strlit("c23");
    reveal_strlit("cpp98");
    reveal_strlit("cpp11");
    reveal_strlit("cpp14");
    reveal_strlit("cpp17");
    reveal_strlit("cpp20");
    reveal_strlit("cpp23");
    match l {
        Language::C99 => {},
        Language::C11 => {
            assert("c11"@[1] != "c99"@[1]);
        },
        Language::C17 => {
            assert("c17"@[1] != "c99"@[1]);
            assert("c17"@[2] != "c11"@[2]);
        },
        Language::C23 => {
            assert("c23"@[1] != "c99"@[1]);
            assert("c23"@[1] != "c11"@[1]);
            assert("c23"@[1] != "c17"@[1]);
        },
        Language::Cpp98 => {
            assert("cpp98"@.len() != "c99"@.len());
            assert("cpp98"@.len() != "c11"@.len());
            assert("cpp98"@.len() != "c17"@.len());
            assert("cpp98"@.len() != "c23"@.len());
        },
        Language::Cpp11 => {
            assert("cpp11"@.len() != "c99"@.len());
            assert("cpp11"@.len() != "c11"@.len());
            assert("cpp11"@.len() != "c17"@.len());
            assert("cpp11"@.len() != "c23"@.len());
            assert("cpp11"@[3] != "cpp98"@[3]);
        },
        Language::Cpp14 => {
            assert("cpp14"@.len() != "c99"@.len());
            assert("cpp14"@.len() != "c11"@.len());
            assert("cpp14"@.len() != "c17"@.len());
            assert("cpp14"@.len() != "c23"@.len());
            assert("cpp14"@[3] != "cpp98"@[3]);
            assert("cpp14"@[4] != "cpp11"@[4]);
        },
        Language::Cpp17 => {
            assert("cpp17"@.len() != "c99"@.len());
            assert("cpp17"@.len() != "c11"@.len());
            assert("cpp17"@.len() != "c17"@.len());
            assert("cpp17"@.len() != "c23"@.len());
            assert("cpp17"@[3] != "cpp98"@[3]);
            assert("cpp17"@[4] != "cpp11"@[4]);
            assert("cpp17"@[4] != "cpp14"@[4]);
        },
        Language::Cpp20 => {
            assert("cpp20"@.len() != "c99"@.len());
            assert("cpp20"@.len() != "c11"@.len());
            assert("cpp20"@.len() != "c17"@.len());
            assert("cpp20"@.len() != "c23"@.len());
            assert("cpp20"@[3] != "cpp98"@[3]);
            assert("cpp20"@[3] != "cpp11"@[3]);
            assert("cpp20"@[3] != "cpp14"@[3]);
            assert("cpp20"@[3] != "cpp17"@[3]);
        },
        Language::Cpp23 => {
            assert("cpp23"@.len() != "c99"@.len());
            assert("cpp23"@.len() != "c11"@.len());
            assert("cpp23"@.len() != "c17"@.len());
            assert("cpp23"@.len() != "c23"@.len());
            assert("cpp23"@[3] != "cpp98"@[3]);
            assert("cpp23"@[3] != "cpp11"@[3]);
            assert("cpp23"@[3] != "cpp14"@[3]);
            assert("cpp23"@[3] != "cpp17"@[3]);
            assert("cpp23"@[4] != "cpp20"@[4]);
        },
    }
}

/// A C standard, as the older per-language configuration names it.
#[derive(PartialEq, Eq, Structural, Clone, Copy, Debug)]
pub enum CStandard {
    C89,
    C99,
    C11,
    C17,
    C23,
}

/// A C++ standard, as the older per-language configuration names it.
#[derive(PartialEq, Eq, Structural, Clone, Copy, Debug)]
pub enum CppStandard {
    Cpp98,
    Cpp11,
    Cpp14,
    Cpp17,
    Cpp20,
    Cpp23,
}

pub open spec fn missing_standard_message(names: Seq<Seq<char>>) -> Seq<char> {
    "Standard was not provided! Possible values are: "@ + join(names, ", "@)
}

pub open spec fn invalid_standard_message(names: Seq<Seq<char>>) -> Seq<char> {
    "Invalid standard version! Possible values are: "@ + join(names, ", "@)
}

/// Reads a standard's number among `pairs`, ignoring case; the first entry whose label
/// matches wins.
pub fn parse_standard<T: Copy>(value: &str, pairs: &[(T, &str)]) -> (r: Result<T, String>)
    ensures
        value@.len() == 0 ==> (r matches Err(m) && m@ == missing_standard_message(labels(pairs@))),
        value@.len() > 0 ==> match lookup(pairs@, lower_of(value@)) {
            Some(k) => r == Ok::<T, String>(k),
            None => r matches Err(m) && m@ == invalid_standard_message(labels(pairs@)),
        },
{
    let possible = join_labels(pairs, ", ");
    if value.is_empty() {
        let mut m = String::from_str("Standard was not provided! Possible values are: ");
        m.append(possible.as_str());
        return Err(m);
    }
    let lowered = lowercase(value);
    match find_label(lowered.as_str(), pairs) {
        Some(k) => Ok(k),
        None => {
            let mut m = String::from_str("Invalid standard version! Possible values are: ");
            m.append(possible.as_str());
            Err(m)
        },
    }
}

pub open spec fn missing_generator_message(names: Seq<Seq<char>>) -> Seq<char> {
    "Generator was not provided! Possible values are: "@ + join(names, ", "@)
}

pub open spec fn invalid_generator_message(names: Seq<Seq<char>>) -> Seq<char> {
    "Invalid generator name! Possible values are: "@ + join(names, ", "@)
}

/// Reads a generator name among `pairs`, exactly as written; the first entry whose label
/// matches wins.
pub fn parse_generator<T: Copy>(value: &str, pairs: &[(T, &str)]) -> (r: Result<T, String>)
    ensures
        value@.len() == 0 ==> (r matches Err(m) && m@ == missing_generator_message(labels(pairs@))),
        value@.len() > 0 ==> match lookup(pairs@, value@) {
            Some(k) => r == Ok::<T, String>(k),
            None => r matches Err(m) && m@ == invalid_generator_message(labels(pairs@)),
        },
{
    let possible = join_labels(pairs, ", ");
    if value.is_empty() {
        let mut m = String::from_str("Generator was not provided! Possible values are: ");
        m.append(possible.as_str());
        return Err(m);
    }
    match find_label(value, pairs) {
        Some(k) => Ok(k),
        None => {
            let mut m = String::from_str("Invalid generator name! Possible values are: ");
            m.append(possible.as_str());
            Err(m)
        },
    }
}

/// The standard labelled `s`, as `CStandard::try_from` reads it once lowercased.
pub open spec fn c_standard_of(s: Seq<char>) -> Option<CStandard> {
    if s == "89"@ {
        Some(CStandard::C89)
    } else if s == "90"@ {
        Some(CStandard::C89)
    } else if s == "99"@ {
        Some(CStandard::C99)
    } else if s == "11"@ {
        Some(CStandard::C11)
    } else if s == "17"@ {
        Some(CStandard::C17)
    } else if s == "23"@ {
        Some(CStandard::C23)
    } else {
        None
    }
}

impl CStandard {
    /// The labels `try_from` accepts, in the order it tries them.
    pub open spec fn labels() -> Seq<Seq<char>> {
        seq!["89"@, "90"@, "99"@, "11"@, "17"@, "23"@]
    }

    pub open spec fn spec_number(self) -> Seq<char> {
        match self {
            CStandard::C89 => "90"@,
            CStandard::C99 => "99"@,
            CStandard::C11 => "11"@,
            CStandard::C17 => "17"@,
            CStandard::C23 => "23"@,
        }
    }

    /// The standard's number, as CMake takes it.
    pub fn number(&self) -> (r: &'static str)
        ensures
            r@ == self.spec_number(),
    {
        match self {
            CStandard::C89 => "90",
            CStandard::C99 => "99",
            CStandard::C11 => "11",
            CStandard::C17 => "17",
            CStandard::C23 => "23",
        }
    }

    /// Reads a standard's number, ignoring case.
    pub fn try_from(value: &str) -> (r: Result<CStandard, String>)
        ensures
            value@.len() == 0 ==> (r matches Err(m) && m@ == missing_standard_message(Self::labels())),
            value@.len() > 0 ==> match c_standard_of(lower_of(value@)) {
                Some(k) => r == Ok::<CStandard, String>(k),
                None => r matches Err(m) && m@ == invalid_standard_message(Self::labels()),
            },
    {
        let pairs = [
            (CStandard::C89, "89"),
            (CStandard::C89, "90"),
            (CStandard::C99, "99"),
            (CStandard::C11, "11"),
            (CStandard::C17, "17"),
            (CStandard::C23, "23"),
        ];
        proof {
            reveal_with_fuel(lookup, 7);
            assert(labels(pairs@) =~= Self::labels());
        }
        parse_standard(value, pairs.as_slice())
    }
}

/// The standard labelled `s`, as `CppStandard::try_from` reads it once lowercased.
pub open spec fn cpp_standard_of(s: Seq<char>) -> Option<CppStandard> {
    if s == "98"@ {
        Some(CppStandard::Cpp98)
    } else if s == "11"@ {
        Some(CppStandard::Cpp11)
    } else if s == "14"@ {
        Some(CppStandard::Cpp14)
    } else if s == "17"@ {
        Some(CppStandard::Cpp17)
    } else if s == "20"@ {
        Some(CppStandard::Cpp20)
    } else if s == "23"@ {
        Some(CppStandard::Cpp23)
    } else {
        None
    }
}

impl CppStandard {
    /// The labels `try_from` accepts, in the order it tries them.
    pub open spec fn labels() -> Seq<Seq<char>> {
        seq!["98"@, "11"@, "14"@, "17"@, "20"@, "23"@]
    }

    pub open spec fn spec_number(self) -> Seq<char> {
        match self {
            CppStandard::Cpp98 => "98"@,
            CppStandard::Cpp11 => "11"@,
            CppStandard::Cpp14 => "14"@,
            CppStandard::Cpp17 => "17"@,
            CppStandard::Cpp20 => "20"@,
            CppStandard::Cpp23 => "23"@,
        }
    }

    /// The standard's number, as CMake takes it.
    pub fn number(&self) -> (r: &'static str)
        ensures
            r@ == self.spec_number(),
    {
        match self {
            CppStandard::Cpp98 => "98",
            CppStandard::Cpp11 => "11",
            CppStandard::Cpp14 => "14",
            CppStandard::Cpp17 => "17",
            CppStandard::Cpp20 => "20",
            CppStandard::Cpp23 => "23",
        }
    }

    /// Reads a standard's number, ignoring case.
    pub fn try_from(value: &str) -> (r: Result<CppStandard, String>)
        ensures
            value@.len() == 0 ==> (r matches Err(m) && m@ == missing_standard_message(Self::labels())),
            value@.len() > 0 ==> match cpp_standard_of(lower_of(value@)) {
                Some(k) => r == Ok::<CppStandard, String>(k),
                None => r matches Err(m) && m@ == invalid_standard_message(Self::labels()),
            },
    {
        let pairs = [
            (CppStandard::Cpp98, "98"),
            (CppStandard::Cpp11, "11"),
            (CppStandard::Cpp14, "14"),
            (CppStandard::Cpp17, "17"),
            (CppStandard::Cpp20, "20"),
            (CppStandard::Cpp23, "23"),
        ];
        proof {
            reveal_with_fuel(lookup, 7);
            assert(labels(pairs@) =~= Self::labels());
        }
        parse_standard(value, pairs.as_slice())
    }
}

/// How a CMake build is configured.
#[derive(PartialEq, Eq, Structural, Clone, Copy, Debug)]
pub enum BuildConfig {
    Debug,
    RelWithDebInfo,
    Release,
    MinSizeRel,
}

pub open spec fn build_config_name(c: BuildConfig) -> Seq<char> {
    match c {
            BuildConfig::Debug => "Debug"@,
            BuildConfig::RelWithDebInfo => "RelWithDebInfo"@,
            BuildConfig::Release => "Release"@,
            BuildConfig::MinSizeRel => "MinSizeRel"@,
    }
}

/// The configuration whose name, in lower case, is `s`.
pub open spec fn build_config_of_lowercase(s: Seq<char>) -> Option<BuildConfig> {
    if s == "debug"@ {
        Some(BuildConfig::Debug)
    } else if s == "relwithdebinfo"@ {
        Some(BuildConfig::RelWithDebInfo)
    } else if s == "release"@ {
        Some(BuildConfig::Release)
    } else if s == "minsizerel"@ {
        Some(BuildConfig::MinSizeRel)
    } else {
        None
    }
}

impl BuildConfig {
    /// The configuration's name, as CMake's `--config` takes it.
    pub fn name(&self) -> (r: &'static str)
        ensures
            r@ == build_config_name(*self),
    {
        match self {
            BuildConfig::Debug => "Debug",
            BuildConfig::RelWithDebInfo => "RelWithDebInfo",
            BuildConfig::Release => "Release",
            BuildConfig::MinSizeRel => "MinSizeRel",
        }
    }

    /// The configuration whose lower-case name is exactly `s`.
    pub fn from_lowercase(s: &str) -> (r: Option<BuildConfig>)
        ensures
            r == build_config_of_lowercase(s@),
    {
        if str_eq(s, "debug") {
            Some(BuildConfig::Debug)
        } else if str_eq(s, "relwithdebinfo") {
            Some(BuildConfig::RelWithDebInfo)
        } else if str_eq(s, "release") {
            Some(BuildConfig::Release)
        } else if str_eq(s, "minsizerel") {
            Some(BuildConfig::MinSizeRel)
        } else {
            None
        }
    }

    /// Reads a configuration name, ignoring case.
    pub fn from_str(input: &str) -> (r: Result<BuildConfig, String>)
        ensures
            match build_config_of_lowercase(lower_of(input@)) {
                Some(c) => r == Ok::<BuildConfig, String>(c),
                None => r matches Err(m) && m@
                    == "Invalid BuildConfig. Possible values are: Debug, RelWithDebInfo, Release, MinSizeRel"@,
            },
    {
        let lowered = lowercase(input);
        match BuildConfig::from_lowercase(lowered.as_str()) {
            Some(c) => Ok(c),
            None => Err(
                String::from_str(
                    "Invalid BuildConfig. Possible values are: Debug, RelWithDebInfo, Release, MinSizeRel",
                ),
            ),
        }
    }
}

} // verus!
