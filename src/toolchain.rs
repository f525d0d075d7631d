use vstd::prelude::*;
use vstd::string::*;

use crate::generator::{generator_label, Generator};
use crate::model::{language_of_label, standard_number, Language};
use crate::text::{lower_of, trim, trimmed_of};

verus! {

/// Picks the compilers a new project is configured with, from which of
/// `clang`, `clang++`, `gcc` and `g++` can be run: the clang pair if both run, else
/// the GNU pair if both run, else none (two empty names).
pub fn select_compilers(clang: bool, clangxx: bool, gcc: bool, gxx: bool) -> (r: (String, String))
    ensures
        clang && clangxx ==> r.0@ == "clang"@ && r.1@ == "clang++"@,
        !(clang && clangxx) && gcc && gxx ==> r.0@ == "gcc"@ && r.1@ == "g++"@,
        !(clang && clangxx) && !(gcc && gxx) ==> r.0@.len() == 0 && r.1@.len() == 0,
{
    if clang && clangxx {
        (String::from_str("clang"), String::from_str("clang++"))
    } else if gcc && gxx {
        (String::from_str("gcc"), String::from_str("g++"))
    } else {
        (String::new(), String::new())
    }
}

/// The text of `s` before its first `:` (all of `s` when it has none).
pub open spec fn before_colon(s: Seq<char>) -> Seq<char>
    decreases s.len(),
{
    if s.len() == 0 {
        s
    } else if s[0] == ':' {
        Seq::empty()
    } else {
        seq![s[0]] + before_colon(s.drop_first())
    }
}

proof fn lemma_before_colon(s: Seq<char>, k: int)
    requires
        0 <= k <= s.len(),
        k == s.len() || s[k] == ':',
        forall|j: int| 0 <= j < k ==> s[j] != ':',
    ensures
        before_colon(s) == s.subrange(0, k),
    decreases s.len(),
{
    if k > 0 {
        lemma_before_colon(s.drop_first(), k - 1);
        assert(s.subrange(0, k) =~= seq![s[0]] + s.drop_first().subrange(0, k - 1));
    } else if s.len() > 0 {
        assert(s.subrange(0, k) =~= Seq::<char>::empty());
    }
}

pub open spec fn possible_languages_message(c: bool) -> Seq<char> {
    if c {
        "Possible values are \"c99, c11, c17, c23\""@
    } else {
        "Possible values are \"cpp98, cpp11, cpp14, cpp17, cpp20, cpp23\""@
    }
}

/// Reads a `--language` argument (`cpp17`, `c11:...`): the text before any `:` must name
/// a language, and must be, exactly as written, one of that language's labels.
pub fn parse_language(lang: &str) -> (r: Result<Language, String>)
    ensures
        ({
            let first = before_colon(lang@);
            match language_of_label(trimmed_of(lower_of(first))) {
                None => r matches Err(m) && m@ == "Unknown language: "@ + first,
                Some(l) => if language_of_label(first) matches Some(k) && k.spec_is_c()
                    == l.spec_is_c() {
                    r == Ok::<Language, String>(l)
                } else {
                    r matches Err(m) && m@ == possible_languages_message(l.spec_is_c())
                },
            }
        }),
{
    let n = lang.unicode_len();
    let mut k: usize = 0;
    while k < n && lang.get_char(k) != ':'
        invariant
            k <= n,
            n == lang@.len(),
            forall|j: int| 0 <= j < k ==> lang@[j] != ':',
        decreases n - k,
    {
        k += 1;
    }
    proof {
        lemma_before_colon(lang@, k as int);
    }
    let first = lang.substring_char(0, k);
    let language = Language::from_str(first)?;
    match Language::from_label(first) {
        Some(written) => {
            if written.is_c() == language.is_c() {
                return Ok(language);
            }
        },
        None => {},
    }
    if language.is_c() {
        Err(String::from_str("Possible values are \"c99, c11, c17, c23\""))
    } else {
        Err(String::from_str("Possible values are \"cpp98, cpp11, cpp14, cpp17, cpp20, cpp23\""))
    }
}

/// The first line of `s`, as `str::lines` yields it: `None` for an empty string, else
/// the text before the first line feed, without a carriage return that ends it.
pub open spec fn first_line(s: Seq<char>) -> Option<Seq<char>> {
    if s.len() == 0 {
        None
    } else if exists|i: int| 0 <= i < s.len() && s[i] == '\n' {
        let i = choose|i: int|
            0 <= i < s.len() && s[i] == '\n' && forall|j: int| 0 <= j < i ==> s[j] != '\n';
        if i > 0 && s[i - 1] == '\r' {
            Some(s.subrange(0, i - 1))
        } else {
            Some(s.subrange(0, i))
        }
    } else {
        Some(s)
    }
}

/// The version `cmake --version` reports in `output`, before trimming: the rest of its
/// first line after `cmake version `.
pub open spec fn cmake_version_text(output: Seq<char>) -> Option<Seq<char>> {
    match first_line(output) {
        Some(l) => if l.len() >= 14 && l.subrange(0, 14) == "cmake version "@ {
            Some(l.subrange(14, l.len() as int))
        } else {
            None
        },
        None => None,
    }
}

/// Reads the version out of what `cmake --version` printed.
pub fn cmake_version_of(output: &str) -> (r: Option<String>)
    ensures
        match cmake_version_text(output@) {
            Some(v) => r matches Some(s) && s@ == trimmed_of(v),
            None => r is None,
        },
{
    proof {
        reveal_strlit("cmake version ");
    }
    let n = output.unicode_len();
    if n == 0 {
        return None;
    }
    let mut i: usize = 0;
    while i < n && output.get_char(i) != '\n'
        invariant
            i <= n,
            n == output@.len(),
            forall|j: int| 0 <= j < i ==> output@[j] != '\n',
        decreases n - i,
    {
        i += 1;
    }
    let mut end = i;
    if i < n && i > 0 && output.get_char(i - 1) == '\r' {
        end = i - 1;
    }
    proof {
        if i < n {
            let c = choose|c: int|
                0 <= c < output@.len() && output@[c] == '\n' && forall|j: int|
                    0 <= j < c ==> output@[j] != '\n';
            assert(c == i) by {
                if c < i {
                } else if c > i {
                    assert(output@[i as int] == '\n');
                }
            }
        } else {
            assert(output@.subrange(0, n as int) =~= output@);
        }
    }
    let line = output.substring_char(0, end);
    assert(first_line(output@) == Some(line@));
    let prefix = "cmake version ";
    proof {
        reveal_strlit("cmake version ");
    }
    assert(prefix@.len() == 14);
    let m = line.unicode_len();
    if m < 14 {
        return None;
    }
    let mut j: usize = 0;
    while j < 14
        invariant
            j <= 14,
            m == line@.len(),
            m >= 14,
            prefix@ == "cmake version "@,
            prefix@.len() == 14,
            first_line(output@) == Some(line@),
            forall|t: int| 0 <= t < j ==> line@[t] == prefix@[t],
        decreases 14 - j,
    {
        if line.get_char(j) != prefix.get_char(j) {
            assert(line@.subrange(0, 14)[j as int] != "cmake version "@[j as int]);
            return None;
        }
        j += 1;
    }
    assert(line@.subrange(0, 14) =~= "cmake version "@);
    let rest = line.substring_char(14, m);
    Some(trim(rest).to_owned())
}

/// The CMakeLists.txt of a new project.
pub open spec fn cmakelists_text(
    project_name: Seq<char>,
    env: Seq<char>,
    sources_var: Seq<char>,
    headers_var: Seq<char>,
    cmake_version: Seq<char>,
) -> Seq<char> {
    "cmake_minimum_required(VERSION "@ + cmake_version + ")\n\nproject("@ + project_name
        + ")\n\n"@ + env + "\nset(CMAKE_EXPORT_COMPILE_COMMANDS ON)\n\nfile(GLOB_RECURSE "@
        + sources_var + " CONFIGURE_DEPENDS \"src/*.c\" \"src/*.cpp\")\nfile(GLOB_RECURSE "@
        + headers_var
        + " CONFIGURE_DEPENDS \"include/*.h\" \"include/*.hpp\")\n\nadd_executable("@
        + project_name + " ${"@ + sources_var + "})\ntarget_include_directories("@
        + project_name + " PUBLIC include)\n"@
}

/// Writes the CMakeLists.txt of a new project: the minimum CMake version, the project,
/// the `env` line, and one executable built from everything under `src/`.
pub fn get_common_cmakelists(
    project_name: &str,
    env: &str,
    sources_var: &str,
    headers_var: &str,
    cmake_version: &str,
) -> (r: String)
    ensures
        r@ == cmakelists_text(project_name@, env@, sources_var@, headers_var@, cmake_version@),
{
    let mut s = String::from_str("cmake_minimum_required(VERSION ");
    s.append(cmake_version);
    s.append(")\n\nproject(");
    s.append(project_name);
    s.append(")\n\n");
    s.append(env);
    s.append("\nset(CMAKE_EXPORT_COMPILE_COMMANDS ON)\n\nfile(GLOB_RECURSE ");
    s.append(sources_var);
    s.append(" CONFIGURE_DEPENDS \"src/*.c\" \"src/*.cpp\")\nfile(GLOB_RECURSE ");
    s.append(headers_var);
    s.append(" CONFIGURE_DEPENDS \"include/*.h\" \"include/*.hpp\")\n\nadd_executable(");
    s.append(project_name);
    s.append(" ${");
    s.append(sources_var);
    s.append("})\ntarget_include_directories(");
    s.append(project_name);
    s.append(" PUBLIC include)\n");
    s
}

/// The CMakeLists.txt of a new C project.
pub fn get_c_cmakelists(project_name: &str, standard: Language, cmake_version: &str) -> (r:
    String)
    ensures
        r@ == cmakelists_text(
            project_name@,
            "set(CMAKE_C_STANDARD "@ + standard_number(standard) + ")"@,
            "SRC"@,
            "INCLUDE"@,
            cmake_version@,
        ),
{
    let mut env = String::from_str("set(CMAKE_C_STANDARD ");
    env.append(standard.get_lang_and_standard().1.as_str());
    env.append(")");
    get_common_cmakelists(project_name, env.as_str(), "SRC", "INCLUDE", cmake_version)
}

/// The CMakeLists.txt of a new C++ project.
pub fn get_cpp_cmakelists(project_name: &str, language: Language, cmake_version: &str) -> (r:
    String)
    ensures
        r@ == cmakelists_text(
            project_name@,
            "set(CMAKE_CXX_STANDARD "@ + standard_number(language) + ")"@,
            "SRC"@,
            "INCLUDE"@,
            cmake_version@,
        ),
{
    let mut env = String::from_str("set(CMAKE_CXX_STANDARD ");
    env.append(language.get_lang_and_standard().1.as_str());
    env.append(")");
    get_common_cmakelists(project_name, env.as_str(), "SRC", "INCLUDE", cmake_version)
}

pub open spec fn views(v: Seq<String>) -> Seq<Seq<char>> {
    v.map_values(|s: String| s@)
}

/// The arguments of the CMake configure step for the project at `path`: sources at
/// `path`, build tree at `<path>/build`, the generator if one is given, and clang or the
/// GNU compilers according to which clang compilers run.
pub open spec fn configure_args_of(
    path: Seq<char>,
    generator: Option<Generator>,
    clang: bool,
    clangxx: bool,
) -> Seq<Seq<char>> {
    let c = if clang { "clang"@ } else { "gcc"@ };
    let cxx = if clangxx { "clang++"@ } else { "g++"@ };
    let head = seq!["-S"@, path, "-B"@, path + "/build"@];
    let gen = match generator {
        Some(g) => seq!["-G"@, generator_label(g)],
        None => Seq::empty(),
    };
    head + gen + seq!["-DCMAKE_C_COMPILER="@ + c, "-DCMAKE_CXX_COMPILER="@ + cxx]
}

pub fn configure_args(path: &str, generator: Option<Generator>, clang: bool, clangxx: bool) -> (r:
    Vec<String>)
    ensures
        views(r@) == configure_args_of(path@, generator, clang, clangxx),
{
    let mut args: Vec<String> = Vec::new();
    args.push(String::from_str("-S"));
    args.push(path.to_owned());
    args.push(String::from_str("-B"));
    let mut build = path.to_owned();
    build.append("/build");
    args.push(build);
    match generator {
        Some(g) => {
            args.push(String::from_str("-G"));
            args.push(String::from_str(g.label()));
        },
        None => {},
    }
    let mut c = String::from_str("-DCMAKE_C_COMPILER=");
    c.append(if clang { "clang" } else { "gcc" });
    args.push(c);
    let mut cxx = String::from_str("-DCMAKE_CXX_COMPILER=");
    cxx.append(if clangxx { "clang++" } else { "g++" });
    args.push(cxx);
    assert(views(args@) =~= configure_args_of(path@, generator, clang, clangxx));
    args
}

} // verus!
