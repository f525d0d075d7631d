use vstd::prelude::*;
use vstd::string::*;

use crate::model::{standard_number, Language};
use crate::toolchain::{cmakelists_text, get_c_cmakelists, get_cpp_cmakelists};

verus! {

pub open spec fn example_program(c: bool) -> Seq<char> {
    if c {
        "#include <stdio.h>\n#include \"example.h\"\n\nint main() {\n    example_function();\n    return 0;\n}\n"@
    } else {
        "#include <iostream>\n#include \"example.hpp\"\n\nusing std::cout;\n\nint main() {\n    example_function();\n    return 0;\n}\n"@
    }
}

pub open spec fn example_header(c: bool) -> Seq<char> {
    if c {
        "#ifndef EXAMPLE_H\n#define EXAMPLE_H\n\n#include <stdio.h>\n\nvoid example_function();\n\n#endif\n"@
    } else {
        "#ifndef EXAMPLE_HPP\n#define EXAMPLE_HPP\n\n#include <iostream>\n\nvoid example_function();\n\n#endif\n"@
    }
}

pub open spec fn example_implementation(c: bool) -> Seq<char> {
    if c {
        "#include \"example.h\"\n\nvoid example_function() {\n    printf(\"Hello from example_function!\\n\");\n}\n"@
    } else {
        "#include \"example.hpp\"\n\nvoid example_function() {\n    std::cout << \"Hello from example_function!\\n\";\n}\n"@
    }
}

/// The `main` source of a new project.
pub fn example_program_text(c: bool) -> (r: &'static str)
    ensures
        r@ == example_program(c),
{
    if c {
        "#include <stdio.h>\n#include \"example.h\"\n\nint main() {\n    example_function();\n    return 0;\n}\n"
    } else {
        "#include <iostream>\n#include \"example.hpp\"\n\nusing std::cout;\n\nint main() {\n    example_function();\n    return 0;\n}\n"
    }
}

/// The example header of a new project.
pub fn example_header_text(c: bool) -> (r: &'static str)
    ensures
        r@ == example_header(c),
{
    if c {
        "#ifndef EXAMPLE_H\n#define EXAMPLE_H\n\n#include <stdio.h>\n\nvoid example_function();\n\n#endif\n"
    } else {
        "#ifndef EXAMPLE_HPP\n#define EXAMPLE_HPP\n\n#include <iostream>\n\nvoid example_function();\n\n#endif\n"
    }
}

/// The example implementation of a new project.
pub fn example_implementation_text(c: bool) -> (r: &'static str)
    ensures
        r@ == example_implementation(c),
{
    if c {
        "#include \"example.h\"\n\nvoid example_function() {\n    printf(\"Hello from example_function!\\n\");\n}\n"
    } else {
        "#include \"example.hpp\"\n\nvoid example_function() {\n    std::cout << \"Hello from example_function!\\n\";\n}\n"
    }
}

pub open spec fn file_views(files: Seq<(String, String)>) -> Seq<(Seq<char>, Seq<char>)> {
    files.map_values(|f: (String, String)| (f.0@, f.1@))
}

/// The files of a new project at `path`, with their contents: the CMakeLists.txt, then the
/// `main` source, the example header and the example implementation, named `.c`/`.h` for
/// C and `.cpp`/`.hpp` for C++.
pub open spec fn project_files_of(
    path: Seq<char>,
    project_name: Seq<char>,
    lang: Language,
    cmake_version: Seq<char>,
) -> Seq<(Seq<char>, Seq<char>)> {
    let c = lang.spec_is_c();
    let env = if c {
        "set(CMAKE_C_STANDARD "@ + standard_number(lang) + ")"@
    } else {
        "set(CMAKE_CXX_STANDARD "@ + standard_number(lang) + ")"@
    };
    let src = path + "/src"@;
    let headers = path + "/include"@;
    seq![
        (path + "/CMakeLists.txt"@, cmakelists_text(project_name, env, "SRC"@, "INCLUDE"@, cmake_version)),
        (src + (if c { "/main.c"@ } else { "/main.cpp"@ }), example_program(c)),
        (headers + (if c { "/example.h"@ } else { "/example.hpp"@ }), example_header(c)),
        (src + (if c { "/example.c"@ } else { "/example.cpp"@ }), example_implementation(c)),
    ]
}

fn join_path(dir: &str, name: &str) -> (r: String)
    ensures
        r@ == dir@ + name@,
{
    let mut s = dir.to_owned();
    s.append(name);
    s
}

/// Lays out a new project at `path` (see `project_files_of`).
pub fn project_files(path: &str, project_name: &str, lang: Language, cmake_version: &str) -> (r:
    Vec<(String, String)>)
    ensures
        file_views(r@) == project_files_of(path@, project_name@, lang, cmake_version@),
{
    let c = lang.is_c();
    let src = join_path(path, "/src");
    let headers = join_path(path, "/include");
    let cmakelists = if c {
        get_c_cmakelists(project_name, lang, cmake_version)
    } else {
        get_cpp_cmakelists(project_name, lang, cmake_version)
    };
    let mut files: Vec<(String, String)> = Vec::new();
    files.push((join_path(path, "/CMakeLists.txt"), cmakelists));
    files.push(
        (
            join_path(src.as_str(), if c { "/main.c" } else { "/main.cpp" }),
            String::from_str(example_program_text(c)),
        ),
    );
    files.push(
        (
            join_path(headers.as_str(), if c { "/example.h" } else { "/example.hpp" }),
            String::from_str(example_header_text(c)),
        ),
    );
    files.push(
        (
            join_path(src.as_str(), if c { "/example.c" } else { "/example.cpp" }),
            String::from_str(example_implementation_text(c)),
        ),
    );
    assert(file_views(files@) =~= project_files_of(path@, project_name@, lang, cmake_version@));
    files
}

} // verus!
