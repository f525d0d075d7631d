use c3pm::artifacts::{artifact_target_dir, is_artifact_extension, plan_moves, project_base_files, target_dir};
use c3pm::generator::Generator;
use c3pm::model::Language;
use c3pm::scaffold::project_files;
use c3pm::text::{find_label, str_eq};
use c3pm::toolchain::{
    cmake_version_of, configure_args, get_c_cmakelists, get_common_cmakelists,
    get_cpp_cmakelists, parse_language, select_compilers,
};

#[test]
fn compilers_prefer_clang() {
    assert_eq!(select_compilers(true, true, true, true), ("clang".to_string(), "clang++".to_string()));
    assert_eq!(select_compilers(true, false, true, true), ("gcc".to_string(), "g++".to_string()));
    assert_eq!(select_compilers(false, false, true, false), (String::new(), String::new()));
}

#[test]
fn language_argument() {
    assert_eq!(parse_language("cpp17"), Ok(Language::Cpp17));
    assert_eq!(parse_language("c11:gnu"), Ok(Language::C11));
    assert_eq!(
        parse_language("CPP17"),
        Err("Possible values are \"cpp98, cpp11, cpp14, cpp17, cpp20, cpp23\"".to_string())
    );
    assert_eq!(parse_language("go:1"), Err("Unknown language: go".to_string()));
}

#[test]
fn cmake_version_is_read_from_first_line() {
    assert_eq!(
        cmake_version_of("cmake version 3.28.1\n\nCMake suite maintained by Kitware"),
        Some("3.28.1".to_string())
    );
    assert_eq!(cmake_version_of("cmake version 3.5 \r\nmore"), Some("3.5".to_string()));
    assert_eq!(cmake_version_of("cmake 3.5"), None);
    assert_eq!(cmake_version_of(""), None);
}

#[test]
fn cmakelists_text() {
    let expected = "cmake_minimum_required(VERSION 3.20)\n\nproject(demo)\n\nset(CMAKE_C_STANDARD 11)\nset(CMAKE_EXPORT_COMPILE_COMMANDS ON)\n\nfile(GLOB_RECURSE SRC CONFIGURE_DEPENDS \"src/*.c\" \"src/*.cpp\")\nfile(GLOB_RECURSE INCLUDE CONFIGURE_DEPENDS \"include/*.h\" \"include/*.hpp\")\n\nadd_executable(demo ${SRC})\ntarget_include_directories(demo PUBLIC include)\n";
    assert_eq!(get_c_cmakelists("demo", Language::C11, "3.20"), expected);
    assert_eq!(
        get_common_cmakelists("demo", "set(CMAKE_C_STANDARD 11)", "SRC", "INCLUDE", "3.20"),
        expected
    );
    assert!(get_cpp_cmakelists("demo", Language::Cpp20, "3.20").contains("set(CMAKE_CXX_STANDARD 20)\n"));
}

#[test]
fn configure_arguments() {
    assert_eq!(
        configure_args("/p", Some(Generator::Ninja), true, false),
        vec!["-S", "/p", "-B", "/p/build", "-G", "Ninja", "-DCMAKE_C_COMPILER=clang", "-DCMAKE_CXX_COMPILER=g++"]
    );
    assert_eq!(configure_args("/p", None, false, true).len(), 6);
}

#[test]
fn artifacts_to_move() {
    assert!(is_artifact_extension("dylib"));
    assert!(!is_artifact_extension("txt"));
    let exts = vec![Some("o".to_string()), None, Some("txt".to_string()), Some("exe".to_string())];
    assert_eq!(plan_moves(&exts), Ok(vec![0, 3]));
    assert_eq!(
        plan_moves(&vec![Some("cmake".to_string())]),
        Err("No valid output files found to move.".to_string())
    );
    assert_eq!(plan_moves(&vec![]), Err("No valid output files found to move.".to_string()));
}

#[test]
fn artifact_directory_is_pascal_cased() {
    assert_eq!(artifact_target_dir("/p", "rel_with_deb_info"), "/p/target/RelWithDebInfo");
    assert_eq!(artifact_target_dir("/p", "release"), "/p/target/Release");
    assert_eq!(target_dir("/p", "X"), "/p/target/X");
}

#[test]
fn base_files() {
    assert_eq!(project_base_files(), vec![".cpppm.toml", "CMakeLists.txt", "src", ".git"]);
}

#[test]
fn new_project_files() {
    let files = project_files("/p", "demo", Language::C99, "3.20");
    let paths: Vec<&str> = files.iter().map(|f| f.0.as_str()).collect();
    assert_eq!(paths, vec!["/p/CMakeLists.txt", "/p/src/main.c", "/p/include/example.h", "/p/src/example.c"]);
    assert!(files[1].1.starts_with("#include <stdio.h>\n#include \"example.h\"\n"));
    let cpp = project_files("/p", "demo", Language::Cpp17, "3.20");
    assert_eq!(cpp[2].0, "/p/include/example.hpp");
    assert!(cpp[0].1.contains("set(CMAKE_CXX_STANDARD 17)"));
}

#[test]
fn text_helpers() {
    assert!(str_eq("abc", "abc"));
    assert!(!str_eq("abc", "abd"));
    assert_eq!(find_label("y", &[(1u8, "x"), (2u8, "y")]), Some(2));
    assert_eq!(find_label("z", &[(1u8, "x")]), None);
}
