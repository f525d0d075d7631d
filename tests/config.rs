use c3pm::config::{Project, ProjectConfig};
use c3pm::generator::Generator;
use c3pm::model::Language;

fn compilers() -> (String, String) {
    ("gcc".to_string(), "g++".to_string())
}

#[test]
fn new_config_records_directories() {
    let c = ProjectConfig::create_new_config(
        "demo",
        Some(Generator::Ninja),
        Language::C17,
        "src",
        "include",
        "build",
        compilers(),
    );
    assert_eq!(c.get_name(), "demo");
    assert_eq!(c.get_language(), "c");
    assert_eq!(c.get_sources_dir(), Some("src".to_string()));
    assert_eq!(c.get_headers_dir(), Some("include".to_string()));
    assert_eq!(c.get_build_dir(), Some("build".to_string()));
    assert_eq!(c.get_dir("docs"), None);
    assert_eq!(c.get_generator(), Some("Ninja".to_string()));
    assert_eq!(c.project_details.c_compiler, Some("gcc".to_string()));
    assert!(c.dependencies.is_none());
}

#[test]
fn default_config() {
    let c = ProjectConfig::default_for(compilers());
    assert_eq!(c.get_language(), "cpp");
    assert_eq!(c.get_sources_dir(), Some("src/".to_string()));
    assert_eq!(c.get_build_dir(), Some("build/".to_string()));
    assert_eq!(c.get_generator(), None);
    assert_eq!(c.dependencies.as_ref().map(|d| d.len()), Some(1));
    let p = Project::default_for(compilers());
    assert_eq!(p.language, Language::Cpp23);
    assert_eq!(p.cxx_compiler, Some("g++".to_string()));
}
