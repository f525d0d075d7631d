use c3pm::dependency::{
    dependency_path, deps_path, manifest_path, repository_name, Dependency, DependencyData,
};

#[test]
fn remote_url_defaults_to_public_host() {
    let d = Dependency::new("fmt", "10.0.0", ("fmtlib", "fmt"));
    assert_eq!(d.dependency.remote_url(), "https://github.com/fmtlib/fmt.git");
    assert_eq!(d.dependency.revision, Some("10.0.0".to_string()));
    assert_eq!(d.dependency.host, None);
}

#[test]
fn remote_url_uses_given_host() {
    let mut d = DependencyData::new("x".to_string(), None, ("me".to_string(), "x".to_string()));
    d.host = Some("gitlab.com".to_string());
    assert_eq!(d.remote_url(), "https://gitlab.com/me/x.git");
}

#[test]
fn default_declarations_are_empty() {
    let d = Dependency::default();
    assert_eq!(d.dependency.name, "");
    assert_eq!(d.dependency.repository, (String::new(), String::new()));
    assert_eq!(d.dependency.revision, None);
    assert_eq!(DependencyData::default().host, None);
}

#[test]
fn paths_follow_the_deps_layout() {
    assert_eq!(deps_path("/p"), "/p/deps");
    assert_eq!(dependency_path("/p", "a"), "/p/deps/a");
    assert_eq!(manifest_path("/p/deps/a"), "/p/deps/a/.c3pm.toml");
}

#[test]
fn repository_name_takes_last_segment() {
    assert_eq!(repository_name("https://github.com/o/repo.git"), "repo");
    assert_eq!(repository_name("https://github.com/o/repo"), "repo");
    assert_eq!(repository_name("plain.git.git"), "plain");
    assert_eq!(repository_name("https://host/o/"), "");
}
