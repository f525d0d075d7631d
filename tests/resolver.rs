use c3pm::dependency::{Dependency, DependencyData, Depman};
use c3pm::resolver::{Action, Event, ResolveError, Resolver};

fn dep(name: &str, owner: &str, repo: &str, revision: Option<&str>) -> Dependency {
    Dependency {
        dependency: DependencyData {
            name: name.to_string(),
            host: None,
            repository: (owner.to_string(), repo.to_string()),
            revision: revision.map(|r| r.to_string()),
        },
    }
}

fn manifest(deps: Vec<Dependency>) -> Event {
    Event::Manifest(Depman { dependencies: deps })
}

fn read(dir: &str) -> Action {
    Action::ReadManifest { dir: dir.to_string() }
}

fn create(path: &str) -> Action {
    Action::CreateDir { path: path.to_string() }
}

fn clone(url: &str, path: &str) -> Action {
    Action::Clone { url: url.to_string(), path: path.to_string() }
}

#[test]
fn empty_manifest_finishes_without_deps_dir() {
    let (mut r, first) = Resolver::new("proj".to_string());
    assert_eq!(first, read("proj"));
    assert_eq!(r.step(manifest(vec![])), Action::Finished(Ok(())));
    assert!(r.is_finished());
}

#[test]
fn missing_manifest_means_no_dependencies() {
    let (mut r, _) = Resolver::new("proj".to_string());
    assert_eq!(r.step(Event::ManifestMissing), Action::Finished(Ok(())));
}

#[test]
fn existing_dependency_is_not_cloned_again() {
    let (mut r, _) = Resolver::new("proj".to_string());
    let a = dep("a", "o", "a", Some("v1"));
    let b = dep("b", "o", "b", None);
    assert_eq!(r.step(manifest(vec![a, b])), create("proj/deps"));
    assert_eq!(r.step(Event::DirCreated), clone("https://github.com/o/a.git", "proj/deps/a"));
    // `a` is already on disk: no checkout, no recursion, straight to `b`.
    assert_eq!(r.step(Event::AlreadyExists), create("proj/deps"));
    assert_eq!(r.step(Event::DirCreated), clone("https://github.com/o/b.git", "proj/deps/b"));
    assert_eq!(r.step(Event::AlreadyExists), Action::Finished(Ok(())));
}

#[test]
fn requested_revision_is_checked_out() {
    let (mut r, _) = Resolver::new("proj".to_string());
    r.step(manifest(vec![dep("A", "owner", "lib", Some("v1.2.0"))]));
    r.step(Event::DirCreated);
    assert_eq!(
        r.step(Event::Cloned),
        Action::Checkout { path: "proj/deps/A".to_string(), revision: "v1.2.0".to_string() }
    );
    assert_eq!(r.step(Event::CheckedOut), read("proj/deps/A"));
    assert_eq!(r.step(Event::ManifestMissing), Action::Finished(Ok(())));
}

#[test]
fn no_revision_means_no_checkout() {
    let (mut r, _) = Resolver::new("proj".to_string());
    r.step(manifest(vec![dep("A", "owner", "lib", None)]));
    r.step(Event::DirCreated);
    assert_eq!(r.step(Event::Cloned), read("proj/deps/A"));
}

#[test]
fn transitive_dependencies_are_fetched_depth_first() {
    let (mut r, _) = Resolver::new("root".to_string());
    let a = dep("A", "o", "a", None);
    let c = dep("C", "o", "c", None);
    assert_eq!(r.step(manifest(vec![a, c])), create("root/deps"));
    assert_eq!(r.step(Event::DirCreated), clone("https://github.com/o/a.git", "root/deps/A"));
    assert_eq!(r.step(Event::Cloned), read("root/deps/A"));
    assert_eq!(r.step(manifest(vec![dep("B", "o", "b", None)])), create("root/deps/A/deps"));
    assert_eq!(
        r.step(Event::DirCreated),
        clone("https://github.com/o/b.git", "root/deps/A/deps/B")
    );
    assert_eq!(r.step(Event::Cloned), read("root/deps/A/deps/B"));
    // B has no manifest; A is done; the root's next declaration, C, follows.
    assert_eq!(r.step(Event::ManifestMissing), create("root/deps"));
    assert_eq!(r.step(Event::DirCreated), clone("https://github.com/o/c.git", "root/deps/C"));
    assert_eq!(r.step(Event::Cloned), read("root/deps/C"));
    assert_eq!(r.step(Event::ManifestMissing), Action::Finished(Ok(())));
}

#[test]
fn failed_clone_stops_with_fetch_error() {
    let (mut r, _) = Resolver::new("proj".to_string());
    r.step(manifest(vec![dep("x", "nobody", "missing", None), dep("y", "o", "y", None)]));
    r.step(Event::DirCreated);
    let end = r.step(Event::CloneFailed("not found".to_string()));
    assert_eq!(
        end,
        Action::Finished(Err(ResolveError::Fetch {
            url: "https://github.com/nobody/missing.git".to_string(),
            message: "not found".to_string(),
        }))
    );
    assert!(r.is_finished());
    assert!(!r.accepts(&Event::DirCreated));
}

#[test]
fn invalid_manifest_stops_before_any_clone() {
    let (mut r, first) = Resolver::new("proj".to_string());
    assert_eq!(first, read("proj"));
    assert_eq!(
        r.step(Event::ManifestInvalid("bad".to_string())),
        Action::Finished(Err(ResolveError::ManifestParse {
            dir: "proj".to_string(),
            message: "bad".to_string(),
        }))
    );
}

#[test]
fn invalid_nested_manifest_names_its_directory() {
    let (mut r, _) = Resolver::new("p".to_string());
    r.step(manifest(vec![dep("a", "o", "a", None)]));
    r.step(Event::DirCreated);
    r.step(Event::Cloned);
    assert_eq!(
        r.step(Event::ManifestInvalid("oops".to_string())),
        Action::Finished(Err(ResolveError::ManifestParse {
            dir: "p/deps/a".to_string(),
            message: "oops".to_string(),
        }))
    );
}

#[test]
fn unknown_revision_is_reported() {
    let (mut r, _) = Resolver::new("p".to_string());
    r.step(manifest(vec![dep("a", "o", "a", Some("v9"))]));
    r.step(Event::DirCreated);
    r.step(Event::Cloned);
    assert_eq!(
        r.step(Event::RevisionNotFound("no such ref".to_string())),
        Action::Finished(Err(ResolveError::Revision {
            path: "p/deps/a".to_string(),
            revision: "v9".to_string(),
            message: "no such ref".to_string(),
        }))
    );
}

#[test]
fn failed_checkout_is_reported() {
    let (mut r, _) = Resolver::new("p".to_string());
    r.step(manifest(vec![dep("a", "o", "a", Some("main"))]));
    r.step(Event::DirCreated);
    r.step(Event::Cloned);
    assert_eq!(
        r.step(Event::CheckoutFailed("dirty".to_string())),
        Action::Finished(Err(ResolveError::Checkout {
            path: "p/deps/a".to_string(),
            message: "dirty".to_string(),
        }))
    );
}

#[test]
fn failed_deps_dir_is_reported() {
    let (mut r, _) = Resolver::new("p".to_string());
    r.step(manifest(vec![dep("a", "o", "a", None)]));
    assert_eq!(
        r.step(Event::DirFailed("read-only".to_string())),
        Action::Finished(Err(ResolveError::CreateDir {
            path: "p/deps".to_string(),
            message: "read-only".to_string(),
        }))
    );
}

#[test]
fn cycle_is_detected() {
    let (mut r, _) = Resolver::new("p".to_string());
    r.step(manifest(vec![dep("a", "o", "a", None)]));
    r.step(Event::DirCreated);
    r.step(Event::Cloned);
    r.step(manifest(vec![dep("b", "o", "b", None)]));
    r.step(Event::DirCreated);
    r.step(Event::Cloned);
    assert_eq!(
        r.step(manifest(vec![dep("a", "o", "a", None)])),
        Action::Finished(Err(ResolveError::Cycle {
            url: "https://github.com/o/a.git".to_string(),
        }))
    );
}

#[test]
fn accepts_only_expected_events() {
    let (r, _) = Resolver::new("p".to_string());
    assert!(r.accepts(&Event::ManifestMissing));
    assert!(!r.accepts(&Event::Cloned));
    assert!(!r.accepts(&Event::DirCreated));
}

#[test]
fn retrieve_dependencies_starts_with_first_declaration() {
    let m = Depman::new(vec![dep("a", "o", "a", None)]);
    let (mut r, first) = m.retrieve_dependencies("base".to_string());
    assert_eq!(first, create("base/deps"));
    assert_eq!(r.step(Event::DirCreated), clone("https://github.com/o/a.git", "base/deps/a"));
}

#[test]
fn retrieve_dependencies_of_empty_manifest_finishes() {
    let m = Depman::new(vec![]);
    let (r, first) = m.retrieve_dependencies("base".to_string());
    assert_eq!(first, Action::Finished(Ok(())));
    assert!(r.is_finished());
}
