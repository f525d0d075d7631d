use vstd::prelude::*;
use vstd::string::*;

use crate::dependency::Dependency;
use crate::generator::{generator_label, Generator};
use crate::model::Language;
use crate::text::str_eq;

verus! {

/// What a project is and how it is built.
#[derive(Debug, PartialEq, Eq)]
pub struct Project {
    pub name: String,
    pub generator: Option<Generator>,
    pub language: Language,
    pub c_compiler: Option<String>,
    pub cxx_compiler: Option<String>,
}

/// A project's configuration file: the project, its directories by role
/// (`sources`, `headers`, `build`, ...) and its declared dependencies.
#[derive(Debug, PartialEq, Eq)]
pub struct ProjectConfig {
    pub project_details: Project,
    pub dirs: Vec<(String, String)>,
    pub dependencies: Option<Vec<Dependency>>,
}

/// The directory recorded for `key` (the first entry with that key).
pub open spec fn dir_entry(dirs: Seq<(String, String)>, key: Seq<char>) -> Option<Seq<char>>
    decreases dirs.len(),
{
    if dirs.len() == 0 {
        None
    } else if dirs[0].0@ == key {
        Some(dirs[0].1@)
    } else {
        dir_entry(dirs.drop_first(), key)
    }
}

impl Project {
    /// A nameless C++23 project built with the given C and C++ compilers.
    pub fn default_for(compilers: (String, String)) -> (r: Project)
        ensures
            r.name@ == Seq::<char>::empty(),
            r.generator is None,
            r.language == Language::Cpp23,
            r.c_compiler == Some(compilers.0),
            r.cxx_compiler == Some(compilers.1),
    {
        Project {
            name: String::new(),
            generator: None,
            language: Language::Cpp23,
            c_compiler: Some(compilers.0),
            cxx_compiler: Some(compilers.1),
        }
    }
}

impl ProjectConfig {
    /// Each role names one directory.
    pub open spec fn wf(&self) -> bool {
        forall|i: int, j: int|
            0 <= i < j < self.dirs@.len() ==> #[trigger] self.dirs@[i].0@ != #[trigger] self.dirs@[j].0@
    }

    /// The configuration of a new, nameless project: sources in `src/`, headers in
    /// `include/`, build output in `build/`, and one empty dependency entry.
    pub fn default_for(compilers: (String, String)) -> (r: ProjectConfig)
        ensures
            r.wf(),
            r.project_details.name@ == Seq::<char>::empty(),
            r.project_details.generator is None,
            r.project_details.language == Language::Cpp23,
            r.project_details.c_compiler == Some(compilers.0),
            r.project_details.cxx_compiler == Some(compilers.1),
            r.dirs@.len() == 3,
            r.dirs@[0].0@ == "sources"@ && r.dirs@[0].1@ == "src/"@,
            r.dirs@[1].0@ == "headers"@ && r.dirs@[1].1@ == "include/"@,
            r.dirs@[2].0@ == "build"@ && r.dirs@[2].1@ == "build/"@,
            r.dependencies matches Some(d) && d@.len() == 1 && {
                let e = d@[0].dependency;
                &&& e.name@.len() == 0
                &&& e.host is None
                &&& e.repository.0@.len() == 0
                &&& e.repository.1@.len() == 0
                &&& e.revision is None
            },
    {
        proof {
            reveal_strlit("");
        }
        let mut deps: Vec<Dependency> = Vec::new();
        deps.push(Dependency::default());
        let mut r = ProjectConfig::create_new_config(
            "",
            None,
            Language::Cpp23,
            "src/",
            "include/",
            "build/",
            compilers,
        );
        r.dependencies = Some(deps);
        r
    }

    pub fn get_name(&self) -> (r: &str)
        ensures
            r@ == self.project_details.name@,
    {
        self.project_details.name.as_str()
    }

    /// `c` for a C project, `cpp` for a C++ one.
    pub fn get_language(&self) -> (r: &'static str)
        ensures
            r@ == (if self.project_details.language.spec_is_c() { "c"@ } else { "cpp"@ }),
    {
        if self.project_details.language.is_c() {
            "c"
        } else {
            "cpp"
        }
    }

    /// The directory recorded for the role `key`.
    pub fn get_dir(&self, key: &str) -> (r: Option<String>)
        ensures
            match dir_entry(self.dirs@, key@) {
                Some(v) => r matches Some(s) && s@ == v,
                None => r is None,
            },
    {
        let mut i: usize = 0;
        assert(self.dirs@.subrange(0, self.dirs@.len() as int) =~= self.dirs@);
        while i < self.dirs.len()
            invariant
                i <= self.dirs@.len(),
                dir_entry(self.dirs@, key@) == dir_entry(
                    self.dirs@.subrange(i as int, self.dirs@.len() as int),
                    key@,
                ),
            decreases self.dirs@.len() - i,
        {
            let ghost rest = self.dirs@.subrange(i as int, self.dirs@.len() as int);
            assert(rest.drop_first() =~= self.dirs@.subrange(i + 1, self.dirs@.len() as int));
            if str_eq(self.dirs[i].0.as_str(), key) {
                return Some(self.dirs[i].1.clone());
            }
            i += 1;
        }
        None
    }

    pub fn get_sources_dir(&self) -> (r: Option<String>)
        ensures
            match dir_entry(self.dirs@, "sources"@) {
                Some(v) => r matches Some(s) && s@ == v,
                None => r is None,
            },
    {
        self.get_dir("sources")
    }

    pub fn get_headers_dir(&self) -> (r: Option<String>)
        ensures
            match dir_entry(self.dirs@, "headers"@) {
                Some(v) => r matches Some(s) && s@ == v,
                None => r is None,
            },
    {
        self.get_dir("headers")
    }

    pub fn get_build_dir(&self) -> (r: Option<String>)
        ensures
            match dir_entry(self.dirs@, "build"@) {
                Some(v) => r matches Some(s) && s@ == v,
                None => r is None,
            },
    {
        self.get_dir("build")
    }

    /// The CMake name of the project's generator, if it has one.
    pub fn get_generator(&self) -> (r: Option<String>)
        ensures
            match self.project_details.generator {
                Some(g) => r matches Some(s) && s@ == generator_label(g),
                None => r is None,
            },
    {
        match self.project_details.generator {
            Some(g) => Some(String::from_str(g.label())),
            None => None,
        }
    }

    /// The configuration of a new project, without dependencies.
    pub fn create_new_config(
        name: &str,
        generator: Option<Generator>,
        language: Language,
        sources_dir: &str,
        headers_dir: &str,
        build_dir: &str,
        compilers: (String, String),
    ) -> (r: ProjectConfig)
        ensures
            r.wf(),
            r.project_details.name@ == name@,
            r.project_details.generator == generator,
            r.project_details.language == language,
            r.project_details.c_compiler == Some(compilers.0),
            r.project_details.cxx_compiler == Some(compilers.1),
            r.dirs@.len() == 3,
            r.dirs@[0].0@ == "sources"@ && r.dirs@[0].1@ == sources_dir@,
            r.dirs@[1].0@ == "headers"@ && r.dirs@[1].1@ == headers_dir@,
            r.dirs@[2].0@ == "build"@ && r.dirs@[2].1@ == build_dir@,
            r.dependencies is None,
    {
        let mut dirs: Vec<(String, String)> = Vec::new();
        dirs.push((String::from_str("sources"), sources_dir.to_owned()));
        dirs.push((String::from_str("headers"), headers_dir.to_owned()));
        dirs.push((String::from_str("build"), build_dir.to_owned()));
        proof {
            reveal_strlit("sources");
            reveal_strlit("headers");
            reveal_strlit("build");
            assert(dirs@[0].0@[0] != dirs@[1].0@[0]);
            assert(dirs@[0].0@.len() != dirs@[2].0@.len());
            assert(dirs@[1].0@.len() != dirs@[2].0@.len());
        }
        ProjectConfig {
            project_details: Project {
                name: name.to_owned(),
                generator,
                language,
                c_compiler: Some(compilers.0),
                cxx_compiler: Some(compilers.1),
            },
            dirs,
            dependencies: None,
        }
    }
}

} // verus!
