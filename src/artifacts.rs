use vstd::prelude::*;
use vstd::string::*;

use crate::text::{pascal_case, pascal_of, str_eq};

verus! {

/// The entries whose presence marks a directory as a project of this tool.
pub fn project_base_files() -> (r: Vec<String>)
    ensures
        r@.len() == 4,
        r@[0]@ == ".cpppm.toml"@,
        r@[1]@ == "CMakeLists.txt"@,
        r@[2]@ == "src"@,
        r@[3]@ == ".git"@,
{
    let mut v: Vec<String> = Vec::new();
    v.push(String::from_str(".cpppm.toml"));
    v.push(String::from_str("CMakeLists.txt"));
    v.push(String::from_str("src"));
    v.push(String::from_str(".git"));
    v
}

/// File extensions of build output worth keeping: executables, libraries, objects and
/// debug databases.
pub open spec fn is_artifact_ext(e: Seq<char>) -> bool {
    e == "exe"@ || e == "so"@ || e == "dll"@ || e == "pdb"@ || e == "a"@ || e == "o"@ || e
        == "lib"@ || e == "dylib"@
}

pub fn is_artifact_extension(ext: &str) -> (r: bool)
    ensures
        r == is_artifact_ext(ext@),
{
    str_eq(ext, "exe") || str_eq(ext, "so") || str_eq(ext, "dll") || str_eq(ext, "pdb")
        || str_eq(ext, "a") || str_eq(ext, "o") || str_eq(ext, "lib") || str_eq(ext, "dylib")
}

pub open spec fn is_artifact(e: Option<String>) -> bool {
    match e {
        Some(s) => is_artifact_ext(s@),
        None => false,
    }
}

/// Positions, in order, of the first `n` files whose extension marks them as build output.
pub open spec fn artifact_indices(exts: Seq<Option<String>>, n: int) -> Seq<int>
    decreases n,
{
    if n <= 0 {
        Seq::empty()
    } else if is_artifact(exts[n - 1]) {
        artifact_indices(exts, n - 1).push(n - 1)
    } else {
        artifact_indices(exts, n - 1)
    }
}

/// Chooses, among built files given by their extensions (`None` for none), the ones to
/// move into the target directory; fails when there is none.
pub fn plan_moves(extensions: &Vec<Option<String>>) -> (r: Result<Vec<usize>, String>)
    ensures
        ({
            let idx = artifact_indices(extensions@, extensions@.len() as int);
            &&& idx.len() == 0 ==> (r matches Err(m) && m@ == "No valid output files found to move."@)
            &&& idx.len() > 0 ==> (r matches Ok(v) && v@.len() == idx.len() && forall|k: int|
                0 <= k < idx.len() ==> v@[k] as int == idx[k])
        }),
{
    let mut v: Vec<usize> = Vec::new();
    let mut i: usize = 0;
    while i < extensions.len()
        invariant
            i <= extensions@.len(),
            v@.len() == artifact_indices(extensions@, i as int).len(),
            forall|k: int| 0 <= k < v@.len() ==> v@[k] as int == artifact_indices(extensions@, i as int)[k],
        decreases extensions@.len() - i,
    {
        let keep = match &extensions[i] {
            Some(e) => is_artifact_extension(e.as_str()),
            None => false,
        };
        if keep {
            v.push(i);
        }
        i += 1;
    }
    if v.len() == 0 {
        return Err(String::from_str("No valid output files found to move."));
    }
    Ok(v)
}

/// `<current_dir>/target/<dir_name>`
pub open spec fn target_dir_of(current_dir: Seq<char>, dir_name: Seq<char>) -> Seq<char> {
    current_dir + "/target/"@ + dir_name
}

pub fn target_dir(current_dir: &str, dir_name: &str) -> (r: String)
    ensures
        r@ == target_dir_of(current_dir@, dir_name@),
{
    let mut s = current_dir.to_owned();
    s.append("/target/");
    s.append(dir_name);
    s
}

/// Where the output of a build in configuration `config` is gathered: a directory
/// named after the configuration in Pascal case, under `<current_dir>/target`.
pub fn artifact_target_dir(current_dir: &str, config: &str) -> (r: String)
    ensures
        r@ == target_dir_of(current_dir@, pascal_of(config@)),
{
    let name = pascal_case(config);
    target_dir(current_dir, name.as_str())
}

} // verus!
