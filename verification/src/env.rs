//! Names of the environment variables through which the test setup is configured.
//!
//! Each is the package name in upper case followed by a fixed suffix.
use vstd::prelude::*;

verus! {

/// Suffix of the variable that holds the scratch directory of repositories.
pub const TEMP_SUFFIX: &'static str = "_TEST_TEMP";

/// Suffix of the variable that holds the scratch directory of containers.
pub const TMP_SUFFIX: &'static str = "_TEST_TMP";

/// Suffix of the variable that holds the path of the `nix` executable.
pub const NIX_PATH_SUFFIX: &'static str = "_TEST_NIX_PATH";

/// Suffix of the variable that holds the path of the `docker` executable.
pub const DOCKER_PATH_SUFFIX: &'static str = "_TEST_DOCKER_PATH";

/// What `str::to_uppercase` returns for a string: its Unicode upper-case mapping.
pub uninterp spec fn uppercase(s: Seq<char>) -> Seq<char>;

/// Calls `str::to_uppercase`. The contract claims only that the result is a function of
/// the argument, named `uppercase`; the Unicode case mapping is not restated here.
#[verifier::external_body]
fn to_uppercase(s: &str) -> (res: String)
    ensures
        res@ == uppercase(s@),
{
    s.to_uppercase()
}

/// Name of a configuration variable, given the already upper-cased package name and
/// the variable's suffix.
pub fn test_var_from_upper(upper_name: &str, suffix: &str) -> (res: String)
    ensures
        res@ == upper_name@ + suffix@,
{
    String::from_str(upper_name).concat(suffix)
}

/// Name of the configuration variable with suffix `suffix` for the package `pkg_name`:
/// the upper-cased package name followed by the suffix.
pub fn test_var(pkg_name: &str, suffix: &str) -> (res: String)
    ensures
        res@ == uppercase(pkg_name@) + suffix@,
{
    let upper = to_uppercase(pkg_name);
    test_var_from_upper(upper.as_str(), suffix)
}

} // verus!
