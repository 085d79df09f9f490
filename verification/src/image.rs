//! Names of the test images and the `docker` command lines that load and remove them.
use vstd::prelude::*;
use crate::nix::{image_name, image_name_spec, string_views, IMAGE_TAG};

verus! {

/// How a test image is referred to: the user (the package name), the repository, the
/// full name `<user>/<repo>` and the tag.
pub struct ImageRef {
    user: String,
    repo: String,
    name: String,
    tag: String,
}

impl ImageRef {
    /// The user part of the image name.
    pub closed spec fn user_view(&self) -> Seq<char> {
        self.user@
    }

    /// The repository part of the image name.
    pub closed spec fn repo_view(&self) -> Seq<char> {
        self.repo@
    }

    /// The full image name.
    pub closed spec fn name_view(&self) -> Seq<char> {
        self.name@
    }

    /// The image's tag.
    pub closed spec fn tag_view(&self) -> Seq<char> {
        self.tag@
    }

    /// The reference of the test image `repo` built for the package `pkg_name`, tagged
    /// `latest`.
    pub fn new(pkg_name: &str, repo: &str) -> (res: Self)
        ensures
            res.user_view() == pkg_name@,
            res.repo_view() == repo@,
            res.name_view() == image_name_spec(pkg_name@, repo@),
            res.name_view() == res.user_view() + seq!['/'] + res.repo_view(),
            res.tag_view() == IMAGE_TAG@,
    {
        proof {
            reveal_strlit("/");
        }
        ImageRef {
            user: String::from_str(pkg_name),
            repo: String::from_str(repo),
            name: image_name(pkg_name, repo),
            tag: String::from_str(IMAGE_TAG),
        }
    }

    /// The repository part of the image name.
    pub fn repo(&self) -> (res: &str)
        ensures
            res@ == self.repo_view(),
    {
        self.repo.as_str()
    }

    /// The user part of the image name.
    pub fn user(&self) -> (res: &str)
        ensures
            res@ == self.user_view(),
    {
        self.user.as_str()
    }

    /// The full image name.
    pub fn name(&self) -> (res: &str)
        ensures
            res@ == self.name_view(),
    {
        self.name.as_str()
    }

    /// The image's tag.
    pub fn tag(&self) -> (res: &str)
        ensures
            res@ == self.tag_view(),
    {
        self.tag.as_str()
    }
}

/// The arguments of `docker load` that load the image archive at `artifact`.
pub open spec fn docker_load_args_spec(artifact: Seq<char>) -> Seq<Seq<char>> {
    seq!["load"@, "--input"@, artifact]
}

/// Builds the arguments of `docker load` for the image archive at `artifact`.
pub fn docker_load_args(artifact: &str) -> (res: Vec<String>)
    ensures
        string_views(res@) == docker_load_args_spec(artifact@),
        res@.len() == 3,
        res@[2]@ == artifact@,
{
    let mut res: Vec<String> = Vec::new();
    res.push(String::from_str("load"));
    res.push(String::from_str("--input"));
    res.push(String::from_str(artifact));
    assert(string_views(res@) =~= docker_load_args_spec(artifact@));
    res
}

/// The arguments of `docker image rm` that remove the image `<user>/<repo>`.
pub open spec fn docker_remove_args_spec(user: Seq<char>, repo: Seq<char>) -> Seq<Seq<char>> {
    seq!["image"@, "rm"@, image_name_spec(user, repo)]
}

/// Builds the arguments of `docker image rm` for the image `<user>/<repo>`.
pub fn docker_remove_args(user: &str, repo: &str) -> (res: Vec<String>)
    ensures
        string_views(res@) == docker_remove_args_spec(user@, repo@),
        res@.len() == 3,
        res@[2]@ == user@ + seq!['/'] + repo@,
{
    let mut res: Vec<String> = Vec::new();
    res.push(String::from_str("image"));
    res.push(String::from_str("rm"));
    res.push(image_name(user, repo));
    proof {
        reveal_strlit("/");
    }
    assert(string_views(res@) =~= docker_remove_args_spec(user@, repo@));
    res
}

/// `inner` is a contiguous part of `outer`.
pub open spec fn is_infix(inner: Seq<char>, outer: Seq<char>) -> bool {
    exists|i: int, j: int| 0 <= i <= j <= outer.len() && inner == outer.subrange(i, j)
}

/// What `str::trim` returns for a string: the string without its leading and trailing
/// white space.
pub uninterp spec fn trimmed(s: Seq<char>) -> Seq<char>;

/// Calls `str::trim`. The contract claims that the result is a function of the argument,
/// named `trimmed`, and, as the documentation says, that it is the argument with a
/// prefix and a suffix removed; which characters count as white space is not restated.
#[verifier::external_body]
fn trim(s: &str) -> (res: &str)
    ensures
        res@ == trimmed(s@),
        is_infix(res@, s@),
{
    s.trim()
}

/// The store path that `nix build --print-out-paths` printed: its output without the
/// surrounding white space (the trailing newline).
pub fn store_path_from_output(stdout: &str) -> (res: String)
    ensures
        res@ == trimmed(stdout@),
        is_infix(res@, stdout@),
{
    String::from_str(trim(stdout))
}

/// `docker load` is given the image archive unchanged, as its last argument.
pub proof fn law_docker_load_args_pass_artifact(artifact: Seq<char>)
    ensures
        docker_load_args_spec(artifact).len() == 3,
        docker_load_args_spec(artifact)[0] == "load"@,
        docker_load_args_spec(artifact)[1] == "--input"@,
        docker_load_args_spec(artifact)[2] == artifact,
{
}

/// `docker image rm` is given the image's full name: the whole user, one `/`, and the
/// whole repository.
pub proof fn law_docker_remove_args_name_image(user: Seq<char>, repo: Seq<char>)
    ensures
        docker_remove_args_spec(user, repo).len() == 3,
        docker_remove_args_spec(user, repo)[0] == "image"@,
        docker_remove_args_spec(user, repo)[1] == "rm"@,
        docker_remove_args_spec(user, repo)[2] == user + seq!['/'] + repo,
{
    reveal_strlit("/");
}

} // verus!
