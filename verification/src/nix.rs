//! Nix expressions that build the test images, and the arguments of `nix build`.
use vstd::prelude::*;
use crate::image::is_infix;

verus! {

/// The views of a sequence of strings.
pub open spec fn string_views(v: Seq<String>) -> Seq<Seq<char>> {
    v.map_values(|s: String| s@)
}

/// `items` joined with `sep` between each two neighbours (empty for no items).
pub open spec fn join(items: Seq<Seq<char>>, sep: Seq<char>) -> Seq<char>
    decreases items.len(),
{
    if items.len() == 0 {
        Seq::empty()
    } else if items.len() == 1 {
        items[0]
    } else {
        join(items.drop_last(), sep) + sep + items.last()
    }
}

/// Joins `items` with `sep` between each two neighbours.
pub fn join_strings(items: &Vec<String>, sep: &str) -> (res: String)
    ensures
        res@ == join(string_views(items@), sep@),
{
    let ghost views = string_views(items@);
    let mut res = String::new();
    let n = items.len();
    let mut i: usize = 0;
    assert(views.take(0) =~= Seq::<Seq<char>>::empty());
    while i < n
        invariant
            i <= n,
            n == items@.len(),
            views == string_views(items@),
            res@ == join(views.take(i as int), sep@),
        decreases n - i,
    {
        let ghost before = views.take(i as int);
        let ghost after = views.take(i + 1);
        assert(after.drop_last() =~= before);
        assert(after.last() == items@[i as int]@);
        if i == 0 {
            assert(res@ == Seq::<char>::empty());
            res.append(items[i].as_str());
            assert(res@ =~= after[0]);
        } else {
            res.append(sep);
            res.append(items[i].as_str());
        }
        i = i + 1;
    }
    assert(views.take(n as int) =~= views);
    res
}

/// Text of the base image expression before the package name.
pub const BASE_IMAGE_HEAD: &'static str = "\n      pkgs.dockerTools.buildImage {\n        name = \"";

/// Text of the base image expression after the package name.
pub const BASE_IMAGE_TAIL: &'static str = "/base\";\n        tag = \"latest\";\n        created = \"now\";\n        copyToRoot = with pkgs.dockerTools; [\n          usrBinEnv\n          binSh\n        ];\n      }\n    ";

/// The expression of the base image that every test image is layered on: a Docker
/// image named `<pkg_name>/base` holding `/usr/bin/env` and `/bin/sh`.
pub open spec fn base_image_expr_spec(pkg_name: Seq<char>) -> Seq<char> {
    BASE_IMAGE_HEAD@ + pkg_name + BASE_IMAGE_TAIL@
}

/// Builds the expression of the base image for the package `pkg_name`.
pub fn base_image_expr(pkg_name: &str) -> (res: String)
    ensures
        res@ == base_image_expr_spec(pkg_name@),
{
    String::from_str(BASE_IMAGE_HEAD).concat(pkg_name).concat(BASE_IMAGE_TAIL)
}

/// The tag of every test image.
pub const IMAGE_TAG: &'static str = "latest";

/// Text of an image expression before the base image.
pub const IMAGE_HEAD: &'static str = "\n        let\n          pkgs = import <nixpkgs> { };\n\n          base = ";

/// Text of an image expression between the base image and the packages.
pub const IMAGE_AFTER_BASE: &'static str = ";\n\n          cmd = pkgs.writeShellApplication {\n            name = \"cmd\";\n            runtimeInputs = with pkgs; [ ";

/// Text of an image expression between the packages and the command.
pub const IMAGE_AFTER_PKGS: &'static str = " ];\n            text = ''\n              ";

/// Text of an image expression between the command and the package name.
pub const IMAGE_AFTER_CMD: &'static str = "\n            '';\n          };\n        in\n        pkgs.dockerTools.buildImage {\n          name = \"";

/// Text of an image expression between the image's repository and its tag.
pub const IMAGE_AFTER_REPO: &'static str = "\";\n          tag = \"";

/// Text of an image expression after its tag.
pub const IMAGE_TAIL: &'static str = "\";\n          created = \"now\";\n          fromImage = base;\n          copyToRoot = pkgs.buildEnv {\n            name = \"image-root\";\n            paths = with pkgs; [ cmd ];\n            pathsToLink = [ \"/bin\" ];\n          };\n          config = {\n            Cmd = [ \"cmd\" ];\n          };\n        }\n      ";

/// Name of the test image `repo` of the package `pkg_name`: `<pkg_name>/<repo>`.
pub open spec fn image_name_spec(pkg_name: Seq<char>, repo: Seq<char>) -> Seq<char> {
    pkg_name + "/"@ + repo
}

/// Builds the name `<pkg_name>/<repo>` of a test image.
pub fn image_name(pkg_name: &str, repo: &str) -> (res: String)
    ensures
        res@ == image_name_spec(pkg_name@, repo@),
{
    String::from_str(pkg_name).concat("/").concat(repo)
}

/// The expression of the test image `repo` of the package `pkg_name`: an image layered
/// on the base image whose command `cmd` runs the shell text `cmd` with the packages
/// `pkgs` (separated by spaces) on its path, named `<pkg_name>/<repo>` and tagged
/// `latest`.
pub open spec fn image_expr_spec(
    pkg_name: Seq<char>,
    repo: Seq<char>,
    pkgs: Seq<Seq<char>>,
    cmd: Seq<char>,
) -> Seq<char> {
    IMAGE_HEAD@ + base_image_expr_spec(pkg_name) + IMAGE_AFTER_BASE@ + join(pkgs, " "@)
        + IMAGE_AFTER_PKGS@ + cmd + IMAGE_AFTER_CMD@ + image_name_spec(pkg_name, repo)
        + IMAGE_AFTER_REPO@ + IMAGE_TAG@ + IMAGE_TAIL@
}

/// Builds the expression of the test image `repo` of the package `pkg_name`, which runs
/// the shell text `cmd` with the packages `pkgs` available.
pub fn image_expr(pkg_name: &str, repo: &str, pkgs: &Vec<String>, cmd: &str) -> (res: String)
    ensures
        res@ == image_expr_spec(pkg_name@, repo@, string_views(pkgs@), cmd@),
{
    let base = base_image_expr(pkg_name);
    let joined = join_strings(pkgs, " ");
    let name = image_name(pkg_name, repo);
    let mut res = String::from_str(IMAGE_HEAD);
    res.append(base.as_str());
    res.append(IMAGE_AFTER_BASE);
    res.append(joined.as_str());
    res.append(IMAGE_AFTER_PKGS);
    res.append(cmd);
    res.append(IMAGE_AFTER_CMD);
    res.append(name.as_str());
    res.append(IMAGE_AFTER_REPO);
    res.append(IMAGE_TAG);
    res.append(IMAGE_TAIL);
    res
}

/// The function that evaluates a NixOS configuration, taken from the flake of the
/// `nixpkgs` on the Nix search path.
pub const NIXOS_SYSTEM: &'static str = "(builtins.getFlake (builtins.toString <nixpkgs>)).lib.nixosSystem";

/// Text of a NixOS system expression before the evaluating function.
pub const NIXOS_HEAD: &'static str = "\n        let\n          nixosSystem = ";

/// Text of a NixOS system expression between the evaluating function and the modules.
pub const NIXOS_BEFORE_MODULES: &'static str = " {\n            system = builtins.currentSystem;\n            modules = [\n              ";

/// Text of a NixOS system expression after the modules: a module that marks the
/// system as a container and pins its state version.
pub const NIXOS_TAIL: &'static str = "\n              ({ lib, ... }: {\n                boot.isContainer = lib.mkForce true;\n                system.stateVersion = lib.mkForce \"24.11\";\n              })\n            ];\n          };\n        in\n        nixosSystem.config.system.build.toplevel\n      ";

/// A NixOS module in parentheses, so that it stands as one element of a Nix list.
pub open spec fn parenthesized(module: Seq<char>) -> Seq<char> {
    "("@ + module + ")"@
}

/// The modules of a NixOS system as list elements: each in parentheses, separated by
/// spaces.
pub open spec fn nixos_modules_spec(modules: Seq<Seq<char>>) -> Seq<char> {
    join(modules.map_values(|m: Seq<char>| parenthesized(m)), " "@)
}

/// Writes the modules `modules` as elements of a Nix list.
pub fn nixos_modules(modules: &Vec<String>) -> (res: String)
    ensures
        res@ == nixos_modules_spec(string_views(modules@)),
{
    let n = modules.len();
    let mut wrapped: Vec<String> = Vec::new();
    let mut i: usize = 0;
    while i < n
        invariant
            i <= n,
            n == modules@.len(),
            wrapped@.len() == i,
            forall|k: int| 0 <= k < i ==> #[trigger] wrapped@[k]@ == parenthesized(modules@[k]@),
        decreases n - i,
    {
        let w = String::from_str("(").concat(modules[i].as_str()).concat(")");
        wrapped.push(w);
        i = i + 1;
    }
    assert(string_views(wrapped@) =~= string_views(modules@).map_values(
        |m: Seq<char>| parenthesized(m),
    ));
    join_strings(&wrapped, " ")
}

/// The expression of the top-level derivation of a NixOS container system built from
/// the modules `modules` (already written as list elements).
pub open spec fn nixos_expr_spec(modules: Seq<char>) -> Seq<char> {
    NIXOS_HEAD@ + NIXOS_SYSTEM@ + NIXOS_BEFORE_MODULES@ + modules + NIXOS_TAIL@
}

/// Builds the expression of a NixOS container system from the modules `modules`.
pub fn nixos_expr(modules: &Vec<String>) -> (res: String)
    ensures
        res@ == nixos_expr_spec(nixos_modules_spec(string_views(modules@))),
{
    let listed = nixos_modules(modules);
    let mut res = String::from_str(NIXOS_HEAD);
    res.append(NIXOS_SYSTEM);
    res.append(NIXOS_BEFORE_MODULES);
    res.append(listed.as_str());
    res.append(NIXOS_TAIL);
    res
}

/// The arguments of `nix build` that build the expression `expr` without a result
/// link and print the store paths it produced.
pub open spec fn nix_build_args_spec(expr: Seq<char>) -> Seq<Seq<char>> {
    seq!["build"@, "--print-out-paths"@, "--no-link"@, "--impure"@, "--expr"@, expr]
}

/// Builds the arguments of `nix build` for the expression `expr`.
pub fn nix_build_args(expr: &str) -> (res: Vec<String>)
    ensures
        string_views(res@) == nix_build_args_spec(expr@),
        res@.len() == 6,
        res@[5]@ == expr@,
{
    let mut res: Vec<String> = Vec::new();
    res.push(String::from_str("build"));
    res.push(String::from_str("--print-out-paths"));
    res.push(String::from_str("--no-link"));
    res.push(String::from_str("--impure"));
    res.push(String::from_str("--expr"));
    res.push(String::from_str(expr));
    assert(string_views(res@) =~= nix_build_args_spec(expr@));
    res
}

/// `x` stands whole between `l` and `r`.
pub proof fn lemma_infix_of_concat(l: Seq<char>, x: Seq<char>, r: Seq<char>)
    ensures
        is_infix(x, l + x + r),
{
    let s = l + x + r;
    assert(s.subrange(l.len() as int, l.len() + x.len() as int) =~= x);
}

/// Joining nothing gives nothing, joining one item gives that item, and joining one more
/// item appends the separator and then that item.
pub proof fn law_join_steps(items: Seq<Seq<char>>, x: Seq<char>, sep: Seq<char>)
    ensures
        join(Seq::<Seq<char>>::empty(), sep) == Seq::<char>::empty(),
        join(seq![x], sep) == x,
        items.len() > 0 ==> join(items.push(x), sep) == join(items, sep) + sep + x,
{
    assert(items.push(x).drop_last() =~= items);
}

/// `nix build` is given the expression unchanged, as the argument after `--expr`, and
/// that is the last argument.
pub proof fn law_nix_build_args_pass_expr(expr: Seq<char>)
    ensures
        nix_build_args_spec(expr).len() == 6,
        nix_build_args_spec(expr)[0] == "build"@,
        nix_build_args_spec(expr)[4] == "--expr"@,
        nix_build_args_spec(expr)[5] == expr,
{
}

/// An image name is the whole package name, one `/`, and the whole repository name.
pub proof fn law_image_name_parts(pkg_name: Seq<char>, repo: Seq<char>)
    ensures
        ({
            let n = image_name_spec(pkg_name, repo);
            let p = pkg_name.len() as int;
            &&& n.len() == p + 1 + repo.len()
            &&& n.subrange(0, p) == pkg_name
            &&& n[p] == '/'
            &&& n.subrange(p + 1, n.len() as int) == repo
        }),
{
    reveal_strlit("/");
    let n = image_name_spec(pkg_name, repo);
    let p = pkg_name.len() as int;
    assert(n.subrange(0, p) =~= pkg_name);
    assert(n.subrange(p + 1, n.len() as int) =~= repo);
}

/// The base image expression carries the package name unchanged, right after its fixed
/// opening text.
pub proof fn law_base_image_names_package(pkg_name: Seq<char>)
    ensures
        base_image_expr_spec(pkg_name).subrange(
            BASE_IMAGE_HEAD@.len() as int,
            BASE_IMAGE_HEAD@.len() + pkg_name.len() as int,
        ) == pkg_name,
        is_infix(pkg_name, base_image_expr_spec(pkg_name)),
{
    let e = base_image_expr_spec(pkg_name);
    assert(e.subrange(BASE_IMAGE_HEAD@.len() as int, BASE_IMAGE_HEAD@.len() + pkg_name.len() as int)
        =~= pkg_name);
    lemma_infix_of_concat(BASE_IMAGE_HEAD@, pkg_name, BASE_IMAGE_TAIL@);
}

/// An image expression holds, each unchanged, the base image expression, the packages
/// joined by spaces, the command's shell text, the image name and the tag.
pub proof fn law_image_expr_holds_parts(
    pkg_name: Seq<char>,
    repo: Seq<char>,
    pkgs: Seq<Seq<char>>,
    cmd: Seq<char>,
)
    ensures
        ({
            let e = image_expr_spec(pkg_name, repo, pkgs, cmd);
            &&& is_infix(base_image_expr_spec(pkg_name), e)
            &&& is_infix(join(pkgs, " "@), e)
            &&& is_infix(cmd, e)
            &&& is_infix(image_name_spec(pkg_name, repo), e)
            &&& is_infix(IMAGE_TAG@, e)
        }),
{
    let e = image_expr_spec(pkg_name, repo, pkgs, cmd);
    let b = base_image_expr_spec(pkg_name);
    let j = join(pkgs, " "@);
    let nm = image_name_spec(pkg_name, repo);
    let l1 = IMAGE_HEAD@;
    let r1 = IMAGE_AFTER_BASE@ + j + IMAGE_AFTER_PKGS@ + cmd + IMAGE_AFTER_CMD@ + nm
        + IMAGE_AFTER_REPO@ + IMAGE_TAG@ + IMAGE_TAIL@;
    assert(e =~= l1 + b + r1);
    lemma_infix_of_concat(l1, b, r1);
    let l2 = IMAGE_HEAD@ + b + IMAGE_AFTER_BASE@;
    let r2 = IMAGE_AFTER_PKGS@ + cmd + IMAGE_AFTER_CMD@ + nm + IMAGE_AFTER_REPO@ + IMAGE_TAG@
        + IMAGE_TAIL@;
    assert(e =~= l2 + j + r2);
    lemma_infix_of_concat(l2, j, r2);
    let l3 = l2 + j + IMAGE_AFTER_PKGS@;
    let r3 = IMAGE_AFTER_CMD@ + nm + IMAGE_AFTER_REPO@ + IMAGE_TAG@ + IMAGE_TAIL@;
    assert(e =~= l3 + cmd + r3);
    lemma_infix_of_concat(l3, cmd, r3);
    let l4 = l3 + cmd + IMAGE_AFTER_CMD@;
    let r4 = IMAGE_AFTER_REPO@ + IMAGE_TAG@ + IMAGE_TAIL@;
    assert(e =~= l4 + nm + r4);
    lemma_infix_of_concat(l4, nm, r4);
    let l5 = l4 + nm + IMAGE_AFTER_REPO@;
    assert(e =~= l5 + IMAGE_TAG@ + IMAGE_TAIL@);
    lemma_infix_of_concat(l5, IMAGE_TAG@, IMAGE_TAIL@);
}

/// Listing no module gives nothing; one module `m` is listed as `(m)` with its text
/// unchanged; one more module is listed after a single space.
pub proof fn law_nixos_modules_steps(modules: Seq<Seq<char>>, m: Seq<char>)
    ensures
        nixos_modules_spec(Seq::<Seq<char>>::empty()) == Seq::<char>::empty(),
        nixos_modules_spec(seq![m]) == seq!['('] + m + seq![')'],
        modules.len() > 0 ==> nixos_modules_spec(modules.push(m)) == nixos_modules_spec(modules)
            + seq![' ', '('] + m + seq![')'],
{
    reveal_strlit("(");
    reveal_strlit(")");
    reveal_strlit(" ");
    let f = |x: Seq<char>| parenthesized(x);
    let wrapped = modules.map_values(f);
    assert(Seq::<Seq<char>>::empty().map_values(f) =~= Seq::<Seq<char>>::empty());
    assert(seq![m].map_values(f) =~= seq![parenthesized(m)]);
    assert(modules.push(m).map_values(f) =~= wrapped.push(parenthesized(m)));
    law_join_steps(wrapped, parenthesized(m), " "@);
    law_join_steps(Seq::<Seq<char>>::empty(), parenthesized(m), " "@);
    assert(parenthesized(m) =~= seq!['('] + m + seq![')']);
    if modules.len() > 0 {
        assert(nixos_modules_spec(modules.push(m)) =~= nixos_modules_spec(modules) + seq![
            ' ',
            '(',
        ] + m + seq![')']);
    }
}

/// A NixOS system expression holds the listed modules unchanged.
pub proof fn law_nixos_expr_holds_modules(modules: Seq<char>)
    ensures
        is_infix(modules, nixos_expr_spec(modules)),
{
    let l = NIXOS_HEAD@ + NIXOS_SYSTEM@ + NIXOS_BEFORE_MODULES@;
    assert(nixos_expr_spec(modules) =~= l + modules + NIXOS_TAIL@);
    lemma_infix_of_concat(l, modules, NIXOS_TAIL@);
}

} // verus!
