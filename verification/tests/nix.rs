use cli_harness::nix::{
    base_image_expr, image_expr, image_name, join_strings, nix_build_args, nixos_expr,
    nixos_modules,
};

const PKG: &str = "cli";

fn strings(items: &[&str]) -> Vec<String> {
    items.iter().map(|s| s.to_string()).collect()
}

fn expected_base() -> String {
    format!(
        r#"
      pkgs.dockerTools.buildImage {{
        name = "{PKG}/base";
        tag = "latest";
        created = "now";
        copyToRoot = with pkgs.dockerTools; [
          usrBinEnv
          binSh
        ];
      }}
    "#
    )
}

#[test]
fn join_of_none_one_and_many() {
    assert_eq!(join_strings(&strings(&[]), " "), "");
    assert_eq!(join_strings(&strings(&["hello"]), " "), "hello");
    assert_eq!(join_strings(&strings(&["coreutils", "hello"]), " "), "coreutils hello");
    assert_eq!(join_strings(&strings(&["a", "", "b"]), ", "), "a, , b");
}

#[test]
fn base_image() {
    assert_eq!(base_image_expr(PKG), expected_base());
}

#[test]
fn image_name_has_user_and_repo() {
    assert_eq!(image_name(PKG, "docker-image-container-run"), "cli/docker-image-container-run");
}

#[test]
fn image_running_hello() {
    let repo = "docker-image-container-run";
    let cmd = r#"
        echo "Hello, world!"
      "#;
    let pkgs = "coreutils hello";
    let tag = "latest";
    let base = expected_base();
    let expected = format!(
        r#"
        let
          pkgs = import <nixpkgs> {{ }};

          base = {base};

          cmd = pkgs.writeShellApplication {{
            name = "cmd";
            runtimeInputs = with pkgs; [ {} ];
            text = ''
              {}
            '';
          }};
        in
        pkgs.dockerTools.buildImage {{
          name = "{PKG}/{repo}";
          tag = "{tag}";
          created = "now";
          fromImage = base;
          copyToRoot = pkgs.buildEnv {{
            name = "image-root";
            paths = with pkgs; [ cmd ];
            pathsToLink = [ "/bin" ];
          }};
          config = {{
            Cmd = [ "cmd" ];
          }};
        }}
      "#,
        pkgs, cmd,
    );
    assert_eq!(image_expr(PKG, repo, &strings(&["coreutils", "hello"]), cmd), expected);
}

#[test]
fn modules_are_parenthesized_and_spaced() {
    assert_eq!(nixos_modules(&strings(&[])), "");
    assert_eq!(nixos_modules(&strings(&["a", "{ b }"])), "(a) ({ b })");
}

#[test]
fn nixos_system_with_hello() {
    let module = "{ pkgs, ... }: { environment.systemPackages = [ pkgs.hello ]; }";
    let modules = format!("({module})");
    let nixos_system = "(builtins.getFlake (builtins.toString <nixpkgs>)).lib.nixosSystem";
    let expected = format!(
        r#"
        let
          nixosSystem = {nixos_system} {{
            system = builtins.currentSystem;
            modules = [
              {modules}
              ({{ lib, ... }}: {{
                boot.isContainer = lib.mkForce true;
                system.stateVersion = lib.mkForce "24.11";
              }})
            ];
          }};
        in
        nixosSystem.config.system.build.toplevel
      "#
    );
    assert_eq!(nixos_expr(&strings(&[module])), expected);
}

#[test]
fn build_arguments() {
    assert_eq!(
        nix_build_args("1 + 1"),
        strings(&["build", "--print-out-paths", "--no-link", "--impure", "--expr", "1 + 1"])
    );
}
