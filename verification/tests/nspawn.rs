use cli_harness::nspawn::{bind_arg, machinectl_args, nix_env_set_args, nspawn_args, NspawnLayout};
use cli_harness::path::join_path;

#[test]
fn join_adds_one_separator() {
    assert_eq!(join_path("/tmp", "containers"), "/tmp/containers");
    assert_eq!(join_path("/tmp/", "containers"), "/tmp/containers");
    assert_eq!(join_path("", "containers"), "containers");
    assert_eq!(join_path("/tmp", ""), "/tmp/");
}

#[test]
fn join_of_absolute_component_replaces() {
    assert_eq!(join_path("/tmp", "/var/x"), "/var/x");
}

#[test]
fn join_agrees_with_std() {
    for (base, comp) in [("/a", "b"), ("a/", "b/c"), ("", ""), ("/", "x"), ("a", "/")] {
        let expected = std::path::Path::new(base).join(comp);
        assert_eq!(join_path(base, comp), expected.to_str().unwrap());
    }
}

#[test]
fn layout_of_container() {
    let layout = NspawnLayout::new("/tmp/t", "nixos-image-new");
    assert_eq!(layout.name(), "nixos-image-new");
    assert_eq!(layout.container_dir(), "/tmp/t/containers/nixos-image-new");
    assert_eq!(layout.root(), "/tmp/t/containers/nixos-image-new/root");
    assert_eq!(layout.profiles(), "/tmp/t/containers/nixos-image-new/profiles");
    assert_eq!(layout.gcroots(), "/tmp/t/containers/nixos-image-new/gcroots");
    assert_eq!(
        layout.system_profile(),
        "/tmp/t/containers/nixos-image-new/profiles/system"
    );
}

#[test]
fn nix_env_arguments() {
    assert_eq!(
        nix_env_set_args("/p/system", "/nix/store/abc-nixos"),
        vec!["-p", "/p/system", "--set", "/nix/store/abc-nixos"]
    );
}

#[test]
fn bind_argument() {
    assert_eq!(bind_arg("/x/gcroots", "/nix/var/nix/gcroots"), "--bind=/x/gcroots:/nix/var/nix/gcroots:idmap");
}

#[test]
fn nspawn_arguments() {
    let layout = NspawnLayout::new("/tmp/t/", "m");
    assert_eq!(
        nspawn_args(&layout),
        vec![
            "--machine",
            "m",
            "--directory",
            "/tmp/t/containers/m/root",
            "--keep-unit",
            "--private-users=pick",
            "--private-users-ownership=auto",
            "--private-network",
            "--notify-ready=yes",
            "--boot",
            "--bind-ro=/nix/store:/nix/store:idmap",
            "--bind-ro=/nix/var/nix/db:/nix/var/nix/db:idmap",
            "--bind-ro=/nix/var/nix/db:/nix/var/nix/daemon-socket:idmap",
            "--bind=/tmp/t/containers/m/profiles:/nix/var/nix/profiles:idmap",
            "--bind=/tmp/t/containers/m/gcroots:/nix/var/nix/gcroots:idmap",
            "/nix/var/nix/profiles/system/init",
        ]
    );
}

#[test]
fn machinectl_arguments() {
    assert_eq!(machinectl_args("status", "m"), vec!["status", "m"]);
    assert_eq!(machinectl_args("terminate", "m"), vec!["terminate", "m"]);
}
