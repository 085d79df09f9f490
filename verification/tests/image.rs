use cli_harness::image::{docker_load_args, docker_remove_args, store_path_from_output, ImageRef};

#[test]
fn image_ref_of_repo() {
    let image = ImageRef::new("cli", "docker-image-container-run");
    assert_eq!(image.user(), "cli");
    assert_eq!(image.repo(), "docker-image-container-run");
    assert_eq!(image.name(), "cli/docker-image-container-run");
    assert_eq!(image.tag(), "latest");
}

#[test]
fn load_and_remove_arguments() {
    assert_eq!(
        docker_load_args("/nix/store/abc-docker-image-x.tar.gz"),
        vec!["load", "--input", "/nix/store/abc-docker-image-x.tar.gz"]
    );
    assert_eq!(docker_remove_args("cli", "x"), vec!["image", "rm", "cli/x"]);
}

#[test]
fn store_path_drops_surrounding_white_space() {
    assert_eq!(
        store_path_from_output("/nix/store/abc-docker-image-x.tar.gz\n"),
        "/nix/store/abc-docker-image-x.tar.gz"
    );
    assert_eq!(store_path_from_output("  \t/a b \n\n"), "/a b");
    assert_eq!(store_path_from_output("\n"), "");
}
