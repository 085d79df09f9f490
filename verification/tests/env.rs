use cli_harness::env::{
    test_var, test_var_from_upper, DOCKER_PATH_SUFFIX, NIX_PATH_SUFFIX, TEMP_SUFFIX, TMP_SUFFIX,
};

#[test]
fn temp_var_of_package() {
    assert_eq!(test_var("cli", TEMP_SUFFIX), "CLI_TEST_TEMP");
}

#[test]
fn tmp_var_keeps_punctuation() {
    assert_eq!(test_var("my-pkg_2", TMP_SUFFIX), "MY-PKG_2_TEST_TMP");
}

#[test]
fn tool_path_vars() {
    assert_eq!(test_var("cli", NIX_PATH_SUFFIX), "CLI_TEST_NIX_PATH");
    assert_eq!(test_var("Cli", DOCKER_PATH_SUFFIX), "CLI_TEST_DOCKER_PATH");
}

#[test]
fn var_uses_unicode_upper_case() {
    assert_eq!(test_var("straße", TEMP_SUFFIX), "STRASSE_TEST_TEMP");
}

#[test]
fn var_from_upper_only_appends() {
    assert_eq!(test_var_from_upper("cli", TEMP_SUFFIX), "cli_TEST_TEMP");
    assert_eq!(test_var_from_upper("", ""), "");
}
