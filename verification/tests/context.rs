use wasc::context::{Config, FileError, Middle, Platform};

fn initialized(current_dir: &str, file: &str) -> Middle {
    let mut middle = Middle::default();
    middle.init_file(current_dir.to_string(), file.to_string());
    middle
}

fn custom_config() -> Config {
    let mut config = Config::default();
    config.binary_cc = "clang".to_string();
    config.binary_wavm = "/opt/wavm/bin/wavm".to_string();
    config.platform = Platform::PosixX8664Spectest;
    config
}

fn same_state(a: &Middle, b: &Middle) -> bool {
    a.config.binary_cc == b.config.binary_cc
        && a.config.binary_wavm == b.config.binary_wavm
        && format!("{:?}", a.config.platform) == format!("{:?}", b.config.platform)
        && a.current_dir == b.current_dir
        && a.file == b.file
        && a.file_stem == b.file_stem
        && a.platform_code_path == b.platform_code_path
        && a.prog_dir == b.prog_dir
        && a.wavm_precompiled_wasm == b.wavm_precompiled_wasm
        && a.aot_object == b.aot_object
        && a.aot_glue == b.aot_glue
        && a.dummy == b.dummy
        && a.misc_has_init == b.misc_has_init
}

#[test]
fn default_config_uses_gcc_and_wavm() {
    let config = Config::default();
    assert_eq!(config.binary_cc, "gcc");
    assert_eq!(config.binary_wavm, "wavm");
    assert!(matches!(config.platform, Platform::Unknown));
    assert_eq!(config.platform_posix_x86_64, "");
    assert_eq!(config.platform_posix_x86_64_runtime, "");
    assert_eq!(config.platform_posix_x86_64_spectest, "");
    assert_eq!(config.platform_posix_x86_64_spectest_runtime, "");
}

#[test]
fn default_middle_is_empty() {
    let middle = Middle::default();
    assert_eq!(middle.config.binary_cc, "gcc");
    assert_eq!(middle.config.binary_wavm, "wavm");
    assert!(matches!(middle.config.platform, Platform::Unknown));
    assert_eq!(middle.current_dir, "");
    assert_eq!(middle.file, "");
    assert_eq!(middle.file_stem, "");
    assert_eq!(middle.platform_code_path, "");
    assert_eq!(middle.prog_dir, "");
    assert_eq!(middle.wavm_precompiled_wasm, "");
    assert_eq!(middle.aot_object, "");
    assert_eq!(middle.aot_glue, "");
    assert_eq!(middle.dummy, "");
    assert!(!middle.misc_has_init);
}

#[test]
fn init_config_replaces_only_the_config() {
    let mut middle = initialized("/work", "./res/helloworld.wasm");
    middle.dummy = "./res/helloworld_dummy.c".to_string();
    middle.misc_has_init = true;
    middle.init_config(custom_config());
    assert_eq!(middle.config.binary_cc, "clang");
    assert_eq!(middle.config.binary_wavm, "/opt/wavm/bin/wavm");
    assert!(matches!(middle.config.platform, Platform::PosixX8664Spectest));
    assert_eq!(middle.current_dir, "/work");
    assert_eq!(middle.file, "./res/helloworld.wasm");
    assert_eq!(middle.file_stem, "helloworld");
    assert_eq!(middle.prog_dir, "./res");
    assert_eq!(middle.dummy, "./res/helloworld_dummy.c");
    assert!(middle.misc_has_init);
}

#[test]
fn last_config_wins() {
    let mut twice = Middle::default();
    twice.init_config(custom_config());
    twice.init_config(Config::default());
    let mut once = Middle::default();
    once.init_config(Config::default());
    assert!(same_state(&twice, &once));
    assert_eq!(twice.config.binary_cc, "gcc");
}

#[test]
fn file_stem_drops_the_extension() {
    let middle = initialized("/work", "helloworld.wasm");
    assert_eq!(middle.file_stem, "helloworld");
}

#[test]
fn file_stem_keeps_inner_dots() {
    let middle = initialized("/work", "./res/fib.opt.wasm");
    assert_eq!(middle.file_stem, "fib.opt");
    assert_eq!(middle.platform_code_path, "./res/fib.opt_platform");
}

#[test]
fn init_file_in_a_relative_directory() {
    let middle = initialized("/work", "./res/helloworld.wasm");
    assert_eq!(middle.current_dir, "/work");
    assert_eq!(middle.file, "./res/helloworld.wasm");
    assert_eq!(middle.file_stem, "helloworld");
    assert_eq!(middle.prog_dir, "./res");
    assert_eq!(middle.platform_code_path, "./res/helloworld_platform");
    assert_eq!(middle.wavm_precompiled_wasm, "./res/helloworld_precompiled.wasm");
}

#[test]
fn init_file_in_an_absolute_directory() {
    let middle = initialized("", "/home/user/wasm/hello.wast");
    assert_eq!(middle.file_stem, "hello");
    assert_eq!(middle.prog_dir, "/home/user/wasm");
    assert_eq!(middle.platform_code_path, "/home/user/wasm/hello_platform");
    assert_eq!(middle.wavm_precompiled_wasm, "/home/user/wasm/hello_precompiled.wasm");
}

#[test]
fn bare_file_name_uses_the_current_directory() {
    let middle = initialized("/work", "helloworld.wasm");
    assert_eq!(middle.prog_dir, "./");
    assert_eq!(middle.platform_code_path, "./helloworld_platform");
    assert_eq!(middle.wavm_precompiled_wasm, "./helloworld_precompiled.wasm");
}

#[test]
fn file_under_the_root_uses_the_current_directory() {
    let middle = initialized("/work", "/helloworld.wasm");
    assert_eq!(middle.prog_dir, "./");
    assert_eq!(middle.platform_code_path, "./helloworld_platform");
}

#[test]
fn init_file_keeps_config_and_later_stage_fields() {
    let mut middle = Middle::default();
    middle.init_config(custom_config());
    middle.aot_object = "a.o".to_string();
    middle.aot_glue = "a_glue.h".to_string();
    middle.dummy = "a_dummy.c".to_string();
    middle.misc_has_init = true;
    middle.init_file("/work".to_string(), "./res/a.wasm".to_string());
    assert_eq!(middle.config.binary_cc, "clang");
    assert_eq!(middle.aot_object, "a.o");
    assert_eq!(middle.aot_glue, "a_glue.h");
    assert_eq!(middle.dummy, "a_dummy.c");
    assert!(middle.misc_has_init);
}

#[test]
fn last_file_wins() {
    let mut twice = initialized("/first", "./one/first.wasm");
    twice.init_file("/second".to_string(), "/two/second.wasm".to_string());
    let once = initialized("/second", "/two/second.wasm");
    assert!(same_state(&twice, &once));
    assert_eq!(twice.prog_dir, "/two");
}

#[test]
fn init_file_is_idempotent() {
    let mut twice = initialized("/work", "./res/helloworld.wasm");
    twice.init_file("/work".to_string(), "./res/helloworld.wasm".to_string());
    let once = initialized("/work", "./res/helloworld.wasm");
    assert!(same_state(&twice, &once));
}

#[test]
fn config_and_file_commute() {
    let mut config_first = Middle::default();
    config_first.init_config(custom_config());
    config_first.init_file("/work".to_string(), "./res/helloworld.wasm".to_string());
    let mut file_first = Middle::default();
    file_first.init_file("/work".to_string(), "./res/helloworld.wasm".to_string());
    file_first.init_config(custom_config());
    assert!(same_state(&config_first, &file_first));
}

#[test]
fn try_init_file_accepts_a_source_file() {
    let mut middle = Middle::default();
    let result = middle.try_init_file("/work".to_string(), "./res/helloworld.wasm".to_string());
    assert_eq!(result, Ok(()));
    assert_eq!(middle.file_stem, "helloworld");
    assert_eq!(middle.platform_code_path, "./res/helloworld_platform");
}

#[test]
fn try_init_file_refuses_an_empty_path() {
    let mut middle = Middle::default();
    let result = middle.try_init_file("/work".to_string(), "".to_string());
    assert_eq!(result, Err(FileError::NoFileStem));
    assert_eq!(middle.current_dir, "");
    assert_eq!(middle.file, "");
}

#[test]
fn try_init_file_refuses_the_root() {
    let mut middle = Middle::default();
    let result = middle.try_init_file("/work".to_string(), "/".to_string());
    assert_eq!(result, Err(FileError::NoFileStem));
    assert_eq!(middle.prog_dir, "");
}

#[test]
fn try_init_file_refuses_a_parent_reference() {
    let mut middle = initialized("/work", "./res/helloworld.wasm");
    let result = middle.try_init_file("/other".to_string(), "./res/..".to_string());
    assert_eq!(result, Err(FileError::NoFileStem));
    assert_eq!(middle.current_dir, "/work");
    assert_eq!(middle.file_stem, "helloworld");
}

#[test]
fn project_dir_keeps_a_nested_directory() {
    let dir = wasc::context::project_dir("./res".to_string(), Some(".".to_string()));
    assert_eq!(dir, "./res");
}

#[test]
fn project_dir_falls_back_to_the_current_directory() {
    let dir = wasc::context::project_dir("".to_string(), None);
    assert_eq!(dir, "./");
    let dir = wasc::context::project_dir("/".to_string(), None);
    assert_eq!(dir, "./");
}

#[test]
fn derive_paths_appends_the_suffixes_to_the_stem() {
    let (platform, precompiled) = wasc::context::derive_paths("fib", "./res");
    assert_eq!(platform, "./res/fib_platform");
    assert_eq!(precompiled, "./res/fib_precompiled.wasm");
}

#[test]
fn derive_paths_in_the_current_directory() {
    let (platform, precompiled) = wasc::context::derive_paths("a.b", "./");
    assert_eq!(platform, "./a.b_platform");
    assert_eq!(precompiled, "./a.b_precompiled.wasm");
}
