//! The global configuration of a build and the state that the compiler
//! carries from one stage to the next.
use vstd::prelude::*;

use crate::path::{file_stem, join, parent, path_file_stem, path_join, path_parent};

verus! {

/// The platform that the generated code targets.
#[derive(Clone, Copy, Debug)]
pub enum Platform {
    PosixX8664,
    PosixX8664Spectest,
    Unknown,
}

/// The global configuration of a build.
#[derive(Clone, Debug)]
pub struct Config {
    /// Path of the C compiler, usually what `which gcc` prints.
    pub binary_cc: String,
    /// Path of the WAVM binary that precompiles the module.
    pub binary_wavm: String,
    /// The target platform.
    pub platform: Platform,
    /// Source text of the POSIX x86-64 platform header.
    pub platform_posix_x86_64: &'static str,
    /// Source text of the POSIX x86-64 runtime assembly.
    pub platform_posix_x86_64_runtime: &'static str,
    /// Source text of the POSIX x86-64 spectest platform header.
    pub platform_posix_x86_64_spectest: &'static str,
    /// Source text of the POSIX x86-64 spectest runtime assembly.
    pub platform_posix_x86_64_spectest_runtime: &'static str,
}

impl Config {
    /// The configuration that `Config::default` gives: `gcc` and `wavm` as
    /// the tools, no known platform, and no platform source text.
    pub open spec fn is_default(self) -> bool {
        &&& self.binary_cc@ == "gcc"@
        &&& self.binary_wavm@ == "wavm"@
        &&& self.platform == Platform::Unknown
        &&& self.platform_posix_x86_64@ == ""@
        &&& self.platform_posix_x86_64_runtime@ == ""@
        &&& self.platform_posix_x86_64_spectest@ == ""@
        &&& self.platform_posix_x86_64_spectest_runtime@ == ""@
    }
}

impl Default for Config {
    /// Uses `gcc` and `wavm` found on the search path, targets no known
    /// platform, and holds empty platform source texts, which a caller that
    /// embeds the platform sources sets through the public fields.
    fn default() -> (c: Self)
        ensures
            c.is_default(),
    {
        Config {
            binary_cc: String::from_str("gcc"),
            binary_wavm: String::from_str("wavm"),
            platform: Platform::Unknown,
            platform_posix_x86_64: "",
            platform_posix_x86_64_runtime: "",
            platform_posix_x86_64_spectest: "",
            platform_posix_x86_64_spectest_runtime: "",
        }
    }
}

/// The state of a build between the compiler's stages. Paths are held as
/// UTF-8 text.
#[derive(Clone, Debug)]
pub struct Middle {
    /// The global configuration of the build.
    pub config: Config,
    /// The caller's working directory, or the empty path for the current
    /// directory of the running process.
    pub current_dir: String,
    /// The source wasm/wast file.
    pub file: String,
    /// The source file's name without its extension:
    /// the stem of `helloworld.wasm` is `helloworld`.
    pub file_stem: String,
    /// Folder that collects the platform based code.
    pub platform_code_path: String,
    /// The project's directory, usually the directory of `file`.
    pub prog_dir: String,
    /// The wasm file precompiled by WAVM.
    pub wavm_precompiled_wasm: String,
    /// The object file compiled ahead of time.
    pub aot_object: String,
    /// The glue file generated between the stages.
    pub aot_glue: String,
    /// Path of the dummy file.
    pub dummy: String,
    /// Whether the module defines an init function.
    pub misc_has_init: bool,
}

/// The project directory for a source file in the directory `dir`: `dir`
/// itself where `dir` has a parent, `./` where it has none.
pub open spec fn spec_project_dir(dir: Seq<char>, dir_has_parent: bool) -> Seq<char> {
    if dir_has_parent {
        dir
    } else {
        "./"@
    }
}

/// The project directory of the source file `file`: its parent directory,
/// or `./` where that parent has no parent of its own.
pub open spec fn program_dir(file: Seq<char>) -> Seq<char> {
    let dir = path_parent(file).unwrap();
    spec_project_dir(dir, path_parent(dir) is Some)
}

/// The project directory for a source file in the directory `dir`, given
/// the parent `dir_parent` of `dir`.
pub fn project_dir(dir: String, dir_parent: Option<String>) -> (r: String)
    ensures
        r@ == spec_project_dir(dir@, dir_parent is Some),
        dir_parent is Some ==> r@ == dir@,
        dir_parent is None ==> r@ == seq!['.', '/'],
{
    proof {
        reveal_strlit("./");
    }
    match dir_parent {
        Some(_) => dir,
        None => String::from_str("./"),
    }
}

/// The folder of platform based code and the precompiled wasm file of a
/// source file with the stem `stem` in the project directory `prog_dir`:
/// `prog_dir` joined with the stem followed by `_platform`, and with the
/// stem followed by `_precompiled.wasm`.
pub fn derive_paths(stem: &str, prog_dir: &str) -> (r: (String, String))
    ensures
        r.0@ == path_join(prog_dir@, stem@ + "_platform"@),
        r.1@ == path_join(prog_dir@, stem@ + "_precompiled.wasm"@),
{
    let mut platform_dir = String::from_str(stem);
    platform_dir.append("_platform");
    let mut precompiled = String::from_str(stem);
    precompiled.append("_precompiled.wasm");
    (join(prog_dir, platform_dir.as_str()), join(prog_dir, precompiled.as_str()))
}

/// Why the paths of a build cannot be derived from a source file.
#[derive(Clone, Copy, Debug, PartialEq, Eq, Structural)]
pub enum FileError {
    /// The path has no file name to take a stem from.
    NoFileStem,
    /// The path has no parent directory.
    NoParent,
}

impl Middle {
    /// `new` is `old` with its configuration replaced by `config`.
    pub open spec fn config_replaced(old: Middle, new: Middle, config: Config) -> bool {
        new == Middle { config: config, ..old }
    }

    /// `new` is `old` with its working directory set to `current_dir` and
    /// the paths of the build derived from the source file `file`; every
    /// other field is kept.
    pub open spec fn file_initialized(
        old: Middle,
        new: Middle,
        current_dir: Seq<char>,
        file: Seq<char>,
    ) -> bool {
        let stem = path_file_stem(file).unwrap();
        let dir = program_dir(file);
        &&& new.config == old.config
        &&& new.current_dir@ == current_dir
        &&& new.file@ == file
        &&& new.file_stem@ == stem
        &&& new.prog_dir@ == dir
        &&& new.platform_code_path@ == path_join(dir, stem + "_platform"@)
        &&& new.wavm_precompiled_wasm@ == path_join(dir, stem + "_precompiled.wasm"@)
        &&& new.aot_object == old.aot_object
        &&& new.aot_glue == old.aot_glue
        &&& new.dummy == old.dummy
        &&& new.misc_has_init == old.misc_has_init
    }

    /// The two states hold the same values: the same configuration, flag
    /// and path texts.
    pub open spec fn agrees_with(self, other: Middle) -> bool {
        &&& self.config == other.config
        &&& self.current_dir@ == other.current_dir@
        &&& self.file@ == other.file@
        &&& self.file_stem@ == other.file_stem@
        &&& self.platform_code_path@ == other.platform_code_path@
        &&& self.prog_dir@ == other.prog_dir@
        &&& self.wavm_precompiled_wasm@ == other.wavm_precompiled_wasm@
        &&& self.aot_object@ == other.aot_object@
        &&& self.aot_glue@ == other.aot_glue@
        &&& self.dummy@ == other.dummy@
        &&& self.misc_has_init == other.misc_has_init
    }

    /// Sets the global config for the build, keeping every other field.
    pub fn init_config(&mut self, config: Config)
        ensures
            Middle::config_replaced(*old(self), *final(self), config),
            final(self).config == config,
    {
        self.config = config;
    }

    /// Initializes the paths of the build from the working directory
    /// `current_dir` and the source file `file`.
    pub fn init_file(&mut self, current_dir: String, file: String)
        requires
            path_file_stem(file@) is Some,
            path_parent(file@) is Some,
        ensures
            Middle::file_initialized(*old(self), *final(self), current_dir@, file@),
            final(self).prog_dir@.len() > 0,
            final(self).current_dir@ == current_dir@,
            final(self).file@ == file@,
            path_parent(path_parent(file@).unwrap()) is Some ==> final(self).prog_dir@
                == path_parent(file@).unwrap(),
            path_parent(path_parent(file@).unwrap()) is None ==> final(self).prog_dir@ == seq![
                '.',
                '/',
            ],
    {
        proof {
            reveal_strlit("./");
        }
        self.current_dir = current_dir;
        self.file = file;
        self.file_stem = file_stem(self.file.as_str()).unwrap();
        let dir = parent(self.file.as_str()).unwrap();
        let dir_parent = parent(dir.as_str());
        proof {
            if dir@.len() == 0 {
                assert(dir@ =~= Seq::<char>::empty());
            }
        }
        self.prog_dir = project_dir(dir, dir_parent);
        let (platform_code_path, wavm_precompiled_wasm) = derive_paths(
            self.file_stem.as_str(),
            self.prog_dir.as_str(),
        );
        self.platform_code_path = platform_code_path;
        self.wavm_precompiled_wasm = wavm_precompiled_wasm;
    }

    /// Initializes the paths of the build as `init_file` does where `file`
    /// has a stem and a parent directory; otherwise says which is missing
    /// and leaves the state unchanged.
    pub fn try_init_file(&mut self, current_dir: String, file: String) -> (r: Result<(), FileError>)
        ensures
            match r {
                Ok(()) => {
                    &&& Middle::file_initialized(*old(self), *final(self), current_dir@, file@)
                    &&& final(self).prog_dir@.len() > 0
                },
                Err(FileError::NoFileStem) => {
                    &&& path_file_stem(file@) is None
                    &&& *final(self) == *old(self)
                },
                Err(FileError::NoParent) => {
                    &&& path_file_stem(file@) is Some
                    &&& path_parent(file@) is None
                    &&& *final(self) == *old(self)
                },
            },
            r is Ok <==> (path_file_stem(file@) is Some && path_parent(file@) is Some),
            file@.len() == 0 ==> r == Err::<(), FileError>(FileError::NoFileStem),
    {
        proof {
            if file@.len() == 0 {
                assert(file@ =~= Seq::<char>::empty());
            }
        }
        if file_stem(file.as_str()).is_none() {
            return Err(FileError::NoFileStem);
        }
        if parent(file.as_str()).is_none() {
            return Err(FileError::NoParent);
        }
        self.init_file(current_dir, file);
        Ok(())
    }
}

/// Setting the configuration twice leaves the state that setting only the
/// second configuration gives.
pub proof fn lemma_last_config_wins(
    start: Middle,
    between: Middle,
    end: Middle,
    direct: Middle,
    first: Config,
    second: Config,
)
    requires
        Middle::config_replaced(start, between, first),
        Middle::config_replaced(between, end, second),
        Middle::config_replaced(start, direct, second),
    ensures
        end == direct,
{
}

/// Initializing the paths twice leaves the state that only the second
/// initialization gives: the earlier source file leaves no trace.
pub proof fn lemma_last_file_wins(
    start: Middle,
    between: Middle,
    end: Middle,
    direct: Middle,
    first_dir: Seq<char>,
    first_file: Seq<char>,
    second_dir: Seq<char>,
    second_file: Seq<char>,
)
    requires
        Middle::file_initialized(start, between, first_dir, first_file),
        Middle::file_initialized(between, end, second_dir, second_file),
        Middle::file_initialized(start, direct, second_dir, second_file),
    ensures
        end.agrees_with(direct),
{
}

/// Setting the configuration and initializing the paths touch different
/// fields: either order gives the same state.
pub proof fn lemma_config_and_file_commute(
    start: Middle,
    config_first: Middle,
    config_then_file: Middle,
    file_first: Middle,
    file_then_config: Middle,
    config: Config,
    current_dir: Seq<char>,
    file: Seq<char>,
)
    requires
        Middle::config_replaced(start, config_first, config),
        Middle::file_initialized(config_first, config_then_file, current_dir, file),
        Middle::file_initialized(start, file_first, current_dir, file),
        Middle::config_replaced(file_first, file_then_config, config),
    ensures
        config_then_file.agrees_with(file_then_config),
{
}

/// The project directory is the directory itself wherever that directory
/// has a parent, whatever the parent is, and `./` wherever it has none.
pub proof fn lemma_project_dir_cases(dir: Seq<char>)
    ensures
        spec_project_dir(dir, true) == dir,
        spec_project_dir(dir, false) == seq!['.', '/'],
{
    reveal_strlit("./");
}

/// Setting the configuration stores it exactly as given, every field of it
/// (the four platform source texts included), and keeps every other field
/// of the state.
pub proof fn lemma_init_config_stores_config(old: Middle, new: Middle, config: Config)
    requires
        Middle::config_replaced(old, new, config),
    ensures
        new.config == config,
        new.config.binary_cc == config.binary_cc,
        new.config.binary_wavm == config.binary_wavm,
        new.config.platform == config.platform,
        new.config.platform_posix_x86_64 == config.platform_posix_x86_64,
        new.config.platform_posix_x86_64_runtime == config.platform_posix_x86_64_runtime,
        new.config.platform_posix_x86_64_spectest == config.platform_posix_x86_64_spectest,
        new.config.platform_posix_x86_64_spectest_runtime
            == config.platform_posix_x86_64_spectest_runtime,
        new.current_dir == old.current_dir,
        new.file == old.file,
        new.file_stem == old.file_stem,
        new.platform_code_path == old.platform_code_path,
        new.prog_dir == old.prog_dir,
        new.wavm_precompiled_wasm == old.wavm_precompiled_wasm,
        new.aot_object == old.aot_object,
        new.aot_glue == old.aot_glue,
        new.dummy == old.dummy,
        new.misc_has_init == old.misc_has_init,
{
}

/// Initializing the paths stores the working directory and the source file
/// exactly as given, the empty working directory included, and takes the
/// stem from the source file.
pub proof fn lemma_init_file_stores_inputs(
    old: Middle,
    new: Middle,
    current_dir: Seq<char>,
    file: Seq<char>,
)
    requires
        Middle::file_initialized(old, new, current_dir, file),
        path_file_stem(file) is Some,
    ensures
        new.current_dir@ == current_dir,
        new.file@ == file,
        Some(new.file_stem@) == path_file_stem(file),
        new.config == old.config,
{
}

/// The project directory of a source file is its parent directory `dir`
/// whenever `dir` has a parent of its own, whatever `dir`'s text and that
/// parent are, and `./` only where `dir` has no parent; both derived paths
/// are joined onto the project directory.
pub proof fn lemma_init_file_project_dir(
    old: Middle,
    new: Middle,
    current_dir: Seq<char>,
    file: Seq<char>,
    dir: Seq<char>,
)
    requires
        Middle::file_initialized(old, new, current_dir, file),
        path_parent(file) == Some(dir),
    ensures
        path_parent(dir) is Some ==> new.prog_dir@ == dir,
        path_parent(dir) is None ==> new.prog_dir@ == seq!['.', '/'],
        new.platform_code_path@ == path_join(new.prog_dir@, new.file_stem@ + "_platform"@),
        new.wavm_precompiled_wasm@ == path_join(
            new.prog_dir@,
            new.file_stem@ + "_precompiled.wasm"@,
        ),
{
    reveal_strlit("./");
}

impl Default for Middle {
    /// The default configuration, empty paths and no init function.
    fn default() -> (m: Self)
        ensures
            m.config.is_default(),
            m.current_dir@ == Seq::<char>::empty(),
            m.file@ == Seq::<char>::empty(),
            m.file_stem@ == Seq::<char>::empty(),
            m.platform_code_path@ == Seq::<char>::empty(),
            m.prog_dir@ == Seq::<char>::empty(),
            m.wavm_precompiled_wasm@ == Seq::<char>::empty(),
            m.aot_object@ == Seq::<char>::empty(),
            m.aot_glue@ == Seq::<char>::empty(),
            m.dummy@ == Seq::<char>::empty(),
            !m.misc_has_init,
    {
        Middle {
            config: Config::default(),
            current_dir: String::new(),
            file: String::new(),
            file_stem: String::new(),
            platform_code_path: String::new(),
            prog_dir: String::new(),
            wavm_precompiled_wasm: String::new(),
            aot_object: String::new(),
            aot_glue: String::new(),
            dummy: String::new(),
            misc_has_init: false,
        }
    }
}

} // verus!
