//! Configuration of an embedded interpreter runtime.
//!
//! [`OxidizedPythonInterpreterConfig`] is the mutable, partially specified
//! builder. [`OxidizedPythonInterpreterConfig::resolve`] turns it into an
//! immutable [`ResolvedOxidizedPythonInterpreterConfig`] whose executable
//! path and origin directory are guaranteed concrete and whose templated
//! path fields have every `$ORIGIN` token textually replaced by the origin
//! directory.
//!
//! Reading the live process state (the current executable, the process
//! argument vector) is input/output and stays outside this crate: callers
//! hand those in as plain values.

use vstd::prelude::*;

use crate::pathtext::clone_strings;
use crate::pathtext::parent_of;
use crate::pathtext::parent_of_str;
use crate::pathtext::replace_origin;
use crate::pathtext::replace_origin_str;

verus! {

/// Baseline defaults for the low-level interpreter configuration.
#[derive(Clone, Copy, PartialEq, Eq, Structural, Debug)]
pub enum PythonInterpreterProfile {
    /// Defaults of a standard interpreter.
    Python,
    /// Defaults of an isolated interpreter.
    Isolated,
}

/// Choice of the interpreter's raw memory allocator.
#[derive(Clone, Copy, PartialEq, Eq, Structural, Debug)]
pub enum PythonRawAllocator {
    Jemalloc,
    Malloc,
    Rust,
}

/// Policy for locating the `terminfo` database.
#[derive(Clone, PartialEq, Eq, Debug)]
pub enum TerminfoResolution {
    /// Resolve the database at runtime from well-known locations.
    Dynamic,
    /// Leave the database alone.
    Ignore,
    /// Use the given search path verbatim.
    Fixed(String),
}

/// An extra extension module statically linked into the process.
///
/// The initialization routine is an opaque, non-owning, process-lifetime
/// capability; it is carried here as a plain handle and only the embedding
/// layer turns it back into a callable.
#[derive(Clone, PartialEq, Eq, Debug)]
pub struct ExtensionModule {
    /// Name of the extension module.
    pub name: String,
    /// Opaque handle of the module's zero-argument initialization routine.
    pub init_func: usize,
}

/// Low-level interpreter configuration, reduced to the fields this core
/// reads: the mandatory defaults profile, the templated module search
/// paths and the explicit low-level argument vector.
#[derive(Clone, PartialEq, Eq, Debug)]
pub struct PythonInterpreterConfig {
    /// Defaults profile; the one mandatory low-level field.
    pub profile: PythonInterpreterProfile,
    /// Module search paths; each may carry the `$ORIGIN` token.
    pub module_search_paths: Option<Vec<String>>,
    /// Explicit low-level argument vector.
    pub argv: Option<Vec<String>>,
}

impl Default for PythonInterpreterConfig {
    /// The default low-level configuration: standard profile, nothing else
    /// set.
    fn default() -> (r: Self)
        ensures
            r.profile == PythonInterpreterProfile::Python,
            r.module_search_paths is None,
            r.argv is None,
    {
        PythonInterpreterConfig {
            profile: PythonInterpreterProfile::Python,
            module_search_paths: None,
            argv: None,
        }
    }
}

/// Mutable, partially specified configuration for an embedded interpreter.
#[derive(Clone, Debug)]
pub struct OxidizedPythonInterpreterConfig {
    /// The path of the currently executing executable, when known.
    pub exe: Option<String>,
    /// The directory from which relative paths are interpreted, when known.
    pub origin: Option<String>,
    /// Low-level configuration of the interpreter.
    pub interpreter_config: PythonInterpreterConfig,
    /// Allocator to use for the interpreter's raw allocator.
    pub raw_allocator: Option<PythonRawAllocator>,
    /// Whether to automatically fill missing path configuration fields.
    pub set_missing_path_configuration: bool,
    /// Whether to install the in-binary meta path importer.
    pub oxidized_importer: bool,
    /// Whether to install the default filesystem importer.
    pub filesystem_importer: bool,
    /// Packed resources data, parsed by the meta path importer.
    pub packed_resources: Vec<Vec<u8>>,
    /// Extra extension modules to expose to the interpreter.
    pub extra_extension_modules: Option<Vec<ExtensionModule>>,
    /// Override for the interpreter-level argument vector.
    pub argv: Option<Vec<String>>,
    /// Whether to export the byte form of the process arguments.
    pub argvb: bool,
    /// Whether to emulate frozen-binary behaviour.
    pub sys_frozen: bool,
    /// Whether to expose the executable's directory as the unpack dir.
    pub sys_meipass: bool,
    /// How to resolve the `terminfo` database.
    pub terminfo_resolution: TerminfoResolution,
    /// Path of the `tcl` library directory; may carry the `$ORIGIN` token.
    pub tcl_library: Option<String>,
    /// Name of an environment variable read at shutdown to request a
    /// loaded-modules dump.
    pub write_modules_directory_env: Option<String>,
}

impl Default for OxidizedPythonInterpreterConfig {
    /// The default builder: nothing concrete, standard profile, missing
    /// path configuration filled in, filesystem importer enabled.
    fn default() -> (r: Self)
        ensures
            r.exe is None,
            r.origin is None,
            r.interpreter_config.profile == PythonInterpreterProfile::Python,
            r.interpreter_config.module_search_paths is None,
            r.interpreter_config.argv is None,
            r.raw_allocator is None,
            r.set_missing_path_configuration,
            !r.oxidized_importer,
            r.filesystem_importer,
            r.packed_resources@ == Seq::<Vec<u8>>::empty(),
            r.extra_extension_modules is None,
            r.argv is None,
            !r.argvb,
            !r.sys_frozen,
            !r.sys_meipass,
            r.terminfo_resolution == TerminfoResolution::Dynamic,
            r.tcl_library is None,
            r.write_modules_directory_env is None,
    {
        OxidizedPythonInterpreterConfig {
            exe: None,
            origin: None,
            interpreter_config: PythonInterpreterConfig::default(),
            raw_allocator: None,
            set_missing_path_configuration: true,
            oxidized_importer: false,
            filesystem_importer: true,
            packed_resources: Vec::new(),
            extra_extension_modules: None,
            argv: None,
            argvb: false,
            sys_frozen: false,
            sys_meipass: false,
            terminfo_resolution: TerminfoResolution::Dynamic,
            tcl_library: None,
            write_modules_directory_env: None,
        }
    }
}

/// Why resolving a configuration failed.
#[derive(Clone, Copy, PartialEq, Eq, Structural, Debug)]
pub enum ConfigResolutionError {
    /// The executable path was unset and the current executable was not
    /// available.
    CurrentExecutableUnavailable,
    /// The origin was unset and the resolved executable path has no parent
    /// directory.
    NoParentDirectory,
}

/// The views of a sequence of strings.
pub open spec fn strs_view(v: Seq<String>) -> Seq<Seq<char>> {
    v.map_values(|s: String| s@)
}

/// The executable path that resolution settles on: the explicit one if
/// set, else the current process executable handed in by the caller.
pub open spec fn spec_resolved_exe(
    cfg: OxidizedPythonInterpreterConfig,
    process_exe: Option<String>,
) -> Option<Seq<char>> {
    if cfg.exe is Some {
        Some(cfg.exe->Some_0@)
    } else if process_exe is Some {
        Some(process_exe->Some_0@)
    } else {
        None
    }
}

/// The origin directory that resolution settles on: the explicit one if
/// set, else the parent directory of the resolved executable path.
pub open spec fn spec_resolved_origin(
    cfg: OxidizedPythonInterpreterConfig,
    exe: Seq<char>,
) -> Option<Seq<char>> {
    if cfg.origin is Some {
        Some(cfg.origin->Some_0@)
    } else {
        parent_of(exe)
    }
}

/// Resolution succeeds exactly when an executable path can be settled on
/// and an origin directory can be derived from it.
pub open spec fn spec_resolve_ok(
    cfg: OxidizedPythonInterpreterConfig,
    process_exe: Option<String>,
) -> bool {
    spec_resolved_exe(cfg, process_exe) matches Some(e) && spec_resolved_origin(cfg, e) is Some
}

/// What the interpreter-level argument query answers: `None` to leave the
/// low-level value untouched, else the override or the live process
/// arguments.
pub open spec fn spec_resolve_sys_argv(
    cfg: OxidizedPythonInterpreterConfig,
    process_args: Seq<Seq<char>>,
) -> Option<Seq<Seq<char>>> {
    if cfg.interpreter_config.argv is Some {
        None
    } else if cfg.argv is Some {
        Some(strs_view(cfg.argv->Some_0@))
    } else {
        Some(process_args)
    }
}

/// What the byte-form argument query answers: always a concrete vector —
/// the explicit low-level vector, else the override, else the live
/// process arguments.
pub open spec fn spec_resolve_sys_argvb(
    cfg: OxidizedPythonInterpreterConfig,
    process_args: Seq<Seq<char>>,
) -> Seq<Seq<char>> {
    if cfg.interpreter_config.argv is Some {
        strs_view(cfg.interpreter_config.argv->Some_0@)
    } else if cfg.argv is Some {
        strs_view(cfg.argv->Some_0@)
    } else {
        process_args
    }
}

/// The two argument queries diverge by design: whenever the low-level
/// vector is already set, the interpreter-level query declines to override
/// it while the byte-form query returns that very vector; otherwise both
/// agree on the override or on the live process arguments.
pub proof fn lemma_argument_policy_asymmetry(
    cfg: OxidizedPythonInterpreterConfig,
    process_args: Seq<Seq<char>>,
)
    ensures
        cfg.interpreter_config.argv is Some ==> spec_resolve_sys_argv(cfg, process_args) is None
            && spec_resolve_sys_argvb(cfg, process_args) == strs_view(
            cfg.interpreter_config.argv->Some_0@,
        ),
        cfg.interpreter_config.argv is None ==> spec_resolve_sys_argv(cfg, process_args)
            == Some(spec_resolve_sys_argvb(cfg, process_args)),
{
}

/// With both the executable path and the origin unset, resolution defaults
/// the executable to the current process executable and the origin to its
/// parent directory, and succeeds exactly when both are available.
pub proof fn lemma_bootstrap_defaulting(
    cfg: OxidizedPythonInterpreterConfig,
    process_exe: Option<String>,
)
    requires
        cfg.exe is None,
        cfg.origin is None,
    ensures
        process_exe matches Some(e) ==> spec_resolved_exe(cfg, process_exe) == Some(e@),
        process_exe matches Some(e) ==> (spec_resolve_ok(cfg, process_exe) <==> parent_of(e@)
            is Some),
        process_exe matches Some(e) ==> spec_resolved_origin(cfg, e@) == parent_of(e@),
        process_exe is None ==> !spec_resolve_ok(cfg, process_exe),
{
}

/// Replaces `$ORIGIN` with `origin` in every element of `v`.
fn replace_origin_strings(v: &Vec<String>, origin: &str) -> (r: Vec<String>)
    ensures
        r@.len() == v@.len(),
        forall|i: int| 0 <= i < v@.len() ==> r@[i]@ == replace_origin(v@[i]@, origin@),
{
    let mut r: Vec<String> = Vec::new();
    let mut i: usize = 0;
    while i < v.len()
        invariant
            i <= v@.len(),
            r@.len() == i,
            forall|j: int| 0 <= j < i ==> r@[j]@ == replace_origin(v@[j]@, origin@),
        decreases v@.len() - i,
    {
        r.push(replace_origin_str(v[i].as_str(), origin));
        i = i + 1;
    }
    r
}

impl OxidizedPythonInterpreterConfig {
    /// Consumes the builder and produces the fully resolved configuration.
    ///
    /// `process_exe` is the current process executable as read by the
    /// caller, or `None` when that lookup failed; it is consulted only
    /// when the builder's own executable path is unset. The origin, when
    /// unset, becomes the parent directory of the resolved executable
    /// path. Every `$ORIGIN` token in the module search paths and in the
    /// `tcl` library path is textually replaced by the origin; all other
    /// fields pass through unchanged.
    pub fn resolve(self, process_exe: Option<String>) -> (r: Result<
        ResolvedOxidizedPythonInterpreterConfig,
        ConfigResolutionError,
    >)
        ensures
            r is Ok <==> spec_resolve_ok(self, process_exe),
            spec_resolved_exe(self, process_exe) is None ==> r == Err::<
                ResolvedOxidizedPythonInterpreterConfig,
                ConfigResolutionError,
            >(ConfigResolutionError::CurrentExecutableUnavailable),
            spec_resolved_exe(self, process_exe) matches Some(e) && spec_resolved_origin(self, e)
                is None ==> r == Err::<
                ResolvedOxidizedPythonInterpreterConfig,
                ConfigResolutionError,
            >(ConfigResolutionError::NoParentDirectory),
            r matches Ok(c) ==> spec_resolved_exe(self, process_exe) matches Some(e) && c.exe@ == e
                && spec_resolved_origin(self, e) == Some(c.origin@),
            r matches Ok(c) ==> c.interpreter_config.profile == self.interpreter_config.profile
                && c.interpreter_config.argv == self.interpreter_config.argv,
            r matches Ok(c) ==> match self.interpreter_config.module_search_paths {
                None => c.interpreter_config.module_search_paths is None,
                Some(paths) => c.interpreter_config.module_search_paths matches Some(rp)
                    && rp@.len() == paths@.len() && (forall|i: int|
                    0 <= i < paths@.len() ==> rp@[i]@ == replace_origin(paths@[i]@, c.origin@)),
            },
            r matches Ok(c) ==> match self.tcl_library {
                None => c.tcl_library is None,
                Some(t) => c.tcl_library matches Some(rt) && rt@ == replace_origin(t@, c.origin@),
            },
            r matches Ok(c) ==> c.raw_allocator == self.raw_allocator
                && c.set_missing_path_configuration == self.set_missing_path_configuration
                && c.oxidized_importer == self.oxidized_importer && c.filesystem_importer
                == self.filesystem_importer && c.packed_resources == self.packed_resources
                && c.extra_extension_modules == self.extra_extension_modules && c.argv == self.argv
                && c.argvb == self.argvb && c.sys_frozen == self.sys_frozen && c.sys_meipass
                == self.sys_meipass && c.terminfo_resolution == self.terminfo_resolution
                && c.write_modules_directory_env == self.write_modules_directory_env,
    {
        let OxidizedPythonInterpreterConfig {
            exe,
            origin,
            interpreter_config,
            raw_allocator,
            set_missing_path_configuration,
            oxidized_importer,
            filesystem_importer,
            packed_resources,
            extra_extension_modules,
            argv,
            argvb,
            sys_frozen,
            sys_meipass,
            terminfo_resolution,
            tcl_library,
            write_modules_directory_env,
        } = self;

        let exe: String = match exe {
            Some(e) => e,
            None => match process_exe {
                Some(e) => e,
                None => {
                    return Err(ConfigResolutionError::CurrentExecutableUnavailable);
                },
            },
        };

        let origin: String = match origin {
            Some(o) => o,
            None => match parent_of_str(exe.as_str()) {
                Some(p) => p,
                None => {
                    return Err(ConfigResolutionError::NoParentDirectory);
                },
            },
        };

        let module_search_paths: Option<Vec<String>> = match &interpreter_config
            .module_search_paths {
            Some(paths) => Some(replace_origin_strings(paths, origin.as_str())),
            None => None,
        };

        let tcl_library: Option<String> = match &tcl_library {
            Some(t) => Some(replace_origin_str(t.as_str(), origin.as_str())),
            None => None,
        };

        Ok(
            ResolvedOxidizedPythonInterpreterConfig {
                exe,
                origin,
                interpreter_config: PythonInterpreterConfig {
                    profile: interpreter_config.profile,
                    module_search_paths,
                    argv: interpreter_config.argv,
                },
                raw_allocator,
                set_missing_path_configuration,
                oxidized_importer,
                filesystem_importer,
                packed_resources,
                extra_extension_modules,
                argv,
                argvb,
                sys_frozen,
                sys_meipass,
                terminfo_resolution,
                tcl_library,
                write_modules_directory_env,
            },
        )
    }

    /// Answers the interpreter-level argument query.
    ///
    /// `process_args` is the live process argument vector as read by the
    /// caller. Returns `None` — leave the low-level value untouched — when
    /// the low-level configuration already carries an explicit vector;
    /// else the builder's override; else the live process arguments.
    pub fn resolve_sys_argv(&self, process_args: &Vec<String>) -> (r: Option<Vec<String>>)
        ensures
            r is None <==> spec_resolve_sys_argv(*self, strs_view(process_args@)) is None,
            r matches Some(a) ==> spec_resolve_sys_argv(*self, strs_view(process_args@))
                == Some(strs_view(a@)),
    {
        let r = if self.interpreter_config.argv.is_some() {
            None
        } else if let Some(args) = &self.argv {
            Some(clone_strings(args))
        } else {
            Some(clone_strings(process_args))
        };
        proof {
            if r is Some {
                if self.argv is Some {
                    assert(strs_view(r->Some_0@) =~= strs_view(self.argv->Some_0@));
                } else {
                    assert(strs_view(r->Some_0@) =~= strs_view(process_args@));
                }
            }
        }
        r
    }

    /// Answers the byte-form argument query: always a concrete vector —
    /// the explicit low-level vector, else the builder's override, else
    /// the live process arguments handed in as `process_args`.
    pub fn resolve_sys_argvb(&self, process_args: &Vec<String>) -> (r: Vec<String>)
        ensures
            strs_view(r@) == spec_resolve_sys_argvb(*self, strs_view(process_args@)),
    {
        let r = if let Some(args) = &self.interpreter_config.argv {
            clone_strings(args)
        } else if let Some(args) = &self.argv {
            clone_strings(args)
        } else {
            clone_strings(process_args)
        };
        proof {
            if self.interpreter_config.argv is Some {
                assert(strs_view(r@) =~= strs_view(self.interpreter_config.argv->Some_0@));
            } else if self.argv is Some {
                assert(strs_view(r@) =~= strs_view(self.argv->Some_0@));
            } else {
                assert(strs_view(r@) =~= strs_view(process_args@));
            }
        }
        r
    }
}

/// An immutable configuration whose executable path and origin directory
/// are concrete and whose templated path fields have been substituted.
/// Resolution is the one intended producer of values of this type, and
/// its contract states what holds of every field it fills; the fields
/// stay public — and the type transparent — so that those statements can
/// name them, and holders are expected to treat a value as read-only.
#[derive(Clone, Debug)]
pub struct ResolvedOxidizedPythonInterpreterConfig {
    /// The path of the currently executing executable.
    pub exe: String,
    /// The directory from which relative paths are interpreted.
    pub origin: String,
    /// Low-level configuration, with `$ORIGIN` already substituted in the
    /// module search paths.
    pub interpreter_config: PythonInterpreterConfig,
    /// Allocator to use for the interpreter's raw allocator.
    pub raw_allocator: Option<PythonRawAllocator>,
    /// Whether to automatically fill missing path configuration fields.
    pub set_missing_path_configuration: bool,
    /// Whether to install the in-binary meta path importer.
    pub oxidized_importer: bool,
    /// Whether to install the default filesystem importer.
    pub filesystem_importer: bool,
    /// Packed resources data, parsed by the meta path importer.
    pub packed_resources: Vec<Vec<u8>>,
    /// Extra extension modules to expose to the interpreter.
    pub extra_extension_modules: Option<Vec<ExtensionModule>>,
    /// Override for the interpreter-level argument vector.
    pub argv: Option<Vec<String>>,
    /// Whether to export the byte form of the process arguments.
    pub argvb: bool,
    /// Whether to emulate frozen-binary behaviour.
    pub sys_frozen: bool,
    /// Whether to expose the executable's directory as the unpack dir.
    pub sys_meipass: bool,
    /// How to resolve the `terminfo` database.
    pub terminfo_resolution: TerminfoResolution,
    /// Path of the `tcl` library directory, `$ORIGIN` already substituted.
    pub tcl_library: Option<String>,
    /// Name of an environment variable read at shutdown to request a
    /// loaded-modules dump.
    pub write_modules_directory_env: Option<String>,
}

impl ResolvedOxidizedPythonInterpreterConfig {
    /// The value for the current executable. Total: resolution already
    /// guaranteed its presence.
    pub fn exe(&self) -> (r: &String)
        ensures
            r == &self.exe,
    {
        &self.exe
    }

    /// The origin directory. Total: resolution already guaranteed its
    /// presence.
    pub fn origin(&self) -> (r: &String)
        ensures
            r == &self.origin,
    {
        &self.origin
    }
}

} // verus!
