//! The build environment context: a registry of named build targets with
//! the build parameters of one evaluation.
//!
//! Target names are unique; registration order is preserved and the
//! registry never shrinks. A target is *resolved* once a concrete artifact
//! descriptor is bound to its name and *built* once the first successful
//! build cached a [`ResolvedTarget`] on it.

use vstd::prelude::*;

use crate::config::ResolvedOxidizedPythonInterpreterConfig;
use crate::config::strs_view;

verus! {

/// Why a registry, build or run operation failed.
///
/// Recoverability is encoded in the kind: `BuildIOError` and `BuildFailed`
/// leave the target resolved, so a corrected retry needs no re-evaluation;
/// the other kinds need the script or the request corrected.
#[derive(Clone, PartialEq, Eq, Debug)]
pub enum BuildError {
    /// A target of this name is already registered.
    DuplicateTarget,
    /// No target of this name is registered.
    TargetNotRegistered,
    /// The target is registered but no artifact descriptor was bound.
    TargetNotResolved,
    /// No build handler is known for the target's artifact kind.
    UnsupportedTargetType,
    /// Creating the target's output directory failed.
    BuildIOError(String),
    /// The artifact-kind build handler failed.
    BuildFailed(String),
    /// The built artifact has no run entrypoint.
    NotRunnable,
    /// The run entrypoint failed; its message is carried verbatim.
    RunError(String),
    /// Neither an explicit target list nor a default target is available.
    NoDefaultTarget,
}

/// How a built artifact may be run.
#[derive(Debug)]
pub enum RunMode {
    /// The artifact has no run entrypoint.
    Disabled,
    /// The artifact is launched through the executable at this path.
    Path(String),
}

/// Mathematical image of a [`RunMode`].
pub enum RunModeView {
    Disabled,
    Path(Seq<char>),
}

impl View for RunMode {
    type V = RunModeView;

    open spec fn view(&self) -> RunModeView {
        match self {
            RunMode::Disabled => RunModeView::Disabled,
            RunMode::Path(p) => RunModeView::Path(p@),
        }
    }
}

impl Clone for RunMode {
    /// Cloning preserves the run mode's image.
    fn clone(&self) -> (r: Self)
        ensures
            r@ == self@,
    {
        match self {
            RunMode::Disabled => RunMode::Disabled,
            RunMode::Path(p) => RunMode::Path(p.clone()),
        }
    }
}

/// The immutable output of a successful build: the locations of the
/// produced artifacts and an optional run entrypoint.
#[derive(Debug)]
pub struct ResolvedTarget {
    /// Locations of the produced artifacts.
    pub output_paths: Vec<String>,
    /// How, if at all, the artifact is run.
    pub run_mode: RunMode,
}

/// Mathematical image of a [`ResolvedTarget`].
pub struct ResolvedTargetView {
    pub output_paths: Seq<Seq<char>>,
    pub run_mode: RunModeView,
}

impl View for ResolvedTarget {
    type V = ResolvedTargetView;

    open spec fn view(&self) -> ResolvedTargetView {
        ResolvedTargetView { output_paths: strs_view(self.output_paths@), run_mode: self.run_mode@ }
    }
}

impl Clone for ResolvedTarget {
    /// Cloning preserves the target's image.
    fn clone(&self) -> (r: Self)
        ensures
            r@ == self@,
    {
        let r = ResolvedTarget {
            output_paths: crate::pathtext::clone_strings(&self.output_paths),
            run_mode: self.run_mode.clone(),
        };
        proof {
            assert(strs_view(r.output_paths@) =~= strs_view(self.output_paths@));
        }
        r
    }
}

/// A concrete artifact descriptor, tagged by artifact kind. The concrete
/// build logic of each kind lives outside this crate, behind the
/// build-handler capability.
#[derive(Debug)]
pub enum ArtifactDescriptor {
    /// A manifest of files to lay out on the filesystem.
    FileManifest,
    /// A bundle of embedded interpreter resources.
    EmbeddedResources,
    /// An executable that embeds the given resolved interpreter
    /// configuration.
    Executable(ResolvedOxidizedPythonInterpreterConfig),
}

/// A named, script-declared unit of work.
#[derive(Debug)]
pub struct BuildTarget {
    /// The artifact descriptor bound by the script; absent while the
    /// target is registered but unresolved.
    pub resolved_value: Option<ArtifactDescriptor>,
    /// The result of the first successful build; never rebuilt.
    pub built_target: Option<ResolvedTarget>,
}

/// One registry entry: a name with its target. Position in the registry is
/// declaration order.
#[derive(Debug)]
pub struct TargetEntry {
    pub name: String,
    pub target: BuildTarget,
}

/// The state of one evaluation: the target registry, the explicitly
/// marked default target, the explicitly requested target list and the
/// build parameters.
#[derive(Debug)]
pub struct EnvironmentContext {
    /// The registry, in registration order.
    pub targets: Vec<TargetEntry>,
    /// The target the script explicitly marked as default, if any.
    pub default_name: Option<String>,
    /// Identifier of the platform the build runs on.
    pub build_host_triple: String,
    /// Identifier of the platform the build targets.
    pub build_target_triple: String,
    /// Whether artifacts are built in release mode.
    pub build_release: bool,
    /// Optimization level handed to build handlers.
    pub build_opt_level: String,
    /// Root directory under which per-target output directories live.
    pub build_path: String,
    /// The target list explicitly requested by the caller, if any.
    pub resolve_targets: Option<Vec<String>>,
}

impl EnvironmentContext {
    /// Registered target names, in registration order.
    pub open spec fn spec_names(self) -> Seq<Seq<char>> {
        self.targets@.map_values(|e: TargetEntry| e.name@)
    }

    /// Target names are unique within one context.
    pub open spec fn wf(self) -> bool {
        forall|i: int, j: int|
            0 <= i < j < self.targets@.len() ==> self.targets@[i].name@ != self.targets@[j].name@
    }

    /// A target of this name is registered.
    pub open spec fn has_target(self, name: Seq<char>) -> bool {
        exists|i: int| 0 <= i < self.targets@.len() && self.targets@[i].name@ == name
    }

    /// The registry position of the target of this name.
    pub open spec fn target_index(self, name: Seq<char>) -> int {
        choose|i: int| 0 <= i < self.targets@.len() && self.targets@[i].name@ == name
    }

    /// The target registered under this name.
    pub open spec fn spec_target(self, name: Seq<char>) -> BuildTarget {
        self.targets@[self.target_index(name)].target
    }

    /// The default target: the explicitly marked name, or — the documented
    /// fallback — the first-registered target, or nothing in an empty
    /// registry.
    pub open spec fn spec_default_target(self) -> Option<Seq<char>> {
        if self.default_name is Some {
            Some(self.default_name->Some_0@)
        } else if self.targets@.len() > 0 {
            Some(self.targets@[0].name@)
        } else {
            None
        }
    }

    /// `other` carries the same build parameters and requested target list
    /// as `self`.
    pub open spec fn same_params(self, other: Self) -> bool {
        other.build_host_triple == self.build_host_triple && other.build_target_triple
            == self.build_target_triple && other.build_release == self.build_release
            && other.build_opt_level == self.build_opt_level && other.build_path == self.build_path
            && other.resolve_targets == self.resolve_targets
    }

    /// The registry entry at `index`, with `built` cached on its target.
    pub open spec fn entry_with_built(self, index: int, built: ResolvedTarget) -> TargetEntry {
        TargetEntry {
            name: self.targets@[index].name,
            target: BuildTarget {
                resolved_value: self.targets@[index].target.resolved_value,
                built_target: Some(built),
            },
        }
    }

    /// The registry entry at `index`, with `descriptor` bound to its
    /// target.
    pub open spec fn entry_with_descriptor(self, index: int, descriptor: ArtifactDescriptor) -> TargetEntry {
        TargetEntry {
            name: self.targets@[index].name,
            target: BuildTarget {
                resolved_value: Some(descriptor),
                built_target: self.targets@[index].target.built_target,
            },
        }
    }

    /// In a well-formed registry, an entry carrying `name` at position `i`
    /// is the entry of that name.
    pub proof fn lemma_index_of_name(self, i: int, name: Seq<char>)
        requires
            self.wf(),
            0 <= i < self.targets@.len(),
            self.targets@[i].name@ == name,
        ensures
            self.has_target(name),
            self.target_index(name) == i,
    {
        assert(self.has_target(name));
        let j = self.target_index(name);
        if j != i {
            assert(self.targets@[i].name@ != self.targets@[j].name@);
        }
    }

    /// Creates an empty context with the given build parameters.
    pub fn new(
        build_host_triple: String,
        build_target_triple: String,
        build_release: bool,
        build_opt_level: String,
        build_path: String,
        resolve_targets: Option<Vec<String>>,
    ) -> (r: Self)
        ensures
            r.wf(),
            r.targets@.len() == 0,
            r.default_name is None,
            r.build_host_triple == build_host_triple,
            r.build_target_triple == build_target_triple,
            r.build_release == build_release,
            r.build_opt_level == build_opt_level,
            r.build_path == build_path,
            r.resolve_targets == resolve_targets,
    {
        EnvironmentContext {
            targets: Vec::new(),
            default_name: None,
            build_host_triple,
            build_target_triple,
            build_release,
            build_opt_level,
            build_path,
            resolve_targets,
        }
    }

    /// The registry position of the target named `name`, if registered.
    pub(crate) fn find_target(&self, name: &String) -> (r: Option<usize>)
        requires
            self.wf(),
        ensures
            r matches Some(i) ==> i < self.targets@.len() && self.targets@[i as int].name@ == name@
                && self.has_target(name@) && self.target_index(name@) == i,
            r is None ==> !self.has_target(name@),
    {
        let mut i: usize = 0;
        while i < self.targets.len()
            invariant
                self.wf(),
                i <= self.targets@.len(),
                forall|j: int| 0 <= j < i ==> self.targets@[j].name@ != name@,
            decreases self.targets@.len() - i,
        {
            if self.targets[i].name == *name {
                proof {
                    self.lemma_index_of_name(i as int, name@);
                }
                return Some(i);
            }
            i = i + 1;
        }
        proof {
            if self.has_target(name@) {
                let j = self.target_index(name@);
                assert(self.targets@[j].name@ != name@);
            }
        }
        None
    }

    /// Registers a new target under `name`, bound to `descriptor` when the
    /// script already resolved it, and optionally marks it the explicit
    /// default. Fails with [`BuildError::DuplicateTarget`], leaving the
    /// context unchanged, when the name is taken.
    pub fn register_target(
        &mut self,
        name: String,
        descriptor: Option<ArtifactDescriptor>,
        make_default: bool,
    ) -> (r: Result<(), BuildError>)
        requires
            old(self).wf(),
        ensures
            final(self).wf(),
            old(self).same_params(*final(self)),
            old(self).has_target(name@) ==> r == Err::<(), BuildError>(BuildError::DuplicateTarget)
                && *final(self) == *old(self),
            !old(self).has_target(name@) ==> r is Ok
                && final(self).targets@.len() == old(self).targets@.len() + 1
                && final(self).targets@.subrange(0, old(self).targets@.len() as int)
                    == old(self).targets@
                && final(self).targets@.last().name@ == name@
                && final(self).targets@.last().target.resolved_value == descriptor
                && final(self).targets@.last().target.built_target is None,
            !old(self).has_target(name@) && make_default
                ==> (final(self).default_name matches Some(d) && d@ == name@),
            !old(self).has_target(name@) && !make_default
                ==> final(self).default_name == old(self).default_name,
    {
        if self.find_target(&name).is_some() {
            return Err(BuildError::DuplicateTarget);
        }
        if make_default {
            self.default_name = Some(name.clone());
        }
        let ghost before = self.targets@;
        self.targets.push(
            TargetEntry { name, target: BuildTarget { resolved_value: descriptor, built_target: None } },
        );
        proof {
            assert(final(self).targets@.subrange(0, before.len() as int) =~= before);
            assert forall|i: int, j: int|
                0 <= i < j < self.targets@.len() implies self.targets@[i].name@
                != self.targets@[j].name@ by {
                if j == self.targets@.len() - 1 {
                    assert(self.targets@[i].name@ != name@);
                }
            }
        }
        Ok(())
    }

    /// Binds a concrete artifact descriptor to an already registered name,
    /// moving the target from unresolved to resolved. Fails with
    /// [`BuildError::TargetNotRegistered`], leaving the context unchanged,
    /// when the name is unknown.
    pub fn bind_target(&mut self, name: &String, descriptor: ArtifactDescriptor) -> (r: Result<
        (),
        BuildError,
    >)
        requires
            old(self).wf(),
        ensures
            final(self).wf(),
            old(self).same_params(*final(self)),
            final(self).default_name == old(self).default_name,
            !old(self).has_target(name@)
                ==> r == Err::<(), BuildError>(BuildError::TargetNotRegistered)
                && *final(self) == *old(self),
            old(self).has_target(name@) ==> r is Ok
                && final(self).targets@ == old(self).targets@.update(
                old(self).target_index(name@),
                old(self).entry_with_descriptor(old(self).target_index(name@), descriptor),
            ),
    {
        match self.find_target(name) {
            None => Err(BuildError::TargetNotRegistered),
            Some(i) => {
                self.targets[i].target.resolved_value = Some(descriptor);
                Ok(())
            },
        }
    }

    /// Caches the result of a successful build on the entry at `index`;
    /// the target counts as built from here on.
    pub fn cache_built_target(&mut self, index: usize, built: ResolvedTarget)
        requires
            old(self).wf(),
            index < old(self).targets@.len(),
        ensures
            final(self).wf(),
            old(self).same_params(*final(self)),
            final(self).default_name == old(self).default_name,
            final(self).targets@ == old(self).targets@.update(
                index as int,
                old(self).entry_with_built(index as int, built),
            ),
    {
        self.targets[index].target.built_target = Some(built);
        proof {
            assert forall|i: int, j: int|
                0 <= i < j < self.targets@.len() implies self.targets@[i].name@
                != self.targets@[j].name@ by {
                assert(old(self).targets@[i].name@ != old(self).targets@[j].name@);
            }
        }
    }

    /// The target registered under `name`, or `None` when the name is
    /// unknown.
    pub fn get_target(&self, name: &String) -> (r: Option<&BuildTarget>)
        requires
            self.wf(),
        ensures
            r matches Some(t) ==> self.has_target(name@) && *t == self.spec_target(name@),
            r is None ==> !self.has_target(name@),
    {
        match self.find_target(name) {
            Some(i) => Some(&self.targets[i].target),
            None => None,
        }
    }

    /// The name of the default target: the explicitly marked one, else —
    /// the documented fallback — the first-registered one, else `None` in
    /// an empty registry.
    pub fn default_target(&self) -> (r: Option<String>)
        ensures
            r is Some <==> self.spec_default_target() is Some,
            r matches Some(s) ==> self.spec_default_target() == Some(s@),
    {
        if let Some(d) = &self.default_name {
            Some(d.clone())
        } else if self.targets.len() > 0 {
            Some(self.targets[0].name.clone())
        } else {
            None
        }
    }

    /// All registered names, in registration order.
    pub fn target_names(&self) -> (r: Vec<String>)
        ensures
            strs_view(r@) == self.spec_names(),
    {
        let mut r: Vec<String> = Vec::new();
        let mut i: usize = 0;
        while i < self.targets.len()
            invariant
                i <= self.targets@.len(),
                r@.len() == i,
                forall|j: int| 0 <= j < i ==> r@[j]@ == self.targets@[j].name@,
            decreases self.targets@.len() - i,
        {
            r.push(self.targets[i].name.clone());
            i = i + 1;
        }
        proof {
            assert(strs_view(r@) =~= self.spec_names());
        }
        r
    }

    /// The names whose targets the caller wants materialized: the
    /// explicitly requested list, else the singleton default target, else
    /// [`BuildError::NoDefaultTarget`].
    pub fn targets_to_resolve(&self) -> (r: Result<Vec<String>, BuildError>)
        ensures
            self.resolve_targets matches Some(req) ==> r matches Ok(v) && strs_view(v@)
                == strs_view(req@),
            self.resolve_targets is None && self.spec_default_target() is Some
                ==> (r matches Ok(v) && strs_view(v@) == seq![
                self.spec_default_target()->Some_0,
            ]),
            self.resolve_targets is None && self.spec_default_target() is None ==> r == Err::<
                Vec<String>,
                BuildError,
            >(BuildError::NoDefaultTarget),
    {
        if let Some(req) = &self.resolve_targets {
            let v = crate::pathtext::clone_strings(req);
            proof {
                assert(strs_view(v@) =~= strs_view(req@));
            }
            Ok(v)
        } else if let Some(d) = self.default_target() {
            let mut v: Vec<String> = Vec::new();
            v.push(d);
            proof {
                assert(strs_view(v@) =~= seq![self.spec_default_target()->Some_0]);
            }
            Ok(v)
        } else {
            Err(BuildError::NoDefaultTarget)
        }
    }
}

} // verus!
