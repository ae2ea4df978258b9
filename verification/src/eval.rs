//! The evaluation context: the single owner of one evaluation's
//! [`EnvironmentContext`], driving memoized target builds and runs.
//!
//! The concrete work of each artifact kind — creating output directories,
//! materializing artifacts, launching run entrypoints — is the business of
//! external collaborators reached through the [`BuildHandlers`]
//! capability. This module verifies everything around those calls: name
//! lookup, at-most-once build caching, error selection and the exact shape
//! of the state after every outcome.

use vstd::prelude::*;

use crate::targets::ArtifactDescriptor;
use crate::targets::BuildError;
use crate::targets::EnvironmentContext;
use crate::targets::ResolvedTarget;
use crate::targets::RunModeView;

verus! {

/// Parameters handed to an artifact-kind build handler for one build.
#[derive(Debug)]
pub struct BuildContext {
    /// Identifier of the platform the build runs on.
    pub host_triple: String,
    /// Identifier of the platform the build targets.
    pub target_triple: String,
    /// Whether the artifact is built in release mode.
    pub release: bool,
    /// Optimization level for the artifact's build.
    pub opt_level: String,
    /// The directory the artifact is materialized into.
    pub output_path: String,
}

/// The capability through which external artifact-kind collaborators are
/// reached. Nothing is assumed of these methods: every contract of this
/// module holds whatever they return.
pub trait BuildHandlers {
    /// Creates the given output directory, recursively and idempotently.
    fn create_output_dir(&mut self, path: &String) -> Result<(), String>;

    /// Materializes the described artifact, or `None` when no build
    /// handler is known for the artifact's kind.
    fn build_artifact(
        &mut self,
        descriptor: &ArtifactDescriptor,
        context: &BuildContext,
    ) -> Option<Result<ResolvedTarget, String>>;

    /// Launches the run entrypoint at the given path.
    fn run_entrypoint(&mut self, path: &String) -> Result<(), String>;
}

/// A running evaluation: the exclusive owner of the environment context.
#[derive(Debug)]
pub struct EvaluationContext {
    /// The evaluation's environment context.
    pub env: EnvironmentContext,
}

impl EvaluationContext {
    /// The output directory of the target named `name`:
    /// `build_path/target-triple/{release|debug}/name`.
    pub open spec fn spec_output_path(self, name: Seq<char>) -> Seq<char> {
        self.env.build_path@ + "/"@ + self.env.build_target_triple@ + "/"@ + (if self
            .env
            .build_release {
            "release"@
        } else {
            "debug"@
        }) + "/"@ + name
    }

    /// The name a run request settles on: the explicit one, else the
    /// default target.
    pub open spec fn spec_chosen_target(self, target: Option<&String>) -> Option<Seq<char>> {
        if target is Some {
            Some(target->Some_0@)
        } else {
            self.env.spec_default_target()
        }
    }

    /// Creates an evaluation context over an empty registry with the
    /// given build parameters.
    pub fn new(
        build_host_triple: String,
        build_target_triple: String,
        build_release: bool,
        build_opt_level: String,
        build_path: String,
        resolve_targets: Option<Vec<String>>,
    ) -> (r: Self)
        ensures
            r.env.wf(),
            r.env.targets@.len() == 0,
            r.env.default_name is None,
            r.env.build_host_triple == build_host_triple,
            r.env.build_target_triple == build_target_triple,
            r.env.build_release == build_release,
            r.env.build_opt_level == build_opt_level,
            r.env.build_path == build_path,
            r.env.resolve_targets == resolve_targets,
    {
        EvaluationContext {
            env: EnvironmentContext::new(
                build_host_triple,
                build_target_triple,
                build_release,
                build_opt_level,
                build_path,
                resolve_targets,
            ),
        }
    }

    /// The name of the default target; see
    /// [`EnvironmentContext::default_target`].
    pub fn default_target(&self) -> (r: Option<String>)
        ensures
            r is Some <==> self.env.spec_default_target() is Some,
            r matches Some(s) ==> self.env.spec_default_target() == Some(s@),
    {
        self.env.default_target()
    }

    /// All registered names, in registration order.
    pub fn target_names(&self) -> (r: Vec<String>)
        ensures
            crate::config::strs_view(r@) == self.env.spec_names(),
    {
        self.env.target_names()
    }

    /// The names whose targets should be materialized; see
    /// [`EnvironmentContext::targets_to_resolve`].
    pub fn targets_to_resolve(&self) -> (r: Result<Vec<String>, BuildError>)
        ensures
            self.env.resolve_targets matches Some(req) ==> (r matches Ok(v)
                && crate::config::strs_view(v@) == crate::config::strs_view(req@)),
            self.env.resolve_targets is None && self.env.spec_default_target() is Some
                ==> (r matches Ok(v) && crate::config::strs_view(v@) == seq![
                self.env.spec_default_target()->Some_0,
            ]),
            self.env.resolve_targets is None && self.env.spec_default_target() is None ==> r
                == Err::<Vec<String>, BuildError>(BuildError::NoDefaultTarget),
    {
        self.env.targets_to_resolve()
    }

    /// Computes the output directory path of the target named `name`.
    fn output_path_for(&self, name: &String) -> (r: String)
        ensures
            r@ == self.spec_output_path(name@),
    {
        let mut p = self.env.build_path.clone();
        p.append("/");
        p.append(self.env.build_target_triple.as_str());
        p.append("/");
        if self.env.build_release {
            p.append("release");
        } else {
            p.append("debug");
        }
        p.append("/");
        p.append(name.as_str());
        proof {
            assert(p@ =~= self.spec_output_path(name@));
        }
        p
    }

    /// Builds the target named `target`, memoized.
    ///
    /// An unknown name fails with `TargetNotRegistered`; a name without a
    /// bound descriptor with `TargetNotResolved`. An already built target
    /// returns the cached result unchanged, without reaching any handler:
    /// on those three paths `handlers` comes back untouched.
    /// Otherwise the output directory is created — failure is
    /// `BuildIOError` and leaves the target resolved, so a retry is
    /// possible — and the artifact-kind handler is dispatched: no handler
    /// is `UnsupportedTargetType`, a handler failure is `BuildFailed`,
    /// both leaving the registry unchanged; on success the result is
    /// cached on the target and returned.
    pub fn build_resolved_target<H: BuildHandlers>(
        &mut self,
        handlers: &mut H,
        target: &String,
    ) -> (r: Result<ResolvedTarget, BuildError>)
        requires
            old(self).env.wf(),
        ensures
            final(self).env.wf(),
            old(self).env.same_params(final(self).env),
            final(self).env.default_name == old(self).env.default_name,
            !old(self).env.has_target(target@) ==> r == Err::<ResolvedTarget, BuildError>(
                BuildError::TargetNotRegistered,
            ) && *final(self) == *old(self) && *final(handlers) == *old(handlers),
            old(self).env.has_target(target@) && old(self).env.spec_target(
                target@,
            ).built_target is Some ==> (r matches Ok(rt) && rt@ == old(self).env.spec_target(
                target@,
            ).built_target->Some_0@ && *final(self) == *old(self) && *final(handlers) == *old(
                handlers,
            )),
            old(self).env.has_target(target@) && old(self).env.spec_target(
                target@,
            ).built_target is None && old(self).env.spec_target(target@).resolved_value is None
                ==> r == Err::<ResolvedTarget, BuildError>(BuildError::TargetNotResolved) && *final(self) == *old(self) && *final(handlers) == *old(handlers),
            old(self).env.has_target(target@) && old(self).env.spec_target(
                target@,
            ).built_target is None && old(self).env.spec_target(target@).resolved_value is Some
                ==> ((r matches Err(e) && (e is BuildIOError || e is UnsupportedTargetType
                || e is BuildFailed) && *final(self) == *old(self)) || (r matches Ok(rt)
                && final(self).built_at(*old(self), old(self).env.target_index(target@), rt@))),
    {
        let i: usize = match self.env.find_target(target) {
            Some(i) => i,
            None => {
                return Err(BuildError::TargetNotRegistered);
            },
        };

        if let Some(cached) = &self.env.targets[i].target.built_target {
            return Ok(cached.clone());
        }
        if self.env.targets[i].target.resolved_value.is_none() {
            return Err(BuildError::TargetNotResolved);
        }

        let output_path = self.output_path_for(target);
        if let Err(message) = handlers.create_output_dir(&output_path) {
            return Err(BuildError::BuildIOError(message));
        }

        let build_context = BuildContext {
            host_triple: self.env.build_host_triple.clone(),
            target_triple: self.env.build_target_triple.clone(),
            release: self.env.build_release,
            opt_level: self.env.build_opt_level.clone(),
            output_path,
        };

        let outcome = if let Some(descriptor) = &self.env.targets[i].target.resolved_value {
            handlers.build_artifact(descriptor, &build_context)
        } else {
            return Err(BuildError::TargetNotResolved);
        };

        match outcome {
            None => Err(BuildError::UnsupportedTargetType),
            Some(Err(message)) => Err(BuildError::BuildFailed(message)),
            Some(Ok(built)) => {
                let result = built.clone();
                self.env.cache_built_target(i, built);
                Ok(result)
            },
        }
    }

    /// After a successful build of the entry at `index`, the final state
    /// equals `before` except that the entry's target now caches a built
    /// result whose image is `built`.
    pub open spec fn built_at(self, before: Self, index: int, built: crate::targets::ResolvedTargetView) -> bool {
        self.env.targets@.len() == before.env.targets@.len() && (forall|j: int|
            0 <= j < self.env.targets@.len() && j != index ==> self.env.targets@[j]
                == before.env.targets@[j]) && self.env.targets@[index].name
            == before.env.targets@[index].name && self.env.targets@[index].target.resolved_value
            == before.env.targets@[index].target.resolved_value
            && (self.env.targets@[index].target.built_target matches Some(b) && b@ == built)
    }

    /// Builds the target named `target` and runs it.
    ///
    /// Every build failure propagates unchanged, without reaching any run
    /// entrypoint. A built artifact without a run entrypoint fails with
    /// `NotRunnable`; an entrypoint failure is carried verbatim in
    /// `RunError`.
    pub fn run_resolved_target<H: BuildHandlers>(
        &mut self,
        handlers: &mut H,
        target: &String,
    ) -> (r: Result<(), BuildError>)
        requires
            old(self).env.wf(),
        ensures
            final(self).env.wf(),
            old(self).env.same_params(final(self).env),
            final(self).env.default_name == old(self).env.default_name,
            !old(self).env.has_target(target@) ==> r == Err::<(), BuildError>(
                BuildError::TargetNotRegistered,
            ) && *final(self) == *old(self) && *final(handlers) == *old(handlers),
            old(self).env.has_target(target@) && old(self).env.spec_target(
                target@,
            ).built_target is None && old(self).env.spec_target(target@).resolved_value is None
                ==> r == Err::<(), BuildError>(BuildError::TargetNotResolved) && *final(self)
                == *old(self) && *final(handlers) == *old(handlers),
            old(self).env.has_target(target@) && old(self).env.spec_target(
                target@,
            ).built_target is Some ==> *final(self) == *old(self) && (match old(
                self,
            ).env.spec_target(target@).built_target->Some_0@.run_mode {
                RunModeView::Disabled => r == Err::<(), BuildError>(BuildError::NotRunnable)
                    && *final(handlers) == *old(handlers),
                RunModeView::Path(_) => r is Ok || (r matches Err(e) && e is RunError),
            }),
            old(self).env.has_target(target@) && old(self).env.spec_target(
                target@,
            ).built_target is None && old(self).env.spec_target(target@).resolved_value is Some
                ==> ((r matches Err(e) && (e is BuildIOError || e is UnsupportedTargetType
                || e is BuildFailed) && *final(self) == *old(self))
                || (final(self).env.spec_target(target@).built_target is Some
                && (r is Ok || r == Err::<(), BuildError>(BuildError::NotRunnable)
                || (r matches Err(e) && e is RunError)))),
            r is Ok || (r matches Err(e) && (e is NotRunnable || e is RunError)) ==> final(self).env.has_target(target@) && final(self).env.spec_target(target@).built_target is Some,
    {
        let built = match self.build_resolved_target(handlers, target) {
            Ok(built) => built,
            Err(e) => {
                return Err(e);
            },
        };
        proof {
            if old(self).env.spec_target(target@).built_target is None {
                let i = old(self).env.target_index(target@);
                self.env.lemma_index_of_name(i, target@);
            }
        }
        match built.run_mode {
            crate::targets::RunMode::Disabled => Err(BuildError::NotRunnable),
            crate::targets::RunMode::Path(path) => match handlers.run_entrypoint(&path) {
                Ok(_) => Ok(()),
                Err(message) => Err(BuildError::RunError(message)),
            },
        }
    }

    /// Runs the explicitly named target, or the default target when none
    /// is named; fails with `NoDefaultTarget` when neither is available.
    /// Otherwise behaves as [`EvaluationContext::run_resolved_target`] on
    /// the chosen name.
    pub fn run_target<H: BuildHandlers>(&mut self, handlers: &mut H, target: Option<&String>) -> (r:
        Result<(), BuildError>)
        requires
            old(self).env.wf(),
        ensures
            final(self).env.wf(),
            old(self).env.same_params(final(self).env),
            final(self).env.default_name == old(self).env.default_name,
            old(self).spec_chosen_target(target) is None ==> r == Err::<(), BuildError>(
                BuildError::NoDefaultTarget,
            ) && *final(self) == *old(self) && *final(handlers) == *old(handlers),
            old(self).spec_chosen_target(target) matches Some(chosen) && !old(self).env.has_target(
                chosen,
            ) ==> r == Err::<(), BuildError>(BuildError::TargetNotRegistered) && *final(self)
                == *old(self) && *final(handlers) == *old(handlers),
            (old(self).spec_chosen_target(target) matches Some(chosen) && old(
                self,
            ).env.has_target(chosen) && old(self).env.spec_target(chosen).built_target is Some)
                ==> *final(self) == *old(self) && (match old(self).env.spec_target(
                old(self).spec_chosen_target(target)->Some_0,
            ).built_target->Some_0@.run_mode {
                RunModeView::Disabled => r == Err::<(), BuildError>(BuildError::NotRunnable)
                    && *final(handlers) == *old(handlers),
                RunModeView::Path(_) => r is Ok || (r matches Err(e) && e is RunError),
            }),
            (old(self).spec_chosen_target(target) matches Some(chosen) && old(
                self,
            ).env.has_target(chosen) && old(self).env.spec_target(chosen).built_target is None
                && old(self).env.spec_target(chosen).resolved_value is None) ==> r == Err::<
                (),
                BuildError,
            >(BuildError::TargetNotResolved) && *final(self) == *old(self) && *final(handlers)
                == *old(handlers),
            (old(self).spec_chosen_target(target) matches Some(chosen) && old(
                self,
            ).env.has_target(chosen) && old(self).env.spec_target(chosen).built_target is None
                && old(self).env.spec_target(chosen).resolved_value is Some) ==> ((r matches Err(e)
                && (e is BuildIOError || e is UnsupportedTargetType || e is BuildFailed)
                && *final(self) == *old(self)) || (final(self).env.spec_target(
                old(self).spec_chosen_target(target)->Some_0,
            ).built_target is Some && (r is Ok || r == Err::<(), BuildError>(
                BuildError::NotRunnable,
            ) || (r matches Err(e) && e is RunError)))),
            (old(self).spec_chosen_target(target) matches Some(chosen) && (r is Ok || (r matches
            Err(e) && (e is NotRunnable || e is RunError)))) ==> final(self).env.has_target(
                old(self).spec_chosen_target(target)->Some_0,
            ) && final(self).env.spec_target(
                old(self).spec_chosen_target(target)->Some_0,
            ).built_target is Some,
    {
        let chosen: String = if let Some(t) = target {
            t.clone()
        } else if let Some(d) = self.env.default_target() {
            d
        } else {
            return Err(BuildError::NoDefaultTarget);
        };
        self.run_resolved_target(handlers, &chosen)
    }

    /// Registers a new target; see
    /// [`EnvironmentContext::register_target`].
    pub fn register_target(
        &mut self,
        name: String,
        descriptor: Option<ArtifactDescriptor>,
        make_default: bool,
    ) -> (r: Result<(), BuildError>)
        requires
            old(self).env.wf(),
        ensures
            final(self).env.wf(),
            old(self).env.same_params(final(self).env),
            old(self).env.has_target(name@) ==> r == Err::<(), BuildError>(
                BuildError::DuplicateTarget,
            ) && *final(self) == *old(self),
            !old(self).env.has_target(name@) ==> r is Ok && final(self).env.targets@.len() == old(
                self,
            ).env.targets@.len() + 1 && final(self).env.targets@.subrange(
                0,
                old(self).env.targets@.len() as int,
            ) == old(self).env.targets@ && final(self).env.targets@.last().name@ == name@ && final(self).env.targets@.last().target.resolved_value == descriptor && final(self).env.targets@.last().target.built_target is None,
            !old(self).env.has_target(name@) && make_default ==> (final(self).env.default_name matches Some(d) && d@ == name@),
            !old(self).env.has_target(name@) && !make_default ==> final(self).env.default_name
                == old(self).env.default_name,
    {
        self.env.register_target(name, descriptor, make_default)
    }
}

} // verus!
