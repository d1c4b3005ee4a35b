//! Installing a tool: the order of its steps and the decisions between them.
//!
//! The steps themselves (asking `mise`, touching the filesystem) are carried
//! out by the caller, which reports each result back with `InstallRun::advance`
//! and performs what that answers next.

use vstd::prelude::*;

use crate::error::Error;
use crate::spec::backend::Backend;
use crate::spec::pins::RuntimePins;
use crate::spec::runtime::{RuntimeModel, RuntimeSpecModel};
use crate::spec::tool::{ToolId, ToolSpec, ToolSpecModel};
use crate::text::owned;

verus! {

/// Successful install details for UI rendering.
#[derive(Debug, Clone)]
pub struct Success {
    /// Whether this was a fresh install or forced reinstall.
    pub action: Action,
    /// Stable tool identity (`<backend>:<name>`).
    pub tool_id: ToolId,
    /// Resolved package version.
    pub package_version: String,
    /// Resolved runtime pins rendered as labels (`node@24.13.1`, ...).
    pub runtimes: Vec<String>,
    /// Exported command names now linked in `~/.miseo/.bin`.
    pub commands: Vec<String>,
    /// End-to-end task duration in milliseconds.
    pub elapsed_ms: u128,
}

/// Install action verb used in output lines.
#[derive(Debug, Clone, Copy, PartialEq, Eq, Structural)]
pub enum Action {
    Installed,
    Reinstalled,
}

pub open spec fn action_text(a: Action) -> Seq<char> {
    match a {
        Action::Installed => "installed"@,
        Action::Reinstalled => "reinstalled"@,
    }
}

impl Action {
    pub fn as_str(self) -> (r: &'static str)
        ensures
            r@ == action_text(self),
    {
        match self {
            Self::Installed => "installed",
            Self::Reinstalled => "reinstalled",
        }
    }
}

/// Already-current install details.
#[derive(Debug, Clone)]
pub struct AlreadyCurrent {
    /// Stable tool identity (`<backend>:<name>`).
    pub tool_id: ToolId,
    /// Resolved package version.
    pub package_version: String,
    /// Resolved runtime pins rendered as labels (`node@24.13.1`, ...).
    pub runtimes: Vec<String>,
}

pub type Outcome = Result<Success, AlreadyCurrent>;

/// What the plan for the resolved spec says, as far as the decisions here need it.
#[derive(Debug)]
pub struct PlanFacts {
    pub tool_id: ToolId,
    pub package_version: String,
    /// Runtime pins rendered as labels (`node@24.13.1`, ...).
    pub runtime_labels: Vec<String>,
    /// The planned variant is the one currently installed.
    pub current_matches: bool,
    /// The runtime pins the plan installs with.
    pub runtime_pins: RuntimePins,
    /// The directory of the planned variant.
    pub variant_dir: String,
}

/// A step of an install, in the order the steps run, with what it is run on.
#[derive(Debug)]
pub enum Step {
    /// Resolve the runtime pins for the tool's backend and the `--use` selectors.
    ResolveRuntimePins { backend: Backend, uses: RuntimePins },
    /// Ask `mise`, with the resolved pins, for the exact version of this request.
    ResolveLatestVersion { requested: ToolSpec, runtime_pins: RuntimePins },
    /// Plan the install of the exact spec with the resolved pins.
    PlanInstall { exact_spec: ToolSpec, runtime_pins: RuntimePins },
    /// Install the exact spec with the planned pins into the planned variant directory.
    InstallInto { runtime_pins: RuntimePins, exact_spec: ToolSpec, variant_dir: String },
    /// Write the `mise.toml` of the planned variant for the planned pins.
    InitializeVariant { variant_dir: String, runtime_pins: RuntimePins },
    /// Mark the written `mise.toml` trusted.
    TrustConfig(String),
    /// List the package's bin directories in the planned variant.
    ListBinPaths { tool_id: ToolId, variant_dir: String },
    /// Find the executables in the listed bin directories.
    DiscoverExecutables(Vec<String>),
    /// Record the install with the executables found (command name and path)
    /// and export its commands.
    FinalizeInstall(Vec<(String, String)>),
}

/// What the caller reports after carrying out a step.
#[derive(Debug)]
pub enum Event {
    /// The runtime pins were resolved.
    PinsResolved(RuntimePins),
    /// The exact version was resolved.
    VersionResolved(ToolSpec),
    /// The plan was made.
    Planned(PlanFacts),
    /// The package was installed, or its `mise.toml` was trusted.
    Succeeded,
    /// The variant's `mise.toml` was written at this path.
    VariantInitialized(String),
    /// The package's bin directories.
    BinPathsListed(Vec<String>),
    /// The executables found, by command name and path.
    ExecutablesFound(Vec<(String, String)>),
    /// The install was finalized, exporting `commands`, `elapsed_ms` after the
    /// package install started.
    Exported { commands: Vec<String>, elapsed_ms: u128 },
    /// The step failed.
    Failed(Error),
}

/// What the caller does next.
#[derive(Debug)]
pub enum Next {
    Run(Step),
    /// Remove what the new install left behind, then fail with the error.
    CleanUpAndFail(Error),
    Fail(Error),
    Finish(Outcome),
}

/// Where an install stands.
#[derive(Debug, Clone, Copy, PartialEq, Eq, Structural)]
pub enum Phase {
    ResolvingRuntimePins,
    ResolvingLatestVersion,
    Planning,
    Installing,
    InitializingVariant,
    TrustingConfig,
    ListingBinPaths,
    DiscoveringExecutables,
    Finalizing,
    Done,
}

/// A failure at this phase leaves files of the new install behind, which are
/// cleaned up before failing.
pub open spec fn cleans_up_on_failure(p: Phase) -> bool {
    p == Phase::ListingBinPaths || p == Phase::DiscoveringExecutables || p == Phase::Finalizing
}

/// The phases from installing the package to finalizing it, during which a plan is held.
pub open spec fn past_planning(p: Phase) -> bool {
    match p {
        Phase::Installing
        | Phase::InitializingVariant
        | Phase::TrustingConfig
        | Phase::ListingBinPaths
        | Phase::DiscoveringExecutables
        | Phase::Finalizing => true,
        _ => false,
    }
}

/// A failure cleans up exactly when the package was already installed into its
/// variant and the variant's `mise.toml` trusted: at listing the bin paths,
/// discovering the executables or finalizing; never before the package install
/// finished, nor once the install is over.
pub proof fn law_cleanup_exactly_after_trust(p: Phase)
    ensures
        cleans_up_on_failure(p) <==> (past_planning(p) && p != Phase::Installing && p
            != Phase::InitializingVariant && p != Phase::TrustingConfig),
        cleans_up_on_failure(Phase::ListingBinPaths),
        cleans_up_on_failure(Phase::DiscoveringExecutables),
        cleans_up_on_failure(Phase::Finalizing),
{
}

/// The request sent for the exact version: the tool's own version, or `latest`.
pub open spec fn latest_request(request: ToolSpecModel) -> ToolSpecModel {
    ToolSpecModel {
        tool_id: request.tool_id,
        version: Some(
            match request.version {
                Some(v) => v,
                None => "latest"@,
            },
        ),
    }
}

/// Which report each phase waits for.
pub open spec fn expects(p: Phase, e: Event) -> bool {
    match e {
        Event::Failed(_) => p != Phase::Done,
        Event::PinsResolved(_) => p == Phase::ResolvingRuntimePins,
        Event::VersionResolved(_) => p == Phase::ResolvingLatestVersion,
        Event::Planned(_) => p == Phase::Planning,
        Event::Succeeded => p == Phase::Installing || p == Phase::TrustingConfig,
        Event::VariantInitialized(_) => p == Phase::InitializingVariant,
        Event::BinPathsListed(_) => p == Phase::ListingBinPaths,
        Event::ExecutablesFound(_) => p == Phase::DiscoveringExecutables,
        Event::Exported { .. } => p == Phase::Finalizing,
    }
}

/// Starts installing `tool_spec` with the `--use` selectors `uses`
/// (reinstalling the current variant when `force`): the first step resolves
/// the runtime pins for the tool's backend and `uses`. The caller carries out
/// each step it is asked for and reports back with `InstallRun::advance`.
pub fn execute(tool_spec: ToolSpec, uses: RuntimePins, force: bool) -> (r: (InstallRun, Next))
    ensures
        r.0.phase_of() == Phase::ResolvingRuntimePins,
        r.0.request() == tool_spec@,
        r.0.forced() == force,
        r.0.pins() is None,
        r.0.exact() is None,
        r.0.planned() is None,
        r.1 matches Next::Run(Step::ResolveRuntimePins { backend, uses: u }) && backend@
            == tool_spec@.tool_id.backend && u@ == uses@ && u.values_model()
            == uses.values_model(),
{
    let backend = tool_spec.backend().clone();
    (
        InstallRun {
            tool_spec,
            force,
            phase: Phase::ResolvingRuntimePins,
            pins: None,
            exact: None,
            plan: None,
            action: Action::Installed,
        },
        Next::Run(Step::ResolveRuntimePins { backend, uses }),
    )
}

/// One install in progress.
#[derive(Debug)]
pub struct InstallRun {
    tool_spec: ToolSpec,
    force: bool,
    phase: Phase,
    pins: Option<RuntimePins>,
    exact: Option<ToolSpec>,
    plan: Option<PlanFacts>,
    action: Action,
}

impl InstallRun {
    pub closed spec fn phase_of(&self) -> Phase {
        self.phase
    }

    pub closed spec fn request(&self) -> ToolSpecModel {
        self.tool_spec@
    }

    pub closed spec fn forced(&self) -> bool {
        self.force
    }

    /// The resolved runtime pins, once resolved.
    pub closed spec fn pins(&self) -> Option<Map<RuntimeModel, RuntimeSpecModel>> {
        match self.pins {
            Some(p) => Some(p@),
            None => None,
        }
    }

    /// The exact spec, once resolved.
    pub closed spec fn exact(&self) -> Option<ToolSpecModel> {
        match self.exact {
            Some(s) => Some(s@),
            None => None,
        }
    }

    /// The action and plan of an install past planning.
    pub closed spec fn planned(&self) -> Option<(Action, PlanFacts)> {
        match self.plan {
            Some(facts) => Some((self.action, facts)),
            None => None,
        }
    }

    #[verifier::type_invariant]
    spec fn holds_what_each_phase_needs(self) -> bool {
        &&& (self.phase == Phase::ResolvingLatestVersion || self.phase == Phase::Planning)
            ==> self.pins is Some
        &&& (self.phase == Phase::Planning || past_planning(self.phase)) ==> self.exact is Some
        &&& past_planning(self.phase) ==> self.plan is Some
    }

    pub fn phase(&self) -> (p: Phase)
        ensures
            p == self.phase_of(),
    {
        self.phase
    }

    /// Takes the report of the current step and says what comes next, with
    /// what it is run on.
    ///
    /// A failure ends the install; from listing the bin paths on, the new
    /// install's files are cleaned up first. A plan whose variant is the current
    /// one ends it as already current unless forced. The last step ends it with
    /// the success details.
    pub fn advance(&mut self, event: Event) -> (next: Next)
        requires
            expects(old(self).phase_of(), event),
        ensures
            final(self).request() == old(self).request(),
            final(self).forced() == old(self).forced(),
            !(event is PinsResolved) ==> final(self).pins() == old(self).pins(),
            !(event is VersionResolved) ==> final(self).exact() == old(self).exact(),
            !(event is Planned) && !(event is Exported) ==> final(self).planned()
                == old(self).planned(),
            match event {
                Event::Failed(e) => final(self).phase_of() == Phase::Done && if cleans_up_on_failure(
                    old(self).phase_of(),
                ) {
                    next matches Next::CleanUpAndFail(f) && f == e
                } else {
                    next matches Next::Fail(f) && f == e
                },
                Event::PinsResolved(pins) => {
                    &&& final(self).phase_of() == Phase::ResolvingLatestVersion
                    &&& final(self).pins() == Some(pins@)
                    &&& next matches Next::Run(
                        Step::ResolveLatestVersion { requested, runtime_pins },
                    )
                    &&& requested@ == latest_request(old(self).request())
                    &&& runtime_pins@ == pins@
                },
                Event::VersionResolved(exact) => {
                    &&& final(self).phase_of() == Phase::Planning
                    &&& final(self).exact() == Some(exact@)
                    &&& next matches Next::Run(Step::PlanInstall { exact_spec, runtime_pins })
                    &&& exact_spec@ == exact@
                    &&& old(self).pins() == Some(runtime_pins@)
                },
                Event::Planned(facts) => if facts.current_matches && !old(self).forced() {
                    &&& final(self).phase_of() == Phase::Done
                    &&& final(self).planned() == old(self).planned()
                    &&& next matches Next::Finish(Err(current))
                    &&& current.tool_id == facts.tool_id
                    &&& current.package_version == facts.package_version
                    &&& current.runtimes == facts.runtime_labels
                } else {
                    &&& final(self).phase_of() == Phase::Installing
                    &&& final(self).planned() == Some(
                        (
                            if facts.current_matches {
                                Action::Reinstalled
                            } else {
                                Action::Installed
                            },
                            facts,
                        ),
                    )
                    &&& next matches Next::Run(
                        Step::InstallInto { runtime_pins, exact_spec, variant_dir },
                    )
                    &&& runtime_pins@ == facts.runtime_pins@
                    &&& old(self).exact() == Some(exact_spec@)
                    &&& variant_dir@ == facts.variant_dir@
                },
                Event::Succeeded => {
                    &&& old(self).planned() matches Some((_, facts))
                    &&& if old(self).phase_of() == Phase::Installing {
                        &&& final(self).phase_of() == Phase::InitializingVariant
                        &&& next matches Next::Run(
                            Step::InitializeVariant { variant_dir, runtime_pins },
                        )
                        &&& variant_dir@ == facts.variant_dir@
                        &&& runtime_pins@ == facts.runtime_pins@
                    } else {
                        &&& final(self).phase_of() == Phase::ListingBinPaths
                        &&& next matches Next::Run(Step::ListBinPaths { tool_id, variant_dir })
                        &&& tool_id@ == facts.tool_id@
                        &&& variant_dir@ == facts.variant_dir@
                    }
                },
                Event::VariantInitialized(path) => {
                    &&& final(self).phase_of() == Phase::TrustingConfig
                    &&& next matches Next::Run(Step::TrustConfig(trusted))
                    &&& trusted@ == path@
                },
                Event::BinPathsListed(paths) => {
                    &&& final(self).phase_of() == Phase::DiscoveringExecutables
                    &&& next matches Next::Run(Step::DiscoverExecutables(listed))
                    &&& listed@ == paths@
                },
                Event::ExecutablesFound(found) => {
                    &&& final(self).phase_of() == Phase::Finalizing
                    &&& next matches Next::Run(Step::FinalizeInstall(discovered))
                    &&& discovered@ == found@
                },
                Event::Exported { commands, elapsed_ms } => {
                    &&& final(self).phase_of() == Phase::Done
                    &&& old(self).planned() matches Some((action, facts))
                    &&& next matches Next::Finish(Ok(success))
                    &&& success.action == action
                    &&& success.tool_id == facts.tool_id
                    &&& success.package_version == facts.package_version
                    &&& success.runtimes == facts.runtime_labels
                    &&& success.commands == commands
                    &&& success.elapsed_ms == elapsed_ms
                },
            },
    {
        proof {
            use_type_invariant(&*self);
        }
        match event {
            Event::Failed(e) => {
                let cleanup = match self.phase {
                    Phase::ListingBinPaths | Phase::DiscoveringExecutables | Phase::Finalizing => true,
                    _ => false,
                };
                self.phase = Phase::Done;
                if cleanup {
                    Next::CleanUpAndFail(e)
                } else {
                    Next::Fail(e)
                }
            },
            Event::PinsResolved(pins) => {
                let runtime_pins = pins.duplicate();
                self.pins = Some(pins);
                self.phase = Phase::ResolvingLatestVersion;
                Next::Run(
                    Step::ResolveLatestVersion { requested: self.tool_spec.or_latest(), runtime_pins },
                )
            },
            Event::VersionResolved(exact) => {
                let exact_spec = exact.clone();
                self.exact = Some(exact);
                self.phase = Phase::Planning;
                let runtime_pins = self.pins.as_ref().unwrap().duplicate();
                Next::Run(Step::PlanInstall { exact_spec, runtime_pins })
            },
            Event::Planned(facts) => {
                if facts.current_matches && !self.force {
                    self.phase = Phase::Done;
                    Next::Finish(
                        Err(
                            AlreadyCurrent {
                                tool_id: facts.tool_id,
                                package_version: facts.package_version,
                                runtimes: facts.runtime_labels,
                            },
                        ),
                    )
                } else {
                    let action = if facts.current_matches {
                        Action::Reinstalled
                    } else {
                        Action::Installed
                    };
                    let runtime_pins = facts.runtime_pins.duplicate();
                    let variant_dir = owned(facts.variant_dir.as_str());
                    let exact_spec = self.exact.as_ref().unwrap().clone();
                    self.action = action;
                    self.plan = Some(facts);
                    self.phase = Phase::Installing;
                    Next::Run(Step::InstallInto { runtime_pins, exact_spec, variant_dir })
                }
            },
            Event::Succeeded => {
                let facts = self.plan.as_ref().unwrap();
                let variant_dir = owned(facts.variant_dir.as_str());
                if matches!(self.phase, Phase::Installing) {
                    let runtime_pins = facts.runtime_pins.duplicate();
                    self.phase = Phase::InitializingVariant;
                    Next::Run(Step::InitializeVariant { variant_dir, runtime_pins })
                } else {
                    let tool_id = facts.tool_id.clone();
                    self.phase = Phase::ListingBinPaths;
                    Next::Run(Step::ListBinPaths { tool_id, variant_dir })
                }
            },
            Event::VariantInitialized(path) => {
                self.phase = Phase::TrustingConfig;
                Next::Run(Step::TrustConfig(path))
            },
            Event::BinPathsListed(paths) => {
                self.phase = Phase::DiscoveringExecutables;
                Next::Run(Step::DiscoverExecutables(paths))
            },
            Event::ExecutablesFound(found) => {
                self.phase = Phase::Finalizing;
                Next::Run(Step::FinalizeInstall(found))
            },
            Event::Exported { commands, elapsed_ms } => {
                self.phase = Phase::Done;
                let mut taken: Option<PlanFacts> = None;
                std::mem::swap(&mut taken, &mut self.plan);
                let facts = taken.unwrap();
                Next::Finish(
                    Ok(
                        Success {
                            action: self.action,
                            tool_id: facts.tool_id,
                            package_version: facts.package_version,
                            runtimes: facts.runtime_labels,
                            commands,
                            elapsed_ms,
                        },
                    ),
                )
            },
        }
    }
}

} // verus!
