//! `miseo upgrade`.

use vstd::prelude::*;

use crate::cli::output::{lines_model, Line, Ui};
use crate::cli::output::ui::{already_current_lines, runtime_suffix_of, upgraded_lines, versioned_text};
use crate::error::Error;
use crate::spec::pins::{distinct_runtimes, repeats_runtime, specs_map, RuntimePins};
use crate::spec::runtime::{runtime_name, RuntimeSpec};
use crate::spec::tool::ToolId;
use crate::tasks::upgrade::Outcome;
use crate::error::ErrorModel;
use crate::text::views;

verus! {

/// Clones each spec of `specs`.
fn clone_specs(specs: &Vec<RuntimeSpec>) -> (r: Vec<RuntimeSpec>)
    ensures
        r@ == specs@,
{
    let mut r: Vec<RuntimeSpec> = Vec::new();
    let mut i: usize = 0;
    while i < specs.len()
        invariant
            i <= specs.len(),
            r@ == specs@.take(i as int),
        decreases specs.len() - i,
    {
        r.push(specs[i].clone());
        i = i + 1;
        assert(r@ =~= specs@.take(i as int));
    }
    assert(specs@.take(specs.len() as int) =~= specs@);
    r
}

#[derive(Debug, Clone)]
pub struct Upgrade {
    /// Installed tool id: <backend>:<name> (version suffix is not accepted).
    pub tool_spec: ToolId,
    /// Runtime selector(s): <runtime@selector> (repeatable).
    pub uses: Vec<RuntimeSpec>,
}

impl Upgrade {
    /// The `--use` selectors keyed by runtime; a runtime given twice is refused.
    pub fn runtime_pins(&self) -> (r: Result<RuntimePins, Error>)
        ensures
            match r {
                Ok(pins) => distinct_runtimes(
                    self.uses@.map_values(|s: RuntimeSpec| s@),
                    self.uses@.len() as int,
                ) && pins@ == specs_map(self.uses@.map_values(|s: RuntimeSpec| s@)),
                Err(e) => exists|i: int|
                    0 <= i < self.uses@.len() && repeats_runtime(
                        self.uses@.map_values(|s: RuntimeSpec| s@),
                        i,
                    ) && distinct_runtimes(self.uses@.map_values(|s: RuntimeSpec| s@), i) && e@
                        == (ErrorModel::DuplicateRuntimeUse {
                        runtime: runtime_name(self.uses@[i]@.runtime),
                    }),
            },
    {
        RuntimePins::try_from(clone_specs(&self.uses))
    }

    /// The lines that report the outcome of an upgrade.
    pub fn render(ui: &Ui, outcome: &Outcome) -> (r: Vec<Line>)
        ensures
            match outcome {
                Ok(success) => lines_model(r@) == upgraded_lines(
                    ui.color_enabled(),
                    ui.concise_mode(),
                    versioned_text(success.tool_id, success.package_version),
                    runtime_suffix_of(views(success.runtimes@)),
                    views(success.commands@),
                    success.elapsed_ms as nat,
                    views(success.removed_variants@),
                ),
                Err(current) => lines_model(r@) == already_current_lines(
                    ui.color_enabled(),
                    ui.concise_mode(),
                    versioned_text(current.tool_id, current.package_version),
                    runtime_suffix_of(views(current.runtimes@)),
                ),
            },
    {
        match outcome {
            Ok(success) => ui.upgrade_success(success),
            Err(already_current) => ui.upgrade_already_current(already_current),
        }
    }
}

} // verus!
