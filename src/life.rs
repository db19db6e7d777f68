use vstd::prelude::*;
use crate::binding::{binding_for, BindingSet, BindingTable};
use crate::cells::{cell_count, CellGrid};
use crate::dispatch::{dispatch_groups, groups_for, DispatchGroups};
use crate::error::SetupError;
use crate::life_params::LifeParams;
use crate::texture::Texture;

verus! {

/// What one step records: the binding set to select, by its index in the
/// table, and the workgroups to dispatch.
#[derive(Debug, Clone, Copy, PartialEq, Eq, Structural)]
pub struct StepPlan {
    pub bind_group: usize,
    pub binding: BindingSet,
    pub groups: DispatchGroups,
}

/// The simulation engine: the binding table built once, the dispatch size of
/// the grid, and the generation counter whose parity picks the binding set.
pub struct Life {
    table: BindingTable,
    groups: DispatchGroups,
    cell_buffer_size: u64,
    generation: u64,
}

impl Life {
    pub closed spec fn spec_generation(&self) -> int {
        self.generation as int
    }

    pub closed spec fn spec_groups(&self) -> DispatchGroups {
        self.groups
    }

    pub closed spec fn spec_cell_buffer_size(&self) -> int {
        self.cell_buffer_size as int
    }

    /// Index of the buffer read by the next step.
    pub open spec fn current(&self) -> int {
        self.spec_generation() % 2
    }

    pub closed spec fn wf(&self) -> bool {
        self.table.wf()
    }

    /// `b` is `a` after one step: one more generation, nothing else changed.
    pub open spec fn is_step(a: Life, b: Life) -> bool {
        &&& b.wf()
        &&& b.spec_generation() == a.spec_generation() + 1
        &&& b.spec_groups() == a.spec_groups()
        &&& b.spec_cell_buffer_size() == a.spec_cell_buffer_size()
    }

    /// The engine for a grid, its parameter record and its image, which must
    /// agree on the grid's height and width (else `LayoutMismatch`). It
    /// starts at generation 0.
    pub fn new(texture: &Texture, params: &LifeParams, grid: &CellGrid) -> (r: Result<
        Life,
        SetupError,
    >)
        requires
            grid.wf(),
        ensures
            match r {
                Ok(l) => {
                    &&& params.spec_height() == grid.spec_height() && params.spec_width() == grid.spec_width()
                    &&& texture.height == params.spec_height() && texture.width == params.spec_width()
                    &&& l.wf()
                    &&& l.spec_generation() == 0
                    &&& l.spec_groups().spec_triple() == groups_for(
                        params.spec_width() as int,
                        params.spec_height() as int,
                    )
                    &&& l.spec_cell_buffer_size() == 4 * cell_count(
                        grid.spec_height(),
                        grid.spec_width(),
                        grid.spec_channels(),
                    )
                },
                Err(e) => e == SetupError::LayoutMismatch && !(params.spec_height() == grid.spec_height()
                    && params.spec_width() == grid.spec_width() && texture.height == params.spec_height()
                    && texture.width == params.spec_width()),
            },
    {
        if params.height() != grid.height() || params.width() != grid.width() || texture.height
            != params.height() || texture.width != params.width() {
            return Err(SetupError::LayoutMismatch);
        }
        Ok(
            Life {
                table: BindingTable::build(),
                groups: dispatch_groups(params.width(), params.height()),
                cell_buffer_size: grid.buffer_bytes(),
                generation: 0,
            },
        )
    }

    /// Advances one generation: returns the binding set of the current
    /// parity, whose read and write buffers differ, and the dispatch that
    /// covers the grid; the generation then grows by one, which swaps the
    /// two buffers' roles for the next step.
    pub fn step(&mut self) -> (plan: StepPlan)
        requires
            old(self).wf(),
            old(self).spec_generation() < u64::MAX,
        ensures
            Life::is_step(*old(self), *final(self)),
            plan.bind_group == old(self).current(),
            plan.binding == binding_for(old(self).current()),
            plan.binding.current != plan.binding.next,
            plan.groups == old(self).spec_groups(),
            final(self).current() == plan.binding.next,
    {
        let parity = (self.generation % 2) as usize;
        let binding = self.table.entry(parity);
        let plan = StepPlan { bind_group: parity, binding, groups: self.groups };
        self.generation = self.generation + 1;
        plan
    }

    /// Number of steps taken.
    pub fn generation(&self) -> (r: u64)
        ensures
            r == self.spec_generation(),
    {
        self.generation
    }

    /// Index of the buffer that the next step reads.
    pub fn current_buffer(&self) -> (r: usize)
        ensures
            r == self.current(),
    {
        (self.generation % 2) as usize
    }

    /// The workgroups dispatched by every step.
    pub fn groups(&self) -> (r: DispatchGroups)
        ensures
            r == self.spec_groups(),
    {
        self.groups
    }

    /// Size in bytes of each cell buffer, the minimum size of the two
    /// buffer slots.
    pub fn cell_buffer_size(&self) -> (r: u64)
        ensures
            r == self.spec_cell_buffer_size(),
    {
        self.cell_buffer_size
    }

    /// The binding set for parity `parity`.
    pub fn binding(&self, parity: usize) -> (r: BindingSet)
        requires
            self.wf(),
            parity < 2,
        ensures
            r == binding_for(parity as int),
    {
        self.table.entry(parity)
    }
}

/// Along any run of steps from a fresh engine, the `n`th state has taken `n`
/// steps and reads buffer `n % 2`.
pub proof fn lemma_generation_counts_steps(run: Seq<Life>, n: int)
    requires
        run.len() > 0,
        run[0].spec_generation() == 0,
        forall|i: int| 0 <= i < run.len() - 1 ==> Life::is_step(#[trigger] run[i], run[i + 1]),
        0 <= n < run.len(),
    ensures
        run[n].spec_generation() == n,
        run[n].current() == n % 2,
    decreases n,
{
    if n > 0 {
        lemma_generation_counts_steps(run, n - 1);
        assert(Life::is_step(run[n - 1], run[n]));
    }
}

} // verus!
