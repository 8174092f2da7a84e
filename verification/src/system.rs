use vstd::prelude::*;

use vstd::arithmetic::div_mod::{lemma_fundamental_div_mod, lemma_mod_bound};
use vstd::arithmetic::mul::lemma_mul_inequality;

use crate::memory_segments::{MemoryError, MemorySegmentManager};
use crate::relocatable::{MaybeRelocatable, Relocatable};

verus! {

/// Number of contiguous cells that one system record occupies in the
/// builtin's segment.
pub const CELLS_PER_SYSTEM: u32 = 2;

/// Ceiling division: `a / b` rounded up, so any remainder counts as one
/// more whole unit.
pub open spec fn div_ceil_spec(a: int, b: int) -> int
    recommends
        0 <= a,
        0 < b,
{
    if a % b == 0 {
        a / b
    } else {
        a / b + 1
    }
}

/// Ceiling division on machine integers.
pub fn div_ceil(a: usize, b: usize) -> (r: usize)
    requires
        b > 0,
    ensures
        r == div_ceil_spec(a as int, b as int),
{
    let q = a / b;
    let rem = a % b;
    if rem == 0 {
        q
    } else {
        proof {
            lemma_fundamental_div_mod(a as int, b as int);
            lemma_mul_inequality(1, b as int, q as int);
            assert(q < a);
        }
        q + 1
    }
}

/// `div_ceil_spec(a, b)` is the exact ceiling of `a / b`: the least count
/// of `b`-sized blocks that covers `a`.
pub proof fn lemma_div_ceil_is_ceiling(a: int, b: int)
    requires
        0 <= a,
        0 < b,
    ensures
        0 <= div_ceil_spec(a, b),
        a <= div_ceil_spec(a, b) * b,
        (div_ceil_spec(a, b) - 1) * b < a,
{
    lemma_fundamental_div_mod(a, b);
    lemma_mod_bound(a, b);
    let q = a / b;
    let rem = a % b;
    assert(0 <= q) by {
        vstd::arithmetic::div_mod::lemma_div_pos_is_pos(a, b);
    }
    if rem == 0 {
        assert(a <= q * b && (q - 1) * b < a) by (nonlinear_arith)
            requires
                a == b * q + rem,
                rem == 0,
                0 < b,
        ;
    } else {
        assert(a <= (q + 1) * b && ((q + 1) - 1) * b < a) by (nonlinear_arith)
            requires
                a == b * q + rem,
                0 < rem < b,
        ;
    }
}

/// The system builtin: a passive runner that owns one dedicated memory
/// segment through which the program exchanges fixed-size system records
/// with its host environment. It allocates the segment, reports the
/// segment's base to the program, and audits after the run how much of
/// the segment was consumed.
#[derive(Clone, Debug)]
pub struct SystemBuiltinRunner {
    /// Index of the segment assigned to this builtin; meaningful only
    /// once `initialize_segments` has run.
    pub base: usize,
    /// Offset one past the last cell used, recorded by the driver at
    /// program exit; absent until then.
    pub stop_ptr: Option<usize>,
    /// Whether this builtin participates in the current run.
    pub included: bool,
}

impl SystemBuiltinRunner {
    pub fn new(included: bool) -> (r: Self)
        ensures
            r.base == 0,
            r.stop_ptr is None,
            r.included == included,
    {
        SystemBuiltinRunner { base: 0, stop_ptr: None, included }
    }

    /// Requests one fresh segment from the manager and records its index
    /// as this builtin's base; the manager gains exactly one segment.
    pub fn initialize_segments(&mut self, segments: &mut MemorySegmentManager)
        requires
            old(segments).num_segments < isize::MAX as usize,
        ensures
            final(self).base == old(segments).num_segments,
            final(self).stop_ptr == old(self).stop_ptr,
            final(self).included == old(self).included,
            final(segments).num_segments == old(segments).num_segments + 1,
            final(segments).segment_used_sizes == old(segments).segment_used_sizes,
    {
        self.base = segments.add().segment_index as usize;
    }

    /// This builtin's contribution to the program's initial stack: the
    /// base address `(base, 0)` of its segment when included, nothing
    /// when excluded.
    pub fn initial_stack(&self) -> (r: Vec<MaybeRelocatable>)
        requires
            self.base <= isize::MAX as usize,
        ensures
            self.included ==> r@ == seq![
                MaybeRelocatable::RelocatableValue(
                    Relocatable { segment_index: self.base as isize, offset: 0 },
                ),
            ],
            !self.included ==> r@ == Seq::<MaybeRelocatable>::empty(),
    {
        if self.included {
            let mut stack: Vec<MaybeRelocatable> = Vec::new();
            stack.push(MaybeRelocatable::RelocatableValue(Relocatable {
                segment_index: self.base as isize,
                offset: 0,
            }));
            proof {
                assert(stack@ =~= seq![
                    MaybeRelocatable::RelocatableValue(
                        Relocatable { segment_index: self.base as isize, offset: 0 },
                    ),
                ]);
            }
            stack
        } else {
            let stack: Vec<MaybeRelocatable> = Vec::new();
            proof {
                assert(stack@ =~= Seq::<MaybeRelocatable>::empty());
            }
            stack
        }
    }

    pub fn base(&self) -> (r: usize)
        ensures
            r == self.base,
    {
        self.base
    }

    /// The system builtin has no cells-per-step ratio constraint.
    pub fn ratio(&self) -> (r: Option<u32>)
        ensures
            r is None,
    {
        None
    }

    /// What `get_used_cells` returns: the manager's recorded used size for
    /// this builtin's segment, or `MissingSegmentUsedSizes` while none is
    /// recorded.
    pub open spec fn used_cells_result(
        self,
        segments: MemorySegmentManager,
    ) -> Result<usize, MemoryError> {
        match segments.used_size_of(self.base as int) {
            Option::Some(n) => Result::Ok(n),
            Option::None => Result::Err(MemoryError::MissingSegmentUsedSizes),
        }
    }

    /// What `get_used_instances` returns: the used-cell count rounded up
    /// to whole system records, or the same error as `used_cells_result`.
    pub open spec fn used_instances_result(
        self,
        segments: MemorySegmentManager,
    ) -> Result<int, MemoryError> {
        match segments.used_size_of(self.base as int) {
            Option::Some(n) => Result::Ok(div_ceil_spec(n as int, CELLS_PER_SYSTEM as int)),
            Option::None => Result::Err(MemoryError::MissingSegmentUsedSizes),
        }
    }

    /// Reads the manager's recorded used size for this builtin's segment;
    /// fails with `MissingSegmentUsedSizes` while none is recorded.
    pub fn get_used_cells(&self, segments: &MemorySegmentManager) -> (r: Result<
        usize,
        MemoryError,
    >)
        ensures
            r == self.used_cells_result(*segments),
    {
        match segments.get_segment_used_size(self.base) {
            Some(n) => Ok(n),
            None => Err(MemoryError::MissingSegmentUsedSizes),
        }
    }

    /// Number of whole system records consumed: the used-cell count
    /// divided by `CELLS_PER_SYSTEM`, rounded up so that a partly filled
    /// final record counts as one full instance. Propagates
    /// `MissingSegmentUsedSizes` from the used-cells query.
    pub fn get_used_instances(&self, segments: &MemorySegmentManager) -> (r: Result<
        usize,
        MemoryError,
    >)
        ensures
            (match r {
                Ok(n) => self.used_instances_result(*segments) == Result::<int, MemoryError>::Ok(
                    n as int,
                ),
                Err(e) => self.used_instances_result(*segments) == Result::<int, MemoryError>::Err(
                    e,
                ),
            }),
    {
        let used_cells = match self.get_used_cells(segments) {
            Ok(n) => n,
            Err(e) => {
                return Err(e);
            },
        };
        Ok(div_ceil(used_cells, CELLS_PER_SYSTEM as usize))
    }
}

/// Law: the instance count rounds up. Whenever the manager records used
/// size `n` for the runner's segment, the instance query reports the exact
/// ceiling of `n / CELLS_PER_SYSTEM`: enough whole records to cover every
/// used cell, with a partly filled final record counting as one.
pub proof fn lemma_used_instances_rounds_up(
    runner: SystemBuiltinRunner,
    segments: MemorySegmentManager,
    n: usize,
)
    requires
        segments.used_size_of(runner.base as int) == Option::Some(n),
    ensures
        ({
            let k = div_ceil_spec(n as int, CELLS_PER_SYSTEM as int);
            &&& runner.used_instances_result(segments) == Result::<int, MemoryError>::Ok(k)
            &&& 0 <= k
            &&& n <= k * (CELLS_PER_SYSTEM as int)
            &&& (k - 1) * (CELLS_PER_SYSTEM as int) < n
        }),
{
    lemma_div_ceil_is_ceiling(n as int, CELLS_PER_SYSTEM as int);
}

/// Law: error propagation. The instance query fails exactly when the cell
/// query fails, and with the same error.
pub proof fn lemma_used_instances_error_propagation(
    runner: SystemBuiltinRunner,
    segments: MemorySegmentManager,
)
    ensures
        runner.used_instances_result(segments) is Err <==> runner.used_cells_result(
            segments,
        ) is Err,
        runner.used_cells_result(segments) matches Err(e) ==> runner.used_instances_result(
            segments,
        ) == Result::<int, MemoryError>::Err(e),
{
}

} // verus!
