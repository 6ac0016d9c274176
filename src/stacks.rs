//! Per-mode, per-core stacks carved out of one reserved memory area.
//!
//! The reserved area ends at `high_end`. Going down from there, each
//! privilege mode in the order of [`Stack::iter`] owns one block holding a
//! stack for every core; inside a block, core 0's stack is the highest.

use vstd::prelude::*;

verus! {

/// The number of privilege modes that own a stack.
pub const NUM_STACKS: usize = 7;

/// Represents one of the AArch32 stacks
#[derive(Clone, Copy, Debug, PartialEq, Eq, Structural)]
pub enum Stack {
    /// UND mode stack
    Und,
    /// SVC mode stack
    Svc,
    /// ABT mode stack, for data abort and prefetch abort
    Abt,
    /// HYP mode stack, for EL2
    Hyp,
    /// IRQ mode stack, for interrupts
    Irq,
    /// FIQ mode stack, for fast interrupts
    Fiq,
    /// SYS mode stack, for the main thread
    Sys,
}

/// The stacks, from the highest block of the reserved area to the lowest.
pub open spec fn all_stacks() -> Seq<Stack> {
    seq![Stack::Und, Stack::Svc, Stack::Abt, Stack::Hyp, Stack::Irq, Stack::Fiq, Stack::Sys]
}

/// The smallest multiple of 8 that is at least `x`.
pub open spec fn round_up8(x: int) -> int {
    ((x + 7) / 8) * 8
}

/// Bytes taken by the blocks of the first `k` modes, for `cores` cores.
pub open spec fn prefix_total(sizes: Seq<usize>, k: int, cores: int) -> int
    decreases k,
{
    if k <= 0 {
        0
    } else {
        prefix_total(sizes, k - 1, cores) + sizes[k - 1] * cores
    }
}

impl Stack {
    /// Position of this stack's block, counted from the high end.
    pub open spec fn index_spec(self) -> int {
        match self {
            Stack::Und => 0,
            Stack::Svc => 1,
            Stack::Abt => 2,
            Stack::Hyp => 3,
            Stack::Irq => 4,
            Stack::Fiq => 5,
            Stack::Sys => 6,
        }
    }

    /// Position of this stack's block, counted from the high end.
    pub fn index(&self) -> (r: usize)
        ensures
            r == self.index_spec(),
            r < NUM_STACKS,
    {
        match self {
            Stack::Und => 0,
            Stack::Svc => 1,
            Stack::Abt => 2,
            Stack::Hyp => 3,
            Stack::Irq => 4,
            Stack::Fiq => 5,
            Stack::Sys => 6,
        }
    }

    /// The name of the mode that owns this stack.
    pub fn name(&self) -> (r: &'static str)
        ensures
            r@ == stack_name(*self),
    {
        match self {
            Stack::Und => "UND",
            Stack::Svc => "SVC",
            Stack::Abt => "ABT",
            Stack::Hyp => "HYP",
            Stack::Irq => "IRQ",
            Stack::Fiq => "FIQ",
            Stack::Sys => "SYS",
        }
    }

    /// All the stacks, from the highest block of the reserved area to the lowest.
    pub fn iter() -> (r: Vec<Stack>)
        ensures
            r@ == all_stacks(),
    {
        let r = vec![
            Stack::Und,
            Stack::Svc,
            Stack::Abt,
            Stack::Hyp,
            Stack::Irq,
            Stack::Fiq,
            Stack::Sys,
        ];
        assert(r@ =~= all_stacks());
        r
    }

    /// Get number of cores in this system
    pub fn num_cores(layout: &StackLayout) -> (r: usize)
        ensures
            r == layout.cores_spec(),
    {
        layout.num_cores
    }

    /// Get the size in bytes of one core's stack for this mode
    pub fn per_core_size_bytes(&self, layout: &StackLayout) -> (r: usize)
        ensures
            r == layout.size_spec(*self),
    {
        layout.sizes[self.index()]
    }

    /// Get the size in 32-bit words of one core's stack for this mode
    pub fn per_core_size_words(&self, layout: &StackLayout) -> (r: usize)
        ensures
            r == layout.size_spec(*self) / 4,
    {
        self.per_core_size_bytes(layout) / 4
    }

    /// Get the top address for this stack: the high end of core 0's stack
    fn stack_top(&self, layout: &StackLayout) -> (r: usize)
        requires
            layout.wf(),
        ensures
            r == layout.block_top(*self),
    {
        let idx = self.index();
        let n = layout.num_cores;
        let mut acc: usize = 0;
        let mut k: usize = 0;
        proof {
            lemma_prefix_total_monotone(layout.sizes@, idx as int, NUM_STACKS as int, n as int);
        }
        while k < idx
            invariant
                layout.wf(),
                n == layout.num_cores,
                k <= idx < NUM_STACKS,
                prefix_total(layout.sizes@, idx as int, n as int) <= layout.high_end,
                acc == prefix_total(layout.sizes@, k as int, n as int),
            decreases idx - k,
        {
            proof {
                lemma_prefix_total_monotone(layout.sizes@, k + 1, idx as int, n as int);
                lemma_prefix_total_nonneg(layout.sizes@, k as int, n as int);
                assert(layout.sizes@[k as int] * n >= 0) by (nonlinear_arith);
            }
            let block = layout.sizes[k] * n;
            acc = acc + block;
            k = k + 1;
        }
        layout.high_end - acc
    }

    /// Get the highest address of this stack, for the given core
    pub fn top(&self, layout: &StackLayout, core: usize) -> (r: Option<usize>)
        requires
            layout.wf(),
        ensures
            core >= layout.cores_spec() ==> r is None,
            core < layout.cores_spec() ==> r == Some(layout.top_spec(*self, core as int) as usize),
    {
        if core >= layout.num_cores {
            return None;
        }
        let top = self.stack_top(layout);
        let size = self.per_core_size_bytes(layout);
        proof {
            layout.lemma_region_in_area(*self, core as int);
            assert(core * size <= (layout.cores_spec() - 1) * size) by (nonlinear_arith)
                requires
                    core < layout.cores_spec(),
                    size >= 0,
            ;
        }
        Some(top - core * size)
    }

    /// Get the lowest address of this stack, for the given core
    pub fn bottom(&self, layout: &StackLayout, core: usize) -> (r: Option<usize>)
        requires
            layout.wf(),
        ensures
            core >= layout.cores_spec() ==> r is None,
            core < layout.cores_spec() ==> r == Some(
                (layout.top_spec(*self, core as int) - layout.size_spec(*self)) as usize,
            ),
    {
        match self.top(layout, core) {
            Some(top) => {
                proof {
                    layout.lemma_region_in_area(*self, core as int);
                }
                Some(top - self.per_core_size_bytes(layout))
            },
            None => None,
        }
    }

    /// Get the range of this stack, for the given core
    pub fn range(&self, layout: &StackLayout, core: usize) -> (r: Option<core::ops::Range<usize>>)
        requires
            layout.wf(),
        ensures
            core >= layout.cores_spec() ==> r is None,
            core < layout.cores_spec() ==> r is Some && r->Some_0.start == layout.top_spec(
                *self,
                core as int,
            ) - layout.size_spec(*self) && r->Some_0.end == layout.top_spec(*self, core as int),
    {
        proof {
            if core < layout.cores_spec() {
                layout.lemma_region_in_area(*self, core as int);
            }
        }
        match (self.bottom(layout, core), self.top(layout, core)) {
            (Some(bottom), Some(top)) => Some(core::ops::Range { start: bottom, end: top }),
            _ => None,
        }
    }
}

/// The name of the mode that owns a stack.
pub open spec fn stack_name(s: Stack) -> Seq<char> {
    match s {
        Stack::Und => "UND"@,
        Stack::Svc => "SVC"@,
        Stack::Abt => "ABT"@,
        Stack::Hyp => "HYP"@,
        Stack::Irq => "IRQ"@,
        Stack::Fiq => "FIQ"@,
        Stack::Sys => "SYS"@,
    }
}

/// Where the stacks live: the high end of the reserved area, the number of
/// cores, and the per-core stack size of each mode, in the order of
/// [`Stack::iter`].
pub struct StackLayout {
    high_end: usize,
    num_cores: usize,
    sizes: [usize; 7],
}

/// Why a set of stack sizes cannot be laid out.
#[derive(Clone, Copy, Debug, PartialEq, Eq, Structural)]
pub enum StackLayoutError {
    /// The stacks take more bytes than lie below the high end of the area.
    DoesNotFit,
}

impl StackLayout {
    /// The high end of the reserved area.
    pub closed spec fn high_end_spec(&self) -> int {
        self.high_end as int
    }

    /// The number of cores.
    pub closed spec fn cores_spec(&self) -> int {
        self.num_cores as int
    }

    /// The per-core size in bytes of each mode's stack.
    pub closed spec fn sizes_spec(&self) -> Seq<usize> {
        self.sizes@
    }

    /// The per-core size in bytes of one mode's stack.
    pub open spec fn size_spec(&self, s: Stack) -> int {
        self.sizes_spec()[s.index_spec()] as int
    }

    /// The high end of the block that holds mode `s`'s stacks (core 0's top).
    pub open spec fn block_top(&self, s: Stack) -> int {
        self.high_end_spec() - prefix_total(self.sizes_spec(), s.index_spec(), self.cores_spec())
    }

    /// The high end of the stack of mode `s` on core `core`.
    pub open spec fn top_spec(&self, s: Stack, core: int) -> int {
        self.block_top(s) - core * self.size_spec(s)
    }

    /// The lowest address taken by any stack.
    pub open spec fn low_end_spec(&self) -> int {
        self.high_end_spec() - prefix_total(self.sizes_spec(), 7, self.cores_spec())
    }

    /// Sizes are multiples of 8 bytes and every stack lies inside the area,
    /// above address zero.
    pub open spec fn wf(&self) -> bool {
        &&& self.sizes_spec().len() == NUM_STACKS
        &&& forall|i: int| 0 <= i < NUM_STACKS ==> #[trigger] self.sizes_spec()[i] % 8 == 0
        &&& self.cores_spec() >= 0
        &&& prefix_total(self.sizes_spec(), 7, self.cores_spec()) <= self.high_end_spec()
    }

    /// Lays out the stacks below `high_end` for `num_cores` cores. Each size
    /// in `sizes_bytes` (in the order of [`Stack::iter`]) is rounded up to a
    /// multiple of 8 bytes. Fails when the stacks do not fit below `high_end`.
    pub fn new(high_end: usize, num_cores: usize, sizes_bytes: [usize; 7]) -> (r: Result<
        StackLayout,
        StackLayoutError,
    >)
        requires
            forall|i: int| 0 <= i < NUM_STACKS ==> #[trigger] sizes_bytes@[i] <= usize::MAX - 7,
        ensures
            r is Ok <==> prefix_total(
                Seq::new(7, |i: int| round_up8(sizes_bytes@[i] as int) as usize),
                7,
                num_cores as int,
            ) <= high_end,
            r is Ok ==> ({
                let l = r->Ok_0;
                &&& l.wf()
                &&& l.high_end_spec() == high_end
                &&& l.cores_spec() == num_cores
                &&& forall|i: int|
                    0 <= i < NUM_STACKS ==> #[trigger] l.sizes_spec()[i] == round_up8(
                        sizes_bytes@[i] as int,
                    )
            }),
    {
        let mut sizes: [usize; 7] = [0; 7];
        let mut total: usize = 0;
        let mut k: usize = 0;
        let ghost target = Seq::new(7, |i: int| round_up8(sizes_bytes@[i] as int) as usize);
        while k < NUM_STACKS
            invariant
                k <= NUM_STACKS,
                sizes@.len() == NUM_STACKS,
                target == Seq::new(7, |i: int| round_up8(sizes_bytes@[i] as int) as usize),
                forall|i: int| 0 <= i < k ==> #[trigger] sizes@[i] == target[i],
                forall|i: int| 0 <= i < k ==> #[trigger] sizes@[i] % 8 == 0,
                forall|i: int| 0 <= i < NUM_STACKS ==> #[trigger] sizes_bytes@[i] <= usize::MAX - 7,
                total == prefix_total(sizes@, k as int, num_cores as int),
                total <= high_end,
            decreases NUM_STACKS - k,
        {
            let s = sizes_bytes[k];
            let rounded = (s + 7) / 8 * 8;
            proof {
                lemma_round_up8_bounds(s as int);
            }
            let ghost before = sizes@;
            sizes[k] = rounded;
            proof {
                lemma_prefix_total_frame(before, sizes@, k as int, num_cores as int);
            }
            let block = match rounded.checked_mul(num_cores) {
                Some(b) => b,
                None => {
                    proof {
                        lemma_prefix_total_frame(sizes@, target, k as int, num_cores as int);
                        lemma_prefix_total_exceeds(target, k as int, num_cores as int, high_end as int);
                    }
                    return Err(StackLayoutError::DoesNotFit);
                },
            };
            if block > high_end - total {
                proof {
                    lemma_prefix_total_frame(sizes@, target, k as int, num_cores as int);
                    lemma_prefix_total_exceeds(target, k as int, num_cores as int, high_end as int);
                }
                return Err(StackLayoutError::DoesNotFit);
            }
            total = total + block;
            k = k + 1;
        }
        proof {
            assert(sizes@ =~= target);
        }
        Ok(StackLayout { high_end, num_cores, sizes })
    }

    /// Every stack of mode `s` on a configured core lies inside the area:
    /// between its low end and its high end.
    pub proof fn lemma_region_in_area(&self, s: Stack, core: int)
        requires
            self.wf(),
            0 <= core < self.cores_spec(),
        ensures
            self.low_end_spec() <= self.top_spec(s, core) - self.size_spec(s),
            self.top_spec(s, core) <= self.block_top(s) <= self.high_end_spec(),
            self.low_end_spec() >= 0,
    {
        let sizes = self.sizes_spec();
        let n = self.cores_spec();
        let i = s.index_spec();
        let size = self.size_spec(s);
        lemma_prefix_total_monotone(sizes, i + 1, 7, n);
        lemma_prefix_total_nonneg(sizes, i, n);
        assert(prefix_total(sizes, i + 1, n) == prefix_total(sizes, i, n) + sizes[i] * n);
        assert((core + 1) * size <= n * size && core * size >= 0 && (core + 1) * size == core * size
            + size && sizes[i] * n == n * size) by (nonlinear_arith)
            requires
                0 <= core < n,
                size >= 0,
                size == sizes[i],
        ;
    }
}

/// The running total of block sizes never decreases.
pub proof fn lemma_prefix_total_monotone(sizes: Seq<usize>, j: int, k: int, cores: int)
    requires
        0 <= j <= k <= sizes.len(),
        cores >= 0,
    ensures
        prefix_total(sizes, j, cores) <= prefix_total(sizes, k, cores),
    decreases k - j,
{
    if j < k {
        lemma_prefix_total_monotone(sizes, j, k - 1, cores);
        assert(sizes[k - 1] * cores >= 0) by (nonlinear_arith)
            requires
                cores >= 0,
                sizes[k - 1] >= 0,
        ;
    }
}

/// The running total of block sizes is never negative.
pub proof fn lemma_prefix_total_nonneg(sizes: Seq<usize>, k: int, cores: int)
    requires
        0 <= k <= sizes.len(),
        cores >= 0,
    ensures
        prefix_total(sizes, k, cores) >= 0,
{
    lemma_prefix_total_monotone(sizes, 0, k, cores);
}

/// The running total up to `k` reads only the first `k` sizes.
proof fn lemma_prefix_total_frame(a: Seq<usize>, b: Seq<usize>, k: int, cores: int)
    requires
        0 <= k <= a.len(),
        k <= b.len(),
        forall|i: int| 0 <= i < k ==> a[i] == b[i],
    ensures
        prefix_total(a, k, cores) == prefix_total(b, k, cores),
    decreases k,
{
    if k > 0 {
        lemma_prefix_total_frame(a, b, k - 1, cores);
    }
}

/// Once the running total passes a bound at some position, the full total does.
proof fn lemma_prefix_total_exceeds(sizes: Seq<usize>, k: int, cores: int, bound: int)
    requires
        0 <= k < sizes.len(),
        sizes.len() == 7,
        cores >= 0,
        prefix_total(sizes, k, cores) + sizes[k] * cores > bound,
    ensures
        prefix_total(sizes, 7, cores) > bound,
{
    lemma_prefix_total_monotone(sizes, k + 1, 7, cores);
}

proof fn lemma_round_up8_bounds(x: int)
    requires
        x >= 0,
    ensures
        round_up8(x) >= x,
        round_up8(x) <= x + 7,
        round_up8(x) % 8 == 0,
{
    assert(((x + 7) / 8) * 8 >= x && ((x + 7) / 8) * 8 <= x + 7 && (((x + 7) / 8) * 8) % 8 == 0)
        by (nonlinear_arith)
        requires
            x >= 0,
    ;
}

/// The stack of mode `s` on core `core`, as the half-open address range
/// `(low, high)`.
pub open spec fn region(layout: StackLayout, s: Stack, core: int) -> (int, int) {
    (layout.top_spec(s, core) - layout.size_spec(s), layout.top_spec(s, core))
}

/// Every configured stack spans exactly its mode's per-core size, so it is
/// non-empty whenever that size is not zero, and it lies inside the area.
pub proof fn lemma_stack_extent(layout: StackLayout, s: Stack, core: int)
    requires
        layout.wf(),
        0 <= core < layout.cores_spec(),
    ensures
        region(layout, s, core).1 - region(layout, s, core).0 == layout.size_spec(s),
        layout.size_spec(s) > 0 ==> region(layout, s, core).0 < region(layout, s, core).1,
        layout.size_spec(s) % 8 == 0,
        layout.low_end_spec() <= region(layout, s, core).0,
        region(layout, s, core).1 <= layout.high_end_spec(),
{
    layout.lemma_region_in_area(s, core);
}

/// A stack of a mode placed lower in the area lies entirely below any stack
/// of a mode placed higher.
proof fn lemma_lower_mode_below(layout: StackLayout, hi: Stack, c: int, lo: Stack, d: int)
    requires
        layout.wf(),
        0 <= c < layout.cores_spec(),
        0 <= d < layout.cores_spec(),
        hi.index_spec() < lo.index_spec(),
    ensures
        region(layout, lo, d).1 <= region(layout, hi, c).0,
{
    let sizes = layout.sizes_spec();
    let n = layout.cores_spec();
    let i = hi.index_spec();
    let size = layout.size_spec(hi);
    let size_lo = layout.size_spec(lo);
    lemma_prefix_total_monotone(sizes, i + 1, lo.index_spec(), n);
    assert(prefix_total(sizes, i + 1, n) == prefix_total(sizes, i, n) + sizes[i] * n);
    assert((c + 1) * size <= n * size && (c + 1) * size == c * size + size && sizes[i] * n == n
        * size && d * size_lo >= 0) by (nonlinear_arith)
        requires
            0 <= c < n,
            0 <= d,
            size >= 0,
            size_lo >= 0,
            size == sizes[i],
    ;
}

/// Two stacks of one mode on different cores do not overlap; the one of the
/// higher-numbered core lies below.
proof fn lemma_same_mode_apart(layout: StackLayout, s: Stack, c: int, d: int)
    requires
        layout.wf(),
        0 <= c < d < layout.cores_spec(),
    ensures
        region(layout, s, d).1 <= region(layout, s, c).0,
{
    let size = layout.size_spec(s);
    assert(d * size >= (c + 1) * size && (c + 1) * size == c * size + size) by (nonlinear_arith)
        requires
            c < d,
            size >= 0,
    ;
}

/// The stacks of two different (mode, core) pairs on configured cores never
/// share an address.
pub proof fn lemma_stacks_disjoint(layout: StackLayout, s1: Stack, c1: int, s2: Stack, c2: int)
    requires
        layout.wf(),
        0 <= c1 < layout.cores_spec(),
        0 <= c2 < layout.cores_spec(),
        s1 != s2 || c1 != c2,
    ensures
        region(layout, s1, c1).1 <= region(layout, s2, c2).0 || region(layout, s2, c2).1 <= region(
            layout,
            s1,
            c1,
        ).0,
{
    if s1.index_spec() < s2.index_spec() {
        lemma_lower_mode_below(layout, s1, c1, s2, c2);
    } else if s2.index_spec() < s1.index_spec() {
        lemma_lower_mode_below(layout, s2, c2, s1, c1);
    } else {
        assert(s1 == s2);
        if c1 < c2 {
            lemma_same_mode_apart(layout, s1, c1, c2);
        } else {
            lemma_same_mode_apart(layout, s1, c2, c1);
        }
    }
}

/// The stacks tile the area without gaps: within a mode, each core's stack
/// ends where the next core's begins; the last core's stack of one mode ends
/// where core 0's stack of the next mode down begins.
pub proof fn lemma_stacks_adjacent(layout: StackLayout, s: Stack, core: int)
    requires
        layout.wf(),
        0 <= core < layout.cores_spec(),
    ensures
        core + 1 < layout.cores_spec() ==> region(layout, s, core).0 == region(layout, s, core + 1).1,
        core + 1 == layout.cores_spec() && s.index_spec() + 1 < NUM_STACKS ==> region(layout, s, core).0
            == region(layout, all_stacks()[s.index_spec() + 1], 0).1,
{
    let sizes = layout.sizes_spec();
    let n = layout.cores_spec();
    let i = s.index_spec();
    let size = layout.size_spec(s);
    assert((core + 1) * size == core * size + size && sizes[i] * n == n * size && 0 * size == 0)
        by (nonlinear_arith)
        requires
            size == sizes[i],
    ;
    assert(prefix_total(sizes, i + 1, n) == prefix_total(sizes, i, n) + sizes[i] * n);
    if i + 1 < NUM_STACKS {
        assert(all_stacks()[i + 1].index_spec() == i + 1);
    }
}

} // verus!
