//! Decisions taken by each core between reset and the application entry.

use vstd::prelude::*;

use crate::stacks::{Stack, StackLayout};

verus! {

/// What a core does next at boot.
#[derive(Clone, Copy, Debug, PartialEq, Eq, Structural)]
pub enum BootAction {
    /// Keep spinning: the core has not been released yet.
    WaitForRelease,
    /// Program the stack pointers and go on to the application.
    SetUpStacks,
}

/// Whether a core may leave its spin-wait. Core 0 always proceeds; every
/// other core waits until core 0 has asserted the release signal.
pub open spec fn boot_action_spec(core: usize, released: bool) -> BootAction {
    if core == 0 || released {
        BootAction::SetUpStacks
    } else {
        BootAction::WaitForRelease
    }
}

/// Decides whether `core` may set up its stacks, given whether the release
/// signal has been asserted.
pub fn boot_action(core: usize, released: bool) -> (r: BootAction)
    ensures
        r == boot_action_spec(core, released),
{
    if core == 0 || released {
        BootAction::SetUpStacks
    } else {
        BootAction::WaitForRelease
    }
}

/// The modes whose stack pointer the boot code programs, in the order it
/// switches through them; it ends in System mode, which runs the application.
pub open spec fn setup_order() -> Seq<Stack> {
    seq![Stack::Und, Stack::Svc, Stack::Abt, Stack::Irq, Stack::Fiq, Stack::Sys]
}

/// The initial stack pointer of each mode on `core`, in [`setup_order`]:
/// the top of that mode's stack for the core. Unavailable for a core beyond
/// the configured count.
pub fn boot_stack_pointers(layout: &StackLayout, core: usize) -> (r: Option<Vec<(Stack, usize)>>)
    requires
        layout.wf(),
    ensures
        core >= layout.cores_spec() ==> r is None,
        core < layout.cores_spec() ==> r is Some && r->Some_0@.len() == setup_order().len() && (
        forall|i: int|
            0 <= i < setup_order().len() ==> #[trigger] r->Some_0@[i] == (
                setup_order()[i],
                layout.top_spec(setup_order()[i], core as int) as usize,
            )),
{
    if core >= Stack::num_cores(layout) {
        return None;
    }
    let order = [Stack::Und, Stack::Svc, Stack::Abt, Stack::Irq, Stack::Fiq, Stack::Sys];
    assert(order@ =~= setup_order());
    let mut out: Vec<(Stack, usize)> = Vec::new();
    let mut i: usize = 0;
    while i < 6
        invariant
            layout.wf(),
            core < layout.cores_spec(),
            order@ == setup_order(),
            i <= 6,
            out@.len() == i,
            forall|j: int|
                0 <= j < i ==> #[trigger] out@[j] == (
                    setup_order()[j],
                    layout.top_spec(setup_order()[j], core as int) as usize,
                ),
        decreases 6 - i,
    {
        let s = order[i];
        match s.top(layout, core) {
            Some(top) => {
                out.push((s, top));
            },
            None => {
                return None;
            },
        }
        i = i + 1;
    }
    Some(out)
}

} // verus!
