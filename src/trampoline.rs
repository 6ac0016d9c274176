//! Exception entry and exit: the decisions an exception trampoline takes
//! between the hardware vector and the portable handler.
//!
//! A trampoline computes the address the exception concerns, saves the
//! interrupted context on the active mode's stack (aligned to 8 bytes before
//! anything else is pushed), calls the handler with the arguments its class
//! prescribes, and restores the context in reverse order before returning to
//! the address the class and the handler's result decide. The save area is a
//! stack, so a handler that itself traps (a nested call) leaves the outer
//! saved context intact.

use vstd::prelude::*;

use crate::bits::{bit_of, get_bit};

verus! {

/// Arguments stacked on a supervisor or hypervisor call: the caller's
/// registers r0 to r5, as the handler sees them.
#[derive(Clone, Copy, Debug, PartialEq, Eq, Structural)]
pub struct Frame {
    pub r0: u32,
    pub r1: u32,
    pub r2: u32,
    pub r3: u32,
    pub r4: u32,
    pub r5: u32,
}

/// The exception classes that have a vector-table slot.
#[derive(Clone, Copy, Debug, PartialEq, Eq, Structural)]
pub enum ExceptionKind {
    Undefined,
    SupervisorCall,
    PrefetchAbort,
    DataAbort,
    Interrupt,
    FastInterrupt,
    HypervisorCall,
}

/// How a trampoline reaches the banked state; one is chosen per target.
#[derive(Clone, Copy, Debug, PartialEq, Eq, Structural)]
pub enum TrampolineVariant {
    /// Armv4 to Armv6: banked registers shuffled by hand.
    Legacy,
    /// Armv7 and later: `srs`/`rfe` save and restore the return state.
    Armv7,
    /// Armv8-R in Hyp mode: the return state is in ELR_hyp and SPSR_hyp.
    Armv8Hyp,
}

/// How much floating-point state a trampoline saves.
#[derive(Clone, Copy, Debug, PartialEq, Eq, Structural)]
pub enum FpuContext {
    /// No hard-float ABI and no opt-in: nothing is saved.
    NoFpu,
    /// D0-D7 of a 16-register FPU, FPSCR and FPEXC.
    D16,
    /// D0-D7 and D16-D31 of a 32-register FPU, FPSCR and FPEXC.
    D32,
}

/// Bytes of floating-point state a trampoline pushes: eight bytes per saved
/// double register, and FPSCR and FPEXC. D8-D15 are preserved by the handler
/// itself under the calling convention, so they are never saved.
pub open spec fn fpu_context_bytes_spec(f: FpuContext) -> u32 {
    match f {
        FpuContext::NoFpu => 0,
        FpuContext::D16 => 72,
        FpuContext::D32 => 200,
    }
}

/// Bytes of floating-point state a trampoline pushes; always a multiple of 8,
/// so the stack stays 8-byte aligned for the handler.
pub fn fpu_context_bytes(f: FpuContext) -> (r: u32)
    ensures
        r == fpu_context_bytes_spec(f),
        r % 8 == 0,
{
    match f {
        FpuContext::NoFpu => 0,
        FpuContext::D16 => 8 * 8 + 2 * 4,
        FpuContext::D32 => (8 + 16) * 8 + 2 * 4,
    }
}

/// The T bit of a saved status register: the interrupted code ran Thumb
/// instructions.
pub const CPSR_T_BIT: u32 = 5;

/// Whether the interrupted code ran Thumb instructions, from its saved
/// status register.
pub fn interrupted_thumb(spsr: u32) -> (r: bool)
    ensures
        r == bit_of(spsr, CPSR_T_BIT),
{
    get_bit(spsr, CPSR_T_BIT)
}

/// What the trampoline subtracts from the banked link register to get the
/// address the exception concerns: the faulting instruction for the
/// undefined and abort classes, the interrupted instruction for interrupts,
/// the instruction after the call for calls. In Hyp mode ELR_hyp already
/// holds that address.
pub open spec fn link_offset(kind: ExceptionKind, variant: TrampolineVariant, thumb: bool) -> u32 {
    if variant == TrampolineVariant::Armv8Hyp {
        0
    } else {
        match kind {
            ExceptionKind::Undefined => if thumb {
                2
            } else {
                4
            },
            ExceptionKind::PrefetchAbort => 4,
            ExceptionKind::DataAbort => 8,
            ExceptionKind::Interrupt => 4,
            ExceptionKind::FastInterrupt => 4,
            ExceptionKind::SupervisorCall => 0,
            ExceptionKind::HypervisorCall => 0,
        }
    }
}

/// The address an exception concerns, computed from the banked link
/// register (wrapping, as the hardware subtraction does).
pub open spec fn return_address_spec(
    kind: ExceptionKind,
    variant: TrampolineVariant,
    lr: u32,
    thumb: bool,
) -> u32 {
    ((lr - link_offset(kind, variant, thumb)) % 0x1_0000_0000) as u32
}

/// Computes the address an exception concerns from the banked link register.
pub fn return_address(kind: ExceptionKind, variant: TrampolineVariant, lr: u32, thumb: bool) -> (r:
    u32)
    ensures
        r == return_address_spec(kind, variant, lr, thumb),
{
    let offset: u32 = match variant {
        TrampolineVariant::Armv8Hyp => 0,
        _ => match kind {
            ExceptionKind::Undefined => if thumb {
                2
            } else {
                4
            },
            ExceptionKind::PrefetchAbort => 4,
            ExceptionKind::DataAbort => 8,
            ExceptionKind::Interrupt => 4,
            ExceptionKind::FastInterrupt => 4,
            ExceptionKind::SupervisorCall => 0,
            ExceptionKind::HypervisorCall => 0,
        },
    };
    lr.wrapping_sub(offset)
}

/// Where the trapping `svc` instruction sits: just before the banked link
/// register, two bytes back for a 16-bit Thumb encoding, four for Arm.
pub open spec fn svc_instruction_address_spec(lr: u32, thumb: bool) -> u32 {
    ((lr - (if thumb {
        2int
    } else {
        4int
    })) % 0x1_0000_0000) as u32
}

/// Where the trapping `svc` instruction sits.
pub fn svc_instruction_address(lr: u32, thumb: bool) -> (r: u32)
    ensures
        r == svc_instruction_address_spec(lr, thumb),
{
    if thumb {
        lr.wrapping_sub(2)
    } else {
        lr.wrapping_sub(4)
    }
}

/// The comment field of an `svc` instruction: the low 8 bits of a Thumb
/// halfword, the low 24 bits of an Arm word.
pub open spec fn svc_number_spec(instruction: u32, thumb: bool) -> u32 {
    if thumb {
        instruction & 0xFF
    } else {
        instruction & 0x00FF_FFFF
    }
}

/// Extracts the immediate of a trapping `svc` instruction, given the
/// instruction as loaded from [`svc_instruction_address`] (a halfword for
/// Thumb, a word for Arm).
pub fn svc_number(instruction: u32, thumb: bool) -> (r: u32)
    ensures
        r == svc_number_spec(instruction, thumb),
{
    if thumb {
        instruction & 0xFF
    } else {
        instruction & 0x00FF_FFFF
    }
}

/// The registers a trampoline saves for the handler's caller: those the
/// calling convention lets the handler clobber, and the return state.
#[derive(Clone, Copy, Debug, PartialEq, Eq, Structural)]
pub struct SavedContext {
    /// The status register of the interrupted code.
    pub spsr: u32,
    /// The address computed by [`return_address`].
    pub return_address: u32,
    pub r0: u32,
    pub r1: u32,
    pub r2: u32,
    pub r3: u32,
    pub r4: u32,
    pub r5: u32,
    pub r6: u32,
    pub r12: u32,
}

/// The words pushed, in push order, to save context `c` with `pad` bytes of
/// alignment padding: the return state, the padding, then the padding amount
/// and the general registers (so that the lowest word of the area is `r0`).
pub open spec fn context_words(c: SavedContext, pad: u32) -> Seq<u32> {
    let state = seq![c.r12, c.return_address, c.spsr];
    let padding = if pad == 4 {
        seq![0u32]
    } else {
        Seq::<u32>::empty()
    };
    let regs = seq![pad, c.r6, c.r5, c.r4, c.r3, c.r2, c.r1, c.r0];
    state + padding + regs
}

/// The stack of the active mode: its high end and the words pushed so far,
/// the last one at the lowest address (the stack pointer).
pub struct ModeStack {
    high_end: u32,
    words: Vec<u32>,
}

/// Bytes between the stack pointer after the return state is pushed and the
/// next 8-byte boundary below it.
pub open spec fn padding_for(sp: int) -> u32 {
    if (sp - 12) % 8 == 0 {
        0
    } else {
        4
    }
}

impl ModeStack {
    /// The high end of the stack.
    pub closed spec fn high_end_spec(&self) -> int {
        self.high_end as int
    }

    /// The words on the stack, oldest first.
    pub closed spec fn words_spec(&self) -> Seq<u32> {
        self.words@
    }

    /// The stack pointer: the high end less the bytes pushed.
    pub open spec fn sp_spec(&self) -> int {
        self.high_end_spec() - 4 * self.words_spec().len()
    }

    /// The stack pointer is word aligned and above address zero.
    pub open spec fn wf(&self) -> bool {
        &&& self.high_end_spec() % 4 == 0
        &&& 4 * self.words_spec().len() <= self.high_end_spec()
    }

    /// An empty stack that ends at `high_end`.
    pub fn new(high_end: u32) -> (r: ModeStack)
        requires
            high_end % 4 == 0,
        ensures
            r.wf(),
            r.high_end_spec() == high_end,
            r.words_spec() == Seq::<u32>::empty(),
    {
        ModeStack { high_end, words: Vec::new() }
    }

    /// The stack pointer.
    pub fn sp(&self) -> (r: u32)
        requires
            self.wf(),
        ensures
            r == self.sp_spec(),
    {
        proof {
            assert(4 * self.words@.len() <= self.high_end);
        }
        self.high_end - (self.words.len() as u32) * 4
    }

    /// The words on the stack, oldest first.
    pub fn words(&self) -> (r: &Vec<u32>)
        ensures
            r@ == self.words_spec(),
    {
        &self.words
    }

    /// Saves a context on entry to an exception: pushes the return state,
    /// aligns the stack pointer down to 8 bytes, then pushes the general
    /// registers and the padding amount. The handler then runs with an
    /// 8-byte aligned stack pointer, whatever the interrupted one was.
    /// Returns the padding used (0 or 4 bytes).
    pub fn save_context(&mut self, c: SavedContext) -> (pad: u32)
        requires
            old(self).wf(),
            old(self).sp_spec() >= 48,
        ensures
            pad == padding_for(old(self).sp_spec()),
            final(self).high_end_spec() == old(self).high_end_spec(),
            final(self).words_spec() == old(self).words_spec() + context_words(c, pad),
            final(self).wf(),
            final(self).sp_spec() % 8 == 0,
    {
        let ghost before = self.words@;
        self.words.push(c.r12);
        self.words.push(c.return_address);
        self.words.push(c.spsr);
        let sp = self.sp();
        let pad: u32 = if sp % 8 == 0 {
            0
        } else {
            4
        };
        if pad == 4 {
            self.words.push(0);
        }
        self.words.push(pad);
        self.words.push(c.r6);
        self.words.push(c.r5);
        self.words.push(c.r4);
        self.words.push(c.r3);
        self.words.push(c.r2);
        self.words.push(c.r1);
        self.words.push(c.r0);
        proof {
            assert(self.words@ =~= before + context_words(c, pad));
        }
        pad
    }

    /// The frame a call handler receives: the registers the last save put at
    /// the stack pointer.
    pub fn frame(&self) -> (r: Frame)
        requires
            self.words_spec().len() >= 8,
        ensures
            r == (Frame {
                r0: self.words_spec()[self.words_spec().len() - 1],
                r1: self.words_spec()[self.words_spec().len() - 2],
                r2: self.words_spec()[self.words_spec().len() - 3],
                r3: self.words_spec()[self.words_spec().len() - 4],
                r4: self.words_spec()[self.words_spec().len() - 5],
                r5: self.words_spec()[self.words_spec().len() - 6],
            }),
    {
        let n = self.words.len();
        Frame {
            r0: self.words[n - 1],
            r1: self.words[n - 2],
            r2: self.words[n - 3],
            r3: self.words[n - 4],
            r4: self.words[n - 5],
            r5: self.words[n - 6],
        }
    }

    /// Restores the context the last [`ModeStack::save_context`] pushed, in
    /// reverse order, and pops it; `None` (leaving the stack as it was) when
    /// the top of the stack is not a saved context.
    pub fn restore_context(&mut self) -> (r: Option<SavedContext>)
        requires
            old(self).wf(),
        ensures
            final(self).high_end_spec() == old(self).high_end_spec(),
            final(self).wf(),
            r is Some ==> old(self).words_spec() == final(self).words_spec() + context_words(
                r->Some_0,
                old(self).words_spec()[old(self).words_spec().len() - 8],
            ),
            r is None ==> final(self).words_spec() == old(self).words_spec(),
            forall|w: Seq<u32>, c: SavedContext, pad: u32|
                old(self).words_spec() == w + context_words(c, pad) && (pad == 0 || pad == 4)
                    ==> #[trigger] final(self).words_spec() == w && r == Some(c),
    {
        let n = self.words.len();
        if n < 11 {
            proof {
                assert forall|w: Seq<u32>, c: SavedContext, pad: u32|
                    self.words@ == w + context_words(c, pad) && (pad == 0 || pad == 4)
                        implies false by {
                    assert((w + context_words(c, pad)).len() >= 11);
                }
            }
            return None;
        }
        let pad = self.words[n - 8];
        let need: usize = if pad == 4 {
            12
        } else {
            11
        };
        if pad != 0 && pad != 4 || n < need {
            proof {
                assert forall|w: Seq<u32>, c: SavedContext, pad2: u32|
                    self.words@ == w + context_words(c, pad2) && (pad2 == 0 || pad2 == 4)
                        implies false by {
                    let all = w + context_words(c, pad2);
                    assert(all[all.len() - 8] == pad2);
                }
            }
            return None;
        }
        let k = n - need;
        if pad == 4 && self.words[k + 3] != 0 {
            proof {
                assert forall|w: Seq<u32>, c: SavedContext, pad2: u32|
                    self.words@ == w + context_words(c, pad2) && (pad2 == 0 || pad2 == 4)
                        implies false by {
                    let all = w + context_words(c, pad2);
                    assert(all[all.len() - 8] == pad2);
                    assert(all[all.len() - 9] == 0);
                }
            }
            return None;
        }
        let c = SavedContext {
            spsr: self.words[k + 2],
            return_address: self.words[k + 1],
            r0: self.words[n - 1],
            r1: self.words[n - 2],
            r2: self.words[n - 3],
            r3: self.words[n - 4],
            r4: self.words[n - 5],
            r5: self.words[n - 6],
            r6: self.words[n - 7],
            r12: self.words[k],
        };
        let ghost before = self.words@;
        proof {
            let tail = context_words(c, pad);
            assert(tail.len() == need);
            if pad == 4 {
                assert(tail[3] == 0);
                assert(before[k + 3] == 0);
            }
            assert(before =~= before.subrange(0, k as int) + tail);
            assert forall|w: Seq<u32>, c2: SavedContext, pad2: u32|
                before == w + context_words(c2, pad2) && (pad2 == 0 || pad2 == 4)
                    implies w == before.subrange(0, k as int) && Some(c) == Some(c2) by {
                lemma_context_words_unique(w, c2, pad2, before.subrange(0, k as int), c, pad);
            }
        }
        self.words.truncate(k);
        Some(c)
    }
}

/// A stack that ends with a saved context determines that context, its
/// padding, and what lies below it.
proof fn lemma_context_words_unique(
    w1: Seq<u32>,
    c1: SavedContext,
    pad1: u32,
    w2: Seq<u32>,
    c2: SavedContext,
    pad2: u32,
)
    requires
        pad1 == 0 || pad1 == 4,
        pad2 == 0 || pad2 == 4,
        w1 + context_words(c1, pad1) == w2 + context_words(c2, pad2),
    ensures
        w1 == w2,
        c1 == c2,
        pad1 == pad2,
{
    let all = w1 + context_words(c1, pad1);
    let all2 = w2 + context_words(c2, pad2);
    assert(all[all.len() - 8] == pad1);
    assert(all2[all2.len() - 8] == pad2);
    assert(w1.len() == w2.len());
    assert(w1 =~= all.subrange(0, w1.len() as int));
    assert(w2 =~= all2.subrange(0, w2.len() as int));
    assert(context_words(c1, pad1) =~= all.subrange(w1.len() as int, all.len() as int));
    assert(context_words(c2, pad2) =~= all2.subrange(w2.len() as int, all2.len() as int));
    let t1 = context_words(c1, pad1);
    let t2 = context_words(c2, pad2);
    assert(t1 == t2);
    assert(t1[0] == c1.r12 && t2[0] == c2.r12);
    assert(t1[1] == c1.return_address && t2[1] == c2.return_address);
    assert(t1[2] == c1.spsr && t2[2] == c2.spsr);
    assert(t1[t1.len() - 1] == c1.r0 && t2[t2.len() - 1] == c2.r0);
    assert(t1[t1.len() - 2] == c1.r1 && t2[t2.len() - 2] == c2.r1);
    assert(t1[t1.len() - 3] == c1.r2 && t2[t2.len() - 3] == c2.r2);
    assert(t1[t1.len() - 4] == c1.r3 && t2[t2.len() - 4] == c2.r3);
    assert(t1[t1.len() - 5] == c1.r4 && t2[t2.len() - 5] == c2.r4);
    assert(t1[t1.len() - 6] == c1.r5 && t2[t2.len() - 6] == c2.r5);
    assert(t1[t1.len() - 7] == c1.r6 && t2[t2.len() - 7] == c2.r6);
}

/// Where execution resumes after an exception, and what r0 then holds.
#[derive(Clone, Copy, Debug, PartialEq, Eq, Structural)]
pub struct ExceptionReturn {
    pub pc: u32,
    pub r0: u32,
}

/// What a trampoline does with its handler's result: undefined-instruction
/// and abort handlers return the address to resume at (the faulting one to
/// retry, a later one to skip); call handlers return the value for r0;
/// interrupt handlers return nothing, and the interrupted code resumes.
pub open spec fn exception_return_spec(kind: ExceptionKind, c: SavedContext, handler_result: u32) -> ExceptionReturn {
    match kind {
        ExceptionKind::Undefined | ExceptionKind::PrefetchAbort | ExceptionKind::DataAbort => {
            ExceptionReturn { pc: handler_result, r0: c.r0 }
        },
        ExceptionKind::SupervisorCall | ExceptionKind::HypervisorCall => {
            ExceptionReturn { pc: c.return_address, r0: handler_result }
        },
        ExceptionKind::Interrupt | ExceptionKind::FastInterrupt => {
            ExceptionReturn { pc: c.return_address, r0: c.r0 }
        },
    }
}

/// Decides where execution resumes and what r0 holds, from the restored
/// context and the handler's result (ignored for interrupts).
pub fn exception_return(kind: ExceptionKind, c: &SavedContext, handler_result: u32) -> (r:
    ExceptionReturn)
    ensures
        r == exception_return_spec(kind, *c, handler_result),
{
    match kind {
        ExceptionKind::Undefined | ExceptionKind::PrefetchAbort | ExceptionKind::DataAbort => {
            ExceptionReturn { pc: handler_result, r0: c.r0 }
        },
        ExceptionKind::SupervisorCall | ExceptionKind::HypervisorCall => {
            ExceptionReturn { pc: c.return_address, r0: handler_result }
        },
        ExceptionKind::Interrupt | ExceptionKind::FastInterrupt => {
            ExceptionReturn { pc: c.return_address, r0: c.r0 }
        },
    }
}

/// A nested exception does not disturb the context saved by the one it
/// interrupted: after an outer save, an inner save and the inner restore,
/// the stack holds exactly what the outer save left, so the outer restore
/// gets back the outer context.
pub proof fn lemma_nested_contexts(w: Seq<u32>, outer: SavedContext, po: u32, inner: SavedContext, pi: u32)
    requires
        po == 0 || po == 4,
        pi == 0 || pi == 4,
    ensures
        ({
            let after_outer = w + context_words(outer, po);
            let after_inner = after_outer + context_words(inner, pi);
            &&& after_inner.subrange(0, after_outer.len() as int) == after_outer
            &&& after_outer.subrange(0, w.len() as int) == w
        }),
{
    let after_outer = w + context_words(outer, po);
    let after_inner = after_outer + context_words(inner, pi);
    assert(after_inner.subrange(0, after_outer.len() as int) =~= after_outer);
    assert(after_outer.subrange(0, w.len() as int) =~= w);
}

/// A resumable fault resumes exactly where its handler says: returning the
/// faulting address retries the faulting instruction, returning it plus the
/// instruction's size skips it. The faulting address handed to a data-abort
/// handler is the banked link register less 8 (less nothing in Hyp mode).
pub proof fn lemma_abort_resumes_at_handler_result(c: SavedContext, lr: u32, handler_result: u32)
    ensures
        exception_return_spec(ExceptionKind::DataAbort, c, handler_result).pc == handler_result,
        exception_return_spec(ExceptionKind::PrefetchAbort, c, handler_result).pc == handler_result,
        exception_return_spec(ExceptionKind::Undefined, c, handler_result).pc == handler_result,
        lr >= 8 ==> return_address_spec(ExceptionKind::DataAbort, TrampolineVariant::Armv7, lr, false)
            == lr - 8,
        return_address_spec(ExceptionKind::DataAbort, TrampolineVariant::Armv8Hyp, lr, false) == lr,
{
}

/// A call returns to the instruction after the call with the handler's
/// result in r0.
pub proof fn lemma_call_returns_result(c: SavedContext, handler_result: u32)
    ensures
        exception_return_spec(ExceptionKind::SupervisorCall, c, handler_result) == (ExceptionReturn {
            pc: c.return_address,
            r0: handler_result,
        }),
        exception_return_spec(ExceptionKind::HypervisorCall, c, handler_result) == (ExceptionReturn {
            pc: c.return_address,
            r0: handler_result,
        }),
{
}

} // verus!
