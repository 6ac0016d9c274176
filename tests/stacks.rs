use aarch32::boot::{boot_action, boot_stack_pointers, BootAction};
use aarch32::stacks::{Stack, StackLayout, StackLayoutError};

fn two_core_layout() -> StackLayout {
    // UND, SVC, ABT, HYP, IRQ, FIQ, SYS
    StackLayout::new(0x1000_0000, 2, [0x100, 0x200, 0x100, 0, 0x400, 0x100, 0x1000]).unwrap()
}

#[test]
fn stack_names_and_order() {
    let names: Vec<&str> = Stack::iter().iter().map(|s| s.name()).collect();
    assert_eq!(names, vec!["UND", "SVC", "ABT", "HYP", "IRQ", "FIQ", "SYS"]);
}

#[test]
fn ranges_are_laid_out_downward() {
    let l = two_core_layout();
    assert_eq!(Stack::Und.range(&l, 0), Some(0x0FFF_FF00..0x1000_0000));
    assert_eq!(Stack::Und.range(&l, 1), Some(0x0FFF_FE00..0x0FFF_FF00));
    assert_eq!(Stack::Svc.range(&l, 0), Some(0x0FFF_FC00..0x0FFF_FE00));
    assert_eq!(Stack::Svc.top(&l, 1), Some(0x0FFF_FC00));
    assert_eq!(Stack::Svc.bottom(&l, 1), Some(0x0FFF_FA00));
    assert_eq!(Stack::Sys.per_core_size_words(&l), 0x400);
    assert_eq!(Stack::num_cores(&l), 2);
}

#[test]
fn every_pair_is_sized_and_disjoint() {
    let l = two_core_layout();
    let mut all = Vec::new();
    for s in Stack::iter() {
        for core in 0..2 {
            let r = s.range(&l, core).unwrap();
            assert_eq!(r.end - r.start, s.per_core_size_bytes(&l));
            all.push(r);
        }
    }
    for (i, a) in all.iter().enumerate() {
        for b in all.iter().skip(i + 1) {
            assert!(a.end <= b.start || b.end <= a.start, "{:?} overlaps {:?}", a, b);
        }
    }
}

#[test]
fn cores_beyond_the_count_are_unavailable() {
    let l = two_core_layout();
    for s in Stack::iter() {
        assert_eq!(s.top(&l, 2), None);
        assert_eq!(s.bottom(&l, 2), None);
        assert_eq!(s.range(&l, 2), None);
        assert_eq!(s.range(&l, usize::MAX), None);
    }
    assert!(boot_stack_pointers(&l, 2).is_none());
}

#[test]
fn sizes_are_rounded_up_to_eight_bytes() {
    let l = StackLayout::new(0x2000, 1, [1, 8, 9, 0, 15, 16, 17]).unwrap();
    let sizes: Vec<usize> = Stack::iter().iter().map(|s| s.per_core_size_bytes(&l)).collect();
    assert_eq!(sizes, vec![8, 8, 16, 0, 16, 16, 24]);
}

#[test]
fn layout_that_does_not_fit_is_refused() {
    assert_eq!(
        StackLayout::new(0xD00, 2, [0x100, 0x100, 0x100, 0x100, 0x100, 0x100, 0x100]).err(),
        Some(StackLayoutError::DoesNotFit)
    );
    assert!(StackLayout::new(0xE00, 2, [0x100, 0x100, 0x100, 0x100, 0x100, 0x100, 0x100]).is_ok());
    assert!(StackLayout::new(0x1000, 2, [0x100, 0x100, 0x100, 0, 0x100, 0x100, 0x200]).is_ok());
}

#[test]
fn second_core_waits_for_release_then_gets_its_own_stacks() {
    let l = two_core_layout();
    assert_eq!(boot_action(0, false), BootAction::SetUpStacks);
    assert_eq!(boot_action(1, false), BootAction::WaitForRelease);
    assert_eq!(boot_action(1, true), BootAction::SetUpStacks);
    let core0 = boot_stack_pointers(&l, 0).unwrap();
    let core1 = boot_stack_pointers(&l, 1).unwrap();
    let modes: Vec<Stack> = core0.iter().map(|p| p.0).collect();
    assert_eq!(modes, vec![Stack::Und, Stack::Svc, Stack::Abt, Stack::Irq, Stack::Fiq, Stack::Sys]);
    for s in Stack::iter() {
        for t in Stack::iter() {
            let a = s.range(&l, 0).unwrap();
            let b = t.range(&l, 1).unwrap();
            assert!(a.end <= b.start || b.end <= a.start);
        }
    }
    assert_eq!(core1[0], (Stack::Und, 0x0FFF_FF00));
    assert_eq!(core0[5], (Stack::Sys, Stack::Sys.top(&l, 0).unwrap()));
}
