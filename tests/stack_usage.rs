use aarch32::stack_usage::{stack_used_bytes, unused_words};

/// Fills a zeroed stack the way a recursion of `depth` frames of `frame_words`
/// words would, writing a non-zero sentinel at the lowest word of each frame.
fn run_recursion(stack: &mut [u32], depth: usize, frame_words: usize) -> usize {
    let mut lowest = stack.len();
    for level in 0..depth {
        let bottom = stack.len() - (level + 1) * frame_words;
        stack[bottom] = 0xDEAD_0000 + level as u32;
        lowest = bottom;
    }
    lowest
}

#[test]
fn estimate_covers_the_deepest_sentinel() {
    let mut stack = vec![0u32; 256];
    let lowest = run_recursion(&mut stack, 5, 7);
    let (total, used) = stack_used_bytes(&stack);
    assert_eq!(total, 1024);
    assert!(used >= (stack.len() - lowest) * 4);
    assert_eq!(used, (256 - 221) * 4);
}

#[test]
fn untouched_and_full_stacks() {
    assert_eq!(stack_used_bytes(&[0u32; 64]), (256, 0));
    assert_eq!(stack_used_bytes(&[1u32; 4]), (16, 16));
    assert_eq!(stack_used_bytes(&[]), (0, 0));
    assert_eq!(unused_words(&[0, 0, 3, 0]), 2);
}

#[test]
fn zero_rewritten_words_are_not_told_apart() {
    // A word that was used and set back to zero below the first non-zero word
    // counts as unused: the estimate is a lower bound on the low side.
    assert_eq!(stack_used_bytes(&[0, 0, 0, 5, 0, 9]), (24, 12));
}
