use system_runner::memory_segments::{MemoryError, MemorySegmentManager};
use system_runner::relocatable::{MaybeRelocatable, Relocatable};
use system_runner::system::{div_ceil, SystemBuiltinRunner, CELLS_PER_SYSTEM};

#[test]
fn construction_included() {
    let runner = SystemBuiltinRunner::new(true);
    assert_eq!(runner.base, 0);
    assert_eq!(runner.stop_ptr, None);
    assert!(runner.included);
}

#[test]
fn construction_excluded() {
    let runner = SystemBuiltinRunner::new(false);
    assert_eq!(runner.base, 0);
    assert_eq!(runner.stop_ptr, None);
    assert!(!runner.included);
}

#[test]
fn initialization_allocates_one_segment() {
    let mut segments = MemorySegmentManager::new();
    let mut runner = SystemBuiltinRunner::new(true);
    assert_eq!(segments.num_segments, 0);
    runner.initialize_segments(&mut segments);
    assert_eq!(segments.num_segments, 1);
    assert_eq!(runner.base(), 0);
}

#[test]
fn excluded_runner_contributes_nothing() {
    let mut segments = MemorySegmentManager::new();
    let mut runner = SystemBuiltinRunner::new(false);
    runner.initialize_segments(&mut segments);
    assert_eq!(segments.num_segments, 1);
    assert_eq!(runner.initial_stack(), Vec::<MaybeRelocatable>::new());
    assert_eq!(runner.base(), 0);
    assert_eq!(runner.ratio(), None);
}

#[test]
fn included_runner_on_manager_with_prior_segments() {
    let mut segments = MemorySegmentManager::new();
    segments.add();
    segments.add();
    let mut runner = SystemBuiltinRunner::new(true);
    runner.initialize_segments(&mut segments);
    assert_eq!(runner.base(), 2);
    assert_eq!(
        runner.initial_stack(),
        vec![MaybeRelocatable::RelocatableValue(Relocatable {
            segment_index: 2,
            offset: 0,
        })]
    );
    assert_eq!(runner.ratio(), None);
}

#[test]
fn excluded_stack_is_empty_for_any_base() {
    let mut segments = MemorySegmentManager::new();
    segments.add();
    segments.add();
    segments.add();
    let mut runner = SystemBuiltinRunner::new(false);
    runner.initialize_segments(&mut segments);
    assert_eq!(runner.base(), 3);
    assert_eq!(runner.initial_stack(), Vec::<MaybeRelocatable>::new());
}

#[test]
fn used_sizes_not_yet_computed() {
    let mut segments = MemorySegmentManager::new();
    let mut runner = SystemBuiltinRunner::new(true);
    runner.initialize_segments(&mut segments);
    assert_eq!(
        runner.get_used_cells(&segments),
        Err(MemoryError::MissingSegmentUsedSizes)
    );
    assert_eq!(
        runner.get_used_instances(&segments),
        Err(MemoryError::MissingSegmentUsedSizes)
    );
    assert_eq!(runner.ratio(), None);
}

#[test]
fn used_size_record_missing_for_segment() {
    let mut segments = MemorySegmentManager::new();
    segments.add();
    segments.add();
    let mut runner = SystemBuiltinRunner::new(true);
    runner.initialize_segments(&mut segments);
    segments.set_segment_used_sizes(vec![7, 9]);
    assert_eq!(runner.base(), 2);
    assert_eq!(
        runner.get_used_cells(&segments),
        Err(MemoryError::MissingSegmentUsedSizes)
    );
    assert_eq!(
        runner.get_used_instances(&segments),
        Err(MemoryError::MissingSegmentUsedSizes)
    );
}

#[test]
fn used_cells_exact_multiple() {
    let mut segments = MemorySegmentManager::new();
    let mut runner = SystemBuiltinRunner::new(true);
    runner.initialize_segments(&mut segments);
    segments.set_segment_used_sizes(vec![4]);
    assert_eq!(runner.get_used_cells(&segments), Ok(4));
    assert_eq!(runner.get_used_instances(&segments), Ok(2));
    assert_eq!(runner.ratio(), None);
}

#[test]
fn used_cells_partial_instance() {
    let mut segments = MemorySegmentManager::new();
    let mut runner = SystemBuiltinRunner::new(true);
    runner.initialize_segments(&mut segments);
    segments.set_segment_used_sizes(vec![5]);
    assert_eq!(runner.get_used_cells(&segments), Ok(5));
    assert_eq!(runner.get_used_instances(&segments), Ok(3));
    assert_eq!(runner.ratio(), None);
}

#[test]
fn used_cells_passthrough() {
    for n in [0usize, 1, 2, 3, 17, 1000] {
        let mut segments = MemorySegmentManager::new();
        let mut runner = SystemBuiltinRunner::new(true);
        runner.initialize_segments(&mut segments);
        segments.set_segment_used_sizes(vec![n]);
        assert_eq!(runner.get_used_cells(&segments), Ok(n));
    }
}

#[test]
fn used_instances_round_up() {
    assert_eq!(CELLS_PER_SYSTEM, 2);
    let cells = CELLS_PER_SYSTEM as usize;
    let cases = [
        (0usize, 0usize),
        (1, 1),
        (cells, 1),
        (cells + 1, 2),
    ];
    for (n, expected) in cases {
        let mut segments = MemorySegmentManager::new();
        let mut runner = SystemBuiltinRunner::new(true);
        runner.initialize_segments(&mut segments);
        segments.set_segment_used_sizes(vec![n]);
        assert_eq!(runner.get_used_instances(&segments), Ok(expected));
    }
}

#[test]
fn ceiling_division_values() {
    assert_eq!(div_ceil(0, 3), 0);
    assert_eq!(div_ceil(1, 3), 1);
    assert_eq!(div_ceil(6, 3), 2);
    assert_eq!(div_ceil(7, 3), 3);
    assert_eq!(div_ceil(usize::MAX, 1), usize::MAX);
    assert_eq!(div_ceil(usize::MAX, 2), usize::MAX / 2 + 1);
}
