use orca_wasm::error::Error;
use orca_wasm::ir::id::{FunctionID, ModuleID};
use orca_wasm::ir::types::Location;
use orca_wasm::subiterator::component_subiterator::ComponentSubIterator;
use orca_wasm::subiterator::function_subiterator::FuncSubIterator;
use orca_wasm::subiterator::module_subiterator::{
    is_skipped, least_visitable_from, ModuleSubIterator,
};
use std::collections::HashMap;

fn counts(pairs: &[(u32, usize)]) -> HashMap<u32, usize> {
    let mut m = HashMap::new();
    for (f, n) in pairs {
        m.insert(*f, *n);
    }
    m
}

fn comp(m: u32, f: u32, i: usize) -> Location {
    Location::Component { mod_idx: ModuleID(m), func_idx: FunctionID(f), instr_idx: i }
}

fn local(f: u32, i: usize) -> Location {
    Location::Module { func_idx: FunctionID(f), instr_idx: i }
}

/// Drives the cursor until it has finished and records every location it
/// reports on the way.
fn drive(it: &mut ComponentSubIterator) -> Vec<Location> {
    let mut seen = Vec::new();
    let mut steps = 0;
    while !it.end() {
        if let Ok((loc, _)) = it.curr_loc() {
            seen.push(loc);
        }
        it.next();
        steps += 1;
        assert!(steps < 10_000);
    }
    seen
}

fn drive_module(it: &mut ModuleSubIterator) -> Vec<Location> {
    let mut seen = Vec::new();
    while !it.end() {
        seen.push(it.curr_loc().unwrap().0);
        it.next();
    }
    seen
}

fn two_module_component() -> ComponentSubIterator {
    let mut metadata = HashMap::new();
    metadata.insert(0, counts(&[(0, 3), (1, 2)]));
    metadata.insert(1, counts(&[(0, 1)]));
    let mut skip = HashMap::new();
    skip.insert(0, vec![1]);
    ComponentSubIterator::new(ModuleID(0), 2, metadata, skip)
}

#[test]
fn skipped_function_never_appears() {
    let mut it = two_module_component();
    assert_eq!(drive(&mut it), vec![comp(0, 0, 0), comp(0, 0, 1), comp(0, 0, 2), comp(1, 0, 0)]);
    assert!(it.end());
}

#[test]
fn walk_collects_what_driving_by_hand_collects() {
    let mut by_hand = two_module_component();
    let mut walked = two_module_component();
    assert_eq!(walked.walk(), drive(&mut by_hand));
    assert!(walked.end());
    assert_eq!(walked.walk(), vec![]);
    walked.reset();
    walked.next();
    assert_eq!(walked.walk(), vec![comp(0, 0, 1), comp(0, 0, 2), comp(1, 0, 0)]);
}

/// The number of calls of `next` that return true before the first that
/// returns false.
fn count_true(it: &mut ComponentSubIterator) -> usize {
    let mut n = 0;
    while it.next() {
        n += 1;
        assert!(n < 10_000);
    }
    n
}

#[test]
fn next_returns_true_once_less_than_there_are_sites() {
    let mut it = two_module_component();
    assert_eq!(count_true(&mut it), 3);
    assert!(it.end());
    it.reset();
    assert_eq!(count_true(&mut it), 3);

    let mut metadata = HashMap::new();
    metadata.insert(0, counts(&[(0, 4), (1, 2), (5, 1), (6, 3)]));
    metadata.insert(1, counts(&[(2, 2), (3, 5)]));
    metadata.insert(2, counts(&[(0, 1)]));
    let mut skip = HashMap::new();
    skip.insert(0, vec![1, 6]);
    skip.insert(1, vec![2]);
    let mut it = ComponentSubIterator::new(ModuleID(0), 3, metadata, skip);
    assert_eq!(count_true(&mut it), (4 + 1) + 5 + 1 - 1);
    it.reset();
    assert_eq!(it.walk().len(), (4 + 1) + 5 + 1);
}

#[test]
fn module_without_sites_takes_one_step() {
    let mut metadata = HashMap::new();
    metadata.insert(0, counts(&[(0, 2)]));
    metadata.insert(1, counts(&[]));
    metadata.insert(2, counts(&[(0, 1)]));
    let mut it = ComponentSubIterator::new(ModuleID(0), 3, metadata, HashMap::new());
    // three sites and one module without any: four steps, of which the last returns false
    assert_eq!(count_true(&mut it), 3);
    it.reset();
    assert_eq!(it.walk().len(), 3);
}

#[test]
fn next_reports_whether_a_module_is_left() {
    let mut it = two_module_component();
    assert!(it.next());
    assert!(it.next());
    assert_eq!(it.curr_loc(), Ok((comp(0, 0, 2), true)));
    assert!(it.next());
    assert_eq!(it.curr_mod_idx(), ModuleID(1));
    assert_eq!(it.curr_loc(), Ok((comp(1, 0, 0), true)));
    assert!(!it.end());
    assert!(!it.next());
    assert!(it.end());
    assert_eq!(it.curr_loc(), Err(Error::NotAtInstruction));
}

#[test]
fn next_after_the_end_stays_at_the_end() {
    let mut it = two_module_component();
    drive(&mut it);
    assert!(!it.next());
    assert!(!it.next());
    assert!(it.end());
    assert_eq!(it.curr_mod_idx(), ModuleID(2));
}

#[test]
fn end_flag_marks_last_instruction_of_each_function() {
    let mut metadata = HashMap::new();
    metadata.insert(0, counts(&[(0, 2), (1, 1)]));
    let mut it = ComponentSubIterator::new(ModuleID(0), 1, metadata, HashMap::new());
    assert_eq!(it.curr_loc(), Ok((comp(0, 0, 0), false)));
    it.next();
    assert_eq!(it.curr_loc(), Ok((comp(0, 0, 1), true)));
    it.next();
    assert_eq!(it.curr_loc(), Ok((comp(0, 1, 0), true)));
}

#[test]
fn traversal_covers_every_site_once_in_order() {
    let mut metadata = HashMap::new();
    metadata.insert(0, counts(&[(2, 2), (0, 1), (7, 3)]));
    metadata.insert(1, counts(&[(5, 2), (1, 1), (3, 4)]));
    metadata.insert(2, counts(&[(0, 2)]));
    let mut skip = HashMap::new();
    skip.insert(1, vec![3, 9]);
    skip.insert(2, vec![]);
    let mut it = ComponentSubIterator::new(ModuleID(0), 3, metadata.clone(), skip.clone());
    let seen = drive(&mut it);

    let mut expected = Vec::new();
    for m in 0..3u32 {
        let mut funcs: Vec<u32> = metadata[&m].keys().copied().collect();
        funcs.sort();
        for f in funcs {
            if skip.get(&m).map_or(false, |s| s.contains(&f)) {
                continue;
            }
            for i in 0..metadata[&m][&f] {
                expected.push(comp(m, f, i));
            }
        }
    }
    assert_eq!(seen, expected);
    assert_eq!(
        seen,
        vec![
            comp(0, 0, 0),
            comp(0, 2, 0),
            comp(0, 2, 1),
            comp(0, 7, 0),
            comp(0, 7, 1),
            comp(0, 7, 2),
            comp(1, 1, 0),
            comp(1, 5, 0),
            comp(1, 5, 1),
            comp(2, 0, 0),
            comp(2, 0, 1),
        ]
    );
}

#[test]
fn reset_replays_the_same_sequence() {
    let mut it = two_module_component();
    let first = drive(&mut it);
    it.reset();
    assert_eq!(it.curr_mod_idx(), ModuleID(0));
    let second = drive(&mut it);
    assert_eq!(first, second);
}

#[test]
fn reset_in_the_middle_uses_the_skip_list_of_module_zero() {
    let mut it = two_module_component();
    for _ in 0..3 {
        it.next();
    }
    assert_eq!(it.curr_mod_idx(), ModuleID(1));
    it.reset();
    assert_eq!(drive(&mut it), vec![comp(0, 0, 0), comp(0, 0, 1), comp(0, 0, 2), comp(1, 0, 0)]);
}

#[test]
fn component_location_strips_to_module_location() {
    let mut it = two_module_component();
    while !it.end() {
        let (loc, _) = it.curr_loc().unwrap();
        let expected = local(it.curr_func_idx().0, it.curr_instr_idx());
        assert_eq!(loc.strip_module(), expected);
        assert_eq!(expected.in_component(it.curr_mod_idx()), Ok(loc));
        it.next();
    }
}

#[test]
fn in_component_rejects_component_location() {
    assert_eq!(local(4, 2).in_component(ModuleID(3)), Ok(comp(3, 4, 2)));
    assert_eq!(comp(1, 4, 2).in_component(ModuleID(3)), Err(Error::UnexpectedLocation));
    assert_eq!(comp(1, 4, 2).strip_module(), local(4, 2));
    assert_eq!(local(4, 2).strip_module(), local(4, 2));
}

#[test]
fn empty_component_is_finished_at_once() {
    let mut it = ComponentSubIterator::new(ModuleID(0), 0, HashMap::new(), HashMap::new());
    assert!(it.end());
    assert_eq!(it.curr_loc(), Err(Error::NotAtInstruction));
    assert!(!it.next());
    it.reset();
    assert!(it.end());
    assert_eq!(drive(&mut it), vec![]);
}

#[test]
fn module_without_sites_reports_no_location() {
    let mut metadata = HashMap::new();
    metadata.insert(0, counts(&[(0, 1)]));
    metadata.insert(1, counts(&[(0, 2), (1, 0)]));
    metadata.insert(2, counts(&[(4, 1)]));
    let mut skip = HashMap::new();
    skip.insert(1, vec![0]);
    let mut it = ComponentSubIterator::new(ModuleID(0), 3, metadata, skip);
    assert_eq!(it.curr_loc(), Ok((comp(0, 0, 0), true)));
    assert!(it.next());
    assert_eq!(it.curr_mod_idx(), ModuleID(1));
    assert_eq!(it.curr_loc(), Err(Error::NotAtInstruction));
    assert!(!it.end());
    assert!(it.next());
    assert_eq!(it.curr_loc(), Ok((comp(2, 4, 0), true)));
    it.reset();
    assert_eq!(drive(&mut it), vec![comp(0, 0, 0), comp(2, 4, 0)]);
}

#[test]
fn function_without_instructions_is_passed_over() {
    let mut metadata = HashMap::new();
    metadata.insert(0, counts(&[(0, 0), (1, 2), (2, 0), (3, 1)]));
    let mut it = ComponentSubIterator::new(ModuleID(0), 1, metadata, HashMap::new());
    assert_eq!(drive(&mut it), vec![comp(0, 1, 0), comp(0, 1, 1), comp(0, 3, 0)]);
}

#[test]
fn traversal_can_start_at_a_later_module() {
    let mut metadata = HashMap::new();
    metadata.insert(0, counts(&[(0, 3)]));
    metadata.insert(1, counts(&[(0, 1), (1, 1)]));
    let mut it = ComponentSubIterator::new(ModuleID(1), 2, metadata, HashMap::new());
    assert_eq!(it.curr_mod_idx(), ModuleID(1));
    assert_eq!(drive(&mut it), vec![comp(1, 0, 0), comp(1, 1, 0)]);
}

#[test]
fn getters_follow_the_cursor() {
    let mut it = two_module_component();
    assert_eq!(it.curr_mod_idx(), ModuleID(0));
    assert_eq!(it.curr_func_idx(), FunctionID(0));
    assert_eq!(it.curr_instr_idx(), 0);
    it.next();
    assert_eq!(it.curr_instr_idx(), 1);
    it.next();
    it.next();
    assert_eq!(it.curr_mod_idx(), ModuleID(1));
    assert_eq!(it.curr_func_idx(), FunctionID(0));
    assert_eq!(it.curr_instr_idx(), 0);
}

#[test]
fn largest_function_index_is_reached() {
    let mut metadata = HashMap::new();
    metadata.insert(0, counts(&[(u32::MAX, 2), (5, 1)]));
    let mut it = ComponentSubIterator::new(ModuleID(0), 1, metadata, HashMap::new());
    assert_eq!(drive(&mut it), vec![comp(0, 5, 0), comp(0, u32::MAX, 0), comp(0, u32::MAX, 1)]);
}

#[test]
fn module_cursor_walks_functions_in_index_order() {
    let mut it = ModuleSubIterator::new(counts(&[(9, 1), (4, 2), (6, 1)]), vec![6]);
    assert!(it.has_next());
    assert_eq!(it.curr_loc(), Ok((local(4, 0), false)));
    assert_eq!(drive_module(&mut it), vec![local(4, 0), local(4, 1), local(9, 0)]);
    assert!(it.end());
    assert!(!it.has_next());
    assert!(!it.next());
    assert_eq!(it.curr_loc(), Err(Error::NotAtInstruction));
    it.reset();
    assert_eq!(it.curr_func_idx(), FunctionID(4));
    assert_eq!(it.curr_instr_idx(), 0);
    assert_eq!(drive_module(&mut it), vec![local(4, 0), local(4, 1), local(9, 0)]);
}

#[test]
fn module_cursor_has_next_is_false_at_the_last_site() {
    let mut it = ModuleSubIterator::new(counts(&[(0, 2)]), vec![]);
    assert!(it.has_next());
    assert!(it.next());
    assert!(!it.has_next());
    assert_eq!(it.curr_loc(), Ok((local(0, 1), true)));
    assert!(!it.next());
    assert!(it.end());
}

#[test]
fn search_finds_least_function_from_a_start() {
    let m = counts(&[(3, 1), (8, 2), (5, 0), (6, 4)]);
    assert_eq!(least_visitable_from(&m, &vec![], 0), Some((3, 1)));
    assert_eq!(least_visitable_from(&m, &vec![], 4), Some((6, 4)));
    assert_eq!(least_visitable_from(&m, &vec![6], 4), Some((8, 2)));
    assert_eq!(least_visitable_from(&m, &vec![6, 8], 4), None);
    assert_eq!(least_visitable_from(&m, &vec![], 9), None);
    assert!(is_skipped(&vec![1, 2, 3], 2));
    assert!(!is_skipped(&vec![1, 2, 3], 4));
    assert!(!is_skipped(&vec![], 0));
}

#[test]
fn function_cursor_counts_instructions() {
    let mut it = FuncSubIterator::new(2);
    assert!(it.has_next());
    assert!(!it.at_last());
    assert!(!it.end());
    assert!(it.next());
    assert!(!it.has_next());
    assert!(it.at_last());
    assert!(!it.next());
    assert!(it.end());
    assert!(!it.next());
    assert_eq!(it.curr_instr, 2);
    it.reset(1);
    assert_eq!(it.curr_instr, 0);
    assert!(it.at_last());
    assert!(!it.next());
    assert!(it.end());
    let empty = FuncSubIterator::new(0);
    assert!(empty.end());
    assert!(!empty.has_next());
}
