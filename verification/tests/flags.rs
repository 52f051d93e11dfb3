use glslang_safe::flags::{CompileOption, CompileOptionFlags};

#[test]
fn named_flags_have_their_bits() {
    assert_eq!(CompileOptionFlags::empty().bits(), 0);
    assert_eq!(CompileOptionFlags::generate_debug_info().bits(), 0b0001);
    assert_eq!(CompileOptionFlags::add_op_source().bits(), 0b0010);
    assert_eq!(CompileOptionFlags::all().bits(), 0b0011);
}

#[test]
fn from_bits_accepts_named_bits_only() {
    assert_eq!(CompileOptionFlags::from_bits(0), Some(CompileOptionFlags::empty()));
    assert_eq!(CompileOptionFlags::from_bits(1), Some(CompileOptionFlags::generate_debug_info()));
    assert_eq!(CompileOptionFlags::from_bits(2), Some(CompileOptionFlags::add_op_source()));
    assert_eq!(CompileOptionFlags::from_bits(3), Some(CompileOptionFlags::all()));
    assert_eq!(CompileOptionFlags::from_bits(4), None);
    assert_eq!(CompileOptionFlags::from_bits(5), None);
    assert_eq!(CompileOptionFlags::from_bits(u32::MAX), None);
}

#[test]
fn from_bits_truncate_drops_other_bits() {
    assert_eq!(CompileOptionFlags::from_bits_truncate(0b1110), CompileOptionFlags::add_op_source());
    assert_eq!(CompileOptionFlags::from_bits_truncate(u32::MAX), CompileOptionFlags::all());
    assert_eq!(CompileOptionFlags::from_bits_truncate(0b100), CompileOptionFlags::empty());
}

#[test]
fn bits_round_trip() {
    for bits in 0u32..4 {
        let flags = CompileOptionFlags::from_bits(bits).unwrap();
        assert_eq!(flags.bits(), bits);
    }
}

#[test]
fn contains_is_inclusion() {
    let debug = CompileOptionFlags::generate_debug_info();
    let source = CompileOptionFlags::add_op_source();
    let all = CompileOptionFlags::all();
    let none = CompileOptionFlags::empty();
    assert!(all.contains(debug));
    assert!(all.contains(source));
    assert!(all.contains(all));
    assert!(debug.contains(none));
    assert!(none.contains(none));
    assert!(!debug.contains(source));
    assert!(!source.contains(debug));
    assert!(!debug.contains(all));
    assert!(!none.contains(debug));
}

#[test]
fn intersects_is_a_shared_option() {
    let debug = CompileOptionFlags::generate_debug_info();
    let source = CompileOptionFlags::add_op_source();
    let all = CompileOptionFlags::all();
    let none = CompileOptionFlags::empty();
    assert!(all.intersects(debug));
    assert!(debug.intersects(all));
    assert!(source.intersects(source));
    assert!(!debug.intersects(source));
    assert!(!none.intersects(all));
    assert!(!all.intersects(none));
}

#[test]
fn union_intersection_and_insert() {
    let debug = CompileOptionFlags::generate_debug_info();
    let source = CompileOptionFlags::add_op_source();
    assert_eq!(debug.union(source), CompileOptionFlags::all());
    assert_eq!(debug.union(debug), debug);
    assert_eq!(debug.intersection(source), CompileOptionFlags::empty());
    assert_eq!(CompileOptionFlags::all().intersection(source), source);
    let mut flags = CompileOptionFlags::empty();
    assert!(flags.is_empty());
    flags.insert(source);
    assert_eq!(flags, source);
    assert!(!flags.is_empty());
    assert!(!flags.is_all());
    flags.insert(debug);
    assert!(flags.is_all());
}

#[test]
fn has_tells_single_options() {
    let source = CompileOptionFlags::add_op_source();
    assert!(source.has(CompileOption::AddOpSource));
    assert!(!source.has(CompileOption::GenerateDebugInfo));
    assert!(CompileOptionFlags::all().has(CompileOption::GenerateDebugInfo));
    assert!(!CompileOptionFlags::empty().has(CompileOption::AddOpSource));
}
