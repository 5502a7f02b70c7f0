use gltr::defaults::{
    animation_sampler_default_interpolation, default_0, default_1, material_default_alpha_mode,
};
use gltr::ops::VecExt;
use gltr::prelude::GltrExtractFlags;

fn center() -> GltrExtractFlags {
    GltrExtractFlags::empty().center_objects()
}

fn recalculate() -> GltrExtractFlags {
    GltrExtractFlags::empty().recalculate_buffers()
}

#[test]
fn empty_set_has_no_flag() {
    let flags = GltrExtractFlags::empty();
    assert!(!flags.has_flag(center()));
    assert!(!flags.has_flag(recalculate()));
    assert!(!flags.has_flag(GltrExtractFlags::all()));
    assert!(!flags.has_flag(GltrExtractFlags::empty()));
}

#[test]
fn full_set_has_every_flag() {
    let flags = GltrExtractFlags::all();
    assert!(flags.has_flag(center()));
    assert!(flags.has_flag(recalculate()));
    assert!(!flags.has_flag(GltrExtractFlags::empty()));
}

#[test]
fn flags_are_independent() {
    assert!(center().has_flag(center()));
    assert!(!center().has_flag(recalculate()));
    assert!(recalculate().has_flag(recalculate()));
    assert!(!recalculate().has_flag(center()));
}

#[test]
fn flags_combine_with_or() {
    let both = center() | recalculate();
    assert!(both.has_flag(center()));
    assert!(both.has_flag(recalculate()));
    let same = center() | center();
    assert!(same.has_flag(center()));
    assert!(!same.has_flag(recalculate()));
    let kept = center() | GltrExtractFlags::empty();
    assert!(kept.has_flag(center()));
    assert!(!kept.has_flag(recalculate()));
    let chained = GltrExtractFlags::empty().center_objects().recalculate_buffers();
    assert!(chained.has_flag(center()) && chained.has_flag(recalculate()));
    let again = GltrExtractFlags::all().center_objects();
    assert!(again.has_flag(center()) && again.has_flag(recalculate()));
}

#[test]
fn any_shared_flag_counts() {
    let both = center() | recalculate();
    assert!(center().has_flag(both));
    assert!(recalculate().has_flag(both));
}

#[test]
fn schema_defaults() {
    assert_eq!(default_0(), 0);
    assert_eq!(default_1(), 1);
    assert_eq!(material_default_alpha_mode(), "OPAQUE");
    assert_eq!(animation_sampler_default_interpolation(), "LINEAR");
}

#[test]
fn push_without_a_match_appends() {
    let mut v = vec![1, 2, 3];
    v.push_if_no_match(4, |x| *x == 4);
    assert_eq!(v, vec![1, 2, 3, 4]);
    let mut e: Vec<u8> = vec![];
    e.push_if_no_match(1, |_| true);
    assert_eq!(e, vec![1]);
}

#[test]
fn push_with_a_match_changes_nothing() {
    let mut v = vec![1, 2, 3];
    v.push_if_no_match(4, |x| *x == 2);
    assert_eq!(v, vec![1, 2, 3]);
    v.push_if_no_match(3, |x| *x == 3);
    assert_eq!(v, vec![1, 2, 3]);
}

#[test]
fn push_tests_items_up_to_the_first_match() {
    let seen = std::cell::RefCell::new(Vec::new());
    let mut v = vec![10, 20, 30];
    v.push_if_no_match(40, |x| {
        seen.borrow_mut().push(*x);
        *x == 20
    });
    assert_eq!(*seen.borrow(), vec![10, 20]);
    assert_eq!(v, vec![10, 20, 30]);
}
