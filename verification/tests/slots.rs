use dm_spine_bevy::mesh_data::vertex_pairs;
use dm_spine_bevy::slots::ChildSlots;

#[test]
fn slots_grow_by_appending() {
    let mut s: ChildSlots<u32, &str, char> = ChildSlots::new();
    assert_eq!(s.len(), 0);
    assert_eq!(s.missing(2), 2);
    s.push(10, "a", 'x');
    s.push(11, "b", 'y');
    assert_eq!(s.len(), 2);
    assert_eq!(s.missing(2), 0);
    assert_eq!(s.missing(1), 0);
    assert_eq!(*s.mesh(0), 10);
    assert_eq!(*s.material(1), "b");
    assert_eq!(*s.child(1), 'y');
    s.push(12, "c", 'z');
    assert_eq!(*s.mesh(0), 10);
    assert_eq!(*s.child(2), 'z');
}

#[test]
fn trailing_slots_are_hidden() {
    let mut s: ChildSlots<u8, u8, u8> = ChildSlots::new();
    for i in 0..4 {
        s.push(i, i, i);
    }
    assert_eq!(s.visibility(2), vec![true, true, false, false]);
    assert_eq!(s.visibility(0), vec![false; 4]);
    assert_eq!(s.visibility(9), vec![true; 4]);
}

#[test]
fn vertex_pairs_deinterleave() {
    let flat = [1.0f32, 2.0, 3.0, 4.0, 5.0, 6.0, 7.0];
    assert_eq!(vertex_pairs(&flat, 3), vec![(1.0, 2.0), (3.0, 4.0), (5.0, 6.0)]);
    assert_eq!(vertex_pairs(&flat, 0), vec![]);
}

#[test]
fn grow_appends_missing_slots_once() {
    let mut s: ChildSlots<u8, u8, u8> = ChildSlots::new();
    s.push(1, 1, 1);
    s.grow(3, vec![(2, 2, 2), (3, 3, 3)]);
    assert_eq!(s.len(), 3);
    assert_eq!((*s.mesh(0), *s.mesh(1), *s.child(2)), (1, 2, 3));
    assert_eq!(s.missing(3), 0);
    s.grow(3, vec![]);
    assert_eq!(s.len(), 3);
    s.grow(1, vec![]);
    assert_eq!(s.len(), 3);
    assert_eq!(s.visibility(1), vec![true, false, false]);
}
