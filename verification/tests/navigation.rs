use foxtrot::navigation::{get_closest_vertex, OffsetSign, Probe};

#[test]
fn first_probe_is_the_position() {
    let r = get_closest_vertex(|_p: Probe| true);
    assert_eq!(r, Some(Probe { x: 0, y: 0, sign: OffsetSign::Plus }));
}

#[test]
fn no_probe_in_mesh() {
    assert_eq!(get_closest_vertex(|_p: Probe| false), None);
}

#[test]
fn probes_go_row_by_row_plus_before_minus() {
    let r = get_closest_vertex(|p: Probe| p.x == 2 && p.y == 3);
    assert_eq!(r, Some(Probe { x: 2, y: 3, sign: OffsetSign::Plus }));
    let r = get_closest_vertex(|p: Probe| p.sign == OffsetSign::Minus && p.y == 1);
    assert_eq!(r, Some(Probe { x: 0, y: 1, sign: OffsetSign::Minus }));
    let r = get_closest_vertex(|p: Probe| p.x == 9 && p.y == 9 && p.sign == OffsetSign::Minus);
    assert_eq!(r, Some(Probe { x: 9, y: 9, sign: OffsetSign::Minus }));
    // y is the inner loop, so (0, 5) is tried before (1, 0).
    let r = get_closest_vertex(|p: Probe| (p.x == 1 && p.y == 0) || (p.x == 0 && p.y == 5));
    assert_eq!(r, Some(Probe { x: 0, y: 5, sign: OffsetSign::Plus }));
}

#[test]
fn probes_are_tried_in_order_and_stop_at_the_hit() {
    let tried = std::cell::RefCell::new(Vec::new());
    let r = get_closest_vertex(|p: Probe| {
        tried.borrow_mut().push(p);
        p.x == 0 && p.y == 1 && p.sign == OffsetSign::Plus
    });
    assert_eq!(r, Some(Probe { x: 0, y: 1, sign: OffsetSign::Plus }));
    assert_eq!(
        tried.into_inner(),
        vec![
            Probe { x: 0, y: 0, sign: OffsetSign::Plus },
            Probe { x: 0, y: 0, sign: OffsetSign::Minus },
            Probe { x: 0, y: 1, sign: OffsetSign::Plus },
        ]
    );
}

#[test]
fn all_two_hundred_probes_are_tried() {
    let count = std::cell::Cell::new(0u32);
    let r = get_closest_vertex(|_p: Probe| {
        count.set(count.get() + 1);
        false
    });
    assert_eq!(r, None);
    assert_eq!(count.get(), 200);
}

use foxtrot::navigation::{has_navmesh_tag, read_navmesh};

#[test]
fn navmesh_tag_in_any_case() {
    assert!(read_navmesh("Floor [NavMesh]"));
    assert!(read_navmesh("[NAVMESH] ground"));
    assert!(read_navmesh("level_[navmesh]_01"));
    assert!(!read_navmesh("Floor [Nav Mesh]"));
    assert!(!read_navmesh("navmesh"));
    assert!(!read_navmesh(""));
}

#[test]
fn navmesh_tag_of_lowercased_name() {
    assert!(has_navmesh_tag("[navmesh]"));
    assert!(has_navmesh_tag("x[navmesh]y"));
    // The tag is looked for as given: upper case is not matched here.
    assert!(!has_navmesh_tag("[NavMesh]"));
    assert!(!has_navmesh_tag("[navmesh"));
}
