use ferilous_fluids::heightfield::{new, Heightfield, Stencil};

const DAMPENING_FACTOR: f64 = 0.998;

fn relax(velocity: f64, s: Stencil<f64>) -> f64 {
    let acceleration = (s.north + s.south + s.west + s.east) / 4.0 - s.own;
    (velocity + acceleration) * DAMPENING_FACTOR
}

fn advance(field: &mut Heightfield<f64>, dt: f64) {
    field.step(relax, move |h: f64, v: f64| (h + v * dt).clamp(0.0, 1.0));
}

fn close(a: f64, b: f64) -> bool {
    (a - b).abs() < 1e-12
}

#[test]
fn new_has_one_value_per_cell() {
    let field = new(4, 3, 0.1, 0.0);
    assert_eq!(field.width, 4);
    assert_eq!(field.height, 3);
    assert_eq!(field.z.len(), 12);
    assert_eq!(field.dz.len(), 12);
}

#[test]
fn new_sets_initial_state() {
    let field = new(5, 2, 0.1, 0.0);
    assert!(field.z.iter().all(|&h| h == 0.1));
    assert!(field.dz.iter().all(|&v| v == 0.0));
}

#[test]
fn set_height_writes_row_major_cell() {
    let mut field = new(3, 2, 0.1, 0.0);
    field.set_height(2, 1, 0.7);
    assert_eq!(field.z[5], 0.7);
    field.set_height(1, 0, 0.3);
    assert_eq!(field.z[1], 0.3);
    assert_eq!(field.z.iter().filter(|&&h| h == 0.1).count(), 4);
}

#[test]
fn set_height_out_of_bounds_is_noop() {
    let mut field = new(3, 3, 0.1, 0.0);
    field.set_height(1, 1, 1.0);
    advance(&mut field, 0.0);
    let z = field.z.clone();
    let dz = field.dz.clone();
    field.set_height(3, 0, 0.9);
    field.set_height(0, 3, 0.9);
    field.set_height(3, 1, 0.9);
    field.set_height(usize::MAX, usize::MAX, 0.9);
    assert_eq!(field.z, z);
    assert_eq!(field.dz, dz);
}

#[test]
fn stencil_reflects_at_edges() {
    let mut field = new(3, 2, 0.0, 0.0);
    for i in 0..6 {
        field.z[i] = i as f64;
    }
    let corner = field.stencil_at(0);
    assert_eq!(
        (corner.own, corner.north, corner.south, corner.west, corner.east),
        (0.0, 0.0, 3.0, 0.0, 1.0)
    );
    let edge = field.stencil_at(4);
    assert_eq!(
        (edge.own, edge.north, edge.south, edge.west, edge.east),
        (4.0, 1.0, 4.0, 3.0, 5.0)
    );
    let last = field.stencil_at(5);
    assert_eq!(
        (last.own, last.north, last.south, last.west, last.east),
        (5.0, 2.0, 5.0, 4.0, 5.0)
    );
}

#[test]
fn stencil_of_interior_cell_reads_four_neighbours() {
    let mut field = new(3, 3, 0.0, 0.0);
    for i in 0..9 {
        field.z[i] = i as f64;
    }
    let s = field.stencil_at(4);
    assert_eq!((s.own, s.north, s.south, s.west, s.east), (4.0, 1.0, 7.0, 3.0, 5.0));
}

#[test]
fn splash_in_centre_relaxes() {
    let mut field = new(3, 3, 0.1, 0.0);
    field.set_height(1, 1, 1.0);
    advance(&mut field, 1.0);
    assert!(close(field.dz[4], -0.8982));
    assert!(close(field.z[4], 0.1018));
    for &i in &[1usize, 3, 5, 7] {
        assert!(close(field.dz[i], 0.225 * 0.998));
        assert!(close(field.z[i], 0.1 + 0.225 * 0.998));
    }
    for &i in &[0usize, 2, 6, 8] {
        assert!(close(field.dz[i], 0.0));
        assert!(close(field.z[i], 0.1));
    }
}

#[test]
fn zero_dt_keeps_heights_but_updates_velocities() {
    let mut field = new(3, 3, 0.1, 0.0);
    field.set_height(1, 1, 1.0);
    let z = field.z.clone();
    advance(&mut field, 0.0);
    assert_eq!(field.z, z);
    assert!(close(field.dz[4], -0.8982));
    advance(&mut field, 0.0);
    assert_eq!(field.z, z);
    assert!(close(field.dz[4], (-0.8982 - 0.9) * 0.998));
}

#[test]
fn flat_field_stays_at_rest() {
    let mut field = new(4, 5, 0.5, 0.0);
    advance(&mut field, 0.25);
    assert!(field.z.iter().all(|&h| h == 0.5));
    assert!(field.dz.iter().all(|&v| v == 0.0));
}

#[test]
fn single_cell_never_relaxes() {
    let mut field = new(1, 1, 0.1, 0.0);
    field.set_height(0, 0, 0.8);
    let s = field.stencil_at(0);
    assert_eq!((s.own, s.north, s.south, s.west, s.east), (0.8, 0.8, 0.8, 0.8, 0.8));
    for _ in 0..10 {
        advance(&mut field, 0.5);
    }
    assert_eq!(field.z[0], 0.8);
    assert_eq!(field.dz[0], 0.0);
}

#[test]
fn heights_stay_clamped() {
    let mut field = new(6, 4, 0.1, 0.0);
    field.set_height(2, 2, 1.0);
    field.set_height(5, 0, -3.0);
    field.set_height(0, 3, 4.0);
    for step in 0..50 {
        advance(&mut field, 0.1 * step as f64);
        assert!(field.z.iter().all(|&h| (0.0..=1.0).contains(&h)));
    }
}

#[test]
fn set_height_may_leave_range_until_next_step() {
    let mut field = new(2, 2, 0.1, 0.0);
    field.set_height(0, 0, 2.5);
    assert_eq!(field.z[0], 2.5);
    advance(&mut field, 0.0);
    assert_eq!(field.z[0], 1.0);
}
