use hex_mesh::hex::{directions, Direction, HexCoord};
use rand::Rng;

#[test]
fn zero_sum_invariant() {
    let dirs = directions();
    let mut current = HexCoord::origin();
    let mut rand = rand::thread_rng();
    for _ in 0..1000 {
        let dir = dirs[rand.gen_range(0..dirs.len())];
        current = current.neighbor(dir);
    }
}

#[test]
fn enumerate_neighbors() {
    let mut rand = rand::thread_rng();
    let (q, r): (isize, isize) = (rand.gen_range(-100..100), rand.gen_range(-100..100));
    let point = HexCoord::new(q, r);
    let neighbors: Vec<_> = point.neighbors();
    assert_eq!(6, neighbors.len());
    for (neighbor, dir) in neighbors.iter().zip(directions()) {
        assert_eq!(point, neighbor.neighbor(dir.opposite()));
    }
}

#[test]
fn new_derives_s_to_zero_sum() {
    for (q, r) in [(0, 0), (1, 2), (-3, 7), (250, -1000), (-42, -58)] {
        let c = HexCoord::new(q, r);
        assert_eq!(c.q, q);
        assert_eq!(c.r, r);
        assert_eq!(c.q + c.r + c.s, 0);
    }
}

#[test]
fn origin_is_all_zero() {
    let o = HexCoord::origin();
    assert_eq!(o, HexCoord { q: 0, r: 0, s: 0 });
}

#[test]
fn origin_neighbors_in_order() {
    let expected = [(0, -1, 1), (1, -1, 0), (1, 0, -1), (0, 1, -1), (-1, 1, 0), (-1, 0, 1)];
    let neighbors = HexCoord::origin().neighbors();
    assert_eq!(neighbors.len(), 6);
    for (n, (q, r, s)) in neighbors.iter().zip(expected) {
        assert_eq!(*n, HexCoord { q, r, s });
    }
    // Calling it again on the same coordinate reproduces the identical sequence.
    assert_eq!(HexCoord::origin().neighbors(), neighbors);
}

#[test]
fn direction_step_deltas() {
    let c = HexCoord::new(3, -5);
    assert_eq!(c.north(), HexCoord::new(3, -6));
    assert_eq!(c.south(), HexCoord::new(3, -4));
    assert_eq!(c.northeast(), HexCoord::new(4, -6));
    assert_eq!(c.southwest(), HexCoord::new(2, -4));
    assert_eq!(c.northwest(), HexCoord::new(2, -5));
    assert_eq!(c.southeast(), HexCoord::new(4, -5));
}

#[test]
fn neighbor_stay_returns_self() {
    let c = HexCoord::new(-7, 11);
    assert_eq!(c.neighbor(Direction::Stay), c);
}

#[test]
fn opposite_is_an_involution() {
    let mut all = directions();
    all.push(Direction::Stay);
    for d in all {
        assert_eq!(d.opposite().opposite(), d);
    }
    assert_eq!(Direction::North.opposite(), Direction::South);
    assert_eq!(Direction::Northeast.opposite(), Direction::Southwest);
    assert_eq!(Direction::Southeast.opposite(), Direction::Northwest);
    assert_eq!(Direction::Stay.opposite(), Direction::Stay);
}

#[test]
fn neighbor_then_opposite_returns() {
    let c = HexCoord::new(12, -34);
    for d in directions() {
        assert_eq!(c.neighbor(d).neighbor(d.opposite()), c);
    }
}
