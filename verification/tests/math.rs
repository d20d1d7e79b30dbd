use wavefront::math::constants::{
    E_AL, FFT_WINDOW_SIZE, NUM_INDEX, PIXEL_SIZE, SIMULATION_HEIGHT, SIMULATION_WIDTH,
};
use wavefront::math::rect::Point;
use wavefront::math::sqrt::isqrt;
use wavefront::math::transformations::{
    coords_to_index, depth_in_ring, index_to_coords, lattice_fits_in_memory, to_lattice,
};
use wavefront::math::transformations::{port_index, WIDEST_PORTABLE_RING};
use wavefront::simulation::ports::{
    feeding_port, incoming_port, outgoing_port, pressure_port, Direction,
};

#[test]
fn constants() {
    assert_eq!(SIMULATION_WIDTH, 700);
    assert_eq!(SIMULATION_HEIGHT, 700);
    assert_eq!(PIXEL_SIZE, 1);
    assert_eq!(NUM_INDEX, 9);
    assert_eq!(FFT_WINDOW_SIZE, 2048);
    assert_eq!(E_AL, 50);
}

#[test]
fn point_new() {
    assert_eq!(Point::new(3, 4), Point { x: 3, y: 4 });
}

#[test]
fn isqrt_rounds_down() {
    assert_eq!(isqrt(0), 0);
    assert_eq!(isqrt(1), 1);
    assert_eq!(isqrt(2), 1);
    assert_eq!(isqrt(3), 1);
    assert_eq!(isqrt(4), 2);
    assert_eq!(isqrt(24), 4);
    assert_eq!(isqrt(25), 5);
    assert_eq!(isqrt(26), 5);
    assert_eq!(isqrt(1_000_000), 1000);
    assert_eq!(isqrt(999_999), 999);
}

#[test]
fn isqrt_of_the_largest_numbers() {
    assert_eq!(isqrt(u64::MAX), u32::MAX);
    assert_eq!(isqrt((u32::MAX as u64) * (u32::MAX as u64)), u32::MAX);
    assert_eq!(isqrt((u32::MAX as u64) * (u32::MAX as u64) - 1), u32::MAX - 1);
    assert_eq!(isqrt(1 << 62), 1 << 31);
}

#[test]
fn isqrt_brackets_its_argument() {
    for n in 0..20_000u64 {
        let r = isqrt(n) as u64;
        assert!(r * r <= n && n < (r + 1) * (r + 1));
    }
}

#[test]
fn coords_to_index_is_row_major() {
    assert_eq!(coords_to_index(0, 0, 50), 0);
    assert_eq!(coords_to_index(799, 0, 50), 799);
    assert_eq!(coords_to_index(0, 1, 50), 800);
    assert_eq!(coords_to_index(5, 7, 50), 7 * 800 + 5);
    assert_eq!(coords_to_index(799, 799, 50), 800 * 800 - 1);
    assert_eq!(coords_to_index(5, 7, 2), 7 * 704 + 5);
}

#[test]
fn index_to_coords_undoes_coords_to_index() {
    assert_eq!(index_to_coords(0, 50), (0, 0));
    assert_eq!(index_to_coords(7 * 800 + 5, 50), (5, 7));
    assert_eq!(index_to_coords(800 * 800 - 1, 50), (799, 799));
    for b in [2u32, 50] {
        let width = 700 + 2 * b;
        for index in (0..(width * width) as usize).step_by(997) {
            let (x, y) = index_to_coords(index, b);
            assert!(x < width && y < width);
            assert_eq!(coords_to_index(x, y, b), index);
        }
    }
}

#[test]
fn lattice_fits_until_it_cannot_be_indexed() {
    assert!(lattice_fits_in_memory(0));
    assert!(lattice_fits_in_memory(50));
    assert!(lattice_fits_in_memory(10_000));
    assert!(!lattice_fits_in_memory(u32::MAX));
    assert!(!lattice_fits_in_memory(u32::MAX / 2));
}

#[test]
fn depth_in_ring_counts_from_the_area() {
    assert_eq!(depth_in_ring(50, 50, 50), 0);
    assert_eq!(depth_in_ring(749, 749, 50), 0);
    assert_eq!(depth_in_ring(400, 400, 50), 0);
    assert_eq!(depth_in_ring(49, 400, 50), 1);
    assert_eq!(depth_in_ring(750, 400, 50), 1);
    assert_eq!(depth_in_ring(400, 49, 50), 1);
    assert_eq!(depth_in_ring(400, 750, 50), 1);
    assert_eq!(depth_in_ring(0, 400, 50), 50);
    assert_eq!(depth_in_ring(799, 400, 50), 50);
    assert_eq!(depth_in_ring(0, 0, 50), 50);
    assert_eq!(depth_in_ring(40, 30, 50), 20);
    assert_eq!(depth_in_ring(760, 795, 50), 46);
}

#[test]
fn to_lattice_adds_the_ring() {
    assert_eq!(to_lattice(0, 0, 50), (50, 50));
    assert_eq!(to_lattice(699, 12, 2), (701, 14));
}

#[test]
fn port_index_counts_nine_values_per_cell() {
    assert_eq!(port_index(0, 0, 0, 50), 0);
    assert_eq!(port_index(0, 0, 8, 50), 8);
    assert_eq!(port_index(1, 0, 0, 50), 9);
    assert_eq!(port_index(5, 7, 4, 50), (7 * 800 + 5) * 9 + 4);
    assert_eq!(port_index(799, 799, 8, 50), 800 * 800 * 9 - 1);
}

#[test]
fn portable_rings_fit() {
    assert!(lattice_fits_in_memory(WIDEST_PORTABLE_RING));
    let side = 700 + 2 * WIDEST_PORTABLE_RING as u64;
    assert!(9 * side * side <= u32::MAX as u64);
    assert!(9 * (side + 2) * (side + 2) > u32::MAX as u64);
}

#[test]
fn ports_of_a_cell_follow_each_other() {
    let b = 50;
    let base = (7 * 800 + 5) * 9;
    assert_eq!(incoming_port(5, 7, Direction::Bottom, b), base);
    assert_eq!(incoming_port(5, 7, Direction::Left, b), base + 1);
    assert_eq!(incoming_port(5, 7, Direction::Top, b), base + 2);
    assert_eq!(incoming_port(5, 7, Direction::Right, b), base + 3);
    assert_eq!(outgoing_port(5, 7, Direction::Bottom, b), base + 4);
    assert_eq!(outgoing_port(5, 7, Direction::Right, b), base + 7);
    assert_eq!(pressure_port(5, 7, b), base + 8);
    assert_eq!(Direction::Left.index(), 1);
    assert_eq!(Direction::Left.reversed(), Direction::Right);
    assert_eq!(Direction::Top.reversed(), Direction::Bottom);
}

#[test]
fn flux_arrives_from_the_neighbour_that_sends_it() {
    let b = 50;
    assert_eq!(
        feeding_port(5, 7, Direction::Bottom, b),
        Some(outgoing_port(5, 8, Direction::Top, b))
    );
    assert_eq!(
        feeding_port(5, 7, Direction::Left, b),
        Some(outgoing_port(4, 7, Direction::Right, b))
    );
    assert_eq!(
        feeding_port(5, 7, Direction::Top, b),
        Some(outgoing_port(5, 6, Direction::Bottom, b))
    );
    assert_eq!(
        feeding_port(5, 7, Direction::Right, b),
        Some(outgoing_port(6, 7, Direction::Left, b))
    );
}

#[test]
fn nothing_arrives_from_beyond_the_lattice() {
    let b = 50;
    assert_eq!(feeding_port(0, 7, Direction::Left, b), None);
    assert_eq!(feeding_port(799, 7, Direction::Right, b), None);
    assert_eq!(feeding_port(5, 0, Direction::Top, b), None);
    assert_eq!(feeding_port(5, 799, Direction::Bottom, b), None);
    assert!(feeding_port(0, 0, Direction::Right, b).is_some());
    assert!(feeding_port(799, 799, Direction::Top, b).is_some());
}

#[test]
fn every_outgoing_port_feeds_at_most_one_incoming_port() {
    let b = 2;
    let side = 704u32;
    let directions = [Direction::Bottom, Direction::Left, Direction::Top, Direction::Right];
    let mut fed = vec![0u8; (side * side * 9) as usize];
    for y in 0..side {
        for x in 0..side {
            for direction in directions {
                if let Some(source) = feeding_port(x, y, direction, b) {
                    fed[source] += 1;
                    assert_eq!(source % 9 / 4, 1);
                }
            }
        }
    }
    assert!(fed.iter().all(|count| *count <= 1));
    let unfed = (0..side * side * 9)
        .filter(|i| i % 9 >= 4 && i % 9 < 8 && fed[*i as usize] == 0)
        .count();
    assert_eq!(unfed, 4 * side as usize);
}
