//! Enclosed cavities and separate bodies, on small blocks of unit cells.

use growforge::grid::{CellKind, Grid};
use growforge::scalar::Scalar;
use growforge::voids::{body_labels, cell_density, detect, resolve, solid_bodies, VoidPolicy};

fn s(value: f64) -> Scalar {
    Scalar {
        bits: value.to_bits(),
    }
}

fn values(densities: &[Scalar]) -> Vec<f64> {
    densities.iter().map(|d| f64::from_bits(d.bits)).collect()
}

/// Middle of a group of unit cells with the block's corner at the origin.
fn centroid(index_sum: [u128; 3], cells: usize) -> [f64; 3] {
    index_sum.map(|sum| sum as f64 / cells as f64 + 0.5)
}

/// A cube of design cells, `n` on a side.
fn design_grid(n: usize) -> Grid {
    Grid {
        nx: n,
        ny: n,
        nz: n,
        cells: vec![CellKind::Design; n * n * n],
    }
}

/// A solid block with a hollow core of side `hole`, centred.
fn hollow(n: usize, hole: usize) -> (Grid, Vec<Scalar>) {
    let grid = design_grid(n);
    let mut densities = vec![s(1.0); grid.n_cells()];
    let lo = (n - hole) / 2;
    for k in lo..lo + hole {
        for j in lo..lo + hole {
            for i in lo..lo + hole {
                densities[grid.cell_index(i, j, k)] = s(0.0);
            }
        }
    }
    (grid, densities)
}

#[test]
fn a_hollow_cube_has_exactly_one_enclosed_void() {
    let (grid, densities) = hollow(7, 3);
    let voids = detect(&grid, &densities, s(0.5));
    assert_eq!(voids.len(), 1);
    assert_eq!(voids[0].cells, 27);
    // A cell is a cubic millimetre here.
    assert!((voids[0].cells as f64 - 27.0).abs() < 1e-12);
    // The hole is centred on the block, so its centroid is the centre.
    for component in centroid(voids[0].index_sum, voids[0].cells) {
        assert!((component - 3.5).abs() < 1e-12, "centroid {component}");
    }
    assert!(voids[0].fillable);
}

#[test]
fn an_open_channel_encloses_nothing() {
    let (grid, mut densities) = hollow(7, 3);
    // Drill the cavity out to the face along +x.
    for i in 5..7 {
        densities[grid.cell_index(i, 3, 3)] = s(0.0);
    }
    assert!(detect(&grid, &densities, s(0.5)).is_empty());
}

#[test]
fn a_diagonal_leak_is_not_an_escape_path() {
    let (grid, mut densities) = hollow(7, 3);
    // An empty channel out to the +x face whose inner end only shares an edge
    // with the cavity at (4, 4, 3). With face connectivity that is not a drain,
    // which is the conservative reading.
    densities[grid.cell_index(5, 5, 3)] = s(0.0);
    densities[grid.cell_index(6, 5, 3)] = s(0.0);
    let voids = detect(&grid, &densities, s(0.5));
    assert_eq!(voids.len(), 1, "the channel drained the cavity");
    assert_eq!(voids[0].cells, 27);
}

#[test]
fn fill_mode_fills_exactly_the_enclosed_cells() {
    let (grid, densities) = hollow(7, 3);
    let before = values(&densities);
    let mut filled = densities;
    let report = resolve(&grid, &mut filled, s(0.5), VoidPolicy::Fill);
    assert_eq!(report.filled_cells, 27);
    let filled_volume_mm3 = report.filled_cells as f64;
    assert!((filled_volume_mm3 - 27.0).abs() < 1e-12);
    // 27 mm3 at 2 g/cm3 is 54 mg.
    let added_mass_g = filled_volume_mm3 * 2.0 / 1000.0;
    assert!((added_mass_g - 0.054).abs() < 1e-12);
    assert_eq!(report.remaining(), 0);

    let after = values(&filled);
    let changed: Vec<usize> = (0..grid.n_cells())
        .filter(|&e| before[e] != after[e])
        .collect();
    assert_eq!(changed.len(), 27);
    for e in changed {
        assert_eq!(after[e], 1.0);
        assert_eq!(before[e], 0.0);
    }
    // Filling closed the cavity for good.
    assert!(detect(&grid, &filled, s(0.5)).is_empty());
}

#[test]
fn warn_mode_reports_without_touching_the_field() {
    let (grid, densities) = hollow(7, 3);
    let before = values(&densities);
    let mut kept = densities;
    let report = resolve(&grid, &mut kept, s(0.5), VoidPolicy::Warn);
    assert_eq!(values(&kept), before);
    assert_eq!(report.voids.len(), 1);
    assert_eq!(report.filled_cells, 0);
    assert_eq!(report.filled_cells as f64 * 2.0 / 1000.0, 0.0);
    assert_eq!(report.remaining(), 1);
}

#[test]
fn a_cavity_inside_a_keepout_is_reported_but_never_filled() {
    let (mut grid, densities) = hollow(7, 3);
    // Declare the hole a keepout, as a deliberate internal cavity would be.
    for k in 2..5 {
        for j in 2..5 {
            for i in 2..5 {
                let cell = grid.cell_index(i, j, k);
                grid.cells[cell] = CellKind::Void;
            }
        }
    }
    let before = values(&densities);
    let mut field = densities;
    let report = resolve(&grid, &mut field, s(0.5), VoidPolicy::Fill);
    assert_eq!(report.voids.len(), 1);
    assert!(!report.voids[0].fillable);
    assert_eq!(report.filled_cells, 0);
    assert_eq!(
        values(&field),
        before,
        "a keepout must survive the fill policy"
    );
    assert_eq!(report.remaining(), 1);
}

#[test]
fn two_separate_cavities_are_reported_largest_first() {
    let grid = design_grid(9);
    let mut densities = vec![s(1.0); grid.n_cells()];
    densities[grid.cell_index(2, 2, 2)] = s(0.0);
    for k in 5..7 {
        for j in 5..7 {
            for i in 5..7 {
                densities[grid.cell_index(i, j, k)] = s(0.0);
            }
        }
    }
    let voids = detect(&grid, &densities, s(0.5));
    assert_eq!(voids.len(), 2);
    assert_eq!(voids[0].cells, 8);
    assert_eq!(voids[1].cells, 1);
}

#[test]
fn a_solid_block_and_an_empty_block_both_enclose_nothing() {
    let grid = design_grid(5);
    assert!(detect(&grid, &vec![s(1.0); grid.n_cells()], s(0.5)).is_empty());
    assert!(detect(&grid, &vec![s(0.0); grid.n_cells()], s(0.5)).is_empty());
}

#[test]
fn one_part_is_one_body_and_an_empty_field_is_none() {
    let grid = design_grid(5);
    let whole = solid_bodies(&grid, &vec![s(1.0); grid.n_cells()], s(0.5));
    assert_eq!(whole.len(), 1);
    assert_eq!(whole[0].cells, grid.n_cells());
    assert!((whole[0].cells as f64 - grid.n_cells() as f64).abs() < 1e-12);
    for component in centroid(whole[0].index_sum, whole[0].cells) {
        assert!((component - 2.5).abs() < 1e-12, "centroid {component}");
    }
    assert!(solid_bodies(&grid, &vec![s(0.0); grid.n_cells()], s(0.5)).is_empty());
}

#[test]
fn a_floating_island_is_a_second_body_and_is_reported_after_the_part() {
    let grid = design_grid(9);
    let mut densities = vec![s(0.0); grid.n_cells()];
    // A bar of eight cells, and a single cell floating clear of it.
    for i in 0..8 {
        densities[grid.cell_index(i, 0, 0)] = s(1.0);
    }
    let island = grid.cell_index(4, 4, 4);
    densities[island] = s(1.0);

    let bodies = solid_bodies(&grid, &densities, s(0.5));
    assert_eq!(bodies.len(), 2, "the island has to come out separate");
    assert_eq!(bodies[0].cells, 8, "largest first");
    assert_eq!(bodies[1].cells, 1);
    assert_eq!(
        centroid(bodies[1].index_sum, bodies[1].cells),
        [4.5, 4.5, 4.5]
    );

    // Nothing else in the pipeline sees this: the island encloses no cavity.
    assert!(detect(&grid, &densities, s(0.5)).is_empty());
}

#[test]
fn a_diagonal_touch_is_not_a_joint() {
    // Two cells sharing only a corner are two bodies, which is the same
    // conservative reading of connectivity the cavity pass uses.
    let grid = design_grid(4);
    let mut densities = vec![s(0.0); grid.n_cells()];
    densities[grid.cell_index(1, 1, 1)] = s(1.0);
    densities[grid.cell_index(2, 2, 2)] = s(1.0);
    assert_eq!(solid_bodies(&grid, &densities, s(0.5)).len(), 2);

    // Sharing a face makes them one.
    densities[grid.cell_index(2, 2, 2)] = s(0.0);
    densities[grid.cell_index(2, 1, 1)] = s(1.0);
    assert_eq!(solid_bodies(&grid, &densities, s(0.5)).len(), 1);
}

#[test]
fn void_and_solid_cells_count_as_the_classifier_says_whatever_the_field_holds() {
    // A keepout cell is never material and a keepin cell always is.
    let mut grid = design_grid(5);
    let forced_void = grid.cell_index(0, 0, 0);
    let forced_solid = grid.cell_index(4, 4, 4);
    grid.cells[forced_void] = CellKind::Void;
    grid.cells[forced_solid] = CellKind::Solid;

    let mut densities = vec![s(0.0); grid.n_cells()];
    densities[forced_void] = s(1.0);
    let bodies = solid_bodies(&grid, &densities, s(0.5));
    assert_eq!(bodies.len(), 1, "only the keepin cell counts");
    assert_eq!(bodies[0].cells, 1);
    assert_eq!(
        centroid(bodies[0].index_sum, bodies[0].cells),
        [4.5, 4.5, 4.5]
    );
    assert_eq!(
        f64::from_bits(cell_density(&grid, &densities, forced_void).bits),
        0.0
    );
    assert_eq!(
        f64::from_bits(cell_density(&grid, &densities, forced_solid).bits),
        1.0
    );
}

#[test]
fn every_cell_of_a_body_carries_its_label_and_empty_cells_carry_none() {
    // Two cells along the first axis, a gap, and one more: the answers come back
    // from every core in the order of the cells.
    let grid = Grid {
        nx: 4,
        ny: 1,
        nz: 1,
        cells: vec![CellKind::Design; 4],
    };
    let densities = vec![s(1.0), s(0.75), s(0.25), s(0.5)];
    let labels = body_labels(&grid, &densities, s(0.5));
    assert_eq!(labels.bodies, 2);
    assert_eq!(labels.of_cell, vec![Some(0), Some(0), None, Some(1)]);
    assert_eq!(
        solid_bodies(&grid, &densities, s(0.5)).len(),
        labels.bodies
    );
}

#[test]
fn bodies_share_out_the_material() {
    let (grid, densities) = hollow(7, 3);
    let cells: usize = solid_bodies(&grid, &densities, s(0.5))
        .iter()
        .map(|body| body.cells)
        .sum();
    assert_eq!(cells, 7 * 7 * 7 - 27);
}

#[test]
fn filling_twice_is_filling_once() {
    let (grid, mut field) = hollow(7, 3);
    resolve(&grid, &mut field, s(0.5), VoidPolicy::Fill);
    let once = values(&field);
    let report = resolve(&grid, &mut field, s(0.5), VoidPolicy::Fill);
    assert_eq!(report.voids.len(), 0);
    assert_eq!(report.filled_cells, 0);
    assert_eq!(values(&field), once);
}

#[test]
fn a_density_that_is_no_number_is_neither_empty_nor_material() {
    let grid = design_grid(3);
    let mut densities = vec![s(1.0); grid.n_cells()];
    densities[grid.cell_index(1, 1, 1)] = s(f64::NAN);
    assert!(detect(&grid, &densities, s(0.5)).is_empty());
    let bodies = solid_bodies(&grid, &densities, s(0.5));
    assert_eq!(bodies.len(), 1);
    assert_eq!(bodies[0].cells, 26);
}

/// What the report says is what detecting finds, what was filled is what the
/// fillable entries add up to, and what is found afterwards are the others.
#[test]
fn a_report_adds_up_and_leaves_what_may_not_be_filled() {
    let mut grid = design_grid(9);
    let mut densities = vec![s(1.0); grid.n_cells()];
    // Three cavities of one, two and three cells; the last may not be filled.
    for (i, j, k) in [(1, 1, 1), (4, 4, 4), (5, 4, 4), (7, 7, 3), (7, 7, 4), (7, 7, 5)] {
        densities[grid.cell_index(i, j, k)] = s(0.0);
    }
    let keepout = grid.cell_index(7, 7, 4);
    grid.cells[keepout] = CellKind::Void;

    let found = detect(&grid, &densities, s(0.5));
    let report = resolve(&grid, &mut densities, s(0.5), VoidPolicy::Fill);
    assert_eq!(report.voids, found);
    let sizes: Vec<(usize, bool)> = found.iter().map(|v| (v.cells, v.fillable)).collect();
    assert_eq!(sizes, vec![(3, false), (2, true), (1, true)]);
    assert_eq!(report.filled_cells, 3);
    assert_eq!(report.remaining(), 1);

    let left = detect(&grid, &densities, s(0.5));
    let unfillable: Vec<_> = found.iter().filter(|v| !v.fillable).copied().collect();
    assert_eq!(left, unfillable);
    let again = resolve(&grid, &mut densities, s(0.5), VoidPolicy::Fill);
    assert_eq!(again.filled_cells, 0);
    assert_eq!(again.voids, left);
}
