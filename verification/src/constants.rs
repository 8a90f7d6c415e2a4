//! The numbers the viewer and the editor agree on.

use vstd::prelude::*;

use crate::config::{Axis, BuildDirection, SolverBackend};

verus! {

/// Segments round a cylinder, a cone and the barrel of a tube.
pub const VIEW_CYLINDER_SEGMENTS: usize = 32;

/// Segments round a sphere.
pub const VIEW_SPHERE_SEGMENTS: usize = 32;

/// Rings of a sphere from pole to pole.
pub const VIEW_SPHERE_RINGS: usize = 16;

/// Straight pieces the arc of a bent tube is drawn in.
pub const VIEW_TUBE_ARC_SEGMENTS: usize = 24;

/// Rings of one cap of a tube, which is half a sphere.
pub const VIEW_TUBE_CAP_RINGS: usize = 8;

/// Segments round the thin tubes of arcs and dimension lines.
pub const VIEW_ARC_TUBE_SEGMENTS: usize = 12;

/// Straight pieces a torque arc is drawn in.
pub const VIEW_TORQUE_ARC_SEGMENTS: usize = 24;

/// Straight pieces a rotation handle's arc is drawn in.
pub const VIEW_EDIT_ROTATE_ARC_SEGMENTS: usize = 16;

/// Whether the density layer starts out with per-triangle normals.
pub const VIEW_DEFAULT_FLAT_SHADING: bool = false;

/// Whether the part starts out alone on screen.
pub const VIEW_EDIT_ISOLATE_PART_DEFAULT: bool = false;

/// The engine a configuration that names none runs on.
pub const DEFAULT_ENGINE: &'static str = "simp";

/// The engine that grows a branching skeleton.
pub const GROWTH_ENGINE: &'static str = "growth";

/// The material a configuration starts from.
pub const DEFAULT_MATERIAL_PRESET: &'static str = "pla";

/// Bit pattern of the voxel size a resolution starts from, in millimetres.
pub const VIEW_EDIT_DEFAULT_VOXEL_BITS: u64 = 0x4000_0000_0000_0000;

/// The voxel size a resolution starts from, written out.
pub const VIEW_EDIT_DEFAULT_VOXEL_TEXT: &'static str = "2";

/// The device a configuration that names none is solved on.
pub const DEFAULT_SOLVER_BACKEND: SolverBackend = SolverBackend::Gpu;

/// Cells a resolution given by their number starts from.
pub const VIEW_EDIT_DEFAULT_TARGET_CELLS: usize = 200_000;

/// The direction an overhang constraint starts from.
pub const VIEW_EDIT_DEFAULT_BUILD_DIRECTION: BuildDirection = BuildDirection::ZPlus;

/// The plane a mirror symmetry starts from.
pub const VIEW_EDIT_DEFAULT_SYMMETRY_PLANE: Axis = Axis::X;

/// The number of sectors a rotational symmetry starts from.
pub const VIEW_EDIT_DEFAULT_SYMMETRY_ORDER: usize = 4;

/// The axis a rotational symmetry starts from.
pub const DEFAULT_SYMMETRY_AXIS: Axis = Axis::Z;

/// Fewest sectors of a rotational symmetry.
pub const GROWTH_SYMMETRY_MIN_ORDER: usize = 2;

/// Most sectors of a rotational symmetry.
pub const GROWTH_SYMMETRY_MAX_ORDER: usize = 12;

/// Iterations a preview of the density engine is capped at.
pub const VIEW_EDIT_PREVIEW_MAX_ITERATIONS: usize = 30;

/// Cells the grid of such a preview is coarsened to.
pub const VIEW_EDIT_PREVIEW_CELL_BUDGET: usize = 40_000;

/// How much later than recorded a file of the editor's own may turn out to have
/// been written, in nanoseconds.
pub const VIEW_EDIT_OUTPUT_MTIME_TOLERANCE_NS: i128 = 2_000_000_000;

/// What every window of the program is called, and which build of it drew it.
pub const VIEW_WINDOW_TITLE: &'static str = "growforge 0.1.0";

/// Least time between two previews of a run, in nanoseconds.
pub const VIEW_PREVIEW_MIN_INTERVAL_NS: u64 = 100_000_000;

/// Bit pattern of the least increment drags snap to, in millimetres; anything
/// below it is no snapping.
pub const VIEW_EDIT_SNAP_MIN_BITS: u64 = 0x3f50_624d_d2f1_a9fc;

/// The engine that fills the domain and iterates over nothing.
pub const SOLID_ENGINE: &'static str = "solid";

/// Heading of the layer switches.
pub const VIEW_LAYER_SWITCHES_LABEL: &'static str = "show";

/// Heading of the object tree.
pub const VIEW_EDIT_BLOCK_OBJECTS: &'static str = "objects";

/// Heading of the fields of what is selected.
pub const VIEW_EDIT_BLOCK_PROPERTIES: &'static str = "properties";

/// Heading of the problem summary.
pub const VIEW_EDIT_BLOCK_PROBLEM: &'static str = "problem";

/// Heading of the stress summary.
pub const VIEW_EDIT_BLOCK_STRESS: &'static str = "stress";

/// Heading of the control legend.
pub const VIEW_EDIT_BLOCK_CONTROLS: &'static str = "controls";

/// Heading of the list of load cases.
pub const VIEW_EDIT_LOAD_CASE_LIST: &'static str = "load cases";

/// Degrees of freedom of a node.
pub const DOF_PER_NODE: usize = 3;

/// Most support markers a scene draws.
pub const VIEW_MAX_SUPPORT_MARKERS: usize = 4000;

/// Bit pattern of how opaque a stress coloured surface is, in single precision.
pub const VIEW_STRESS_ALPHA_BITS: u32 = 0x3f80_0000;

/// Consecutive rejected frames a device is given up on at.
pub const VIEW_SURFACE_REJECTION_LIMIT: u32 = 60;

} // verus!
