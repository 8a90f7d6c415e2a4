//! The logic of growforge's viewer and of its field checks, with contracts that
//! say what each piece does.
//!
//! Nothing in here draws, waits or does floating point arithmetic. A measured
//! value is carried as a [`scalar::Scalar`], whose order is the one the numbers
//! have, and everything that has to be computed on one is computed by the caller.
#![allow(unused_imports)]

pub mod config;
pub mod config_laws;
pub mod connect;
pub mod constants;
pub mod editor;
pub mod field_laws;
pub mod fields;
pub mod form_laws;
pub mod forms;
pub mod gpu;
pub mod grid;
pub mod indicators;
pub mod mesh;
pub mod mesh_laws;
pub mod objects;
pub mod panel;
pub mod panel_laws;
pub(crate) mod parallel;
pub mod row_laws;
pub mod rows;
pub mod run_laws;
pub mod sameness;
pub mod scalar;
pub mod scene;
pub mod scene_laws;
pub mod session;
pub mod setup;
pub mod shading;
pub mod shapes;
pub mod snapshot;
pub mod spindle;
pub mod tally;
pub mod tessellate;
pub mod text;
pub mod view_panel;
pub mod void_laws;
pub mod voids;
pub mod worker;

use vstd::prelude::*;

verus! {

} // verus!
