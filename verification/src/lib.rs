//! Stage 0 boundary checks of the Lattice DB edge database: the versioned
//! format baseline, the frozen specification and fault matrix, and the
//! storage, synchronization and transport boundaries.
use vstd::prelude::*;

pub mod baseline;
pub mod cli;
pub mod documents;
pub mod frozen_sections;
pub mod stage_zero;
pub mod storage;
pub mod sync;
pub mod text;
pub mod transport;
