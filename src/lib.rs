//! Host-side logic of a GPU key-value radix sorter: padded sizes, scratch
//! layout, the uniform record, shader specialization, the dispatch plan of a
//! full sort and the subgroup-width calibration.

pub mod sizes;
pub mod uniform;
pub mod plan;
pub mod calibration;
pub mod text;
pub mod shader;
pub mod texture;

pub use calibration::{select_subgroup_size, Calibrator, CalibrationStep};
pub use plan::{sort_plan, Dispatch, Kernel};
pub use sizes::{get_scatter_histogram_sizes, SortSizes};
pub use uniform::{bind_group_info, GeneralInfo, SortError};
