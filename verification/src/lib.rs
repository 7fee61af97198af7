//! Statistics-report support library: argument value parsing, the Student-t
//! critical-value table, and the text-plot rasterizer, with machine-checked
//! contracts. The floating-point sampling layer lives outside this crate and
//! feeds it plain integers, characters and strings.

mod args;
mod data;
mod err;
mod plot;
mod t_table;

pub use args::{Column, Confidence, Opt};
pub use data::{select_column, validate_dataset_sizes};
pub use err::MinistatFailure;
pub use plot::{
    classic_symbols, clamp_col, get_symbols, lemma_bar_row_markers, lemma_render_deterministic, print_heading,
    render_plot, required_symbols, unicode_symbols, BarPositions,
};
pub use t_table::{t_confidences, CriticalValueTable, CRIT_SCALE};
