//! Turns a CSV table of numeric measurements into chart plans: the table
//! model, the baseline-zero axis ranges, and the combined and split layouts.
//!
//! Values are carried as IEEE-754 binary32 bit patterns (`u32`), and compared
//! with the ordering that IEEE-754 gives to them.

mod value;
mod error;
mod data;
mod range;
mod layout;

pub use value::{float_le, float_lt, is_nan, less_than, order_key, ZERO};
pub use error::{CsvPlotError, FileIOError, PlotCsvError};
pub use data::{
    csv_records_of, get_data, read_records, records_view, row_fits, rows_fit_before, CsvText,
    DataCsv,
};
pub use range::{
    baseline_range, column_values, fold_max, fold_min, get_minmax_all, get_minmax_vec, has_column,
    lemma_range_baseline_zero, lemma_range_bounds, selected, step_max, step_min,
};
pub use layout::{
    combined_plan_of, dependent_columns, grid_columns, lemma_plans_keep_size,
    lemma_split_five_columns, lemma_split_shared_range, palette, palette_color, plan_combined,
    plan_split, split_plan_of, x_range_of, y_range_of, Color, CombinedPlan, GridPanel, Series,
    SplitPlan, PALETTE_LEN, UPPER_REGION_HEIGHT,
};
