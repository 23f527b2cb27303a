use vstd::prelude::*;

verus! {

/// A failure to find, open or name a file.
#[derive(Debug)]
pub struct FileIOError(pub String);

/// A failure while turning a table into a chart.
#[derive(Debug)]
pub struct PlotCsvError(pub String);

impl FileIOError {
    /// The text shown to a user: the kind of failure, then its detail.
    pub fn message(&self) -> (r: String)
        ensures
            r@ == "FileIOError: "@ + self.0@,
    {
        let s = String::from_str("FileIOError: ");
        s.concat(self.0.as_str())
    }
}

impl PlotCsvError {
    /// The text shown to a user: the kind of failure, then its detail.
    pub fn message(&self) -> (r: String)
        ensures
            r@ == "PlotCsvError: "@ + self.0@,
    {
        let s = String::from_str("PlotCsvError: ");
        s.concat(self.0.as_str())
    }
}

/// Every way that loading, planning or drawing a chart can fail.
#[derive(Debug)]
pub enum CsvPlotError {
    /// The input could not be opened or read as CSV text, or the output
    /// could not be written.
    Io(String),
    /// Data row `row` (0-based, header not counted) has `found` fields where
    /// the header has `expected`.
    Schema { row: usize, expected: usize, found: usize },
    /// Field `column` of data row `row` is not a number.
    Parse { row: usize, column: usize },
    /// A split chart was asked of a table with `columns` columns, fewer than 3.
    InsufficientColumns { columns: usize },
    /// A planned panel refers to `column`, which a table of `columns` columns
    /// does not have.
    Layout { column: usize, columns: usize },
    /// The drawing backend failed.
    Render(String),
    /// The finished image could not be written out.
    Present(String),
}

impl CsvPlotError {
    /// A one-line description of the failure.
    pub fn message(&self) -> (r: String)
        ensures
            self is InsufficientColumns ==> r@ == insufficient_columns_text(),
    {
        match self {
            CsvPlotError::Io(s) => String::from_str("IOError: ").concat(s.as_str()),
            CsvPlotError::Schema { .. } => String::from_str(
                "SchemaError: a row's field count differs from the header's",
            ),
            CsvPlotError::Parse { .. } => String::from_str("ParseError: a field is not numeric"),
            CsvPlotError::InsufficientColumns { .. } => {
                let r = String::from_str(
                    "InsufficientColumnsError: the table has less than 3 columns; a split plot needs at least 3",
                );
                r
            },
            CsvPlotError::Layout { .. } => String::from_str(
                "LayoutError: a panel refers to a column that the table does not have",
            ),
            CsvPlotError::Render(s) => String::from_str("RenderError: ").concat(s.as_str()),
            CsvPlotError::Present(s) => String::from_str("PresentError: ").concat(s.as_str()),
        }
    }
}

/// The message of a split chart refused for want of columns.
pub open spec fn insufficient_columns_text() -> Seq<char> {
    "InsufficientColumnsError: the table has less than 3 columns; a split plot needs at least 3"@
}

} // verus!
