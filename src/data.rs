use vstd::prelude::*;
use crate::error::CsvPlotError;

verus! {

#[verifier::external_type_specification]
#[verifier::external_body]
pub struct ExCsvError(csv::Error);

/// The records (each a sequence of fields) that csv reads from `input` with
/// no header row and records of any length, or `None` where it stops on an
/// error.
pub uninterp spec fn csv_records_of(input: Seq<u8>) -> Option<Seq<Seq<Seq<char>>>>;

/// The text of each field of each record.
pub open spec fn records_view(rows: Seq<Vec<String>>) -> Seq<Seq<Seq<char>>> {
    rows.map_values(|r: Vec<String>| r@.map_values(|f: String| f@))
}

/// Relies on csv's `ReaderBuilder` (no header row, flexible record lengths)
/// and `Reader::records`: all records of the text, each as its fields, or the
/// first error; what comes back depends on the bytes alone.
#[verifier::external_body]
fn csv_records(input: &[u8]) -> (r: Result<Vec<Vec<String>>, csv::Error>)
    ensures
        match r {
            Ok(rows) => csv_records_of(input@) == Some(records_view(rows@)),
            Err(_) => csv_records_of(input@) is None,
        },
{
    csv::ReaderBuilder::new()
        .has_headers(false)
        .flexible(true)
        .from_reader(input)
        .records()
        .map(|rec| rec.map(|rec| rec.iter().map(|f| f.to_string()).collect()))
        .collect()
}

/// CSV text split into its header record and its data records.
#[derive(Debug)]
pub struct CsvText {
    pub header: Vec<String>,
    pub rows: Vec<Vec<String>>,
}

/// Splits CSV text into the header (the first record) and the data records.
/// Text with no record at all gives an empty header and no rows.
pub fn read_records(input: &[u8]) -> (r: Result<CsvText, CsvPlotError>)
    ensures
        match r {
            Ok(t) => match csv_records_of(input@) {
                Some(recs) => if recs.len() == 0 {
                    t.header@.len() == 0 && t.rows@.len() == 0
                } else {
                    t.header@.map_values(|f: String| f@) == recs[0] && records_view(t.rows@)
                        == recs.drop_first()
                },
                None => false,
            },
            Err(e) => e is Io && csv_records_of(input@) is None,
        },
{
    match csv_records(input) {
        Err(_) => Err(CsvPlotError::Io(String::from_str("the input is not readable CSV text"))),
        Ok(mut recs) => {
            if recs.len() == 0 {
                Ok(CsvText { header: Vec::new(), rows: Vec::new() })
            } else {
                let ghost all = recs@;
                let header = recs.remove(0);
                assert(records_view(recs@) =~= records_view(all).drop_first());
                Ok(CsvText { header, rows: recs })
            }
        },
    }
}

/// A table of named numeric columns: `name` holds the column names, `data`
/// the rows, each value a binary32 bit pattern.
#[derive(Debug, Clone)]
pub struct DataCsv {
    pub name: Vec<String>,
    pub data: Vec<Vec<u32>>,
}

impl DataCsv {
    /// Every row has one value per column.
    pub open spec fn wf(&self) -> bool {
        forall|i: int| 0 <= i < self.data@.len() ==> #[trigger] self.data@[i]@.len()
            == self.name@.len()
    }

    /// The number of columns.
    pub fn column_count(&self) -> (r: usize)
        ensures
            r == self.name@.len(),
    {
        self.name.len()
    }
}

/// A data row whose fields all parsed, one per column.
pub open spec fn row_fits(row: Seq<Option<u32>>, width: nat) -> bool {
    row.len() == width && forall|j: int| 0 <= j < row.len() ==> #[trigger] row[j] is Some
}

/// The rows before `row` all fit.
pub open spec fn rows_fit_before(fields: Seq<Vec<Option<u32>>>, width: nat, row: int) -> bool {
    forall|i: int| 0 <= i < row ==> #[trigger] row_fits(fields[i]@, width)
}

/// Builds a table from the column names and each data row's fields, parsed
/// or not. Rows are checked in order and the first one that does not fit
/// decides the error: `Schema` where its field count differs from the
/// header's, else `Parse` at its first field that is not a number.
pub fn get_data(names: Vec<String>, fields: Vec<Vec<Option<u32>>>) -> (r: Result<
    DataCsv,
    CsvPlotError,
>)
    ensures
        r is Ok <==> rows_fit_before(fields@, names@.len(), fields@.len() as int),
        match r {
            Ok(t) => {
                &&& t.wf()
                &&& t.name@ == names@
                &&& t.data@.len() == fields@.len()
                &&& forall|i: int, j: int|
                    0 <= i < fields@.len() && 0 <= j < names@.len() ==> (#[trigger] t.data@[i]@[j])
                        == fields@[i]@[j]->Some_0
            },
            Err(CsvPlotError::Schema { row, expected, found }) => {
                &&& row < fields@.len()
                &&& rows_fit_before(fields@, names@.len(), row as int)
                &&& expected == names@.len()
                &&& found == fields@[row as int]@.len()
                &&& found != expected
            },
            Err(CsvPlotError::Parse { row, column }) => {
                &&& row < fields@.len()
                &&& rows_fit_before(fields@, names@.len(), row as int)
                &&& fields@[row as int]@.len() == names@.len()
                &&& column < names@.len()
                &&& fields@[row as int]@[column as int] is None
                &&& forall|j: int| 0 <= j < column ==> #[trigger] fields@[row as int]@[j] is Some
            },
            Err(_) => false,
        },
{
    let width = names.len();
    let mut data: Vec<Vec<u32>> = Vec::new();
    let mut i: usize = 0;
    while i < fields.len()
        invariant
            0 <= i <= fields@.len(),
            width == names@.len(),
            rows_fit_before(fields@, width as nat, i as int),
            data@.len() == i,
            forall|k: int| 0 <= k < i ==> (#[trigger] data@[k])@.len() == width,
            forall|k: int, j: int|
                0 <= k < i && 0 <= j < width ==> (#[trigger] data@[k]@[j])
                    == fields@[k]@[j]->Some_0,
        decreases fields@.len() - i,
    {
        let row = &fields[i];
        if row.len() != width {
            assert(!row_fits(fields@[i as int]@, width as nat));
            return Err(CsvPlotError::Schema { row: i, expected: width, found: row.len() });
        }
        let mut values: Vec<u32> = Vec::new();
        let mut j: usize = 0;
        while j < width
            invariant
                0 <= j <= width,
                i < fields@.len(),
                width == names@.len(),
                rows_fit_before(fields@, width as nat, i as int),
                row@.len() == width,
                row == fields@[i as int],
                values@.len() == j,
                forall|m: int| 0 <= m < j ==> #[trigger] row@[m] is Some,
                forall|m: int| 0 <= m < j ==> #[trigger] values@[m] == row@[m]->Some_0,
            decreases width - j,
        {
            let f: Option<u32> = row[j];
            match f {
                Some(v) => values.push(v),
                None => {
                    assert(fields@[i as int]@[j as int] is None);
                    assert(!row_fits(fields@[i as int]@, width as nat));
                    return Err(CsvPlotError::Parse { row: i, column: j });
                },
            }
            j += 1;
        }
        assert(row_fits(fields@[i as int]@, width as nat));
        data.push(values);
        i += 1;
    }
    Ok(DataCsv { name: names, data })
}

} // verus!
