use vstd::prelude::*;
use crate::data::DataCsv;
use crate::error::CsvPlotError;
use crate::range::{
    baseline_range, column_values, get_minmax_all, get_minmax_vec, has_column, selected,
};

verus! {

/// The colours that series are drawn in.
#[derive(Clone, Copy, PartialEq, Eq, Structural, Debug)]
pub enum Color {
    Red,
    Blue,
    Green,
    Cyan,
    Yellow,
    Magenta,
    Black,
}

/// The number of colours in the palette.
pub const PALETTE_LEN: usize = 7;

/// The height in pixels of the overview region of a split chart.
pub const UPPER_REGION_HEIGHT: u32 = 256;

/// The palette, in order.
pub open spec fn palette() -> Seq<Color> {
    seq![
        Color::Red,
        Color::Blue,
        Color::Green,
        Color::Cyan,
        Color::Yellow,
        Color::Magenta,
        Color::Black,
    ]
}

/// The colour for index `i`: indices past the palette wrap around.
pub fn palette_color(i: usize) -> (c: Color)
    ensures
        c == palette()[(i % PALETTE_LEN) as int],
{
    let k = i % PALETTE_LEN;
    if k == 0 {
        Color::Red
    } else if k == 1 {
        Color::Blue
    } else if k == 2 {
        Color::Green
    } else if k == 3 {
        Color::Cyan
    } else if k == 4 {
        Color::Yellow
    } else if k == 5 {
        Color::Magenta
    } else {
        Color::Black
    }
}

/// One line series: column `column` plotted against column 0.
#[derive(Clone, Copy, PartialEq, Eq, Structural, Debug)]
pub struct Series {
    pub column: usize,
    pub color: Color,
}

/// A single chart of every dependent column against column 0.
pub struct CombinedPlan {
    pub width: u32,
    pub height: u32,
    /// The range of column 0.
    pub x_range: (u32, u32),
    /// The range shared by all dependent columns.
    pub y_range: (u32, u32),
    pub series: Vec<Series>,
}

/// One cell of the grid of a split chart: a single column against column 0.
#[derive(Clone, Copy, Debug)]
pub struct GridPanel {
    pub column: usize,
    pub color: Color,
    pub x_range: (u32, u32),
    pub y_range: (u32, u32),
}

/// A split chart: an overview region above a row of grid panels.
pub struct SplitPlan {
    pub width: u32,
    pub height: u32,
    /// The height of the overview region; the grid takes the rest.
    pub upper_height: u32,
    pub lower_height: u32,
    /// The range of column 0.
    pub x_range: (u32, u32),
    /// The range shared by the overview and every grid panel.
    pub y_range: (u32, u32),
    /// The two overview series, columns 1 and 2.
    pub overview: Vec<Series>,
    /// The column whose points carry their coordinates as labels.
    pub annotated: usize,
    pub grid: Vec<GridPanel>,
}

/// The dependent columns of a table of `n` columns: 1 to `n - 1`.
pub open spec fn dependent_columns(n: nat) -> Seq<usize> {
    Seq::new((n - 1) as nat, |k: int| (k + 1) as usize)
}

/// The columns of the grid of a split chart of `n` columns: `n - 2` panels,
/// from column `n - 3` on.
pub open spec fn grid_columns(n: nat) -> Seq<int> {
    Seq::new((n - 2) as nat, |k: int| n - 3 + k)
}

/// The range of column 0 of `t`.
pub open spec fn x_range_of(t: DataCsv) -> (u32, u32) {
    baseline_range(column_values(t.data@, 0))
}

/// The range shared by the dependent columns of `t`.
pub open spec fn y_range_of(t: DataCsv) -> (u32, u32) {
    baseline_range(selected(t.data@, dependent_columns(t.name@.len())))
}

/// What a combined chart of `t` at `width` x `height` is.
pub open spec fn combined_plan_of(t: DataCsv, width: u32, height: u32, p: CombinedPlan) -> bool {
    let n = t.name@.len();
    &&& p.width == width
    &&& p.height == height
    &&& p.x_range == x_range_of(t)
    &&& p.y_range == y_range_of(t)
    &&& p.series@.len() == n - 1
    &&& forall|k: int|
        0 <= k < p.series@.len() ==> #[trigger] p.series@[k] == (Series {
            column: (k + 1) as usize,
            color: palette()[(k + 1) % (PALETTE_LEN as int)],
        })
}

/// What a split chart of `t` at `width` x `height` is.
pub open spec fn split_plan_of(t: DataCsv, width: u32, height: u32, p: SplitPlan) -> bool {
    let n = t.name@.len();
    &&& p.width == width
    &&& p.height == height
    &&& p.upper_height == if height < UPPER_REGION_HEIGHT {
        height
    } else {
        UPPER_REGION_HEIGHT
    }
    &&& p.upper_height + p.lower_height == height
    &&& p.x_range == x_range_of(t)
    &&& p.y_range == y_range_of(t)
    &&& p.overview@ == seq![
        Series { column: 1, color: Color::Red },
        Series { column: 2, color: Color::Blue },
    ]
    &&& p.annotated == 2
    &&& p.grid@.len() == grid_columns(n).len()
    &&& forall|k: int|
        0 <= k < p.grid@.len() ==> #[trigger] p.grid@[k] == (GridPanel {
            column: grid_columns(n)[k] as usize,
            color: Color::Blue,
            x_range: p.x_range,
            y_range: p.y_range,
        })
}

/// The ranges of a table with at least one column: column 0's, and the one
/// shared by the dependent columns.
fn table_ranges(t: &DataCsv) -> (r: ((u32, u32), (u32, u32)))
    requires
        t.wf(),
        t.name@.len() >= 1,
    ensures
        r.0 == x_range_of(*t),
        r.1 == y_range_of(*t),
{
    let n = t.name.len();
    assert(has_column(t.data@, 0));
    let x = get_minmax_vec(&t.data, 0);
    let mut cols: Vec<usize> = Vec::new();
    let mut c: usize = 1;
    while c < n
        invariant
            1 <= c <= n,
            n == t.name@.len(),
            cols@ == dependent_columns(c as nat),
        decreases n - c,
    {
        cols.push(c);
        c += 1;
        assert(cols@ =~= dependent_columns(c as nat));
    }
    assert(cols@ =~= dependent_columns(n as nat));
    assert forall|k: int| 0 <= k < cols@.len() implies has_column(
        t.data@,
        #[trigger] cols@[k] as int,
    ) by {
        assert forall|i: int| 0 <= i < t.data@.len() implies cols@[k] < #[trigger] t.data@[i]@.len() by {
            assert(t.data@[i]@.len() == t.name@.len());
        }
    }
    let y = get_minmax_all(&t.data, &cols);
    (x, y)
}

/// Plans a combined chart: every dependent column against column 0, coloured
/// by its index in the palette, over the range shared by those columns. A
/// table without columns has no column 0 to plot against.
pub fn plan_combined(t: &DataCsv, width: u32, height: u32) -> (r: Result<
    CombinedPlan,
    CsvPlotError,
>)
    requires
        t.wf(),
    ensures
        match r {
            Ok(p) => t.name@.len() >= 1 && combined_plan_of(*t, width, height, p),
            Err(e) => t.name@.len() == 0 && e == (CsvPlotError::Layout { column: 0, columns: 0 }),
        },
{
    let n = t.name.len();
    if n == 0 {
        return Err(CsvPlotError::Layout { column: 0, columns: 0 });
    }
    let (x_range, y_range) = table_ranges(t);
    let mut series: Vec<Series> = Vec::new();
    let mut c: usize = 1;
    while c < n
        invariant
            1 <= c <= n,
            n == t.name@.len(),
            series@.len() == c - 1,
            forall|k: int|
                0 <= k < series@.len() ==> #[trigger] series@[k] == (Series {
                    column: (k + 1) as usize,
                    color: palette()[(k + 1) % (PALETTE_LEN as int)],
                }),
        decreases n - c,
    {
        let color = palette_color(c);
        series.push(Series { column: c, color });
        c += 1;
    }
    Ok(CombinedPlan { width, height, x_range, y_range, series })
}

/// Plans a split chart: columns 1 and 2 against column 0 in the overview
/// region, the second with its points labelled, and below it one grid panel
/// per column of the window of `n - 2` columns from `n - 3` on. The overview
/// and every panel share one range. Fewer than 3 columns is refused before
/// anything else; a window that reaches past the last column is refused at
/// the first column that the table lacks.
pub fn plan_split(t: &DataCsv, width: u32, height: u32) -> (r: Result<SplitPlan, CsvPlotError>)
    requires
        t.wf(),
    ensures
        r is Ok <==> 3 <= t.name@.len() <= 5,
        match r {
            Ok(p) => split_plan_of(*t, width, height, p),
            Err(e) => if t.name@.len() < 3 {
                e == (CsvPlotError::InsufficientColumns { columns: t.name@.len() as usize })
            } else {
                e == (CsvPlotError::Layout {
                    column: t.name@.len() as usize,
                    columns: t.name@.len() as usize,
                })
            },
        },
{
    let n = t.name.len();
    if n < 3 {
        return Err(CsvPlotError::InsufficientColumns { columns: n });
    }
    let (x_range, y_range) = table_ranges(t);
    let mut grid: Vec<GridPanel> = Vec::new();
    let first = n - 3;
    let count = n - 2;
    let mut k: usize = 0;
    while k < count
        invariant
            n == t.name@.len(),
            n >= 3,
            first == n - 3,
            count == n - 2,
            0 <= k <= count,
            first + k <= n,
            grid@.len() == k,
            forall|m: int|
                0 <= m < k ==> #[trigger] grid@[m] == (GridPanel {
                    column: grid_columns(n as nat)[m] as usize,
                    color: Color::Blue,
                    x_range,
                    y_range,
                }),
        decreases count - k,
    {
        let column = first + k;
        if column >= n {
            return Err(CsvPlotError::Layout { column, columns: n });
        }
        grid.push(GridPanel { column, color: Color::Blue, x_range, y_range });
        k += 1;
    }
    let upper_height = if height < UPPER_REGION_HEIGHT {
        height
    } else {
        UPPER_REGION_HEIGHT
    };
    let overview = vec![
        Series { column: 1, color: Color::Red },
        Series { column: 2, color: Color::Blue },
    ];
    Ok(
        SplitPlan {
            width,
            height,
            upper_height,
            lower_height: height - upper_height,
            x_range,
            y_range,
            overview,
            annotated: 2,
            grid,
        },
    )
}

/// For a table of five columns a split chart has three grid panels, and
/// each shows a column between 0 and 4.
pub proof fn lemma_split_five_columns(t: DataCsv, width: u32, height: u32, p: SplitPlan)
    requires
        t.wf(),
        t.name@.len() == 5,
        split_plan_of(t, width, height, p),
    ensures
        p.grid@.len() == 3,
        forall|k: int| 0 <= k < p.grid@.len() ==> 0 <= #[trigger] p.grid@[k].column <= 4,
        p.grid@[0].column == 2 && p.grid@[1].column == 3 && p.grid@[2].column == 4,
{
    assert(p.grid@[0].column == 2);
    assert(p.grid@[1].column == 3);
    assert(p.grid@[2].column == 4);
}

/// The overview and every grid panel of a split chart use one and the same
/// range.
pub proof fn lemma_split_shared_range(t: DataCsv, width: u32, height: u32, p: SplitPlan)
    requires
        t.wf(),
        split_plan_of(t, width, height, p),
    ensures
        forall|k: int, l: int|
            0 <= k < p.grid@.len() && 0 <= l < p.grid@.len() ==> (#[trigger] p.grid@[k]).y_range
                == (#[trigger] p.grid@[l]).y_range && p.grid@[k].x_range == p.grid@[l].x_range,
        forall|k: int| 0 <= k < p.grid@.len() ==> (#[trigger] p.grid@[k]).y_range == y_range_of(t),
{
}

/// Both kinds of chart keep the requested surface size, and the two regions
/// of a split chart together cover its whole height.
pub proof fn lemma_plans_keep_size(
    t: DataCsv,
    width: u32,
    height: u32,
    c: CombinedPlan,
    s: SplitPlan,
)
    requires
        combined_plan_of(t, width, height, c),
        split_plan_of(t, width, height, s),
    ensures
        c.width == width && c.height == height,
        s.width == width && s.height == height,
        s.upper_height + s.lower_height == height,
        s.upper_height <= UPPER_REGION_HEIGHT,
{
}

} // verus!
