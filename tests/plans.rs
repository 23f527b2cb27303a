use csvplot::{
    get_data, get_minmax_all, get_minmax_vec, less_than, palette_color, plan_combined, plan_split,
    read_records, Color, CsvPlotError, DataCsv, FileIOError, PlotCsvError, ZERO,
};

fn bits(v: f32) -> u32 {
    v.to_bits()
}

fn load_str(text: &str) -> Result<DataCsv, CsvPlotError> {
    let t = read_records(text.as_bytes())?;
    let fields = t
        .rows
        .iter()
        .map(|r| r.iter().map(|f| f.parse::<f32>().ok().map(f32::to_bits)).collect())
        .collect();
    get_data(t.header, fields)
}

fn table(names: &[&str], rows: &[&[f32]]) -> DataCsv {
    let fields = rows.iter().map(|r| r.iter().map(|v| Some(v.to_bits())).collect()).collect();
    get_data(names.iter().map(|s| s.to_string()).collect(), fields).expect("well-formed table")
}

fn engine_table() -> DataCsv {
    let mut text = String::from("id,speed,rpm,torsi,horsepower\n");
    for i in 0..100u32 {
        text.push_str(&format!("{},{}.5,{},{}.25,{}\n", i + 1, i * 3, i * 5, i, i / 2));
    }
    load_str(&text).expect("engine table")
}

#[test]
fn nonnegative_column_starts_at_zero() {
    let t = table(&["x", "y"], &[&[0.0, 3.0], &[1.0, 7.5], &[2.0, 1.25]]);
    let r = get_minmax_vec(&t.data, 1);
    assert_eq!(r, (ZERO, bits(7.5)));
}

#[test]
fn nonpositive_column_ends_at_zero() {
    let t = table(&["x", "y"], &[&[0.0, -3.0], &[1.0, -0.5], &[2.0, -9.0]]);
    let r = get_minmax_vec(&t.data, 1);
    assert_eq!(r, (bits(-9.0), ZERO));
}

#[test]
fn negative_column_range_is_baseline_zero() {
    let t = table(&["x", "y"], &[&[0.0, -1.0], &[1.0, -5.0], &[2.0, -3.0], &[3.0, -2.0]]);
    let r = get_minmax_vec(&t.data, 1);
    assert_eq!((f32::from_bits(r.0), f32::from_bits(r.1)), (-5.0, 0.0));
}

#[test]
fn mixed_column_range_is_true_extremes() {
    let t = table(&["x", "y"], &[&[0.0, -2.5], &[1.0, 4.0]]);
    assert_eq!(get_minmax_vec(&t.data, 1), (bits(-2.5), bits(4.0)));
}

#[test]
fn nan_and_negative_zero_never_replace_the_seed() {
    let t = table(&["x", "y"], &[&[0.0, f32::NAN], &[1.0, -0.0]]);
    assert_eq!(get_minmax_vec(&t.data, 1), (ZERO, ZERO));
}

#[test]
fn empty_table_range_is_zero() {
    let t = table(&["x", "y"], &[]);
    assert_eq!(get_minmax_vec(&t.data, 0), (ZERO, ZERO));
    assert_eq!(get_minmax_all(&t.data, &vec![0, 1]), (ZERO, ZERO));
}

#[test]
fn global_range_covers_only_chosen_columns() {
    let t = table(&["x", "a", "b"], &[&[-100.0, 2.0, -1.0], &[500.0, 8.0, 3.0]]);
    assert_eq!(get_minmax_all(&t.data, &vec![1, 2]), (bits(-1.0), bits(8.0)));
    assert_eq!(get_minmax_all(&t.data, &vec![0, 1, 2]), (bits(-100.0), bits(500.0)));
}

#[test]
fn ieee_less_than_on_bits() {
    assert!(less_than(bits(-1.0), bits(1.0)));
    assert!(less_than(bits(-2.0), bits(-1.0)));
    assert!(!less_than(bits(-0.0), bits(0.0)));
    assert!(!less_than(bits(0.0), bits(-0.0)));
    assert!(!less_than(bits(f32::NAN), bits(1.0)));
    assert!(!less_than(bits(1.0), bits(f32::NAN)));
    assert!(less_than(bits(1.0e30), bits(f32::INFINITY)));
    assert!(less_than(bits(f32::NEG_INFINITY), bits(-1.0e30)));
}

#[test]
fn load_keeps_shape() {
    let t = load_str("a,b,c\n1,2,3\n4,5,6\n").expect("loads");
    assert_eq!(t.name, vec!["a".to_string(), "b".to_string(), "c".to_string()]);
    assert_eq!(t.data.len(), 2);
    assert!(t.data.iter().all(|r| r.len() == 3));
    assert_eq!(t.data[1][2], bits(6.0));
}

#[test]
fn read_records_splits_header_and_rows() {
    let t = read_records("x,y\n1,2\n3,4\n".as_bytes()).expect("csv");
    assert_eq!(t.header, vec!["x".to_string(), "y".to_string()]);
    assert_eq!(t.rows, vec![vec!["1".to_string(), "2".to_string()], vec!["3".to_string(), "4".to_string()]]);
}

#[test]
fn read_records_of_empty_text() {
    let t = read_records("".as_bytes()).expect("csv");
    assert!(t.header.is_empty());
    assert!(t.rows.is_empty());
}

#[test]
fn invalid_utf8_is_an_io_error() {
    let r = read_records(&[b'a', b',', 0xff, b'\n']);
    assert!(matches!(r, Err(CsvPlotError::Io(_))));
}

#[test]
fn short_row_is_a_schema_error() {
    let text = "id,speed,rpm,torsi,horsepower\n1,2,3,4,5\n2,2,3,4,5\n3,2,3,4,5\n4,2,3,4,5\n5,2,3,4\n6,x,3,4,5\n";
    match load_str(text) {
        Err(CsvPlotError::Schema { row, expected, found }) => {
            assert_eq!((row, expected, found), (4, 5, 4));
        }
        other => panic!("expected a schema error, got {:?}", other),
    }
}

#[test]
fn non_numeric_field_is_a_parse_error() {
    match load_str("a,b\n1,2\n3,zz\n5,\n") {
        Err(CsvPlotError::Parse { row, column }) => assert_eq!((row, column), (1, 1)),
        other => panic!("expected a parse error, got {:?}", other),
    }
}

#[test]
fn combined_plan_of_engine_table() {
    let t = engine_table();
    let p = plan_combined(&t, 1280, 720).ok().expect("plans");
    assert_eq!((p.width, p.height), (1280, 720));
    let cols: Vec<usize> = p.series.iter().map(|s| s.column).collect();
    assert_eq!(cols, vec![1, 2, 3, 4]);
    let colors: Vec<Color> = p.series.iter().map(|s| s.color).collect();
    assert_eq!(colors, vec![Color::Blue, Color::Green, Color::Cyan, Color::Yellow]);
    assert_eq!(p.x_range, (ZERO, bits(100.0)));
    assert_eq!(p.y_range, (ZERO, bits(495.0)));
}

#[test]
fn combined_plan_without_columns_fails() {
    let t = table(&[], &[]);
    assert!(matches!(plan_combined(&t, 10, 10), Err(CsvPlotError::Layout { column: 0, columns: 0 })));
}

#[test]
fn split_plan_of_engine_table() {
    let t = engine_table();
    let p = plan_split(&t, 1280, 720).ok().expect("plans");
    assert_eq!((p.width, p.height), (1280, 720));
    assert_eq!((p.upper_height, p.lower_height), (256, 464));
    let overview: Vec<usize> = p.overview.iter().map(|s| s.column).collect();
    assert_eq!(overview, vec![1, 2]);
    assert_eq!(p.annotated, 2);
    let grid: Vec<usize> = p.grid.iter().map(|g| g.column).collect();
    assert_eq!(grid, vec![2, 3, 4]);
    assert!(p.grid.iter().all(|g| g.y_range == p.y_range && g.x_range == p.x_range));
    assert_eq!(p.y_range, (ZERO, bits(495.0)));
}

#[test]
fn split_plan_of_short_surface() {
    let t = table(&["x", "a", "b"], &[&[1.0, 2.0, 3.0]]);
    let p = plan_split(&t, 300, 100).ok().expect("plans");
    assert_eq!((p.upper_height, p.lower_height), (100, 0));
    let grid: Vec<usize> = p.grid.iter().map(|g| g.column).collect();
    assert_eq!(grid, vec![0]);
}

#[test]
fn split_plan_of_four_columns() {
    let t = table(&["x", "a", "b", "c"], &[&[1.0, 2.0, 3.0, 4.0]]);
    let p = plan_split(&t, 640, 480).ok().expect("plans");
    let grid: Vec<usize> = p.grid.iter().map(|g| g.column).collect();
    assert_eq!(grid, vec![1, 2]);
}

#[test]
fn split_plan_of_two_columns_fails() {
    let t = load_str("x,y\n1,2\n2,3\n").expect("loads");
    match plan_split(&t, 1280, 720) {
        Err(e) => {
            assert!(matches!(e, CsvPlotError::InsufficientColumns { columns: 2 }));
            assert!(e.message().contains("less than 3"));
        }
        Ok(_) => panic!("a two-column table cannot be split"),
    }
}

#[test]
fn split_plan_past_last_column_fails() {
    let t = table(&["a", "b", "c", "d", "e", "f"], &[&[1.0, 2.0, 3.0, 4.0, 5.0, 6.0]]);
    assert!(matches!(plan_split(&t, 1280, 720), Err(CsvPlotError::Layout { column: 6, columns: 6 })));
}

#[test]
fn palette_wraps() {
    assert_eq!(palette_color(0), Color::Red);
    assert_eq!(palette_color(6), Color::Black);
    assert_eq!(palette_color(7), Color::Red);
    assert_eq!(palette_color(15), Color::Blue);
}

#[test]
fn combined_plan_wraps_palette() {
    let names = ["x", "a", "b", "c", "d", "e", "f", "g", "h"];
    let t = table(&names, &[&[0.0; 9]]);
    let p = plan_combined(&t, 100, 100).ok().expect("plans");
    assert_eq!(p.series[6].color, Color::Red);
    assert_eq!(p.series[7].color, Color::Blue);
}

#[test]
fn error_messages() {
    assert_eq!(FileIOError("missing.csv".to_string()).message(), "FileIOError: missing.csv");
    assert_eq!(PlotCsvError("bad".to_string()).message(), "PlotCsvError: bad");
    assert_eq!(CsvPlotError::Present("disk".to_string()).message(), "PresentError: disk");
}
