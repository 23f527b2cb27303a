use csvplot::{get_data, get_minmax_all, get_minmax_vec, read_records, CsvPlotError, DataCsv};

/// A five-column table of 100 rows: `id` runs from 1 to 100, and each
/// measurement column peaks once.
fn sample_csv() -> String {
    let mut s = String::from("id,speed,rpm,torsi,horsepower\n");
    for i in 0..100u32 {
        let speed = if i == 37 { "296.15".to_string() } else { format!("{}.25", i * 2) };
        let rpm = if i == 61 { "499.14".to_string() } else { format!("{}.5", i * 4) };
        let torsi = if i == 12 { "99.51".to_string() } else { format!("{}.75", i / 2) };
        let hp = if i == 88 { "49.33".to_string() } else { format!("{}.125", i / 4) };
        s.push_str(&format!("{},{},{},{},{}\n", i + 1, speed, rpm, torsi, hp));
    }
    s
}

fn load_text(text: &str) -> Result<DataCsv, CsvPlotError> {
    let t = read_records(text.as_bytes())?;
    let fields = t
        .rows
        .iter()
        .map(|r| r.iter().map(|f| f.parse::<f32>().ok().map(f32::to_bits)).collect())
        .collect();
    get_data(t.header, fields)
}

fn as_floats(r: (u32, u32)) -> (f32, f32) {
    (f32::from_bits(r.0), f32::from_bits(r.1))
}

#[test]
fn test_lenght_data() {
    const LENGHT: usize = 100;
    let len = load_text(&sample_csv()).expect("Cannot Parse File").data.len();
    assert_eq!(len, LENGHT, "Testing Lenght of data CSV: {} == {}", len, LENGHT);
}

#[test]
fn test_minmax_data_id() {
    const EXPECT: (f32, f32) = (0.0, 100.0);
    let data = as_floats(get_minmax_vec(&load_text(&sample_csv()).expect("").data, 0));
    assert_eq!(data, EXPECT, "test_minmax_data: {:#?} == {:#?}", data, EXPECT);
}

#[test]
fn test_minmax_data_speed() {
    const EXPECT: (f32, f32) = (0.0, 296.15);
    let data = as_floats(get_minmax_vec(&load_text(&sample_csv()).expect("").data, 1));
    assert_eq!(data, EXPECT, "test_minmax_data: {:#?} == {:#?}", data, EXPECT);
}

#[test]
fn test_minmax_data_rpm() {
    const EXPECT: (f32, f32) = (0.0, 499.14);
    let data = as_floats(get_minmax_vec(&load_text(&sample_csv()).expect("").data, 2));
    assert_eq!(data, EXPECT, "test_minmax_data: {:#?} == {:#?}", data, EXPECT);
}

#[test]
fn test_minmax_data_torsi() {
    const EXPECT: (f32, f32) = (0.0, 99.51);
    let data = as_floats(get_minmax_vec(&load_text(&sample_csv()).expect("").data, 3));
    assert_eq!(data, EXPECT, "test_minmax_data: {:#?} == {:#?}", data, EXPECT);
}

#[test]
fn test_minmax_data_hp() {
    const EXPECT: (f32, f32) = (0.0, 49.33);
    let data = as_floats(get_minmax_vec(&load_text(&sample_csv()).expect("").data, 4));
    assert_eq!(data, EXPECT, "test_minmax_data: {:#?} == {:#?}", data, EXPECT);
}

#[test]
fn test_minmax_data_all() {
    const EXPECT: (f32, f32) = (0.0, 499.14);
    let table = load_text(&sample_csv()).expect("cannot parse");
    let data = as_floats(get_minmax_all(&table.data, &vec![0, 1, 2, 3, 4]));
    assert_eq!(data, EXPECT, "test_minmax_data: {:#?} == {:#?}", data, EXPECT);
}
