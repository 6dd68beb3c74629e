use clusterlab::datasets::iris;
use clusterlab::datasets::parse_csv_features;

#[test]
fn iris_csv_parses_to_150_rows() {
    let rows = parse_csv_features(iris::CSV);
    assert_eq!(rows.len(), 150, "iris should have 150 samples");
}

#[test]
fn iris_rows_have_four_measurements_that_parse() {
    let rows = parse_csv_features(iris::CSV);
    for r in &rows {
        assert_eq!(r.len(), 4);
        for c in r {
            assert!(c.parse::<f32>().is_ok(), "cell {c} should parse");
        }
    }
    assert_eq!(rows[0], vec!["5.1", "3.5", "1.4", "0.2"]);
    assert_eq!(rows[149], vec!["5.9", "3.0", "5.1", "1.8"]);
}

#[test]
fn csv_parser_skips_alphabetic_header() {
    let csv = "a,b\n1.0,2.0\n3.0,4.0";
    let rows = parse_csv_features(csv);
    assert_eq!(rows.len(), 2);
}

#[test]
fn csv_parser_skips_empty_lines() {
    let csv = "1.0,2.0\n\n3.0,4.0\n";
    let rows = parse_csv_features(csv);
    assert_eq!(rows.len(), 2);
}

#[test]
fn csv_parser_drops_non_numeric_label_columns() {
    let csv = "5.1,3.5,1.4,0.2,Iris-setosa\n4.9,3.0,1.4,0.2,Iris-setosa";
    let rows = parse_csv_features(csv);
    assert_eq!(rows.len(), 2);
    assert_eq!(rows[0].len(), 4);
}

#[test]
fn csv_parser_keeps_numeric_first_line() {
    let rows = parse_csv_features("1,2\n3,4\n");
    assert_eq!(rows, vec![vec!["1", "2"], vec!["3", "4"]]);
}

#[test]
fn csv_parser_only_first_line_can_be_header() {
    // A later non-numeric first column is not a header: its number cells stay.
    let rows = parse_csv_features("1,2\nx,3\ny,z\n");
    assert_eq!(rows, vec![vec!["1", "2"], vec!["3"]]);
}

#[test]
fn csv_parser_trims_cells_and_lines() {
    let rows = parse_csv_features("  \t\r\n 1.5 ,\t-2e3 , abc \r\n");
    assert_eq!(rows, vec![vec!["1.5", "-2e3"]]);
}

#[test]
fn csv_parser_number_grammar_matches_std() {
    let cells = [
        "1", "+1", "-1", ".5", "5.", "1.5e10", "1E-3", "1e+3", "inf", "-Infinity", "NaN",
        "+nan", "1.2.3", ".", "e5", "1e", "1e+", "--1", "0x10", "1_0", "infin", "", "+",
        "1.5E3.5", "12e3e4",
    ];
    for c in cells {
        let csv = format!("0\n{c}\n");
        let rows = parse_csv_features(&csv);
        let kept = rows.len() == 2;
        assert_eq!(kept, c.parse::<f32>().is_ok(), "cell {c:?}");
    }
}

#[test]
fn csv_parser_empty_input_has_no_rows() {
    assert!(parse_csv_features("").is_empty());
    assert!(parse_csv_features("\n\n  \n").is_empty());
    assert!(parse_csv_features("header,only\n").is_empty());
}
