use sheet_gen::cell::Cell;
use sheet_gen::convert::{FileEntry, csv_to_table, directory_to_table, rss_to_table};

#[test]
fn csv_with_headings_round_trip() {
    let table = csv_to_table("a,b\n1,2\n3,x\n", true).unwrap();
    assert_eq!(table.headings, Some(vec!["a".to_string(), "b".to_string()]));
    assert_eq!(table.rows.len(), 2);
    assert_eq!(
        table.rows[0].cells,
        vec![Cell::Number("1".to_string()), Cell::Number("2".to_string())]
    );
    assert_eq!(
        table.rows[1].cells,
        vec![Cell::Number("3".to_string()), Cell::Text("x".to_string())]
    );
}

#[test]
fn csv_without_headings_keeps_first_line_as_data() {
    let table = csv_to_table("a,b\n1,2\n3,x\n", false).unwrap();
    assert_eq!(table.headings, None);
    assert_eq!(table.rows.len(), 3);
    assert_eq!(
        table.rows[0].cells,
        vec![Cell::Text("a".to_string()), Cell::Text("b".to_string())]
    );
}

#[test]
fn csv_quoted_fields_are_really_parsed() {
    let table = csv_to_table("\"x,y\",2\n", false).unwrap();
    assert_eq!(
        table.rows[0].cells,
        vec![Cell::Text("x,y".to_string()), Cell::Number("2".to_string())]
    );
}

#[test]
fn csv_numeric_fields_are_normalized() {
    let table = csv_to_table("2.50,-3.25\n", false).unwrap();
    assert_eq!(
        table.rows[0].cells,
        vec![
            Cell::Number("2.5".to_string()),
            Cell::Number("-3.25".to_string()),
        ]
    );
}

#[test]
fn csv_large_integers_round_trip_losslessly() {
    let table = csv_to_table("9007199254740993,18446744073709551615\n", false).unwrap();
    assert_eq!(
        table.rows[0].cells,
        vec![
            Cell::Number("9007199254740993".to_string()),
            Cell::Number("18446744073709551615".to_string()),
        ]
    );
}

#[test]
fn csv_malformed_text_is_an_error() {
    assert!(csv_to_table("a,b\n\"bad\n", true).is_err());
}

#[test]
fn directory_row_for_one_document() {
    let entries = vec![FileEntry {
        path: Some("/data/report.pdf".to_string()),
        extension: Some("pdf".to_string()),
        size: Some(1024),
    }];
    let table = directory_to_table(&entries, true);
    assert_eq!(
        table.headings,
        Some(vec![
            "File".to_string(),
            "Type".to_string(),
            "Size (bytes)".to_string(),
        ])
    );
    assert_eq!(table.rows.len(), 1);
    assert_eq!(
        table.rows[0].cells,
        vec![
            Cell::Text("/data/report.pdf".to_string()),
            Cell::Text("Document (.pdf)".to_string()),
            Cell::Number("1024".to_string()),
        ]
    );
}

#[test]
fn directory_unreadable_entry_degrades() {
    let entries = vec![FileEntry { path: None, extension: None, size: None }];
    let table = directory_to_table(&entries, false);
    assert_eq!(table.headings, None);
    assert_eq!(
        table.rows[0].cells,
        vec![Cell::Empty, Cell::Text("File".to_string()), Cell::Empty]
    );
}

#[test]
fn directory_category_table() {
    let mk = |ext: &str| FileEntry {
        path: Some(format!("/f.{}", ext)),
        extension: Some(ext.to_string()),
        size: Some(1),
    };
    let entries = vec![mk("txt"), mk("jpeg"), mk("rs"), mk("ods"), mk("weird")];
    let table = directory_to_table(&entries, false);
    assert_eq!(table.rows[0].cells[1], Cell::Text("Text (.txt)".to_string()));
    assert_eq!(table.rows[1].cells[1], Cell::Text("Image (.jpeg)".to_string()));
    assert_eq!(table.rows[2].cells[1], Cell::Text("Code (.rs)".to_string()));
    assert_eq!(
        table.rows[3].cells[1],
        Cell::Text("Spreadsheet (.ods)".to_string())
    );
    assert_eq!(table.rows[4].cells[1], Cell::Text("File (.weird)".to_string()));
}

#[test]
fn rss_item_with_only_a_title() {
    let feed = "<rss version=\"2.0\"><channel><title>t</title><link>l</link>\
                <description>d</description><item><title>Hello</title></item>\
                </channel></rss>";
    let table = rss_to_table(feed, true).unwrap();
    assert_eq!(
        table.headings,
        Some(vec![
            "Date".to_string(),
            "Title".to_string(),
            "Description".to_string(),
            "Link".to_string(),
        ])
    );
    assert_eq!(table.rows.len(), 1);
    assert_eq!(
        table.rows[0].cells,
        vec![
            Cell::Empty,
            Cell::Text("Hello".to_string()),
            Cell::Empty,
            Cell::Empty,
        ]
    );
}

#[test]
fn rss_full_item_in_column_order() {
    let feed = "<rss version=\"2.0\"><channel><title>t</title><link>l</link>\
                <description>d</description><item><title>T</title>\
                <link>http://example.com/x</link><description>D</description>\
                <pubDate>Mon, 01 Jan 2024 00:00:00 GMT</pubDate></item>\
                </channel></rss>";
    let table = rss_to_table(feed, false).unwrap();
    assert_eq!(table.headings, None);
    assert_eq!(
        table.rows[0].cells,
        vec![
            Cell::Text("Mon, 01 Jan 2024 00:00:00 GMT".to_string()),
            Cell::Text("T".to_string()),
            Cell::Text("D".to_string()),
            Cell::Text("http://example.com/x".to_string()),
        ]
    );
}

#[test]
fn rss_malformed_feed_is_an_error() {
    assert!(rss_to_table("not a feed at all", true).is_err());
}
