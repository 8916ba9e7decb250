use sheet_gen::cell::Cell;
use sheet_gen::num::u64_dec_string;
use sheet_gen::row::Row;
use sheet_gen::table::Table;
use sheet_gen::workbook::Workbook;
use sheet_gen::worksheet::Worksheet;
use sheet_gen::xml::escape_string;

#[test]
fn escape_leaves_plain_text_unchanged() {
    assert_eq!(escape_string("hello world 123 \u{e9}"), "hello world 123 \u{e9}");
    assert_eq!(escape_string(""), "");
}

#[test]
fn escape_each_reserved_char() {
    assert_eq!(escape_string("'"), "&apos;");
    assert_eq!(escape_string("\""), "&quot;");
    assert_eq!(escape_string("&"), "&amp;");
    assert_eq!(escape_string("<"), "&lt;");
    assert_eq!(escape_string(">"), "&gt;");
}

#[test]
fn escape_mixed_text() {
    assert_eq!(escape_string("a<b&c>d"), "a&lt;b&amp;c&gt;d");
}

#[test]
fn cell_type_names_match_variants() {
    assert_eq!(Cell::Text("x".to_string()).xml_type_str(), "String");
    assert_eq!(Cell::Number("1".to_string()).xml_type_str(), "Number");
    assert_eq!(Cell::Empty.xml_type_str(), "");
}

#[test]
fn cell_xml_escapes_content() {
    assert_eq!(
        Cell::Text("a&b".to_string()).to_xml(),
        "<Cell><Data ss:Type=\"String\">a&amp;b</Data></Cell>"
    );
    assert_eq!(
        Cell::Number("42".to_string()).to_xml(),
        "<Cell><Data ss:Type=\"Number\">42</Data></Cell>"
    );
    assert_eq!(Cell::Empty.to_xml(), "<Cell><Data ss:Type=\"\"></Data></Cell>");
}

#[test]
fn cell_xml_with_style_carries_style_id() {
    assert_eq!(
        Cell::Text("x".to_string()).to_xml_with_style("Default"),
        "<Cell ss:StyleID=\"Default\"><Data ss:Type=\"String\">x</Data></Cell>"
    );
}

#[test]
fn row_xml_lists_cells_in_order() {
    let row = Row::from_cells(vec![
        Cell::Text("a".to_string()),
        Cell::Number("1".to_string()),
    ]);
    assert_eq!(
        row.to_xml(),
        "<Row>\n<Cell><Data ss:Type=\"String\">a</Data></Cell>\n\
         <Cell><Data ss:Type=\"Number\">1</Data></Cell>\n</Row>"
    );
}

#[test]
fn table_xml_puts_styled_heading_row_first() {
    let table = Table::from_rows(vec![Row::from_cells(vec![Cell::Number("1".to_string())])])
        .with_headings(vec!["h"]);
    let xml = table.to_xml();
    assert_eq!(
        xml,
        "<Table>\n\
         <Row>\n<Cell ss:StyleID=\"Heading\"><Data ss:Type=\"String\">h</Data></Cell>\n</Row>\n\
         <Row>\n<Cell ss:StyleID=\"Default\"><Data ss:Type=\"Number\">1</Data></Cell>\n</Row>\n\
         </Table>"
    );
}

#[test]
fn table_without_headings_emits_only_data_rows() {
    let table = Table::from_rows(vec![Row::from_cells(vec![Cell::Empty])]);
    let xml = table.to_xml();
    assert!(!xml.contains("Heading"));
    assert_eq!(xml.matches("<Row>").count(), 1);
}

#[test]
fn worksheet_xml_escapes_its_name() {
    let ws = Worksheet::new().with_name("a<b").with_table(Table::new());
    let xml = ws.to_xml();
    assert!(xml.starts_with("<Worksheet ss:Name=\"a&lt;b\">\n"));
    assert!(xml.ends_with("\n</Worksheet>"));
}

#[test]
fn workbook_xml_is_well_formed_per_worksheet() {
    let ws1 = Worksheet::new().with_name("First").with_table(Table::new());
    let ws2 = Worksheet::new().with_name("Second").with_table(Table::new());
    let xml = Workbook::new().with_worksheets(vec![ws1, ws2]).to_xml();
    assert_eq!(xml.matches("<Workbook").count(), 1);
    assert_eq!(xml.matches("</Workbook>").count(), 1);
    assert!(xml.ends_with("</Workbook>"));
    assert_eq!(xml.matches("<Worksheet ").count(), 2);
    assert_eq!(xml.matches("</Worksheet>").count(), 2);
    assert_eq!(xml.matches("<Table>").count(), 2);
    assert_eq!(xml.matches("</Table>").count(), 2);
    let first = xml.find("ss:Name=\"First\"").unwrap();
    let second = xml.find("ss:Name=\"Second\"").unwrap();
    assert!(first < second);
    assert!(xml.contains("ss:ID=\"Heading\""));
    assert!(xml.contains("ss:ID=\"Default\""));
}

#[test]
fn empty_workbook_is_still_well_formed() {
    let xml = Workbook::new().to_xml();
    assert_eq!(xml.matches("<Workbook").count(), 1);
    assert!(xml.ends_with("</Workbook>"));
    assert!(!xml.contains("<Worksheet "));
}

#[test]
fn cell_display_text_matches_content() {
    assert_eq!(Cell::Text("a&b".to_string()).display_text(), "a&b");
    assert_eq!(Cell::Number("3.5".to_string()).display_text(), "3.5");
    assert_eq!(Cell::Empty.display_text(), "");
}

#[test]
fn default_values_are_empty() {
    assert_eq!(Row::default(), Row::new());
    assert_eq!(Table::default(), Table::new());
    assert_eq!(Worksheet::default(), Worksheet::new());
    assert_eq!(Workbook::default(), Workbook::new());
}

#[test]
fn decimal_rendering_is_exact() {
    assert_eq!(u64_dec_string(0), "0");
    assert_eq!(u64_dec_string(7), "7");
    assert_eq!(u64_dec_string(1024), "1024");
    assert_eq!(u64_dec_string(18446744073709551615), "18446744073709551615");
}
