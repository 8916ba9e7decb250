//! The three source converters: CSV text, a directory listing, an RSS feed.

use vstd::prelude::*;
use vstd::string::*;

use crate::cell::{Cell, CellView};
use crate::num::{dec_str_of, u64_dec_string};
use crate::row::Row;
use crate::table::{Table, TableView};
use crate::trusted::{csv_parse, numeric_form, read_csv, read_feed, render_numeric, rss_items};

verus! {

/// What the CSV reader hands back: the heading labels (empty when no header
/// row was read) and the data records.
pub struct CsvData {
    pub headers: Vec<String>,
    pub records: Vec<Vec<String>>,
}

/// One feed item's fields, each possibly absent.
pub struct FeedItem {
    pub date: Option<String>,
    pub title: Option<String>,
    pub description: Option<String>,
    pub link: Option<String>,
}

/// The view of an optional string.
pub open spec fn opt_str_view(o: Option<String>) -> Option<Seq<char>> {
    match o {
        Some(s) => Some(s@),
        None => None,
    }
}

impl View for FeedItem {
    type V = (Option<Seq<char>>, Option<Seq<char>>, Option<Seq<char>>, Option<Seq<char>>);

    open spec fn view(&self) -> Self::V {
        (
            opt_str_view(self.date),
            opt_str_view(self.title),
            opt_str_view(self.description),
            opt_str_view(self.link),
        )
    }
}

/// One regular file found under a directory: its full path (absent when it
/// cannot be shown as text), its extension, and its size in bytes (absent
/// when the file's metadata is unreadable).
pub struct FileEntry {
    pub path: Option<String>,
    pub extension: Option<String>,
    pub size: Option<u64>,
}

/// The mathematical value of a `FileEntry`.
pub struct FileEntryView {
    pub path: Option<Seq<char>>,
    pub extension: Option<Seq<char>>,
    pub size: Option<u64>,
}

impl View for FileEntry {
    type V = FileEntryView;

    open spec fn view(&self) -> FileEntryView {
        FileEntryView {
            path: opt_str_view(self.path),
            extension: opt_str_view(self.extension),
            size: self.size,
        }
    }
}

/// The cell a CSV field becomes: a number when the field reads as one, text
/// otherwise.
pub open spec fn inferred_cell(f: Seq<char>) -> CellView {
    match numeric_form(f) {
        Some(n) => CellView::Number(n),
        None => CellView::Text(f),
    }
}

/// The row a CSV record becomes.
pub open spec fn csv_row(rec: Seq<Seq<char>>) -> Seq<CellView> {
    rec.map_values(|f: Seq<char>| inferred_cell(f))
}

/// The table CSV text becomes: the consumed header labels when headings were
/// requested, and one row per data record; or nothing when the text is not
/// well-formed delimited text.
pub open spec fn csv_table(text: Seq<char>, headings: bool) -> Option<TableView> {
    match csv_parse(text, headings) {
        Some((hdrs, recs)) => Some(
            TableView {
                headings: if headings {
                    Some(hdrs)
                } else {
                    None
                },
                rows: recs.map_values(|rec: Seq<Seq<char>>| csv_row(rec)),
            },
        ),
        None => None,
    }
}

/// Converts CSV text to a table. When `headings` is set the first record is
/// consumed as heading labels, not a data row. Each field becomes a number
/// cell when it reads as a number, a text cell otherwise. Fails exactly when
/// the text is not well-formed delimited text.
pub fn csv_to_table(text: &str, headings: bool) -> (r: Result<Table, csv::Error>)
    ensures
        r matches Ok(t) ==> csv_table(text@, headings) == Some(t@),
        r is Err ==> csv_table(text@, headings) is None,
{
    let data = match read_csv(text, headings) {
        Ok(d) => d,
        Err(e) => {
            return Err(e);
        },
    };
    let ghost recs = data.records@.map_values(|rec: Vec<String>| rec@.map_values(|f: String| f@));
    let mut rows: Vec<Row> = Vec::new();
    let mut i: usize = 0;
    while i < data.records.len()
        invariant
            i <= data.records.len(),
            recs == data.records@.map_values(
                |rec: Vec<String>| rec@.map_values(|f: String| f@),
            ),
            recs.len() == data.records.len(),
            rows@.len() == i,
            forall|j: int| 0 <= j < i ==> rows@[j]@ == csv_row(recs[j]),
        decreases data.records.len() - i,
    {
        let record = &data.records[i];
        let ghost fields = recs[i as int];
        let mut cells: Vec<Cell> = Vec::new();
        let mut k: usize = 0;
        while k < record.len()
            invariant
                k <= record.len(),
                fields == record@.map_values(|f: String| f@),
                fields.len() == record.len(),
                cells@.len() == k,
                forall|j: int| 0 <= j < k ==> cells@[j]@ == inferred_cell(fields[j]),
            decreases record.len() - k,
        {
            let field = &record[k];
            let cell = match render_numeric(field.as_str()) {
                Some(n) => Cell::Number(n),
                None => Cell::Text(field.clone()),
            };
            cells.push(cell);
            k = k + 1;
        }
        proof {
            assert(cells@.map_values(|c: Cell| c@) =~= csv_row(fields));
        }
        rows.push(Row::from_cells(cells));
        i = i + 1;
    }
    let table = Table { headings: if headings { Some(data.headers) } else { None }, rows };
    proof {
        assert(table@.rows =~= recs.map_values(|rec: Seq<Seq<char>>| csv_row(rec)));
        if headings {
            assert(table@.headings == csv_table(text@, headings)->Some_0.headings);
        }
    }
    Ok(table)
}

/// The human-readable category for a file extension.
pub open spec fn category_of(ext: Seq<char>) -> Seq<char> {
    if ext == "txt"@ {
        "Text"@
    } else if ext == "png"@ || ext == "jpg"@ || ext == "jpeg"@ || ext == "bmp"@ || ext == "gif"@ {
        "Image"@
    } else if ext == "mp4"@ || ext == "mov"@ || ext == "mkv"@ {
        "Video"@
    } else if ext == "mp3"@ || ext == "wav"@ || ext == "aiff"@ || ext == "ogg"@ {
        "Audio"@
    } else if ext == "md"@ || ext == "pdf"@ || ext == "rtf"@ || ext == "doc"@ || ext == "docx"@
        || ext == "odt"@ || ext == "fodt"@ {
        "Document"@
    } else if ext == "ppt"@ || ext == "pptx"@ || ext == "fodp"@ || ext == "odp"@ {
        "Slideshow"@
    } else if ext == "xls"@ || ext == "xlsx"@ || ext == "ods"@ || ext == "fods"@ {
        "Spreadsheet"@
    } else if ext == "c"@ || ext == "cpp"@ || ext == "rs"@ || ext == "js"@ || ext == "py"@
        || ext == "xml"@ || ext == "html"@ || ext == "php"@ || ext == "sh"@ || ext == "cmd"@
        || ext == "bat"@ {
        "Code"@
    } else {
        "File"@
    }
}

/// The type label shown for a file: `"<Category> (.<ext>)"`, or plain
/// `"File"` when the file has no usable extension.
pub open spec fn type_label(extension: Option<Seq<char>>) -> Seq<char> {
    match extension {
        Some(e) => category_of(e) + " (."@ + e + ")"@,
        None => "File"@,
    }
}

/// The row a file entry becomes: path, type label, size in bytes.
pub open spec fn entry_row(e: FileEntryView) -> Seq<CellView> {
    seq![
        match e.path {
            Some(p) => CellView::Text(p),
            None => CellView::Empty,
        },
        CellView::Text(type_label(e.extension)),
        match e.size {
            Some(n) => CellView::Number(dec_str_of(n as nat)),
            None => CellView::Empty,
        },
    ]
}

/// The table a directory listing becomes.
pub open spec fn directory_table(entries: Seq<FileEntryView>, headings: bool) -> TableView {
    TableView {
        headings: if headings {
            Some(seq!["File"@, "Type"@, "Size (bytes)"@])
        } else {
            None
        },
        rows: entries.map_values(|e: FileEntryView| entry_row(e)),
    }
}

pub(crate) fn str_matches(s: &String, lit: &str) -> (r: bool)
    ensures
        r == (s@ == lit@),
{
    let owned = lit.to_owned();
    *s == owned
}

/// The human-readable category for a file extension.
pub fn category_label(ext: &String) -> (r: &'static str)
    ensures
        r@ == category_of(ext@),
{
    if str_matches(ext, "txt") {
        "Text"
    } else if str_matches(ext, "png") || str_matches(ext, "jpg") || str_matches(ext, "jpeg")
        || str_matches(ext, "bmp") || str_matches(ext, "gif") {
        "Image"
    } else if str_matches(ext, "mp4") || str_matches(ext, "mov") || str_matches(ext, "mkv") {
        "Video"
    } else if str_matches(ext, "mp3") || str_matches(ext, "wav") || str_matches(ext, "aiff")
        || str_matches(ext, "ogg") {
        "Audio"
    } else if str_matches(ext, "md") || str_matches(ext, "pdf") || str_matches(ext, "rtf")
        || str_matches(ext, "doc") || str_matches(ext, "docx") || str_matches(ext, "odt")
        || str_matches(ext, "fodt") {
        "Document"
    } else if str_matches(ext, "ppt") || str_matches(ext, "pptx") || str_matches(ext, "fodp")
        || str_matches(ext, "odp") {
        "Slideshow"
    } else if str_matches(ext, "xls") || str_matches(ext, "xlsx") || str_matches(ext, "ods")
        || str_matches(ext, "fods") {
        "Spreadsheet"
    } else if str_matches(ext, "c") || str_matches(ext, "cpp") || str_matches(ext, "rs")
        || str_matches(ext, "js") || str_matches(ext, "py") || str_matches(ext, "xml")
        || str_matches(ext, "html") || str_matches(ext, "php") || str_matches(ext, "sh")
        || str_matches(ext, "cmd") || str_matches(ext, "bat") {
        "Code"
    } else {
        "File"
    }
}

/// Converts a directory listing to a table: one row per regular file, with
/// its path, a type label from a fixed extension table, and its size in
/// bytes. Entries whose path or metadata could not be read degrade to empty
/// cells or the plain "File" label; the conversion itself never fails.
pub fn directory_to_table(entries: &Vec<FileEntry>, headings: bool) -> (r: Table)
    ensures
        r@ == directory_table(entries@.map_values(|e: FileEntry| e@), headings),
{
    let ghost evs = entries@.map_values(|e: FileEntry| e@);
    let mut rows: Vec<Row> = Vec::new();
    let mut i: usize = 0;
    while i < entries.len()
        invariant
            i <= entries.len(),
            evs == entries@.map_values(|e: FileEntry| e@),
            evs.len() == entries.len(),
            rows@.len() == i,
            forall|j: int| 0 <= j < i ==> rows@[j]@ == entry_row(evs[j]),
        decreases entries.len() - i,
    {
        let e = &entries[i];
        let mut cells: Vec<Cell> = Vec::new();
        let path_cell = match &e.path {
            Some(p) => Cell::Text(p.clone()),
            None => Cell::Empty,
        };
        cells.push(path_cell);
        let label_cell = match &e.extension {
            Some(ext) => {
                let mut label = category_label(ext).to_owned();
                label.append(" (.");
                label.append(ext.as_str());
                label.append(")");
                Cell::Text(label)
            },
            None => Cell::Text("File".to_owned()),
        };
        cells.push(label_cell);
        let size_cell = match e.size {
            Some(n) => Cell::Number(u64_dec_string(n)),
            None => Cell::Empty,
        };
        cells.push(size_cell);
        let row = Row::from_cells(cells);
        proof {
            assert(row@ =~= entry_row(evs[i as int]));
        }
        rows.push(row);
        i = i + 1;
    }
    let table = if headings {
        let mut labels: Vec<&str> = Vec::new();
        labels.push("File");
        labels.push("Type");
        labels.push("Size (bytes)");
        Table::new().with_rows(rows).with_headings(labels)
    } else {
        Table::new().with_rows(rows)
    };
    proof {
        assert(table@.rows =~= evs.map_values(|e: FileEntryView| entry_row(e)));
        if headings {
            assert(table@.headings->Some_0 =~= seq!["File"@, "Type"@, "Size (bytes)"@]);
        }
    }
    table
}

/// The cell an optional feed field becomes.
pub open spec fn opt_cell(o: Option<Seq<char>>) -> CellView {
    match o {
        Some(s) => CellView::Text(s),
        None => CellView::Empty,
    }
}

/// The row a feed item becomes: publish date, title, description, link.
pub open spec fn feed_row(
    item: (Option<Seq<char>>, Option<Seq<char>>, Option<Seq<char>>, Option<Seq<char>>),
) -> Seq<CellView> {
    seq![opt_cell(item.0), opt_cell(item.1), opt_cell(item.2), opt_cell(item.3)]
}

/// The table a feed becomes: one row per item; or nothing when the text is
/// not a well-formed feed document.
pub open spec fn rss_table(text: Seq<char>, headings: bool) -> Option<TableView> {
    match rss_items(text) {
        Some(items) => Some(
            TableView {
                headings: if headings {
                    Some(seq!["Date"@, "Title"@, "Description"@, "Link"@])
                } else {
                    None
                },
                rows: items.map_values(
                    |it: (Option<Seq<char>>, Option<Seq<char>>, Option<Seq<char>>, Option<
                        Seq<char>,
                    >)| feed_row(it),
                ),
            },
        ),
        None => None,
    }
}

fn opt_string_cell(o: &Option<String>) -> (r: Cell)
    ensures
        r@ == opt_cell(opt_str_view(*o)),
{
    match o {
        Some(s) => Cell::Text(s.clone()),
        None => Cell::Empty,
    }
}

/// Converts a feed document to a table: one row per item, with its publish
/// date, title, description and link, each a text cell when present and an
/// empty cell otherwise. Fails exactly when the text is not a well-formed
/// feed document.
pub fn rss_to_table(text: &str, headings: bool) -> (r: Result<Table, rss::Error>)
    ensures
        r matches Ok(t) ==> rss_table(text@, headings) == Some(t@),
        r is Err ==> rss_table(text@, headings) is None,
{
    let items = match read_feed(text) {
        Ok(v) => v,
        Err(e) => {
            return Err(e);
        },
    };
    let ghost ivs = items@.map_values(|it: FeedItem| it@);
    let mut rows: Vec<Row> = Vec::new();
    let mut i: usize = 0;
    while i < items.len()
        invariant
            i <= items.len(),
            ivs == items@.map_values(|it: FeedItem| it@),
            ivs.len() == items.len(),
            rows@.len() == i,
            forall|j: int| 0 <= j < i ==> rows@[j]@ == feed_row(ivs[j]),
        decreases items.len() - i,
    {
        let item = &items[i];
        let mut cells: Vec<Cell> = Vec::new();
        cells.push(opt_string_cell(&item.date));
        cells.push(opt_string_cell(&item.title));
        cells.push(opt_string_cell(&item.description));
        cells.push(opt_string_cell(&item.link));
        let row = Row::from_cells(cells);
        proof {
            assert(row@ =~= feed_row(ivs[i as int]));
        }
        rows.push(row);
        i = i + 1;
    }
    let table = if headings {
        let mut labels: Vec<&str> = Vec::new();
        labels.push("Date");
        labels.push("Title");
        labels.push("Description");
        labels.push("Link");
        Table::new().with_rows(rows).with_headings(labels)
    } else {
        Table::new().with_rows(rows)
    };
    proof {
        let expected = rss_table(text@, headings)->Some_0;
        assert(table@.rows =~= expected.rows);
        if headings {
            assert(table@.headings->Some_0 =~= expected.headings->Some_0);
        }
    }
    Ok(table)
}

} // verus!
