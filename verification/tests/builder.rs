use sheet_gen::builders::{
    Builder, BuilderTableSource, BuilderWorksheet, ResolveAction, ResolvedSource,
};
use sheet_gen::cli::parse_args;
use sheet_gen::cli::wants_help;
use sheet_gen::convert::FileEntry;
use sheet_gen::gui::{AppCommand, SheetgenApp};

fn spec_for(source: BuilderTableSource, title: &str) -> BuilderWorksheet {
    BuilderWorksheet {
        table_source: Some(source),
        title: title.to_string(),
        headings: true,
    }
}

#[test]
fn resolve_action_fetches_urls_and_reads_paths() {
    let url = BuilderTableSource::Csv("https://example.com/data.csv".to_string());
    assert_eq!(
        url.resolve_action(),
        ResolveAction::FetchUrl("https://example.com/data.csv".to_string())
    );
    let file = BuilderTableSource::Rss("feed.xml".to_string());
    assert_eq!(file.resolve_action(), ResolveAction::ReadFile("feed.xml".to_string()));
    let dir = BuilderTableSource::Directory("some/dir".to_string());
    assert_eq!(dir.resolve_action(), ResolveAction::UsePath("some/dir".to_string()));
}

#[test]
fn resolve_error_is_tagged_by_action() {
    let url = BuilderTableSource::Csv("https://example.com/data.csv".to_string());
    assert_eq!(url.resolve_error("boom"), "url: boom");
    let file = BuilderTableSource::Csv("data.csv".to_string());
    assert_eq!(file.resolve_error("boom"), "file: boom");
}

#[test]
fn source_string_accessors() {
    let mut src = BuilderTableSource::Rss("a".to_string());
    assert_eq!(src.string(), "a");
    src.set_string("b".to_string());
    assert_eq!(src, BuilderTableSource::Rss("b".to_string()));
}

#[test]
fn build_converts_every_worksheet_in_order() {
    let builder = Builder {
        worksheets: vec![
            spec_for(BuilderTableSource::Csv("a.csv".to_string()), "One"),
            spec_for(BuilderTableSource::Directory("d".to_string()), "Two"),
        ],
        output: None,
    };
    let outcomes = vec![
        Ok(ResolvedSource::Text("h\n1\n".to_string())),
        Ok(ResolvedSource::Listing(vec![FileEntry {
            path: Some("/d/x.txt".to_string()),
            extension: Some("txt".to_string()),
            size: Some(3),
        }])),
    ];
    let worksheets = builder.build(&outcomes).unwrap();
    assert_eq!(worksheets.len(), 2);
    assert_eq!(worksheets[0].name, "One");
    assert_eq!(worksheets[0].table.headings, Some(vec!["h".to_string()]));
    assert_eq!(worksheets[1].name, "Two");
    assert_eq!(worksheets[1].table.rows.len(), 1);
}

#[test]
fn build_stops_at_first_resolve_failure() {
    let builder = Builder {
        worksheets: vec![
            spec_for(BuilderTableSource::Csv("missing.csv".to_string()), "One"),
            spec_for(BuilderTableSource::Csv("other.csv".to_string()), "Two"),
        ],
        output: None,
    };
    let outcomes = vec![
        Err("no such file".to_string()),
        Err("never looked at".to_string()),
    ];
    assert_eq!(builder.build(&outcomes), Err("file: no such file".to_string()));
}

#[test]
fn build_first_error_wins_over_later_success() {
    let builder = Builder {
        worksheets: vec![
            spec_for(BuilderTableSource::Csv("bad.csv".to_string()), "One"),
            spec_for(BuilderTableSource::Csv("fine.csv".to_string()), "Two"),
        ],
        output: None,
    };
    let outcomes = vec![
        Ok(ResolvedSource::Text("a,b\n\"bad\n".to_string())),
        Ok(ResolvedSource::Text("a\n1\n".to_string())),
    ];
    let err = builder.build(&outcomes).unwrap_err();
    assert!(err.starts_with("csv: "));
}

#[test]
fn build_tags_rss_conversion_failures() {
    let builder = Builder {
        worksheets: vec![spec_for(BuilderTableSource::Rss("f.xml".to_string()), "Feed")],
        output: None,
    };
    let outcomes = vec![Ok(ResolvedSource::Text("not xml".to_string()))];
    let err = builder.build(&outcomes).unwrap_err();
    assert!(err.starts_with("rss: "));
}

#[test]
fn parse_args_collects_worksheets_and_output() {
    let args = vec![
        "-w".to_string(),
        "Sales".to_string(),
        "-c".to_string(),
        "sales.csv".to_string(),
        "-H".to_string(),
        "-d".to_string(),
        "docs".to_string(),
        "-o".to_string(),
        "out.xml".to_string(),
    ];
    let builder = parse_args(&args).unwrap();
    assert_eq!(builder.output, Some("out.xml".to_string()));
    assert_eq!(builder.worksheets.len(), 2);
    assert_eq!(builder.worksheets[0].title, "Sales");
    assert_eq!(
        builder.worksheets[0].table_source,
        Some(BuilderTableSource::Csv("sales.csv".to_string()))
    );
    assert!(builder.worksheets[0].headings);
    assert_eq!(builder.worksheets[1].title, "Worksheet 1");
    assert_eq!(
        builder.worksheets[1].table_source,
        Some(BuilderTableSource::Directory("docs".to_string()))
    );
    assert!(!builder.worksheets[1].headings);
}

#[test]
fn parse_args_default_title_counts_from_zero() {
    let args = vec!["-r".to_string(), "feed.xml".to_string()];
    let builder = parse_args(&args).unwrap();
    assert_eq!(builder.worksheets[0].title, "Worksheet 0");
    assert_eq!(
        builder.worksheets[0].table_source,
        Some(BuilderTableSource::Rss("feed.xml".to_string()))
    );
}

#[test]
fn parse_args_usage_errors() {
    assert_eq!(
        parse_args(&vec!["stray".to_string()]),
        Err("invalid syntax.".to_string())
    );
    assert_eq!(
        parse_args(&vec!["-w".to_string()]),
        Err("option given but not specified.".to_string())
    );
    assert_eq!(parse_args(&Vec::new()), Err("no source data given.".to_string()));
    assert_eq!(
        parse_args(&vec!["-o".to_string(), "out.xml".to_string()]),
        Err("no source data given.".to_string())
    );
}

#[test]
fn wants_help_finds_either_flag() {
    assert!(wants_help(&vec!["-c".to_string(), "-h".to_string()]));
    assert!(wants_help(&vec!["--help".to_string()]));
    assert!(!wants_help(&vec!["-c".to_string(), "x.csv".to_string()]));
}

#[test]
fn process_commands_reorders_and_deletes() {
    let mk = |t: &str| BuilderWorksheet {
        table_source: Some(BuilderTableSource::Csv(format!("{}.csv", t))),
        title: t.to_string(),
        headings: true,
    };
    let mut app = SheetgenApp {
        builder: Builder {
            worksheets: vec![mk("a"), mk("b"), mk("c")],
            output: None,
        },
        commands: vec![AppCommand::MoveUp(2), AppCommand::NoOp, AppCommand::Delete(0)],
        export_status: None,
    };
    app.process_commands();
    let titles: Vec<&str> = app
        .builder
        .worksheets
        .iter()
        .map(|w| w.title.as_str())
        .collect();
    assert_eq!(titles, vec!["c", "b"]);
    assert!(app.commands.is_empty());
}

#[test]
fn process_commands_ignores_out_of_range_moves() {
    let mut app = SheetgenApp {
        builder: Builder {
            worksheets: vec![BuilderWorksheet::new()],
            output: None,
        },
        commands: vec![AppCommand::MoveUp(0), AppCommand::MoveDown(0)],
        export_status: None,
    };
    app.process_commands();
    assert_eq!(app.builder.worksheets.len(), 1);
}
