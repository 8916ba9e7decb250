//! The orchestration layer: pending worksheet specifications, the plan for
//! resolving each source, and the fail-fast assembly of worksheets.
//!
//! Resolving a source needs the outside world (a network fetch, a file read,
//! a directory walk), so the decisions here are pure: `resolve_action` says
//! what to do for a source, and `build` consumes the outcomes of those
//! actions, in order, stopping at the first failure.

use vstd::prelude::*;
use vstd::string::*;

use crate::convert::{
    FileEntry, FileEntryView, csv_table, csv_to_table, directory_table, directory_to_table,
    opt_str_view, rss_table, rss_to_table,
};
use crate::table::TableView;
use crate::trusted::{csv_error_message, is_url_of, path_is_url, rss_error_message};
use crate::worksheet::{Worksheet, WorksheetView};

verus! {

/// The mathematical value of a `BuilderTableSource`.
pub enum SourceView {
    Csv(Seq<char>),
    Directory(Seq<char>),
    Rss(Seq<char>),
}

/// Where a worksheet's table data comes from: CSV text, a directory tree, or
/// an RSS feed, each named by a path or URL.
#[derive(Clone, Debug, PartialEq, Eq)]
pub enum BuilderTableSource {
    Csv(String),
    Directory(String),
    Rss(String),
}

impl View for BuilderTableSource {
    type V = SourceView;

    open spec fn view(&self) -> SourceView {
        match self {
            BuilderTableSource::Csv(s) => SourceView::Csv(s@),
            BuilderTableSource::Directory(s) => SourceView::Directory(s@),
            BuilderTableSource::Rss(s) => SourceView::Rss(s@),
        }
    }
}

/// The path or URL a source names.
pub open spec fn source_string(v: SourceView) -> Seq<char> {
    match v {
        SourceView::Csv(s) => s,
        SourceView::Directory(s) => s,
        SourceView::Rss(s) => s,
    }
}

/// A source with its path or URL replaced, its variant kept.
pub open spec fn source_with_string(v: SourceView, s: Seq<char>) -> SourceView {
    match v {
        SourceView::Csv(_) => SourceView::Csv(s),
        SourceView::Directory(_) => SourceView::Directory(s),
        SourceView::Rss(_) => SourceView::Rss(s),
    }
}

/// The mathematical value of a `ResolveAction`.
pub enum ActionView {
    FetchUrl(Seq<char>),
    ReadFile(Seq<char>),
    UsePath(Seq<char>),
}

/// What resolving a source requires of the outside world: fetch a URL, read
/// a local file, or walk the directory the path names.
#[derive(Clone, Debug, PartialEq, Eq)]
pub enum ResolveAction {
    FetchUrl(String),
    ReadFile(String),
    UsePath(String),
}

impl View for ResolveAction {
    type V = ActionView;

    open spec fn view(&self) -> ActionView {
        match self {
            ResolveAction::FetchUrl(s) => ActionView::FetchUrl(s@),
            ResolveAction::ReadFile(s) => ActionView::ReadFile(s@),
            ResolveAction::UsePath(s) => ActionView::UsePath(s@),
        }
    }
}

/// The action a source calls for: CSV and RSS sources are fetched when their
/// string is a well-formed URL and read as a local file otherwise; a
/// directory source passes its path through unchanged.
pub open spec fn resolve_plan(v: SourceView) -> ActionView {
    match v {
        SourceView::Csv(p) => if is_url_of(p) {
            ActionView::FetchUrl(p)
        } else {
            ActionView::ReadFile(p)
        },
        SourceView::Rss(p) => if is_url_of(p) {
            ActionView::FetchUrl(p)
        } else {
            ActionView::ReadFile(p)
        },
        SourceView::Directory(p) => ActionView::UsePath(p),
    }
}

/// The tagged message reported when resolving a source fails: "url: " before
/// a transport failure, "file: " before a filesystem failure.
pub open spec fn resolve_error_msg(v: SourceView, io_message: Seq<char>) -> Seq<char> {
    match resolve_plan(v) {
        ActionView::FetchUrl(_) => "url: "@ + io_message,
        ActionView::ReadFile(_) => "file: "@ + io_message,
        ActionView::UsePath(_) => "file: "@ + io_message,
    }
}

impl BuilderTableSource {
    /// The action this source calls for.
    pub fn resolve_action(&self) -> (r: ResolveAction)
        ensures
            r@ == resolve_plan(self@),
    {
        match self {
            BuilderTableSource::Csv(p) | BuilderTableSource::Rss(p) => {
                if path_is_url(p.as_str()) {
                    ResolveAction::FetchUrl(p.clone())
                } else {
                    ResolveAction::ReadFile(p.clone())
                }
            },
            BuilderTableSource::Directory(p) => ResolveAction::UsePath(p.clone()),
        }
    }

    /// The tagged message for a failure of this source's resolve action.
    pub fn resolve_error(&self, io_message: &str) -> (r: String)
        ensures
            r@ == resolve_error_msg(self@, io_message@),
    {
        let fetch = match self {
            BuilderTableSource::Csv(p) | BuilderTableSource::Rss(p) => path_is_url(p.as_str()),
            BuilderTableSource::Directory(_) => false,
        };
        let mut out = if fetch {
            "url: ".to_owned()
        } else {
            "file: ".to_owned()
        };
        out.append(io_message);
        out
    }

    /// The source's path or URL.
    pub fn string(&self) -> (r: String)
        ensures
            r@ == source_string(self@),
    {
        match self {
            BuilderTableSource::Csv(s) => s.clone(),
            BuilderTableSource::Directory(s) => s.clone(),
            BuilderTableSource::Rss(s) => s.clone(),
        }
    }

    /// Replaces the source's path or URL, keeping its variant.
    pub fn set_string(&mut self, str_in: String)
        ensures
            final(self)@ == source_with_string(old(self)@, str_in@),
    {
        match self {
            BuilderTableSource::Csv(s) => *s = str_in,
            BuilderTableSource::Directory(s) => *s = str_in,
            BuilderTableSource::Rss(s) => *s = str_in,
        }
    }
}

/// The mathematical value of a `BuilderWorksheet`.
pub struct BuilderWorksheetView {
    pub table_source: Option<SourceView>,
    pub title: Seq<char>,
    pub headings: bool,
}

/// A pending worksheet specification: an optional source, a title, and a
/// headings switch (on by default).
#[derive(Clone, Debug, PartialEq, Eq)]
pub struct BuilderWorksheet {
    pub table_source: Option<BuilderTableSource>,
    pub title: String,
    pub headings: bool,
}

impl View for BuilderWorksheet {
    type V = BuilderWorksheetView;

    open spec fn view(&self) -> BuilderWorksheetView {
        BuilderWorksheetView {
            table_source: match self.table_source {
                Some(s) => Some(s@),
                None => None,
            },
            title: self.title@,
            headings: self.headings,
        }
    }
}

impl BuilderWorksheet {
    /// A specification with no source, an empty title, and headings on.
    pub fn new() -> (r: BuilderWorksheet)
        ensures
            r@.table_source is None,
            r@.title == Seq::<char>::empty(),
            r@.headings == true,
    {
        BuilderWorksheet { table_source: None, title: String::new(), headings: true }
    }
}

impl Default for BuilderWorksheet {
    /// The same specification as `new`.
    fn default() -> (r: BuilderWorksheet)
        ensures
            r@.table_source is None,
            r@.title == Seq::<char>::empty(),
            r@.headings == true,
    {
        BuilderWorksheet::new()
    }
}

/// The mathematical value of a `ResolvedSource`.
pub enum ResolvedView {
    Text(Seq<char>),
    Listing(Seq<FileEntryView>),
}

/// What resolving a source produced: fetched or read text for CSV and RSS
/// sources, the walked directory listing for a directory source.
pub enum ResolvedSource {
    Text(String),
    Listing(Vec<FileEntry>),
}

impl View for ResolvedSource {
    type V = ResolvedView;

    open spec fn view(&self) -> ResolvedView {
        match self {
            ResolvedSource::Text(s) => ResolvedView::Text(s@),
            ResolvedSource::Listing(v) => ResolvedView::Listing(
                v@.map_values(|e: FileEntry| e@),
            ),
        }
    }
}

/// Whether a resolved value has the shape the source's action produces: text
/// for CSV and RSS sources, a listing for a directory source.
pub open spec fn resolved_matches(src: SourceView, rv: ResolvedView) -> bool {
    match src {
        SourceView::Csv(_) => rv is Text,
        SourceView::Rss(_) => rv is Text,
        SourceView::Directory(_) => rv is Listing,
    }
}

/// The table a resolved source converts to, or nothing when conversion
/// fails.
pub open spec fn conversion_table(src: SourceView, rv: ResolvedView, headings: bool) -> Option<
    TableView,
> {
    match src {
        SourceView::Csv(_) => csv_table(rv->Text_0, headings),
        SourceView::Rss(_) => rss_table(rv->Text_0, headings),
        SourceView::Directory(_) => Some(directory_table(rv->Listing_0, headings)),
    }
}

/// Whether one build step succeeds: its source resolved, and the resolved
/// content converts.
pub open spec fn step_ok(
    wv: BuilderWorksheetView,
    outcome: Result<ResolvedView, Seq<char>>,
) -> bool {
    outcome matches Ok(rv) && conversion_table(wv.table_source->Some_0, rv, wv.headings) is Some
}

/// The worksheet a successful step yields: the spec's title over the
/// converted table.
pub open spec fn built_worksheet(
    wv: BuilderWorksheetView,
    rv: ResolvedView,
) -> WorksheetView {
    WorksheetView {
        name: wv.title,
        table: conversion_table(wv.table_source->Some_0, rv, wv.headings)->Some_0,
    }
}

/// The outcome of a whole build: the worksheets, in order, when every step
/// succeeds; otherwise the index of the first failing step.
pub open spec fn build_outcome(
    ws: Seq<BuilderWorksheetView>,
    os: Seq<Result<ResolvedView, Seq<char>>>,
) -> Result<Seq<WorksheetView>, int>
    decreases ws.len(),
{
    if ws.len() == 0 {
        Ok(Seq::empty())
    } else if !step_ok(ws[0], os[0]) {
        Err(0int)
    } else {
        match build_outcome(ws.drop_first(), os.drop_first()) {
            Ok(v) => Ok(seq![built_worksheet(ws[0], os[0]->Ok_0)] + v),
            Err(k) => Err(k + 1),
        }
    }
}

/// `build_outcome` indexwise: success means every step succeeded and gives
/// one worksheet per step in order; failure names the first failing step.
pub proof fn lemma_build_outcome_indexwise(
    ws: Seq<BuilderWorksheetView>,
    os: Seq<Result<ResolvedView, Seq<char>>>,
)
    requires
        os.len() == ws.len(),
    ensures
        match build_outcome(ws, os) {
            Ok(v) => v.len() == ws.len() && (forall|j: int| 0 <= j < ws.len() ==> step_ok(ws[j], os[j]))
                && (forall|j: int|
                0 <= j < ws.len() ==> v[j] == built_worksheet(ws[j], os[j]->Ok_0)),
            Err(k) => 0 <= k < ws.len() && !step_ok(ws[k], os[k]) && (forall|j: int|
                0 <= j < k ==> step_ok(ws[j], os[j])),
        },
    decreases ws.len(),
{
    if ws.len() == 0 {
    } else if !step_ok(ws[0], os[0]) {
    } else {
        lemma_build_outcome_indexwise(ws.drop_first(), os.drop_first());
        match build_outcome(ws.drop_first(), os.drop_first()) {
            Ok(v) => {
                assert forall|j: int| 0 <= j < ws.len() implies step_ok(ws[j], os[j]) by {
                    if j > 0 {
                        assert(step_ok(ws.drop_first()[j - 1], os.drop_first()[j - 1]));
                    }
                }
            },
            Err(k) => {
                assert(!step_ok(ws.drop_first()[k], os.drop_first()[k]));
                assert forall|j: int| 0 <= j < k + 1 implies step_ok(ws[j], os[j]) by {
                    if j > 0 {
                        assert(step_ok(ws.drop_first()[j - 1], os.drop_first()[j - 1]));
                    }
                }
            },
        }
    }
}

/// Builds are fail-fast: the outcome of a failing build is settled by the
/// steps up to and including the first failure, whatever came of the later
/// sources.
pub proof fn lemma_build_fail_fast(
    ws: Seq<BuilderWorksheetView>,
    os1: Seq<Result<ResolvedView, Seq<char>>>,
    os2: Seq<Result<ResolvedView, Seq<char>>>,
    k: int,
)
    requires
        os1.len() == ws.len(),
        os2.len() == ws.len(),
        build_outcome(ws, os1) == Err::<Seq<WorksheetView>, int>(k),
        forall|j: int| 0 <= j <= k ==> os2[j] == os1[j],
    ensures
        build_outcome(ws, os2) == Err::<Seq<WorksheetView>, int>(k),
    decreases ws.len(),
{
    lemma_build_outcome_indexwise(ws, os1);
    if k == 0 {
        assert(!step_ok(ws[0], os2[0]));
    } else {
        assert(step_ok(ws[0], os2[0]));
        assert(build_outcome(ws.drop_first(), os1.drop_first()) == Err::<
            Seq<WorksheetView>,
            int,
        >(k - 1));
        assert(forall|j: int|
            0 <= j <= k - 1 ==> os2.drop_first()[j] == os1.drop_first()[j]);
        lemma_build_fail_fast(ws.drop_first(), os1.drop_first(), os2.drop_first(), k - 1);
    }
}

/// Converts one resolved source and wraps the result as a named worksheet.
/// Fails exactly when the conversion fails, with a message tagged "csv: " or
/// "rss: " after the source kind.
pub fn worksheet_from_resolved(w: &BuilderWorksheet, resolved: &ResolvedSource) -> (r: Result<
    Worksheet,
    String,
>)
    requires
        w@.table_source is Some,
        resolved_matches(w@.table_source->Some_0, resolved@),
    ensures
        r matches Ok(ws) ==> conversion_table(w@.table_source->Some_0, resolved@, w@.headings)
            == Some(ws@.table) && ws@.name == w@.title,
        r is Err ==> conversion_table(w@.table_source->Some_0, resolved@, w@.headings) is None,
        r matches Err(m) ==> (w@.table_source->Some_0 is Csv ==> m@ == "csv: "@ + m@.skip(5))
            && (w@.table_source->Some_0 is Rss ==> m@ == "rss: "@ + m@.skip(5)),
{
    let source = match &w.table_source {
        Some(s) => s,
        None => {
            proof {
                assert(false);
            }
            unreached()
        },
    };
    let table = match (source, resolved) {
        (BuilderTableSource::Csv(_), ResolvedSource::Text(content)) => {
            match csv_to_table(content.as_str(), w.headings) {
                Ok(t) => t,
                Err(e) => {
                    let mut msg = "csv: ".to_owned();
                    let detail = csv_error_message(&e);
                    msg.append(detail.as_str());
                    proof {
                        reveal_strlit("csv: ");
                        assert(msg@.skip(5) =~= detail@);
                    }
                    return Err(msg);
                },
            }
        },
        (BuilderTableSource::Rss(_), ResolvedSource::Text(content)) => {
            match rss_to_table(content.as_str(), w.headings) {
                Ok(t) => t,
                Err(e) => {
                    let mut msg = "rss: ".to_owned();
                    let detail = rss_error_message(&e);
                    msg.append(detail.as_str());
                    proof {
                        reveal_strlit("rss: ");
                        assert(msg@.skip(5) =~= detail@);
                    }
                    return Err(msg);
                },
            }
        },
        (BuilderTableSource::Directory(_), ResolvedSource::Listing(entries)) => {
            directory_to_table(entries, w.headings)
        },
        _ => {
            proof {
                assert(false);
            }
            unreached()
        },
    };
    Ok(Worksheet::new().with_name(w.title.as_str()).with_table(table))
}

/// The mathematical value of a `Builder`.
pub struct BuilderView {
    pub worksheets: Seq<BuilderWorksheetView>,
    pub output: Option<Seq<char>>,
}

/// An ordered sequence of pending worksheet specifications plus an optional
/// output destination (absent: print to standard output).
#[derive(Debug, PartialEq, Eq)]
pub struct Builder {
    pub worksheets: Vec<BuilderWorksheet>,
    pub output: Option<String>,
}

impl View for Builder {
    type V = BuilderView;

    open spec fn view(&self) -> BuilderView {
        BuilderView {
            worksheets: self.worksheets@.map_values(|w: BuilderWorksheet| w@),
            output: opt_str_view(self.output),
        }
    }
}

impl Default for Builder {
    /// A builder with no worksheets and no output destination.
    fn default() -> (r: Builder)
        ensures
            r@.worksheets == Seq::<BuilderWorksheetView>::empty(),
            r@.output is None,
    {
        Builder::new()
    }
}

impl Builder {
    /// A builder with no worksheets and no output destination.
    pub fn new() -> (r: Builder)
        ensures
            r@.worksheets == Seq::<BuilderWorksheetView>::empty(),
            r@.output is None,
    {
        let r = Builder { worksheets: Vec::new(), output: None };
        proof {
            assert(r@.worksheets =~= Seq::<BuilderWorksheetView>::empty());
        }
        r
    }

    /// Turns the worksheet specifications and the outcomes of their resolve
    /// actions into worksheets, in order, stopping at the first failure: the
    /// first step that failed settles the result, and nothing after it is
    /// touched. A resolve failure is reported with its "url: " or "file: "
    /// tag; a conversion failure with its "csv: " or "rss: " tag.
    pub fn build(&self, outcomes: &Vec<Result<ResolvedSource, String>>) -> (r: Result<
        Vec<Worksheet>,
        String,
    >)
        requires
            outcomes@.len() == self@.worksheets.len(),
            forall|i: int|
                0 <= i < self@.worksheets.len() ==> self@.worksheets[i].table_source is Some,
            forall|i: int|
                0 <= i < outcomes@.len() ==> match #[trigger] outcomes@[i] {
                    Ok(rv) => resolved_matches(self@.worksheets[i].table_source->Some_0, rv@),
                    Err(_) => true,
                },
        ensures
            match build_outcome(self@.worksheets, outcome_views(outcomes@)) {
                Ok(v) => r matches Ok(out) && out@.map_values(|w: Worksheet| w@) == v,
                Err(k) => r matches Err(m) && build_error_matches(
                    self@.worksheets[k],
                    outcome_views(outcomes@)[k],
                    m@,
                ),
            },
    {
        let ghost wsv = self@.worksheets;
        let ghost osv = outcome_views(outcomes@);
        proof {
            lemma_build_outcome_indexwise(wsv, osv);
        }
        let mut result: Vec<Worksheet> = Vec::new();
        let mut i: usize = 0;
        while i < self.worksheets.len()
            invariant
                i <= self.worksheets.len(),
                wsv == self@.worksheets,
                osv == outcome_views(outcomes@),
                wsv.len() == self.worksheets.len(),
                osv.len() == wsv.len(),
                outcomes@.len() == wsv.len(),
                forall|j: int| 0 <= j < wsv.len() ==> wsv[j].table_source is Some,
                forall|j: int|
                    0 <= j < wsv.len() ==> match #[trigger] outcomes@[j] {
                        Ok(rv) => resolved_matches(wsv[j].table_source->Some_0, rv@),
                        Err(_) => true,
                    },
                forall|j: int| 0 <= j < wsv.len() ==> osv[j] == outcome_view(outcomes@[j]),
                forall|j: int| 0 <= j < i ==> step_ok(wsv[j], osv[j]),
                result@.len() == i,
                forall|j: int|
                    0 <= j < i ==> result@[j]@ == built_worksheet(wsv[j], osv[j]->Ok_0),
            decreases self.worksheets.len() - i,
        {
            let w = &self.worksheets[i];
            match &outcomes[i] {
                Err(io_message) => {
                    let source = match &w.table_source {
                        Some(s) => s,
                        None => {
                            proof {
                                assert(false);
                            }
                            unreached()
                        },
                    };
                    proof {
                        lemma_build_outcome_indexwise(wsv, osv);
                    }
                    return Err(source.resolve_error(io_message.as_str()));
                },
                Ok(resolved) => {
                    match worksheet_from_resolved(w, resolved) {
                        Ok(ws) => {
                            result.push(ws);
                        },
                        Err(m) => {
                            proof {
                                lemma_build_outcome_indexwise(wsv, osv);
                            }
                            return Err(m);
                        },
                    }
                },
            }
            i = i + 1;
        }
        proof {
            lemma_build_outcome_indexwise(wsv, osv);
            assert(result@.map_values(|w: Worksheet| w@) =~= build_outcome(wsv, osv)->Ok_0);
        }
        Ok(result)
    }
}

/// The view of one resolve outcome.
pub open spec fn outcome_view(o: Result<ResolvedSource, String>) -> Result<
    ResolvedView,
    Seq<char>,
> {
    match o {
        Ok(rv) => Ok(rv@),
        Err(m) => Err(m@),
    }
}

/// The views of a sequence of resolve outcomes.
pub open spec fn outcome_views(os: Seq<Result<ResolvedSource, String>>) -> Seq<
    Result<ResolvedView, Seq<char>>,
> {
    os.map_values(|o: Result<ResolvedSource, String>| outcome_view(o))
}

/// What the reported message for a failing step looks like: the tagged
/// resolve message when resolution failed, a "csv: " or "rss: " tagged
/// message when conversion failed.
pub open spec fn build_error_matches(
    wv: BuilderWorksheetView,
    outcome: Result<ResolvedView, Seq<char>>,
    m: Seq<char>,
) -> bool {
    match outcome {
        Err(io) => m == resolve_error_msg(wv.table_source->Some_0, io),
        Ok(_) => (wv.table_source->Some_0 is Csv ==> m == "csv: "@ + m.skip(5)) && (
        wv.table_source->Some_0 is Rss ==> m == "rss: "@ + m.skip(5)),
    }
}

} // verus!
