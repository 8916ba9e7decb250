//! The command-line front end's decision logic: folding the argument list
//! into a populated builder, or the exact usage error the front end reports.

use vstd::prelude::*;
use vstd::string::*;

use crate::builders::{
    Builder, BuilderTableSource, BuilderWorksheet, BuilderWorksheetView, SourceView,
};
use crate::convert::str_matches;
use crate::num::{dec_str_of, u64_dec_string};

verus! {

/// Which flag the previous argument opened, if any.
#[derive(Clone, Copy, Debug, PartialEq, Eq, Structural)]
pub enum CmdOptionType {
    Unset,
    WorksheetTitle,
    FromCSV,
    FromDirectory,
    FromRSS,
    OutputPath,
}

/// The parser's state between arguments.
pub struct CliStateView {
    pub worksheets: Seq<BuilderWorksheetView>,
    pub output: Option<Seq<char>>,
    pub current: BuilderWorksheetView,
    pub last: CmdOptionType,
}

/// The parser's starting state: nothing declared, a fresh pending worksheet,
/// no flag open.
pub open spec fn cli_init() -> CliStateView {
    CliStateView {
        worksheets: Seq::empty(),
        output: None,
        current: BuilderWorksheetView {
            table_source: None,
            title: Seq::empty(),
            headings: true,
        },
        last: CmdOptionType::Unset,
    }
}

/// The source a finalizing flag declares.
pub open spec fn source_of_kind(k: CmdOptionType, s: Seq<char>) -> SourceView {
    if k == CmdOptionType::FromCSV {
        SourceView::Csv(s)
    } else if k == CmdOptionType::FromDirectory {
        SourceView::Directory(s)
    } else {
        SourceView::Rss(s)
    }
}

/// The pending worksheet's title at finalization: the declared title, or
/// "Worksheet <n>" counting the worksheets already declared.
pub open spec fn finalized_title(st: CliStateView) -> Seq<char> {
    if st.current.title.len() == 0 {
        "Worksheet "@ + dec_str_of(st.worksheets.len() as nat)
    } else {
        st.current.title
    }
}

/// What one argument does to the parser's state, or nothing on a bare token
/// that no flag opened (the fatal usage error).
pub open spec fn cli_step(st: CliStateView, arg: Seq<char>) -> Option<CliStateView> {
    if arg == "-w"@ {
        Some(CliStateView { last: CmdOptionType::WorksheetTitle, ..st })
    } else if arg == "-H"@ {
        Some(
            CliStateView {
                current: BuilderWorksheetView { headings: false, ..st.current },
                last: CmdOptionType::Unset,
                ..st
            },
        )
    } else if arg == "-c"@ {
        Some(CliStateView { last: CmdOptionType::FromCSV, ..st })
    } else if arg == "-r"@ {
        Some(CliStateView { last: CmdOptionType::FromRSS, ..st })
    } else if arg == "-d"@ {
        Some(CliStateView { last: CmdOptionType::FromDirectory, ..st })
    } else if arg == "-o"@ {
        Some(CliStateView { last: CmdOptionType::OutputPath, ..st })
    } else {
        match st.last {
            CmdOptionType::Unset => None,
            CmdOptionType::WorksheetTitle => Some(
                CliStateView {
                    current: BuilderWorksheetView { title: arg, ..st.current },
                    last: CmdOptionType::Unset,
                    ..st
                },
            ),
            CmdOptionType::OutputPath => Some(
                CliStateView { output: Some(arg), last: CmdOptionType::Unset, ..st },
            ),
            _ => Some(
                CliStateView {
                    worksheets: st.worksheets.push(
                        BuilderWorksheetView {
                            table_source: Some(source_of_kind(st.last, arg)),
                            title: finalized_title(st),
                            headings: st.current.headings,
                        },
                    ),
                    output: st.output,
                    current: cli_init().current,
                    last: CmdOptionType::Unset,
                },
            ),
        }
    }
}

/// What a whole argument list parses to, argument by argument.
pub open spec fn cli_fold(args: Seq<Seq<char>>) -> Option<CliStateView>
    decreases args.len(),
{
    if args.len() == 0 {
        Some(cli_init())
    } else {
        match cli_fold(args.drop_last()) {
            Some(st) => cli_step(st, args.last()),
            None => None,
        }
    }
}

/// Once a prefix of the arguments fails to parse, the whole list does.
proof fn lemma_cli_fold_none(args: Seq<Seq<char>>, i: int)
    requires
        0 <= i <= args.len(),
        cli_fold(args.subrange(0, i)) is None,
    ensures
        cli_fold(args) is None,
    decreases args.len() - i,
{
    if i == args.len() {
        assert(args.subrange(0, i) =~= args);
    } else {
        assert(args.subrange(0, i + 1).drop_last() =~= args.subrange(0, i));
        assert(cli_fold(args.subrange(0, i + 1)) is None);
        lemma_cli_fold_none(args, i + 1);
    }
}

/// Whether the argument list asks for the help text.
pub fn wants_help(args: &Vec<String>) -> (r: bool)
    ensures
        r == exists|i: int|
            0 <= i < args@.len() && (args@[i]@ == "-h"@ || args@[i]@ == "--help"@),
{
    let mut i: usize = 0;
    while i < args.len()
        invariant
            i <= args.len(),
            forall|j: int| 0 <= j < i ==> !(args@[j]@ == "-h"@ || args@[j]@ == "--help"@),
        decreases args.len() - i,
    {
        if str_matches(&args[i], "-h") || str_matches(&args[i], "--help") {
            return true;
        }
        i = i + 1;
    }
    false
}

/// Parses the arguments after the executable's own name into a populated
/// builder. Fails with the exact usage message the front end reports: a bare
/// token no flag opened, a flag left without its follow-up argument, or no
/// worksheet declared at all.
pub fn parse_args(args: &Vec<String>) -> (r: Result<Builder, String>)
    ensures
        match cli_fold(args@.map_values(|s: String| s@)) {
            Some(st) => if !(st.last is Unset) {
                r matches Err(m) && m@ == "option given but not specified."@
            } else if st.worksheets.len() == 0 {
                r matches Err(m) && m@ == "no source data given."@
            } else {
                r matches Ok(b) && b@.worksheets == st.worksheets && b@.output == st.output
            },
            None => r matches Err(m) && m@ == "invalid syntax."@,
        },
{
    let ghost argsv = args@.map_values(|s: String| s@);
    let mut builder = Builder::new();
    let mut current = BuilderWorksheet::new();
    let mut last = CmdOptionType::Unset;
    proof {
        assert(argsv.subrange(0, 0) =~= Seq::<Seq<char>>::empty());
        assert(builder@.worksheets =~= cli_init().worksheets);
    }
    let mut i: usize = 0;
    while i < args.len()
        invariant
            i <= args.len(),
            argsv == args@.map_values(|s: String| s@),
            argsv.len() == args.len(),
            cli_fold(argsv.subrange(0, i as int)) == Some(
                CliStateView {
                    worksheets: builder@.worksheets,
                    output: builder@.output,
                    current: current@,
                    last: last,
                },
            ),
        decreases args.len() - i,
    {
        let arg = &args[i];
        let ghost pre = CliStateView {
            worksheets: builder@.worksheets,
            output: builder@.output,
            current: current@,
            last: last,
        };
        proof {
            let cur = argsv.subrange(0, i + 1 as int);
            assert(cur.drop_last() =~= argsv.subrange(0, i as int));
            assert(cur.last() == argsv[i as int]);
            assert(argsv[i as int] == args@[i as int]@);
        }
        if str_matches(arg, "-w") {
            last = CmdOptionType::WorksheetTitle;
        } else if str_matches(arg, "-H") {
            last = CmdOptionType::Unset;
            current.headings = false;
        } else if str_matches(arg, "-c") {
            last = CmdOptionType::FromCSV;
        } else if str_matches(arg, "-r") {
            last = CmdOptionType::FromRSS;
        } else if str_matches(arg, "-d") {
            last = CmdOptionType::FromDirectory;
        } else if str_matches(arg, "-o") {
            last = CmdOptionType::OutputPath;
        } else {
            match last {
                CmdOptionType::Unset => {
                    proof {
                        assert(cli_fold(argsv.subrange(0, i + 1 as int)) is None);
                        lemma_cli_fold_none(argsv, i + 1);
                    }
                    return Err("invalid syntax.".to_owned());
                },
                CmdOptionType::WorksheetTitle => {
                    current.title = arg.clone();
                    last = CmdOptionType::Unset;
                },
                CmdOptionType::OutputPath => {
                    builder.output = Some(arg.clone());
                    last = CmdOptionType::Unset;
                },
                CmdOptionType::FromCSV | CmdOptionType::FromDirectory | CmdOptionType::FromRSS => {
                    current.table_source = Some(
                        match last {
                            CmdOptionType::FromCSV => BuilderTableSource::Csv(arg.clone()),
                            CmdOptionType::FromDirectory => BuilderTableSource::Directory(
                                arg.clone(),
                            ),
                            _ => BuilderTableSource::Rss(arg.clone()),
                        },
                    );
                    if current.title.as_str().is_empty() {
                        let mut t = "Worksheet ".to_owned();
                        let n = u64_dec_string(builder.worksheets.len() as u64);
                        t.append(n.as_str());
                        current.title = t;
                    }
                    proof {
                        assert(current@.title == finalized_title(pre));
                        assert(current@.table_source == Some(
                            source_of_kind(pre.last, argsv[i as int]),
                        ));
                    }
                    builder.worksheets.push(current);
                    current = BuilderWorksheet::new();
                    last = CmdOptionType::Unset;
                    proof {
                        assert(builder@.worksheets =~= pre.worksheets.push(
                            BuilderWorksheetView {
                                table_source: Some(source_of_kind(pre.last, argsv[i as int])),
                                title: finalized_title(pre),
                                headings: pre.current.headings,
                            },
                        ));
                    }
                },
            }
        }
        i = i + 1;
    }
    proof {
        assert(argsv.subrange(0, argsv.len() as int) =~= argsv);
    }
    if !matches!(last, CmdOptionType::Unset) {
        return Err("option given but not specified.".to_owned());
    }
    if builder.worksheets.len() == 0 {
        return Err("no source data given.".to_owned());
    }
    Ok(builder)
}

} // verus!
