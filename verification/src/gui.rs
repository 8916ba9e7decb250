//! State and command processing behind the interactive front end. The
//! widgets themselves live outside the library; they queue commands against
//! the worksheet list, and `process_commands` applies the queue between
//! render passes.

use vstd::prelude::*;

use crate::builders::{Builder, BuilderView, BuilderWorksheet, BuilderWorksheetView};

verus! {

/// One queued edit of the worksheet list.
#[derive(Clone, Copy, Debug, PartialEq, Eq)]
pub enum AppCommand {
    NoOp,
    Delete(usize),
    MoveUp(usize),
    MoveDown(usize),
}

/// What applying one command does to the worksheet list, or nothing when the
/// command's index would fall outside it.
pub open spec fn apply_command(
    ws: Seq<BuilderWorksheetView>,
    cmd: AppCommand,
) -> Option<Seq<BuilderWorksheetView>> {
    match cmd {
        AppCommand::NoOp => Some(ws),
        AppCommand::Delete(i) => if i < ws.len() {
            Some(ws.remove(i as int))
        } else {
            None
        },
        AppCommand::MoveUp(i) => if i < ws.len() && i > 0 {
            Some(ws.remove(i as int).insert(i - 1, ws[i as int]))
        } else {
            Some(ws)
        },
        AppCommand::MoveDown(i) => if ws.len() == 0 {
            None
        } else if i < ws.len() - 1 {
            Some(ws.remove(i as int).insert(i + 1, ws[i as int]))
        } else {
            Some(ws)
        },
    }
}

/// What applying a whole command queue does, in order; nothing when some
/// command's index would fall outside the list it meets.
pub open spec fn apply_commands(
    ws: Seq<BuilderWorksheetView>,
    cmds: Seq<AppCommand>,
) -> Option<Seq<BuilderWorksheetView>>
    decreases cmds.len(),
{
    if cmds.len() == 0 {
        Some(ws)
    } else {
        match apply_command(ws, cmds[0]) {
            Some(next) => apply_commands(next, cmds.drop_first()),
            None => None,
        }
    }
}

/// The mathematical value of a `SheetgenApp`.
pub struct SheetgenAppView {
    pub builder: BuilderView,
    pub commands: Seq<AppCommand>,
    pub export_status: Option<Result<Seq<char>, Seq<char>>>,
}

/// The front end's state: the builder being edited, the queued commands, and
/// the outcome of the last export.
pub struct SheetgenApp {
    pub builder: Builder,
    pub commands: Vec<AppCommand>,
    pub export_status: Option<Result<String, String>>,
}

impl View for SheetgenApp {
    type V = SheetgenAppView;

    open spec fn view(&self) -> SheetgenAppView {
        SheetgenAppView {
            builder: self.builder@,
            commands: self.commands@,
            export_status: match self.export_status {
                Some(Ok(s)) => Some(Ok(s@)),
                Some(Err(s)) => Some(Err(s@)),
                None => None,
            },
        }
    }
}

impl SheetgenApp {
    /// A fresh front-end state: an empty builder, no queued commands, no
    /// export outcome.
    pub fn new() -> (r: SheetgenApp)
        ensures
            r@.builder.worksheets == Seq::<BuilderWorksheetView>::empty(),
            r@.builder.output is None,
            r@.commands == Seq::<AppCommand>::empty(),
            r@.export_status is None,
    {
        let r = SheetgenApp { builder: Builder::new(), commands: Vec::new(), export_status: None };
        proof {
            assert(r@.commands =~= Seq::<AppCommand>::empty());
        }
        r
    }

    /// Applies every queued command to the worksheet list, in order, then
    /// clears the queue. The queue must stay within the list it edits.
    pub fn process_commands(&mut self)
        requires
            apply_commands(old(self)@.builder.worksheets, old(self)@.commands) is Some,
        ensures
            final(self)@.builder.worksheets == apply_commands(
                old(self)@.builder.worksheets,
                old(self)@.commands,
            )->Some_0,
            final(self)@.builder.output == old(self)@.builder.output,
            final(self)@.commands == Seq::<AppCommand>::empty(),
            final(self)@.export_status == old(self)@.export_status,
    {
        let ghost cmds = self@.commands;
        let ghost start = self@.builder.worksheets;
        proof {
            assert(cmds.skip(0) =~= cmds);
        }
        let mut i: usize = 0;
        while i < self.commands.len()
            invariant
                i <= self.commands.len(),
                cmds == self.commands@,
                cmds.len() == self.commands.len(),
                start == old(self)@.builder.worksheets,
                self@.builder.output == old(self)@.builder.output,
                self@.export_status == old(self)@.export_status,
                apply_commands(start, cmds) is Some,
                apply_commands(self@.builder.worksheets, cmds.skip(i as int)) == apply_commands(
                    start,
                    cmds,
                ),
            decreases self.commands.len() - i,
        {
            let ghost before = self@.builder.worksheets;
            let cmd = self.commands[i];
            proof {
                assert(cmds.skip(i as int)[0] == cmds[i as int]);
                assert(cmds.skip(i as int).drop_first() =~= cmds.skip(i + 1 as int));
            }
            match cmd {
                AppCommand::NoOp => {},
                AppCommand::Delete(k) => {
                    proof {
                        assert(apply_command(before, cmds[i as int]) is Some);
                    }
                    let _ = self.builder.worksheets.remove(k);
                    proof {
                        assert(self@.builder.worksheets =~= before.remove(k as int));
                    }
                },
                AppCommand::MoveUp(k) => {
                    if k < self.builder.worksheets.len() && k > 0 {
                        let temp = self.builder.worksheets.remove(k);
                        self.builder.worksheets.insert(k - 1, temp);
                        proof {
                            assert(self@.builder.worksheets =~= before.remove(k as int).insert(
                                k - 1,
                                before[k as int],
                            ));
                        }
                    }
                },
                AppCommand::MoveDown(k) => {
                    proof {
                        assert(apply_command(before, cmds[i as int]) is Some);
                    }
                    if k < self.builder.worksheets.len() - 1 {
                        let temp = self.builder.worksheets.remove(k);
                        self.builder.worksheets.insert(k + 1, temp);
                        proof {
                            assert(self@.builder.worksheets =~= before.remove(k as int).insert(
                                k + 1,
                                before[k as int],
                            ));
                        }
                    }
                },
            }
            i = i + 1;
        }
        proof {
            assert(cmds.skip(cmds.len() as int) =~= Seq::<AppCommand>::empty());
        }
        self.commands.clear();
    }
}

} // verus!
