use vstd::prelude::*;
use crate::cmd::Cmd;
use crate::cmd::CmdModel;
use crate::cmd::spec_debug_str;
use crate::strutil::join_strings;
use crate::strutil::spec_join;

verus! {

/// A pipeline: the stages in order, stdout of each feeding stdin of the next.
pub struct Cmds {
    cmds: Vec<Cmd>,
}

impl View for Cmds {
    type V = Seq<CmdModel>;

    closed spec fn view(&self) -> Seq<CmdModel> {
        self.cmds@.map_values(|c: Cmd| c@)
    }
}

impl Default for Cmds {
    /// The empty pipeline, to be extended stage by stage.
    fn default() -> (r: Cmds)
        ensures
            r@ == Seq::<CmdModel>::empty(),
    {
        let r = Cmds { cmds: Vec::new() };
        proof {
            assert(r@ =~= Seq::<CmdModel>::empty());
        }
        r
    }
}

/// The pipeline's debug rendering: the stages' debug strings joined by ` | `.
pub open spec fn spec_full_cmds(ms: Seq<CmdModel>) -> Seq<char> {
    spec_join(ms.map_values(|m: CmdModel| spec_debug_str(m)), " | "@)
}

impl Cmds {
    /// Appends one stage at the downstream end of the pipeline.
    pub fn pipe(self, cmd: Cmd) -> (r: Cmds)
        ensures
            r@ == self@.push(cmd@),
    {
        let mut c = self;
        let ghost m = cmd@;
        c.cmds.push(cmd);
        proof {
            assert(c@ =~= self@.push(m));
        }
        c
    }

    /// The number of stages.
    pub fn len(&self) -> (n: usize)
        ensures
            n == self@.len(),
    {
        self.cmds.len()
    }

    /// The stages, for the driver that runs them in order.
    pub fn cmds(&self) -> (r: &Vec<Cmd>)
        ensures
            r@.map_values(|c: Cmd| c@) == self@,
    {
        &self.cmds
    }

    /// Hands the stages out to the driver.
    pub fn into_cmds(self) -> (r: Vec<Cmd>)
        ensures
            r@.map_values(|c: Cmd| c@) == self@,
    {
        self.cmds
    }

    /// Renders the whole pipeline for diagnostics, matching `spec_full_cmds`.
    pub fn get_full_cmds(&self) -> (s: String)
        ensures
            s@ == spec_full_cmds(self@),
    {
        let mut parts: Vec<String> = Vec::new();
        let n = self.cmds.len();
        for i in 0..n
            invariant
                n == self.cmds@.len(),
                parts@.len() == i,
                forall|j: int| 0 <= j < i ==> parts@[j]@ == spec_debug_str(self.cmds@[j]@),
        {
            parts.push(self.cmds[i].debug_str());
        }
        let s = join_strings(&parts, " | ");
        proof {
            assert(parts@.map_values(|p: String| p@) =~= self@.map_values(
                |m: CmdModel| spec_debug_str(m),
            ));
        }
        s
    }
}

/// Where an external stage's stdin comes from: inherited from the caller, a
/// planned redirect open, the previous stage's stdout pipe, or a fresh pipe
/// that the driver will fill with the previous builtin's captured bytes.
#[derive(Clone, Copy, PartialEq, Eq, Structural, Debug)]
pub enum StdinWiring {
    Inherit,
    FromOpen(usize),
    FromPrevChild,
    PipedForBuffer,
}

/// Where an external stage's stdout goes: a planned redirect open, the
/// caller's stdout, or a pipe read by the next stage or the waiter.
#[derive(Clone, Copy, PartialEq, Eq, Structural, Debug)]
pub enum StdoutWiring {
    ToOpen(usize),
    Inherit,
    Piped,
}

/// Where a builtin stage's stdin bytes come from: nowhere, a planned
/// redirect open, or the previous stage's captured output.
#[derive(Clone, Copy, PartialEq, Eq, Structural, Debug)]
pub enum BuiltinInput {
    Empty,
    FromOpen(usize),
    FromPrev,
}

/// The stdin wiring of an external stage: a non-first stage reads the
/// previous stage, through its stdout pipe if it is a child, else through a
/// fresh pipe for the captured buffer; the first stage reads its redirect
/// open if any, else inherits.
pub open spec fn spec_external_stdin_wiring(
    is_first: bool,
    prev_is_child: bool,
    stdin_open: Option<usize>,
) -> StdinWiring {
    if !is_first {
        if prev_is_child {
            StdinWiring::FromPrevChild
        } else {
            StdinWiring::PipedForBuffer
        }
    } else {
        match stdin_open {
            Some(i) => StdinWiring::FromOpen(i),
            None => StdinWiring::Inherit,
        }
    }
}

pub fn external_stdin_wiring(is_first: bool, prev_is_child: bool, stdin_open: Option<usize>) -> (w:
    StdinWiring)
    ensures
        w == spec_external_stdin_wiring(is_first, prev_is_child, stdin_open),
{
    if !is_first {
        if prev_is_child {
            StdinWiring::FromPrevChild
        } else {
            StdinWiring::PipedForBuffer
        }
    } else {
        match stdin_open {
            Some(i) => StdinWiring::FromOpen(i),
            None => StdinWiring::Inherit,
        }
    }
}

/// The stdout wiring of an external stage: a redirect open wins; the last
/// stage inherits the caller's stdout when no output capture is asked for;
/// every other case is piped onwards.
pub open spec fn spec_external_stdout_wiring(
    is_last: bool,
    with_output: bool,
    stdout_open: Option<usize>,
) -> StdoutWiring {
    match stdout_open {
        Some(i) => StdoutWiring::ToOpen(i),
        None => if is_last && !with_output {
            StdoutWiring::Inherit
        } else {
            StdoutWiring::Piped
        },
    }
}

pub fn external_stdout_wiring(is_last: bool, with_output: bool, stdout_open: Option<usize>) -> (w:
    StdoutWiring)
    ensures
        w == spec_external_stdout_wiring(is_last, with_output, stdout_open),
{
    match stdout_open {
        Some(i) => StdoutWiring::ToOpen(i),
        None => {
            if is_last && !with_output {
                StdoutWiring::Inherit
            } else {
                StdoutWiring::Piped
            }
        }
    }
}

/// The stdin bytes of a builtin stage: a non-first builtin drains the
/// previous stage; the first reads its redirect open if any, else nothing.
pub open spec fn spec_builtin_input(is_first: bool, stdin_open: Option<usize>) -> BuiltinInput {
    if !is_first {
        BuiltinInput::FromPrev
    } else {
        match stdin_open {
            Some(i) => BuiltinInput::FromOpen(i),
            None => BuiltinInput::Empty,
        }
    }
}

pub fn builtin_input(is_first: bool, stdin_open: Option<usize>) -> (w: BuiltinInput)
    ensures
        w == spec_builtin_input(is_first, stdin_open),
{
    if !is_first {
        BuiltinInput::FromPrev
    } else {
        match stdin_open {
            Some(i) => BuiltinInput::FromOpen(i),
            None => BuiltinInput::Empty,
        }
    }
}

} // verus!
