use vstd::prelude::*;
use crate::cmd::CmdModel;
use crate::errors::CmdError;
use crate::errors::CmdErrorKind;
use crate::pipeline::Cmds;

verus! {

/// The model of a group: each pipeline's stages, paired with the stages of
/// its fallback pipeline if it has one.
pub ghost struct GroupModel {
    pub pipelines: Seq<(Seq<CmdModel>, Option<Seq<CmdModel>>)>,
    pub current_dir: Seq<char>,
}

pub open spec fn spec_pair_view(p: (Cmds, Option<Cmds>)) -> (Seq<CmdModel>, Option<Seq<CmdModel>>) {
    (
        p.0@,
        match p.1 {
            Some(c) => Some(c@),
            None => None,
        },
    )
}

/// A command group: pipelines run in order, each with an optional fallback
/// run only on its failure, all sharing one working directory. The directory
/// starts empty, meaning the caller's working directory is inherited.
pub struct GroupCmds {
    group_cmds: Vec<(Cmds, Option<Cmds>)>,
    current_dir: String,
}

impl View for GroupCmds {
    type V = GroupModel;

    closed spec fn view(&self) -> GroupModel {
        GroupModel {
            pipelines: self.group_cmds@.map_values(|p: (Cmds, Option<Cmds>)| spec_pair_view(p)),
            current_dir: self.current_dir@,
        }
    }
}

impl Default for GroupCmds {
    /// The empty group with an inherited working directory.
    fn default() -> (r: GroupCmds)
        ensures
            r@.pipelines == Seq::<(Seq<CmdModel>, Option<Seq<CmdModel>>)>::empty(),
            r@.current_dir == Seq::<char>::empty(),
    {
        let r = GroupCmds { group_cmds: Vec::new(), current_dir: String::new() };
        proof {
            assert(r@.pipelines =~= Seq::<(Seq<CmdModel>, Option<Seq<CmdModel>>)>::empty());
        }
        r
    }
}

impl GroupCmds {
    /// Appends one pipeline with its optional fallback.
    pub fn add(self, cmds: Cmds, or_cmds: Option<Cmds>) -> (r: GroupCmds)
        ensures
            r@.pipelines == self@.pipelines.push(spec_pair_view((cmds, or_cmds))),
            r@.current_dir == self@.current_dir,
    {
        let ghost pv = spec_pair_view((cmds, or_cmds));
        let mut g = self;
        g.group_cmds.push((cmds, or_cmds));
        proof {
            assert(g@.pipelines =~= self@.pipelines.push(pv));
        }
        g
    }

    /// The number of pipelines in the group.
    pub fn len(&self) -> (n: usize)
        ensures
            n == self@.pipelines.len(),
    {
        self.group_cmds.len()
    }

    /// Hands the pipelines and the shared working directory to the driver.
    pub fn into_parts(self) -> (r: (Vec<(Cmds, Option<Cmds>)>, String))
        ensures
            r.0@.map_values(|p: (Cmds, Option<Cmds>)| spec_pair_view(p)) == self@.pipelines,
            r.1@ == self@.current_dir,
    {
        let GroupCmds { group_cmds, current_dir } = self;
        (group_cmds, current_dir)
    }

    /// The spawn entry points take a group of exactly one pipeline with at
    /// least one stage; any other shape is rejected before anything runs.
    pub fn take_single(self) -> (r: Result<(Cmds, Option<Cmds>, String), CmdError>)
        ensures
            r is Ok <==> self@.pipelines.len() == 1 && self@.pipelines[0].0.len() > 0,
            r is Ok ==> spec_pair_view((r->Ok_0.0, r->Ok_0.1)) == self@.pipelines[0]
                && r->Ok_0.2@ == self@.current_dir,
            r is Err ==> r->Err_0.kind == CmdErrorKind::Setup,
            self@.pipelines.len() != 1 ==> r is Err && r->Err_0.message@
                == "spawn: the group must hold exactly one pipeline"@,
            self@.pipelines.len() == 1 && self@.pipelines[0].0.len() == 0 ==> r is Err
                && r->Err_0.message@ == "spawn: the pipeline holds no stage"@,
    {
        let (mut pipelines, current_dir) = self.into_parts();
        if pipelines.len() != 1 {
            return Err(CmdError::new(
                CmdErrorKind::Setup,
                "spawn: the group must hold exactly one pipeline".to_owned(),
            ));
        }
        match pipelines.pop() {
            Some(pair) => {
                if pair.0.len() == 0 {
                    return Err(CmdError::new(
                        CmdErrorKind::Setup,
                        "spawn: the pipeline holds no stage".to_owned(),
                    ));
                }
                Ok((pair.0, pair.1, current_dir))
            }
            None => Err(CmdError::new(
                CmdErrorKind::Setup,
                "spawn: the group must hold exactly one pipeline".to_owned(),
            )),
        }
    }
}

/// How a pipeline's outcome and its fallback's outcome combine: success
/// stands; a failure with no fallback stands; a failure with a fallback is
/// replaced by the fallback's outcome, whichever way that went.
pub fn resolve_fallback<T>(primary: Result<T, CmdError>, fallback: Option<Result<T, CmdError>>) -> (
    r: Result<T, CmdError>)
    ensures
        primary is Ok ==> r == primary,
        primary is Err && fallback is None ==> r == primary,
        primary is Err && fallback is Some ==> r == fallback->0,
{
    match primary {
        Ok(v) => Ok(v),
        Err(e) => match fallback {
            None => Err(e),
            Some(f) => f,
        },
    }
}

} // verus!
