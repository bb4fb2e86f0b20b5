use vstd::prelude::*;
use vstd::string::StringExecFns;

verus! {

/// One I/O redirection directive of a stage. Order is significant: directives
/// apply left to right, and `StdoutToStderr` / `StderrToStdout` duplicate the
/// *current* target of the other stream at the point they appear.
#[derive(Clone, Debug)]
pub enum Redirect {
    FileToStdin(String),
    StdoutToStderr,
    StderrToStdout,
    StdoutToFile(String, bool),
    StderrToFile(String, bool),
}

/// How a planned file is opened: read-only for stdin, or write-only for
/// stdout/stderr, truncating unless `append` is set.
#[derive(Clone, Copy, PartialEq, Eq, Structural, Debug)]
pub enum OpenMode {
    Read,
    Write { append: bool },
}

/// One file the redirect planner decides to open.
#[derive(Clone, Debug)]
pub struct FileOpen {
    pub path: String,
    pub mode: OpenMode,
}

impl View for FileOpen {
    type V = (Seq<char>, OpenMode);

    open spec fn view(&self) -> (Seq<char>, OpenMode) {
        (self.path@, self.mode)
    }
}

/// The outcome of planning a stage's redirect list: the files to open, in
/// order, and for each of the three standard streams the index of the open it
/// is finally attached to, if any. Two streams sharing an index means the
/// second duplicates the first's handle.
#[derive(Debug)]
pub struct RedirectPlan {
    pub opens: Vec<FileOpen>,
    pub stdin_open: Option<usize>,
    pub stdout_open: Option<usize>,
    pub stderr_open: Option<usize>,
}

/// The mathematical model of a redirect plan.
pub ghost struct PlanModel {
    pub opens: Seq<(Seq<char>, OpenMode)>,
    pub stdin_open: Option<int>,
    pub stdout_open: Option<int>,
    pub stderr_open: Option<int>,
}

pub open spec fn spec_opt_index(o: Option<usize>) -> Option<int> {
    match o {
        Some(u) => Some(u as int),
        None => None,
    }
}

impl View for RedirectPlan {
    type V = PlanModel;

    open spec fn view(&self) -> PlanModel {
        PlanModel {
            opens: self.opens@.map_values(|fo: FileOpen| fo@),
            stdin_open: spec_opt_index(self.stdin_open),
            stdout_open: spec_opt_index(self.stdout_open),
            stderr_open: spec_opt_index(self.stderr_open),
        }
    }
}

pub open spec fn spec_plan_init() -> PlanModel {
    PlanModel { opens: Seq::empty(), stdin_open: None, stdout_open: None, stderr_open: None }
}

/// How one directive transforms the plan. A `*ToFile` directive opens its file
/// and becomes the stream's current target; a duplication directive attaches
/// the stream to the other stream's current open if there is one, and opens
/// the inherited device for appending otherwise.
pub open spec fn spec_plan_step(m: PlanModel, r: Redirect) -> PlanModel {
    match r {
        Redirect::FileToStdin(p) => PlanModel {
            opens: m.opens.push((p@, OpenMode::Read)),
            stdin_open: Some(m.opens.len() as int),
            ..m
        },
        Redirect::StdoutToFile(p, a) => PlanModel {
            opens: m.opens.push((p@, OpenMode::Write { append: a })),
            stdout_open: Some(m.opens.len() as int),
            ..m
        },
        Redirect::StderrToFile(p, a) => PlanModel {
            opens: m.opens.push((p@, OpenMode::Write { append: a })),
            stderr_open: Some(m.opens.len() as int),
            ..m
        },
        Redirect::StdoutToStderr => match m.stderr_open {
            Some(i) => PlanModel { stdout_open: Some(i), ..m },
            None => PlanModel {
                opens: m.opens.push(("/dev/stderr"@, OpenMode::Write { append: true })),
                stdout_open: Some(m.opens.len() as int),
                ..m
            },
        },
        Redirect::StderrToStdout => match m.stdout_open {
            Some(i) => PlanModel { stderr_open: Some(i), ..m },
            None => PlanModel {
                opens: m.opens.push(("/dev/stdout"@, OpenMode::Write { append: true })),
                stderr_open: Some(m.opens.len() as int),
                ..m
            },
        },
    }
}

/// The plan for a whole redirect list, built left to right.
pub open spec fn spec_plan(rs: Seq<Redirect>) -> PlanModel
    decreases rs.len(),
{
    if rs.len() == 0 {
        spec_plan_init()
    } else {
        spec_plan_step(spec_plan(rs.drop_last()), rs.last())
    }
}

pub proof fn lemma_spec_plan_push(rs: Seq<Redirect>, r: Redirect)
    ensures
        spec_plan(rs.push(r)) == spec_plan_step(spec_plan(rs), r),
{
    assert(rs.push(r).drop_last() =~= rs);
    assert(rs.push(r).last() == r);
}

/// Every stream index a plan hands out points into its open list.
pub open spec fn spec_plan_wf(m: PlanModel) -> bool {
    &&& (m.stdin_open is Some ==> 0 <= m.stdin_open->0 < m.opens.len())
    &&& (m.stdout_open is Some ==> 0 <= m.stdout_open->0 < m.opens.len())
    &&& (m.stderr_open is Some ==> 0 <= m.stderr_open->0 < m.opens.len())
}

pub proof fn lemma_spec_plan_wf(rs: Seq<Redirect>)
    ensures
        spec_plan_wf(spec_plan(rs)),
    decreases rs.len(),
{
    if rs.len() > 0 {
        lemma_spec_plan_wf(rs.drop_last());
    }
}

/// Duplicating a stream always attaches it to the other stream's *current*
/// target: after `2> path` (in either append mode), a following `1>&2`
/// attaches stdout to the very open that holds `path`, whatever came before.
pub proof fn lemma_dup_current_target(prefix: Seq<Redirect>, path: String, append: bool)
    ensures
        ({
            let m = spec_plan(
                prefix.push(Redirect::StderrToFile(path, append)).push(Redirect::StdoutToStderr),
            );
            &&& m.stderr_open is Some
            &&& m.stdout_open == m.stderr_open
            &&& m.opens[m.stderr_open->0] == (path@, OpenMode::Write { append })
        }),
{
    let m0 = spec_plan(prefix);
    lemma_spec_plan_push(prefix, Redirect::StderrToFile(path, append));
    lemma_spec_plan_push(
        prefix.push(Redirect::StderrToFile(path, append)),
        Redirect::StdoutToStderr,
    );
}

impl Redirect {
    /// The shell-like token for this directive: `< p`, `>&2`, `2>&1`,
    /// `1> p` / `1>> p`, `2> p` / `2>> p`.
    pub open spec fn spec_render(self) -> Seq<char> {
        match self {
            Redirect::FileToStdin(p) => "< "@ + p@,
            Redirect::StdoutToStderr => ">&2"@,
            Redirect::StderrToStdout => "2>&1"@,
            Redirect::StdoutToFile(p, a) => if a { "1>> "@ + p@ } else { "1> "@ + p@ },
            Redirect::StderrToFile(p, a) => if a { "2>> "@ + p@ } else { "2> "@ + p@ },
        }
    }

    /// Renders this directive as its shell-like token.
    pub fn render(&self) -> (s: String)
        ensures
            s@ == self.spec_render(),
    {
        match self {
            Redirect::FileToStdin(p) => {
                let mut s = "< ".to_owned();
                s.append(p.as_str());
                s
            }
            Redirect::StdoutToStderr => ">&2".to_owned(),
            Redirect::StderrToStdout => "2>&1".to_owned(),
            Redirect::StdoutToFile(p, a) => {
                let mut s = if *a { "1>> ".to_owned() } else { "1> ".to_owned() };
                s.append(p.as_str());
                s
            }
            Redirect::StderrToFile(p, a) => {
                let mut s = if *a { "2>> ".to_owned() } else { "2> ".to_owned() };
                s.append(p.as_str());
                s
            }
        }
    }
}

/// Walks a redirect list left to right and returns the concrete plan:
/// the files to open, in order, and the final attachment of each stream.
pub fn plan_redirects(rs: &Vec<Redirect>) -> (p: RedirectPlan)
    ensures
        p@ == spec_plan(rs@),
{
    let mut plan = RedirectPlan {
        opens: Vec::new(),
        stdin_open: None,
        stdout_open: None,
        stderr_open: None,
    };
    assert(plan@.opens =~= spec_plan_init().opens);
    let n = rs.len();
    for i in 0..n
        invariant
            n == rs@.len(),
            plan@ == spec_plan(rs@.take(i as int)),
    {
        let ghost pre = plan@;
        match &rs[i] {
            Redirect::FileToStdin(p) => {
                let idx = plan.opens.len();
                plan.opens.push(FileOpen { path: p.clone(), mode: OpenMode::Read });
                plan.stdin_open = Some(idx);
            }
            Redirect::StdoutToFile(p, a) => {
                let idx = plan.opens.len();
                plan.opens.push(FileOpen { path: p.clone(), mode: OpenMode::Write { append: *a } });
                plan.stdout_open = Some(idx);
            }
            Redirect::StderrToFile(p, a) => {
                let idx = plan.opens.len();
                plan.opens.push(FileOpen { path: p.clone(), mode: OpenMode::Write { append: *a } });
                plan.stderr_open = Some(idx);
            }
            Redirect::StdoutToStderr => {
                match plan.stderr_open {
                    Some(j) => {
                        plan.stdout_open = Some(j);
                    }
                    None => {
                        let idx = plan.opens.len();
                        plan.opens.push(FileOpen {
                            path: "/dev/stderr".to_owned(),
                            mode: OpenMode::Write { append: true },
                        });
                        plan.stdout_open = Some(idx);
                    }
                }
            }
            Redirect::StderrToStdout => {
                match plan.stdout_open {
                    Some(j) => {
                        plan.stderr_open = Some(j);
                    }
                    None => {
                        let idx = plan.opens.len();
                        plan.opens.push(FileOpen {
                            path: "/dev/stdout".to_owned(),
                            mode: OpenMode::Write { append: true },
                        });
                        plan.stderr_open = Some(idx);
                    }
                }
            }
        }
        proof {
            lemma_spec_plan_push(rs@.take(i as int), rs@[i as int]);
            assert(rs@.take(i as int).push(rs@[i as int]) =~= rs@.take(i + 1 as int));
            assert(plan@.opens =~= spec_plan_step(pre, rs@[i as int]).opens);
            assert(plan@ == spec_plan(rs@.take(i + 1 as int)));
        }
    }
    proof {
        assert(rs@.take(n as int) =~= rs@);
    }
    plan
}

} // verus!
