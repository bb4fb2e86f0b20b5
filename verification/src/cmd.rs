use vstd::prelude::*;
use vstd::string::StringExecFns;
use vstd::string::StrSliceExecFns;
use faccess::AccessMode;
use faccess::PathExt;
use crate::errors::CmdError;
use crate::errors::CmdErrorKind;
use crate::redirect::Redirect;
use crate::strutil::find_char;
use crate::strutil::join_strings;
use crate::strutil::quote_string;
use crate::strutil::spec_join;
use crate::strutil::spec_quote;
use crate::strutil::substring_chars;

verus! {

/// True for characters allowed in an environment-variable name.
pub open spec fn spec_env_name_char(c: char) -> bool {
    ('A' <= c && c <= 'Z') || ('a' <= c && c <= 'z') || ('0' <= c && c <= '9') || c == '_'
}

/// Executable check matching `spec_env_name_char`.
pub fn is_env_name_char(c: char) -> (r: bool)
    ensures
        r == spec_env_name_char(c),
{
    ('A' <= c && c <= 'Z') || ('a' <= c && c <= 'z') || ('0' <= c && c <= '9') || c == '_'
}

/// The string splits as `NAME=VALUE` at position `i`: the `=` there is the
/// only one in the string, and everything before it is a non-empty name of
/// name characters.
pub open spec fn spec_env_split_at(s: Seq<char>, i: int) -> bool {
    &&& 0 < i < s.len()
    &&& s[i] == '='
    &&& forall|j: int| 0 <= j < s.len() && j != i ==> s[j] != '='
    &&& forall|j: int| 0 <= j < i ==> spec_env_name_char(s[j])
}

/// The string is an environment assignment `NAME=VALUE`.
pub open spec fn spec_is_env_assign(s: Seq<char>) -> bool {
    exists|i: int| spec_env_split_at(s, i)
}

/// The position of the `=` of an assignment; meaningful only when
/// `spec_is_env_assign` holds, and then unique.
pub open spec fn spec_env_eq_pos(s: Seq<char>) -> int {
    choose|i: int| spec_env_split_at(s, i)
}

pub open spec fn spec_env_name(s: Seq<char>) -> Seq<char> {
    s.take(spec_env_eq_pos(s))
}

pub open spec fn spec_env_value(s: Seq<char>) -> Seq<char> {
    s.skip(spec_env_eq_pos(s) + 1)
}

pub proof fn lemma_env_split_unique(s: Seq<char>, i: int)
    requires
        spec_env_split_at(s, i),
    ensures
        spec_env_eq_pos(s) == i,
{
    let p = spec_env_eq_pos(s);
    assert(spec_env_split_at(s, p));
}

/// Splits an argument of the form `NAME=VALUE` into name and value, or
/// reports that it is no assignment: no `=`, a second `=`, an empty name, or
/// a character outside `[A-Za-z0-9_]` in the name all disqualify it.
pub fn parse_env_assign(s: &str) -> (r: Option<(String, String)>)
    ensures
        match r {
            Some(nv) => spec_is_env_assign(s@) && nv.0@ == spec_env_name(s@) && nv.1@
                == spec_env_value(s@),
            None => !spec_is_env_assign(s@),
        },
{
    let n = s.unicode_len();
    match find_char(s, '=') {
        None => {
            assert(forall|i: int| !spec_env_split_at(s@, i));
            None
        }
        Some(i) => {
            if i == 0 {
                assert forall|k: int| !spec_env_split_at(s@, k) by {
                    if 0 < k < s@.len() && s@[k] == '=' {
                        assert(s@[0] == '=');
                    }
                }
                return None;
            }
            // the `=` must be unique
            let mut j = i + 1;
            while j < n
                invariant
                    i < j <= n,
                    n == s@.len(),
                    i < n,
                    s@[i as int] == '=',
                    forall|k: int| 0 <= k < i ==> s@[k] != '=',
                    forall|k: int| i < k < j ==> s@[k] != '=',
                decreases n - j,
            {
                if s.get_char(j) == '=' {
                    assert forall|k: int| !spec_env_split_at(s@, k) by {
                        if spec_env_split_at(s@, k) {
                            if k == i as int {
                                assert(s@[j as int] == '=');
                            } else {
                                assert(s@[i as int] == '=');
                            }
                        }
                    }
                    return None;
                }
                j += 1;
            }
            // every character of the name must be a name character
            let mut k: usize = 0;
            while k < i
                invariant
                    k <= i < n,
                    n == s@.len(),
                    s@[i as int] == '=',
                    forall|m: int| 0 <= m < k ==> spec_env_name_char(s@[m]),
                    forall|m: int| 0 <= m < i ==> s@[m] != '=',
                    forall|m: int| i < m < n ==> s@[m] != '=',
                decreases i - k,
            {
                if !is_env_name_char(s.get_char(k)) {
                    assert forall|p: int| !spec_env_split_at(s@, p) by {
                        if spec_env_split_at(s@, p) {
                            assert(s@[p] == '=');
                            assert(p == i as int);
                            assert(spec_env_name_char(s@[k as int]));
                        }
                    }
                    return None;
                }
                k += 1;
            }
            let name = substring_chars(s, 0, i);
            let value = substring_chars(s, i + 1, n);
            proof {
                assert(spec_env_split_at(s@, i as int));
                lemma_env_split_unique(s@, i as int);
            }
            Some((name, value))
        }
    }
}

/// The set of registered builtin command names, queried when a stage's first
/// real argument is added. The empty name is pre-registered, standing for the
/// success no-op that an empty command degrades to.
pub struct Registry {
    names: Vec<String>,
}

impl View for Registry {
    type V = Seq<Seq<char>>;

    closed spec fn view(&self) -> Seq<Seq<char>> {
        self.names@.map_values(|s: String| s@)
    }
}

impl Registry {
    pub open spec fn spec_contains(self, name: Seq<char>) -> bool {
        self@.contains(name)
    }

    pub fn new() -> (r: Registry)
        ensures
            r@.len() == 1,
            r@[0] == Seq::<char>::empty(),
    {
        let mut names: Vec<String> = Vec::new();
        names.push("".to_owned());
        proof {
            reveal_strlit("");
            assert(""@ =~= Seq::<char>::empty());
        }
        Registry { names }
    }

    /// Registers one more builtin name; already-constructed stages keep
    /// their classification.
    pub fn register(&mut self, name: String)
        ensures
            final(self)@ == old(self)@.push(name@),
    {
        self.names.push(name);
        proof {
            assert(final(self)@ =~= old(self)@.push(final(self).names@.last()@));
        }
    }

    /// Whether a name is registered, by exact equality.
    pub fn contains(&self, name: &str) -> (r: bool)
        ensures
            r == self.spec_contains(name@),
    {
        let owned = name.to_owned();
        let n = self.names.len();
        for i in 0..n
            invariant
                n == self.names@.len(),
                owned@ == name@,
                forall|j: int| 0 <= j < i ==> self.names@[j]@ != name@,
        {
            if self.names[i].eq(&owned) {
                assert(self@[i as int] == name@);
                return true;
            }
        }
        proof {
            if self.spec_contains(name@) {
                let w = choose|j: int| 0 <= j < self@.len() && self@[j] == name@;
                assert(self.names@[w]@ == name@);
            }
        }
        false
    }
}

/// How a stage is executed: the in-process `cd` builtin, a registered
/// builtin callback, or an external child process.
#[derive(Clone, Copy, PartialEq, Eq, Structural, Debug)]
pub enum StageKind {
    Cd,
    Builtin,
    External,
}

/// The mathematical model of a command stage.
pub ghost struct CmdModel {
    pub args: Seq<Seq<char>>,
    pub envs: Seq<(Seq<char>, Seq<char>)>,
    pub redirects: Seq<Redirect>,
    pub is_builtin: bool,
}

/// One command stage: its real argv, the `NAME=VALUE` assignments peeled off
/// the front of the argv, its redirect directives, and whether its first real
/// argument named a registered builtin when it was added.
pub struct Cmd {
    args: Vec<String>,
    envs: Vec<(String, String)>,
    redirects: Vec<Redirect>,
    in_cmd_map: bool,
}

impl View for Cmd {
    type V = CmdModel;

    closed spec fn view(&self) -> CmdModel {
        CmdModel {
            args: self.args@.map_values(|s: String| s@),
            envs: self.envs@.map_values(|p: (String, String)| (p.0@, p.1@)),
            redirects: self.redirects@,
            is_builtin: self.in_cmd_map,
        }
    }
}

impl Default for Cmd {
    /// The empty stage: no argv, no assignments, no redirects; classified as
    /// a builtin, since the empty name is pre-registered to the success no-op.
    fn default() -> (c: Cmd)
        ensures
            c@.args == Seq::<Seq<char>>::empty(),
            c@.envs == Seq::<(Seq<char>, Seq<char>)>::empty(),
            c@.redirects == Seq::<Redirect>::empty(),
            c@.is_builtin,
    {
        let c = Cmd { args: Vec::new(), envs: Vec::new(), redirects: Vec::new(), in_cmd_map: true };
        proof {
            assert(c@.args =~= Seq::<Seq<char>>::empty());
            assert(c@.envs =~= Seq::<(Seq<char>, Seq<char>)>::empty());
        }
        c
    }
}

/// What adding one argument does to a stage model: while the argv is still
/// empty, an assignment is peeled into the envs; the first real argument
/// fixes the builtin classification by registry lookup; every later argument
/// is appended to the argv as it is.
pub open spec fn spec_add_arg(m: CmdModel, arg: Seq<char>, reg: Seq<Seq<char>>) -> CmdModel {
    if m.args.len() == 0 && spec_is_env_assign(arg) {
        CmdModel { envs: m.envs.push((spec_env_name(arg), spec_env_value(arg))), ..m }
    } else if m.args.len() == 0 {
        CmdModel { args: m.args.push(arg), is_builtin: reg.contains(arg), ..m }
    } else {
        CmdModel { args: m.args.push(arg), ..m }
    }
}

/// `spec_add_arg` folded over a whole argument list, left to right.
pub open spec fn spec_add_args(m: CmdModel, args: Seq<Seq<char>>, reg: Seq<Seq<char>>) -> CmdModel
    decreases args.len(),
{
    if args.len() == 0 {
        m
    } else {
        spec_add_args(spec_add_arg(m, args.first(), reg), args.drop_first(), reg)
    }
}

pub proof fn lemma_add_args_snoc(m: CmdModel, args: Seq<Seq<char>>, a: Seq<char>, reg: Seq<Seq<char>>)
    ensures
        spec_add_args(m, args.push(a), reg) == spec_add_arg(spec_add_args(m, args, reg), a, reg),
    decreases args.len(),
{
    if args.len() == 0 {
        assert(args.push(a).first() == a);
        assert(args.push(a).drop_first() =~= Seq::<Seq<char>>::empty());
        assert(spec_add_args(m, args.push(a), reg) == spec_add_args(
            spec_add_arg(m, a, reg),
            Seq::<Seq<char>>::empty(),
            reg,
        ));
    } else {
        let m1 = spec_add_arg(m, args.first(), reg);
        assert(args.push(a).first() == args.first());
        assert(args.push(a).drop_first() =~= args.drop_first().push(a));
        assert(spec_add_args(m, args.push(a), reg) == spec_add_args(
            m1,
            args.drop_first().push(a),
            reg,
        ));
        lemma_add_args_snoc(m1, args.drop_first(), a, reg);
        assert(spec_add_args(m, args, reg) == spec_add_args(m1, args.drop_first(), reg));
    }
}

/// Once a stage has a real argument, nothing further is peeled: every later
/// argument lands in the argv, even one shaped like `NAME=VALUE`, and the
/// envs and the classification stay as they are.
pub proof fn lemma_env_extraction_prefix_only(
    m: CmdModel,
    args: Seq<Seq<char>>,
    reg: Seq<Seq<char>>,
)
    requires
        m.args.len() > 0,
    ensures
        spec_add_args(m, args, reg).args == m.args + args,
        spec_add_args(m, args, reg).envs == m.envs,
        spec_add_args(m, args, reg).is_builtin == m.is_builtin,
        spec_add_args(m, args, reg).redirects == m.redirects,
    decreases args.len(),
{
    if args.len() == 0 {
        assert(m.args + args =~= m.args);
    } else {
        let m1 = spec_add_arg(m, args.first(), reg);
        lemma_env_extraction_prefix_only(m1, args.drop_first(), reg);
        assert(m.args.push(args.first()) + args.drop_first() =~= m.args + args);
    }
}

/// The argv rendered as a bracketed, comma-separated list of quoted strings.
pub open spec fn spec_args_render(args: Seq<Seq<char>>) -> Seq<char> {
    "["@ + spec_join(args.map_values(|a: Seq<char>| spec_quote(a)), ", "@) + "]"@
}

pub open spec fn spec_env_pair_render(p: (Seq<char>, Seq<char>)) -> Seq<char> {
    spec_quote(p.0) + ": "@ + spec_quote(p.1)
}

/// The assignments rendered as a braced, comma-separated list of
/// `"NAME": "VALUE"` pairs, in the order they were peeled.
pub open spec fn spec_envs_render(envs: Seq<(Seq<char>, Seq<char>)>) -> Seq<char> {
    "{"@ + spec_join(envs.map_values(|p: (Seq<char>, Seq<char>)| spec_env_pair_render(p)), ", "@)
        + "}"@
}

/// The redirects rendered as a bracketed, comma-separated list of their
/// shell-like tokens.
pub open spec fn spec_redirects_render(rs: Seq<Redirect>) -> Seq<char> {
    "["@ + spec_join(rs.map_values(|r: Redirect| r.spec_render()), ", "@) + "]"@
}

/// The debug rendering of a stage: its argv, followed, when the stage has
/// assignments or redirects, by them in parentheses.
pub open spec fn spec_debug_str(m: CmdModel) -> Seq<char> {
    let base = spec_args_render(m.args);
    if m.envs.len() == 0 && m.redirects.len() == 0 {
        base
    } else if m.redirects.len() == 0 {
        base + "("@ + spec_envs_render(m.envs) + ")"@
    } else if m.envs.len() == 0 {
        base + "("@ + spec_redirects_render(m.redirects) + ")"@
    } else {
        base + "("@ + spec_envs_render(m.envs) + ", "@ + spec_redirects_render(m.redirects)
            + ")"@
    }
}

fn render_args(args: &Vec<String>) -> (s: String)
    ensures
        s@ == spec_args_render(args@.map_values(|x: String| x@)),
{
    let ghost vargs = args@.map_values(|x: String| x@);
    let mut parts: Vec<String> = Vec::new();
    let n = args.len();
    for i in 0..n
        invariant
            n == args@.len(),
            vargs == args@.map_values(|x: String| x@),
            parts@.len() == i,
            forall|j: int| 0 <= j < i ==> parts@[j]@ == spec_quote(vargs[j]),
    {
        parts.push(quote_string(args[i].as_str()));
    }
    let mut s = "[".to_owned();
    let joined = join_strings(&parts, ", ");
    s.append(joined.as_str());
    s.append("]");
    proof {
        assert(parts@.map_values(|p: String| p@) =~= vargs.map_values(
            |a: Seq<char>| spec_quote(a),
        ));
    }
    s
}

fn render_envs(envs: &Vec<(String, String)>) -> (s: String)
    ensures
        s@ == spec_envs_render(envs@.map_values(|p: (String, String)| (p.0@, p.1@))),
{
    let ghost venvs = envs@.map_values(|p: (String, String)| (p.0@, p.1@));
    let mut parts: Vec<String> = Vec::new();
    let n = envs.len();
    for i in 0..n
        invariant
            n == envs@.len(),
            venvs == envs@.map_values(|p: (String, String)| (p.0@, p.1@)),
            parts@.len() == i,
            forall|j: int| 0 <= j < i ==> parts@[j]@ == spec_env_pair_render(venvs[j]),
    {
        let mut part = quote_string(envs[i].0.as_str());
        part.append(": ");
        let qv = quote_string(envs[i].1.as_str());
        part.append(qv.as_str());
        parts.push(part);
        proof {
            assert(parts@.last()@ =~= spec_env_pair_render(venvs[i as int]));
        }
    }
    let mut s = "{".to_owned();
    let joined = join_strings(&parts, ", ");
    s.append(joined.as_str());
    s.append("}");
    proof {
        assert(parts@.map_values(|p: String| p@) =~= venvs.map_values(
            |p: (Seq<char>, Seq<char>)| spec_env_pair_render(p),
        ));
    }
    s
}

fn render_redirects(rs: &Vec<Redirect>) -> (s: String)
    ensures
        s@ == spec_redirects_render(rs@),
{
    let mut parts: Vec<String> = Vec::new();
    let n = rs.len();
    for i in 0..n
        invariant
            n == rs@.len(),
            parts@.len() == i,
            forall|j: int| 0 <= j < i ==> parts@[j]@ == rs@[j].spec_render(),
    {
        parts.push(rs[i].render());
    }
    let mut s = "[".to_owned();
    let joined = join_strings(&parts, ", ");
    s.append(joined.as_str());
    s.append("]");
    proof {
        assert(parts@.map_values(|p: String| p@) =~= rs@.map_values(
            |r: Redirect| r.spec_render(),
        ));
    }
    s
}

/// Relies on std::path::Path::is_dir: whether the path names an existing
/// directory. The answer depends on the state of the file system, so nothing
/// is assumed of it.
#[verifier::external_body]
fn path_is_dir(path: &str) -> bool {
    std::path::Path::new(path).is_dir()
}

/// Relies on faccess::PathExt::access with AccessMode::EXECUTE: whether the
/// caller may enter the directory. The answer depends on the file system and
/// on the process's credentials, so nothing is assumed of it; a refusal is
/// handed back as its message text.
#[verifier::external_body]
fn path_enterable(path: &str) -> Result<(), String> {
    match std::path::Path::new(path).access(AccessMode::EXECUTE) {
        Ok(()) => Ok(()),
        Err(e) => Err(e.to_string()),
    }
}

/// The whole peel, for a stage built from scratch: the longest
/// all-assignment prefix of the added arguments becomes the envs, in order;
/// everything from the first non-assignment on becomes the argv; and the
/// classification is the registry's answer for that first real argument.
pub proof fn lemma_env_peel(m: CmdModel, args: Seq<Seq<char>>, reg: Seq<Seq<char>>, k: int)
    requires
        m.args.len() == 0,
        0 <= k <= args.len(),
        forall|j: int| 0 <= j < k ==> spec_is_env_assign(args[j]),
        k < args.len() ==> !spec_is_env_assign(args[k]),
    ensures
        spec_add_args(m, args, reg).envs == m.envs + args.take(k).map_values(
            |a: Seq<char>| (spec_env_name(a), spec_env_value(a)),
        ),
        spec_add_args(m, args, reg).args == args.skip(k),
        k < args.len() ==> spec_add_args(m, args, reg).is_builtin == reg.contains(args[k]),
        k == args.len() ==> spec_add_args(m, args, reg).is_builtin == m.is_builtin,
    decreases args.len(),
{
    let peel = |a: Seq<char>| (spec_env_name(a), spec_env_value(a));
    if k == 0 {
        if args.len() == 0 {
            assert(m.envs + args.take(0).map_values(peel) =~= m.envs);
            assert(args.skip(0) =~= args);
        } else {
            let m1 = spec_add_arg(m, args.first(), reg);
            lemma_env_extraction_prefix_only(m1, args.drop_first(), reg);
            assert(m.args.push(args.first()) + args.drop_first() =~= args);
            assert(args.skip(0) =~= args);
            assert(m.envs + args.take(0).map_values(peel) =~= m.envs);
        }
    } else {
        let m1 = spec_add_arg(m, args.first(), reg);
        lemma_env_peel(m1, args.drop_first(), reg, k - 1);
        assert(args.drop_first().skip(k - 1) =~= args.skip(k));
        assert(m1.envs + args.drop_first().take(k - 1).map_values(peel) =~= m.envs
            + args.take(k).map_values(peel));
        if k - 1 < args.drop_first().len() {
            assert(args.drop_first()[k - 1] == args[k]);
        }
    }
}

/// The first real argument, or the empty string for an empty stage.
pub open spec fn spec_arg0(m: CmdModel) -> Seq<char> {
    if m.args.len() == 0 {
        Seq::empty()
    } else {
        m.args[0]
    }
}

/// The stage's execution kind: `cd` is handled in-process ahead of the
/// registry; otherwise the classification fixed at first-argument time rules.
pub open spec fn spec_kind(m: CmdModel) -> StageKind {
    if spec_arg0(m) == "cd"@ {
        StageKind::Cd
    } else if m.is_builtin {
        StageKind::Builtin
    } else {
        StageKind::External
    }
}

/// An empty command degrades gracefully: a stage with no real argument is a
/// builtin — its name is the empty string, which the registry pre-maps to
/// the success no-op — and never an external spawn.
pub proof fn lemma_empty_stage_is_builtin(m: CmdModel)
    requires
        m.args.len() == 0,
        m.is_builtin,
    ensures
        spec_kind(m) == StageKind::Builtin,
{
    reveal_strlit("cd");
    assert(spec_arg0(m).len() == 0);
}

/// Registering a name makes it found and loses none that was found before.
pub proof fn lemma_register_keeps_names(names: Seq<Seq<char>>, name: Seq<char>, other: Seq<char>)
    ensures
        names.push(name).contains(name),
        names.contains(other) ==> names.push(name).contains(other),
{
    assert(names.push(name)[names.len() as int] == name);
    if names.contains(other) {
        let i = choose|i: int| 0 <= i < names.len() && names[i] == other;
        assert(names.push(name)[i] == other);
    }
}

impl Cmd {
    /// Adds one argument, consulting the registry if this is the first real
    /// argument of the stage.
    pub fn add_arg(self, arg: String, registry: &Registry) -> (r: Cmd)
        ensures
            r@ == spec_add_arg(self@, arg@, registry@),
    {
        let ghost m0 = self@;
        let mut c = self;
        if c.args.is_empty() {
            match parse_env_assign(arg.as_str()) {
                Some(nv) => {
                    c.envs.push(nv);
                    proof {
                        assert(c@.envs =~= m0.envs.push(
                            (spec_env_name(arg@), spec_env_value(arg@)),
                        ));
                    }
                    return c;
                }
                None => {
                    c.in_cmd_map = registry.contains(arg.as_str());
                }
            }
        }
        c.args.push(arg);
        proof {
            assert(c@.args =~= m0.args.push(c.args@.last()@));
        }
        c
    }

    /// Adds the arguments in order.
    pub fn add_args(self, args: Vec<String>, registry: &Registry) -> (r: Cmd)
        ensures
            r@ == spec_add_args(self@, args@.map_values(|s: String| s@), registry@),
    {
        let ghost m0 = self@;
        let ghost vargs = args@.map_values(|s: String| s@);
        let mut c = self;
        let n = args.len();
        for i in 0..n
            invariant
                n == args@.len(),
                vargs == args@.map_values(|s: String| s@),
                c@ == spec_add_args(m0, vargs.take(i as int), registry@),
        {
            c = c.add_arg(args[i].clone(), registry);
            proof {
                lemma_add_args_snoc(m0, vargs.take(i as int), vargs[i as int], registry@);
                assert(vargs.take(i as int).push(vargs[i as int]) =~= vargs.take(i + 1 as int));
            }
        }
        proof {
            assert(vargs.take(n as int) =~= vargs);
        }
        c
    }

    /// Appends one redirect directive.
    pub fn add_redirect(self, redirect: Redirect) -> (r: Cmd)
        ensures
            r@ == (CmdModel { redirects: self@.redirects.push(redirect), ..self@ }),
    {
        let mut c = self;
        c.redirects.push(redirect);
        c
    }

    /// The first real argument, or the empty string for an empty stage.
    pub fn arg0(&self) -> (r: &str)
        ensures
            r@ == spec_arg0(self@),
    {
        if self.args.len() == 0 {
            let r = "";
            proof {
                reveal_strlit("");
                assert(""@ =~= Seq::<char>::empty());
            }
            r
        } else {
            self.args[0].as_str()
        }
    }

    /// The stage's execution kind, matching `spec_kind`.
    pub fn kind(&self) -> (k: StageKind)
        ensures
            k == spec_kind(self@),
    {
        let cd = "cd".to_owned();
        if self.args.len() > 0 && self.args[0].eq(&cd) {
            StageKind::Cd
        } else {
            proof {
                if self@.args.len() == 0 {
                    reveal_strlit("cd");
                    assert(spec_arg0(self@).len() == 0);
                    assert("cd"@.len() == 2);
                }
            }
            if self.in_cmd_map {
                StageKind::Builtin
            } else {
                StageKind::External
            }
        }
    }

    /// Renders the stage for diagnostics, matching `spec_debug_str`.
    pub fn debug_str(&self) -> (s: String)
        ensures
            s@ == spec_debug_str(self@),
    {
        let mut s = render_args(&self.args);
        let has_envs = self.envs.len() > 0;
        let has_reds = self.redirects.len() > 0;
        if has_envs || has_reds {
            s.append("(");
            if has_envs {
                let es = render_envs(&self.envs);
                s.append(es.as_str());
            }
            if has_envs && has_reds {
                s.append(", ");
            }
            if has_reds {
                let rs = render_redirects(&self.redirects);
                s.append(rs.as_str());
            }
            s.append(")");
        }
        s
    }

    /// Runs the builtin `cd`: with exactly one operand naming a directory the
    /// caller may enter, it overwrites the group's working directory; on any
    /// failure the working directory is left as it was. Whether the operand
    /// is such a directory is decided by the file system at the moment of the
    /// call, so success is not promised; what each outcome implies is.
    pub fn run_cd_cmd(&self, current_dir: &mut String) -> (r: Result<(), CmdError>)
        requires
            self@.args.len() >= 1,
        ensures
            r is Ok ==> self@.args.len() == 2 && final(current_dir)@ == self@.args[1],
            r is Err ==> *final(current_dir) == *old(current_dir) && r->Err_0.kind
                == CmdErrorKind::Setup,
            self@.args.len() == 1 ==> r is Err && r->Err_0.message@ == "cd: missing directory"@,
            self@.args.len() > 2 ==> r is Err && r->Err_0.message@
                == "cd: too many arguments: "@ + spec_debug_str(self@),
    {
        if self.args.len() == 1 {
            return Err(CmdError::new(CmdErrorKind::Setup, "cd: missing directory".to_owned()));
        } else if self.args.len() > 2 {
            let mut msg = "cd: too many arguments: ".to_owned();
            let ds = self.debug_str();
            msg.append(ds.as_str());
            return Err(CmdError::new(CmdErrorKind::Setup, msg));
        }
        let dir = &self.args[1];
        if !path_is_dir(dir.as_str()) {
            let mut msg = "cd: ".to_owned();
            msg.append(dir.as_str());
            msg.append(": No such file or directory");
            return Err(CmdError::new(CmdErrorKind::Setup, msg));
        }
        match path_enterable(dir.as_str()) {
            Ok(_) => {
                *current_dir = dir.clone();
                Ok(())
            }
            Err(m) => {
                let mut msg = "cd: ".to_owned();
                msg.append(dir.as_str());
                msg.append(": ");
                msg.append(m.as_str());
                Err(CmdError::new(CmdErrorKind::Setup, msg))
            }
        }
    }

    pub fn args(&self) -> (r: &Vec<String>)
        ensures
            r@.map_values(|s: String| s@) == self@.args,
    {
        &self.args
    }

    pub fn envs(&self) -> (r: &Vec<(String, String)>)
        ensures
            r@.map_values(|p: (String, String)| (p.0@, p.1@)) == self@.envs,
    {
        &self.envs
    }

    pub fn redirects(&self) -> (r: &Vec<Redirect>)
        ensures
            r@ == self@.redirects,
    {
        &self.redirects
    }

    pub fn is_builtin(&self) -> (r: bool)
        ensures
            r == self@.is_builtin,
    {
        self.in_cmd_map
    }
}

} // verus!
