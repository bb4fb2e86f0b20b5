use vstd::prelude::*;

verus! {

/// The value of a variable among the assignments of a stage: the latest
/// assignment of the name wins, and a name never assigned has no value.
pub open spec fn spec_env_lookup(envs: Seq<(String, String)>, key: Seq<char>) -> Option<Seq<char>>
    decreases envs.len(),
{
    if envs.len() == 0 {
        None
    } else if envs.last().0@ == key {
        Some(envs.last().1@)
    } else {
        spec_env_lookup(envs.drop_last(), key)
    }
}

pub proof fn lemma_env_lookup_found(envs: Seq<(String, String)>, key: Seq<char>, k: int)
    requires
        0 <= k < envs.len(),
        envs[k].0@ == key,
        forall|j: int| k < j < envs.len() ==> envs[j].0@ != key,
    ensures
        spec_env_lookup(envs, key) == Some(envs[k].1@),
    decreases envs.len(),
{
    if k == envs.len() - 1 {
    } else {
        lemma_env_lookup_found(envs.drop_last(), key, k);
    }
}

pub proof fn lemma_env_lookup_missing(envs: Seq<(String, String)>, key: Seq<char>)
    requires
        forall|j: int| 0 <= j < envs.len() ==> envs[j].0@ != key,
    ensures
        spec_env_lookup(envs, key) is None,
    decreases envs.len(),
{
    if envs.len() > 0 {
        lemma_env_lookup_missing(envs.drop_last(), key);
    }
}

/// The buffered execution environment handed to a builtin callback: the
/// stage's real argv, its peeled assignments, the group's working directory,
/// a byte buffer standing for the callback's stdin, and two byte buffers it
/// appends to as its stdout and stderr.
pub struct CmdEnv {
    inbuf: Vec<u8>,
    outbuf: Vec<u8>,
    errbuf: Vec<u8>,
    args: Vec<String>,
    vars: Vec<(String, String)>,
    current_dir: String,
}

impl CmdEnv {
    /// A fresh environment with empty buffers.
    pub fn new(args: Vec<String>, vars: Vec<(String, String)>, current_dir: String) -> (e: CmdEnv)
        ensures
            e.spec_args() == args@,
            e.spec_vars() == vars@,
            e.spec_current_dir() == current_dir@,
            e.spec_inbuf() == Seq::<u8>::empty(),
            e.spec_outbuf() == Seq::<u8>::empty(),
            e.spec_errbuf() == Seq::<u8>::empty(),
    {
        let e = CmdEnv {
            inbuf: Vec::new(),
            outbuf: Vec::new(),
            errbuf: Vec::new(),
            args,
            vars,
            current_dir,
        };
        proof {
            assert(e.spec_inbuf() =~= Seq::<u8>::empty());
            assert(e.spec_outbuf() =~= Seq::<u8>::empty());
            assert(e.spec_errbuf() =~= Seq::<u8>::empty());
        }
        e
    }

    pub closed spec fn spec_args(&self) -> Seq<String> {
        self.args@
    }

    pub closed spec fn spec_vars(&self) -> Seq<(String, String)> {
        self.vars@
    }

    pub closed spec fn spec_current_dir(&self) -> Seq<char> {
        self.current_dir@
    }

    pub closed spec fn spec_inbuf(&self) -> Seq<u8> {
        self.inbuf@
    }

    pub closed spec fn spec_outbuf(&self) -> Seq<u8> {
        self.outbuf@
    }

    pub closed spec fn spec_errbuf(&self) -> Seq<u8> {
        self.errbuf@
    }

    /// The stage's real argv.
    pub fn args(&self) -> (r: &[String])
        ensures
            r@ == self.spec_args(),
    {
        self.args.as_slice()
    }

    /// The latest value assigned to the variable, if any.
    pub fn var(&self, key: &str) -> (r: Option<&String>)
        ensures
            match r {
                Some(v) => spec_env_lookup(self.spec_vars(), key@) == Some(v@),
                None => spec_env_lookup(self.spec_vars(), key@) is None,
            },
    {
        let owned = key.to_owned();
        let n = self.vars.len();
        let mut found: Option<usize> = None;
        for i in 0..n
            invariant
                n == self.vars@.len(),
                owned@ == key@,
                match found {
                    Some(k) => k < i && self.vars@[k as int].0@ == key@ && (forall|j: int|
                        k < j < i ==> self.vars@[j].0@ != key@),
                    None => forall|j: int| 0 <= j < i ==> self.vars@[j].0@ != key@,
                },
        {
            if self.vars[i].0.eq(&owned) {
                found = Some(i);
            }
        }
        match found {
            Some(k) => {
                proof {
                    lemma_env_lookup_found(self.vars@, key@, k as int);
                }
                Some(&self.vars[k].1)
            }
            None => {
                proof {
                    lemma_env_lookup_missing(self.vars@, key@);
                }
                None
            }
        }
    }

    /// The group's working directory as the stage sees it; empty means the
    /// caller's directory is inherited.
    pub fn current_dir(&self) -> (r: &str)
        ensures
            r@ == self.spec_current_dir(),
    {
        self.current_dir.as_str()
    }

    /// The bytes standing for the callback's stdin.
    pub fn stdin(&self) -> (r: &[u8])
        ensures
            r@ == self.spec_inbuf(),
    {
        self.inbuf.as_slice()
    }

    /// The buffer the callback appends to as its stdout.
    pub fn stdout(&mut self) -> (r: &mut Vec<u8>)
        ensures
            (*r)@ == old(self).spec_outbuf(),
            final(self).spec_outbuf() == final(r)@,
            final(self).spec_inbuf() == old(self).spec_inbuf(),
            final(self).spec_errbuf() == old(self).spec_errbuf(),
            final(self).spec_args() == old(self).spec_args(),
            final(self).spec_vars() == old(self).spec_vars(),
            final(self).spec_current_dir() == old(self).spec_current_dir(),
    {
        &mut self.outbuf
    }

    /// The buffer the callback appends to as its stderr.
    pub fn stderr(&mut self) -> (r: &mut Vec<u8>)
        ensures
            (*r)@ == old(self).spec_errbuf(),
            final(self).spec_errbuf() == final(r)@,
            final(self).spec_inbuf() == old(self).spec_inbuf(),
            final(self).spec_outbuf() == old(self).spec_outbuf(),
            final(self).spec_args() == old(self).spec_args(),
            final(self).spec_vars() == old(self).spec_vars(),
            final(self).spec_current_dir() == old(self).spec_current_dir(),
    {
        &mut self.errbuf
    }

    /// Replaces the stdin buffer: the executor fills it from a redirect file
    /// or from the previous stage's captured output before the callback runs.
    pub fn set_stdin(&mut self, data: Vec<u8>)
        ensures
            final(self).spec_inbuf() == data@,
            final(self).spec_outbuf() == old(self).spec_outbuf(),
            final(self).spec_errbuf() == old(self).spec_errbuf(),
            final(self).spec_args() == old(self).spec_args(),
            final(self).spec_vars() == old(self).spec_vars(),
            final(self).spec_current_dir() == old(self).spec_current_dir(),
    {
        self.inbuf = data;
    }

    /// Hands the captured stdout of the completed callback to the executor.
    pub fn take_outbuf(self) -> (r: Vec<u8>)
        ensures
            r@ == self.spec_outbuf(),
    {
        self.outbuf
    }

    /// Hands the captured stderr of the completed callback to the executor.
    pub fn errbuf(&self) -> (r: &Vec<u8>)
        ensures
            r@ == self.spec_errbuf(),
    {
        &self.errbuf
    }
}

} // verus!
