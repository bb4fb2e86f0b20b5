use vstd::prelude::*;
use vstd::string::StringExecFns;

verus! {

/// The classes of failure the pipeline core reports: redirect or `cd` setup,
/// spawning a child, a non-zero exit status, termination by a signal, an I/O
/// failure while piping, or a builtin callback returning failure.
#[derive(Clone, Copy, PartialEq, Eq, Structural, Debug)]
pub enum CmdErrorKind {
    Setup,
    Spawn,
    Exit,
    Signal,
    Io,
    Builtin,
}

/// An error of the pipeline core: its class and a human-readable message.
#[derive(Clone, Debug)]
pub struct CmdError {
    pub kind: CmdErrorKind,
    pub message: String,
}

impl CmdError {
    pub fn new(kind: CmdErrorKind, message: String) -> (e: CmdError)
        ensures
            e.kind == kind,
            e.message == message,
    {
        CmdError { kind, message }
    }

    pub fn message(&self) -> (m: &String)
        ensures
            m == &self.message,
    {
        &self.message
    }

    pub fn kind(&self) -> (k: CmdErrorKind)
        ensures
            k == self.kind,
    {
        self.kind
    }
}

/// The decimal digit character for a value below ten.
pub open spec fn spec_digit_char(d: nat) -> char {
    if d == 0 { '0' }
    else if d == 1 { '1' }
    else if d == 2 { '2' }
    else if d == 3 { '3' }
    else if d == 4 { '4' }
    else if d == 5 { '5' }
    else if d == 6 { '6' }
    else if d == 7 { '7' }
    else if d == 8 { '8' }
    else { '9' }
}

/// The decimal rendering of a natural number, most significant digit first.
pub open spec fn spec_dec(n: nat) -> Seq<char>
    decreases n,
{
    if n < 10 {
        seq![spec_digit_char(n)]
    } else {
        spec_dec(n / 10).push(spec_digit_char(n % 10))
    }
}

fn digit_str(d: u64) -> (s: &'static str)
    requires
        d < 10,
    ensures
        s@ == seq![spec_digit_char(d as nat)],
{
    let s: &'static str = if d == 0 { "0" }
    else if d == 1 { "1" }
    else if d == 2 { "2" }
    else if d == 3 { "3" }
    else if d == 4 { "4" }
    else if d == 5 { "5" }
    else if d == 6 { "6" }
    else if d == 7 { "7" }
    else if d == 8 { "8" }
    else { "9" };
    proof {
        reveal_strlit("0");
        reveal_strlit("1");
        reveal_strlit("2");
        reveal_strlit("3");
        reveal_strlit("4");
        reveal_strlit("5");
        reveal_strlit("6");
        reveal_strlit("7");
        reveal_strlit("8");
        reveal_strlit("9");
        assert(s@ =~= seq![spec_digit_char(d as nat)]);
    }
    s
}

/// Renders a number in decimal, matching `spec_dec`.
pub fn u64_to_string(n: u64) -> (s: String)
    ensures
        s@ == spec_dec(n as nat),
    decreases n,
{
    if n < 10 {
        let s = digit_str(n);
        s.to_owned()
    } else {
        let mut s = u64_to_string(n / 10);
        s.append(digit_str(n % 10));
        proof {
            assert(s@ =~= spec_dec(n as nat));
        }
        s
    }
}

/// The decimal rendering of an integer, with a leading minus sign if negative.
pub open spec fn spec_int_dec(n: int) -> Seq<char> {
    if n < 0 {
        seq!['-'] + spec_dec((-n) as nat)
    } else {
        spec_dec(n as nat)
    }
}

/// Renders a signed number in decimal, matching `spec_int_dec`.
pub fn i32_to_string(n: i32) -> (s: String)
    ensures
        s@ == spec_int_dec(n as int),
{
    if n >= 0 {
        u64_to_string(n as u64)
    } else {
        let mag: i64 = -(n as i64);
        let mut s = "-".to_owned();
        let ms = u64_to_string(mag as u64);
        s.append(ms.as_str());
        proof {
            reveal_strlit("-");
            assert(s@ =~= spec_int_dec(n as int));
        }
        s
    }
}

/// The error for a stage the operating system could not start: its message
/// carries the stage's debug string, then the system's own explanation.
pub fn spawn_error(cmd: &String, os_msg: &String) -> (e: CmdError)
    ensures
        e.kind == CmdErrorKind::Spawn,
        e.message@ == cmd@ + ": "@ + os_msg@,
{
    let mut m = cmd.clone();
    m.append(": ");
    m.append(os_msg.as_str());
    CmdError::new(CmdErrorKind::Spawn, m)
}

/// The message reported when a stage fails: the stage's debug string followed
/// by its status code, or by the description of the terminating signal.
pub open spec fn spec_status_message(cmd: Seq<char>, code: Option<i32>, desc: Seq<char>) -> Seq<char> {
    match code {
        Some(c) => cmd + " exited with error; status code: "@ + spec_int_dec(c as int),
        None => cmd + " exited with error; terminated by "@ + desc,
    }
}

/// Builds the error for a failed stage from its debug string, its exit code if
/// it exited, and the description of the terminating signal otherwise.
pub fn status_error(cmd: &String, code: Option<i32>, desc: &String) -> (e: CmdError)
    ensures
        e.message@ == spec_status_message(cmd@, code, desc@),
        e.kind == (if code is Some { CmdErrorKind::Exit } else { CmdErrorKind::Signal }),
{
    let mut m = cmd.clone();
    match code {
        Some(c) => {
            m.append(" exited with error; status code: ");
            let cs = i32_to_string(c);
            m.append(cs.as_str());
            CmdError::new(CmdErrorKind::Exit, m)
        }
        None => {
            m.append(" exited with error; terminated by ");
            m.append(desc.as_str());
            CmdError::new(CmdErrorKind::Signal, m)
        }
    }
}

} // verus!
