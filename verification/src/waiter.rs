use vstd::prelude::*;
use crate::errors::CmdError;
use crate::errors::CmdErrorKind;
use crate::errors::spec_status_message;
use crate::errors::status_error;
use crate::strutil::pop_char;
use crate::strutil::push_char;

verus! {

/// How one stage ended, as plain values: whether it succeeded, its exit code
/// if it exited, and otherwise a description of what terminated it.
#[derive(Clone, Debug)]
pub struct StageStatus {
    pub success: bool,
    pub code: Option<i32>,
    pub desc: String,
}

/// One waited stage: its status and its debug string for diagnostics.
#[derive(Clone, Debug)]
pub struct StageResult {
    pub status: StageStatus,
    pub cmd: String,
}

/// The latest stage of the list that failed, if any; the drain walks stages
/// from the last backwards, so this is the failure it meets first.
pub open spec fn spec_last_failure(rs: Seq<StageResult>) -> Option<int>
    decreases rs.len(),
{
    if rs.len() == 0 {
        None
    } else if !rs.last().status.success {
        Some(rs.len() - 1)
    } else {
        spec_last_failure(rs.drop_last())
    }
}

/// The stage whose failure the pipeline reports: the final stage if it
/// failed; otherwise, with pipefail on, the latest earlier stage that
/// failed; otherwise none, and the pipeline succeeded.
pub open spec fn spec_verdict(rs: Seq<StageResult>, pipefail: bool) -> Option<int> {
    if rs.len() == 0 {
        None
    } else if !rs.last().status.success {
        Some(rs.len() - 1)
    } else if pipefail {
        spec_last_failure(rs.drop_last())
    } else {
        None
    }
}

pub proof fn lemma_last_failure_found(rs: Seq<StageResult>, k: int)
    requires
        0 <= k < rs.len(),
        !rs[k].status.success,
        forall|j: int| k < j < rs.len() ==> rs[j].status.success,
    ensures
        spec_last_failure(rs) == Some(k),
    decreases rs.len(),
{
    if k < rs.len() - 1 {
        lemma_last_failure_found(rs.drop_last(), k);
    }
}

pub proof fn lemma_last_failure_none(rs: Seq<StageResult>)
    requires
        forall|j: int| 0 <= j < rs.len() ==> rs[j].status.success,
    ensures
        spec_last_failure(rs) is None,
    decreases rs.len(),
{
    if rs.len() > 0 {
        lemma_last_failure_none(rs.drop_last());
    }
}

pub proof fn lemma_last_failure_exists(rs: Seq<StageResult>, i: int)
    requires
        0 <= i < rs.len(),
        !rs[i].status.success,
    ensures
        spec_last_failure(rs) is Some,
    decreases rs.len(),
{
    if rs.last().status.success {
        lemma_last_failure_exists(rs.drop_last(), i);
    }
}

/// With pipefail off, a pipeline whose final stage succeeded succeeds, no
/// matter how earlier stages ended; with pipefail on, the same pipeline
/// fails as soon as any earlier stage failed.
pub proof fn lemma_pipefail_toggle(rs: Seq<StageResult>, i: int)
    requires
        rs.len() > 0,
        rs.last().status.success,
        0 <= i < rs.len() - 1,
        !rs[i].status.success,
    ensures
        spec_verdict(rs, false) is None,
        spec_verdict(rs, true) is Some,
{
    lemma_last_failure_exists(rs.drop_last(), i);
}

/// The final stage's failure is the pipeline's primary error: stages are
/// awaited last first, so whatever earlier stages did and whichever way the
/// pipefail policy is set, the verdict names the final stage.
pub proof fn lemma_final_stage_failure_primary(rs: Seq<StageResult>, pipefail: bool)
    requires
        rs.len() > 0,
        !rs.last().status.success,
    ensures
        spec_verdict(rs, pipefail) == Some(rs.len() - 1),
{
}

/// Judges a waited pipeline: every stage's status is considered exactly
/// once, and the reported error carries the failing stage's debug string and
/// its exit code or signal description.
pub fn pipeline_verdict(results: &Vec<StageResult>, pipefail: bool) -> (r: Result<(), CmdError>)
    ensures
        match spec_verdict(results@, pipefail) {
            None => r is Ok,
            Some(i) => r is Err && r->Err_0.message@ == spec_status_message(
                results@[i].cmd@,
                results@[i].status.code,
                results@[i].status.desc@,
            ) && r->Err_0.kind == (if results@[i].status.code is Some {
                CmdErrorKind::Exit
            } else {
                CmdErrorKind::Signal
            }),
        },
{
    let n = results.len();
    if n == 0 {
        return Ok(());
    }
    let last = &results[n - 1];
    if !last.status.success {
        return Err(status_error(&last.cmd, last.status.code, &last.status.desc));
    }
    let mut i = n - 1;
    while i > 0
        invariant
            0 <= i <= n - 1,
            n == results@.len(),
            results@.last().status.success,
            forall|j: int| i <= j < n - 1 ==> results@[j].status.success,
        decreases i,
    {
        i -= 1;
        let stage = &results[i];
        if !stage.status.success {
            if pipefail {
                proof {
                    assert(results@.drop_last() =~= results@.take(n - 1 as int));
                    lemma_last_failure_found(results@.drop_last(), i as int);
                }
                return Err(status_error(&stage.cmd, stage.status.code, &stage.status.desc));
            }
            proof {
                assert(spec_verdict(results@, pipefail) is None);
            }
            return Ok(());
        }
    }
    proof {
        assert(results@.drop_last() =~= results@.take(n - 1 as int));
        lemma_last_failure_none(results@.drop_last());
    }
    Ok(())
}

/// The order the waiter releases stage handles in: last first, down to the
/// first stage, each exactly once.
pub fn wait_order(n: usize) -> (v: Vec<usize>)
    ensures
        v@.len() == n,
        forall|i: int| 0 <= i < n ==> v@[i] == n - 1 - i,
{
    let mut v: Vec<usize> = Vec::new();
    let mut left = n;
    while left > 0
        invariant
            left <= n,
            v@.len() == n - left,
            forall|i: int| 0 <= i < v@.len() ==> v@[i] == n - 1 - i,
        decreases left,
    {
        left -= 1;
        v.push(left);
    }
    v
}

/// A wait order of the shape `wait_order` returns consumes every stage
/// handle exactly once: each index below the length appears, and no index
/// appears twice.
pub proof fn lemma_wait_order_each_once(v: Seq<usize>, n: nat)
    requires
        v.len() == n,
        forall|i: int| 0 <= i < n ==> v[i] == n - 1 - i,
    ensures
        forall|k: usize| k < n ==> #[trigger] v.contains(k),
        forall|i: int, j: int| 0 <= i < n && 0 <= j < n && i != j ==> v[i] != v[j],
{
    assert forall|k: usize| k < n implies #[trigger] v.contains(k) by {
        assert(v[n - 1 - k as int] == k);
    }
}

/// What an unknown sequence of bytes decodes to; fixed by the bytes alone.
pub uninterp spec fn spec_lossy_utf8(bytes: Seq<u8>) -> Seq<char>;

/// Relies on String::from_utf8_lossy: the decoding is a function of the
/// bytes alone, and bytes below 128 (valid ASCII, hence valid UTF-8) decode
/// to exactly their characters.
#[verifier::external_body]
pub fn bytes_to_string_lossy(bytes: &Vec<u8>) -> (s: String)
    ensures
        s@ == spec_lossy_utf8(bytes@),
        (forall|i: int| 0 <= i < bytes@.len() ==> bytes@[i] < 128) ==> s@ == bytes@.map_values(
            |b: u8| b as char,
        ),
{
    String::from_utf8_lossy(bytes.as_slice()).to_string()
}

/// The string with exactly one trailing newline removed, if it ends in one.
pub open spec fn spec_trim_newline(s: Seq<char>) -> Seq<char> {
    if s.len() > 0 && s.last() == '\n' {
        s.drop_last()
    } else {
        s
    }
}

/// Strips the sole trailing newline, matching `spec_trim_newline`.
pub fn trim_trailing_newline(s: String) -> (r: String)
    ensures
        r@ == spec_trim_newline(s@),
{
    let ghost s0 = s@;
    let mut s = s;
    match pop_char(&mut s) {
        None => s,
        Some(c) => {
            if c == '\n' {
                s
            } else {
                push_char(&mut s, c);
                proof {
                    assert(s@ =~= s0);
                }
                s
            }
        }
    }
}

/// Decodes a captured stdout as the string entry points hand back: lossy
/// UTF-8, with the sole trailing newline stripped.
pub fn decode_output(output: &Vec<u8>) -> (r: String)
    ensures
        r@ == spec_trim_newline(spec_lossy_utf8(output@)),
{
    let s = bytes_to_string_lossy(output);
    trim_trailing_newline(s)
}

/// Whether the pipefail policy is on, given the raw value of the
/// `CMD_LIB_PIPEFAIL` process variable: on unless the value is exactly "0".
pub open spec fn spec_pipefail_enabled(raw: Option<Seq<char>>) -> bool {
    match raw {
        Some(v) => v != "0"@,
        None => true,
    }
}

/// Decides the pipefail policy, matching `spec_pipefail_enabled`.
pub fn pipefail_enabled(raw: Option<&String>) -> (r: bool)
    ensures
        r == spec_pipefail_enabled(
            match raw {
                Some(s) => Some(s@),
                None => None,
            },
        ),
{
    match raw {
        Some(s) => {
            let zero = "0".to_owned();
            !s.eq(&zero)
        }
        None => true,
    }
}

/// Whether pre-run debug logging is on, given the raw value of the
/// `CMD_LIB_DEBUG` process variable: only the value "1" enables it.
pub open spec fn spec_debug_enabled(raw: Option<Seq<char>>) -> bool {
    match raw {
        Some(v) => v == "1"@,
        None => false,
    }
}

/// Decides the debug-logging flag, matching `spec_debug_enabled`.
pub fn debug_enabled(raw: Option<&String>) -> (r: bool)
    ensures
        r == spec_debug_enabled(
            match raw {
                Some(s) => Some(s@),
                None => None,
            },
        ),
{
    match raw {
        Some(s) => {
            let one = "1".to_owned();
            s.eq(&one)
        }
        None => false,
    }
}

} // verus!
