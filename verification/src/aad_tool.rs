//! Running `aad-tool`: where the tool and `pkexec` are found, the command
//! line that is launched, and how the process outcome is reported.

use vstd::prelude::*;
use vstd::utf8::*;
use crate::text::{decimal, signed_decimal, signed_decimal_string, trim, trim_ws, views, lemma_views_push};


verus! {

/// The view of a `Result` of strings.
pub open spec fn res_view(r: Result<String, String>) -> Result<Seq<char>, Seq<char>> {
    match r {
        Ok(t) => Ok(t@),
        Err(e) => Err(e@),
    }
}

/// The views of a list of string slices.
pub open spec fn str_views(v: Seq<&str>) -> Seq<Seq<char>> {
    v.map_values(|c: &str| c@)
}

/// The places where `aad-tool` is looked for, in order.
pub open spec fn aad_tool_candidates() -> Seq<Seq<char>> {
    seq!["/usr/bin/aad-tool"@, "/usr/local/bin/aad-tool"@, "/bin/aad-tool"@]
}

/// The places where `pkexec` is looked for, in order.
pub open spec fn pkexec_candidates() -> Seq<Seq<char>> {
    seq!["/usr/bin/pkexec"@, "/bin/pkexec"@]
}

/// The error when no `aad-tool` is found.
pub open spec fn aad_tool_missing() -> Seq<char> {
    "aad-tool not found. Please ensure Himmelblau is installed and aad-tool is in /usr/bin."@
}

/// The error when no `pkexec` is found.
pub open spec fn pkexec_missing() -> Seq<char> {
    "pkexec not found. Please install polkit (provides /usr/bin/pkexec)."@
}

/// The first candidate that is present, given what was found at each place.
pub open spec fn first_present(
    candidates: Seq<Seq<char>>,
    present: Seq<bool>,
    missing: Seq<char>,
) -> Result<Seq<char>, Seq<char>>
    decreases candidates.len(),
{
    if candidates.len() == 0 || present.len() == 0 {
        Err(missing)
    } else if present[0] {
        Ok(candidates[0])
    } else {
        first_present(candidates.drop_first(), present.drop_first(), missing)
    }
}

/// `std::path::Path::exists`. What it returns depends on the file system at
/// the moment of the call, so nothing is stated of it.
#[verifier::external_body]
fn path_exists(path: &str) -> (r: bool) {
    std::path::Path::new(path).exists()
}

/// The places where `aad-tool` is looked for, in order.
pub fn aad_tool_candidate_paths() -> (v: Vec<&'static str>)
    ensures
        str_views(v@) == aad_tool_candidates(),
{
    let v = vec!["/usr/bin/aad-tool", "/usr/local/bin/aad-tool", "/bin/aad-tool"];
    assert(str_views(v@) =~= aad_tool_candidates());
    v
}

/// The places where `pkexec` is looked for, in order.
pub fn pkexec_candidate_paths() -> (v: Vec<&'static str>)
    ensures
        str_views(v@) == pkexec_candidates(),
{
    let v = vec!["/usr/bin/pkexec", "/bin/pkexec"];
    assert(str_views(v@) =~= pkexec_candidates());
    v
}

/// Looks at each path, in order: whether something exists there now.
pub fn probe(paths: &Vec<&str>) -> (present: Vec<bool>)
    ensures
        present@.len() == paths@.len(),
{
    let mut present: Vec<bool> = Vec::new();
    let mut i: usize = 0;
    while i < paths.len()
        invariant
            i <= paths.len(),
            present@.len() == i,
        decreases paths.len() - i,
    {
        present.push(path_exists(paths[i]));
        i = i + 1;
    }
    present
}

/// The first candidate that was found present, or the error that says that
/// none was.
pub fn pick_first(candidates: &Vec<&str>, present: &Vec<bool>, missing: &str) -> (r: Result<
    String,
    String,
>)
    ensures
        res_view(r) == first_present(str_views(candidates@), present@, missing@),
{
    let ghost cands = str_views(candidates@);
    let mut i: usize = 0;
    assert(cands.skip(0) =~= cands);
    assert(present@.skip(0) =~= present@);
    while i < candidates.len() && i < present.len()
        invariant
            i <= candidates.len(),
            i <= present.len(),
            cands == str_views(candidates@),
            first_present(cands, present@, missing@) == first_present(
                cands.skip(i as int),
                present@.skip(i as int),
                missing@,
            ),
        decreases candidates.len() - i,
    {
        let ghost c = cands.skip(i as int);
        let ghost p = present@.skip(i as int);
        assert(c[0] == candidates@[i as int]@);
        assert(p[0] == present@[i as int]);
        if present[i] {
            return Ok(candidates[i].to_owned());
        }
        assert(c.drop_first() =~= cands.skip(i + 1));
        assert(p.drop_first() =~= present@.skip(i + 1));
        i = i + 1;
    }
    assert(cands.skip(i as int).len() == 0 || present@.skip(i as int).len() == 0);
    Err(missing.to_owned())
}

/// Locates `aad-tool`: the first of its usual places where something exists.
/// Which places exist is read from the file system at the call.
pub fn find_aad_tool() -> (r: Result<String, String>)
    ensures
        exists|present: Seq<bool>|
            present.len() == aad_tool_candidates().len() && res_view(r) == #[trigger] first_present(
                aad_tool_candidates(),
                present,
                aad_tool_missing(),
            ),
{
    let candidates = aad_tool_candidate_paths();
    let present = probe(&candidates);
    let missing =
        "aad-tool not found. Please ensure Himmelblau is installed and aad-tool is in /usr/bin.";
    let r = pick_first(&candidates, &present, missing);
    assert(missing@ == aad_tool_missing());
    r
}

/// Locates `pkexec`: the first of its usual places where something exists,
/// so `/usr/bin/pkexec` when both exist. Which places exist is read from the
/// file system at the call.
pub fn find_pkexec() -> (r: Result<String, String>)
    ensures
        exists|present: Seq<bool>|
            present.len() == pkexec_candidates().len() && res_view(r) == #[trigger] first_present(
                pkexec_candidates(),
                present,
                pkexec_missing(),
            ),
{
    let candidates = pkexec_candidate_paths();
    let present = probe(&candidates);
    let missing = "pkexec not found. Please install polkit (provides /usr/bin/pkexec).";
    let r = pick_first(&candidates, &present, missing);
    assert(missing@ == pkexec_missing());
    r
}

/// The two output streams as one text: both, separated by a line break,
/// when neither is empty; otherwise whichever is not empty.
pub open spec fn combined(out: Seq<char>, err: Seq<char>) -> Seq<char> {
    if out.len() > 0 && err.len() > 0 {
        out + seq!['\n'] + err
    } else if out.len() > 0 {
        out
    } else {
        err
    }
}

/// Joins the standard output and standard error of a command.
pub fn combine(stdout: String, stderr: String) -> (r: String)
    ensures
        r@ == combined(stdout@, stderr@),
{
    let out_empty = stdout.as_str().is_empty();
    let err_empty = stderr.as_str().is_empty();
    if !out_empty && !err_empty {
        proof {
            reveal_strlit("\n");
        }
        stdout.concat("\n").concat(stderr.as_str())
    } else if !out_empty {
        stdout
    } else if !err_empty {
        stderr
    } else {
        String::new()
    }
}

/// What `String::from_utf8_lossy` makes of a byte sequence: its UTF-8
/// decoding, each invalid sequence replaced by U+FFFD.
pub uninterp spec fn utf8_lossy(bytes: Seq<u8>) -> Seq<char>;

/// `String::from_utf8_lossy`. The text is named by `utf8_lossy`; its
/// documentation also says that valid UTF-8 comes back unchanged, which the
/// second clause states.
#[verifier::external_body]
fn decode_lossy(bytes: &[u8]) -> (r: String)
    ensures
        r@ == utf8_lossy(bytes@),
        valid_utf8(bytes@) ==> r@ == decode_utf8(bytes@),
{
    String::from_utf8_lossy(bytes).into_owned()
}

/// The message when `pkexec` reports that authentication was refused.
pub open spec fn auth_cancelled() -> Seq<char> {
    "Authentication cancelled or access denied. No changes were made."@
}

/// The message when `pkexec` could not find the tool it was to run.
pub open spec fn tool_missing_for_pkexec() -> Seq<char> {
    "aad-tool not found by pkexec. Ensure Himmelblau is installed in /usr/bin."@
}

/// The message of a command that printed nothing and succeeded.
pub open spec fn completed_quietly() -> Seq<char> {
    "(completed successfully)"@
}

/// The report of a command that ran to its end: its exit code (none when a
/// signal stopped it; zero is success) and its two outputs, each trimmed.
pub open spec fn exit_report(code: Option<i32>, out: Seq<char>, err: Seq<char>) -> Result<
    Seq<char>,
    Seq<char>,
> {
    let text = combined(trim_ws(out), trim_ws(err));
    if code == Some(0i32) {
        Ok(
            if text.len() == 0 {
                completed_quietly()
            } else {
                text
            },
        )
    } else {
        Err(
            if text.len() == 0 {
                "Command failed with exit code "@ + signed_decimal(
                    match code {
                        Some(c) => c as int,
                        None => -1,
                    },
                )
            } else {
                text
            },
        )
    }
}

/// The report of a finished command; a command run through `pkexec` that
/// exits with 126 or 127 is reported by what `pkexec` means by them.
pub open spec fn settled(privileged: bool, code: Option<i32>, out: Seq<char>, err: Seq<char>) -> Result<
    Seq<char>,
    Seq<char>,
> {
    if privileged && code == Some(126i32) {
        Err(auth_cancelled())
    } else if privileged && code == Some(127i32) {
        Err(tool_missing_for_pkexec())
    } else {
        exit_report(code, out, err)
    }
}

/// Reports a finished command from the text of its two outputs.
pub fn settle_exit(privileged: bool, code: Option<i32>, stdout: &str, stderr: &str) -> (r: Result<
    String,
    String,
>)
    ensures
        res_view(r) == settled(privileged, code, stdout@, stderr@),
{
    if privileged {
        match code {
            Some(126) => {
                return Err(
                    String::from_str(
                        "Authentication cancelled or access denied. No changes were made.",
                    ),
                );
            },
            Some(127) => {
                return Err(
                    String::from_str(
                        "aad-tool not found by pkexec. Ensure Himmelblau is installed in /usr/bin.",
                    ),
                );
            },
            _ => {},
        }
    }
    let text = combine(trim(stdout), trim(stderr));
    let empty = text.as_str().is_empty();
    if code == Some(0i32) {
        if empty {
            Ok(String::from_str("(completed successfully)"))
        } else {
            Ok(text)
        }
    } else if empty {
        let c: i32 = match code {
            Some(c) => c,
            None => -1,
        };
        Err(String::from_str("Command failed with exit code ").concat(signed_decimal_string(c).as_str()))
    } else {
        Err(text)
    }
}

/// How a command that was started ended: its exit code, if it exited, and
/// the raw bytes of its two outputs.
pub struct ExitReport {
    pub code: Option<i32>,
    pub stdout: Vec<u8>,
    pub stderr: Vec<u8>,
}

/// Reports a finished command from the raw bytes of its two outputs.
pub fn settle_output(privileged: bool, report: &ExitReport) -> (r: Result<String, String>)
    ensures
        res_view(r) == settled(
            privileged,
            report.code,
            utf8_lossy(report.stdout@),
            utf8_lossy(report.stderr@),
        ),
{
    let out = decode_lossy(report.stdout.as_slice());
    let err = decode_lossy(report.stderr.as_slice());
    settle_exit(privileged, report.code, out.as_str(), err.as_str())
}

/// The message when a command could not be started at all.
pub open spec fn launch_failure_text(privileged: bool, program: Seq<char>, error: Seq<char>) -> Seq<
    char,
> {
    if privileged {
        "Failed to launch pkexec — is polkit installed and running? ("@ + error + ")"@
    } else {
        "Failed to spawn "@ + program + ": "@ + error
    }
}

/// Reports the run of a command: a launch failure, or how it ended.
pub fn settle_run(privileged: bool, program: &str, outcome: Result<ExitReport, String>) -> (r: Result<
    String,
    String,
>)
    ensures
        res_view(r) == match outcome {
            Err(e) => Err(launch_failure_text(privileged, program@, e@)),
            Ok(report) => settled(
                privileged,
                report.code,
                utf8_lossy(report.stdout@),
                utf8_lossy(report.stderr@),
            ),
        },
{
    match outcome {
        Err(e) => {
            if privileged {
                Err(
                    String::from_str(
                        "Failed to launch pkexec — is polkit installed and running? (",
                    ).concat(e.as_str()).concat(")"),
                )
            } else {
                Err(String::from_str("Failed to spawn ").concat(program).concat(": ").concat(e.as_str()))
            }
        },
        Ok(report) => settle_output(privileged, &report),
    }
}

/// How a command fed on its standard input ended.
pub enum FedRunOutcome {
    /// It could not be started.
    SpawnFailed(String),
    /// It was started, but waiting for it failed.
    WaitFailed(String),
    /// It ran to its end.
    Finished(ExitReport),
}

/// Reports the run of a command that was fed on its standard input.
pub fn settle_fed_run(outcome: FedRunOutcome) -> (r: Result<String, String>)
    ensures
        res_view(r) == match outcome {
            FedRunOutcome::SpawnFailed(e) => Err("Failed to spawn aad-tool via setsid: "@ + e@),
            FedRunOutcome::WaitFailed(e) => Err("Failed to wait for aad-tool: "@ + e@),
            FedRunOutcome::Finished(report) => settled(
                false,
                report.code,
                utf8_lossy(report.stdout@),
                utf8_lossy(report.stderr@),
            ),
        },
{
    match outcome {
        FedRunOutcome::SpawnFailed(e) => Err(
            String::from_str("Failed to spawn aad-tool via setsid: ").concat(e.as_str()),
        ),
        FedRunOutcome::WaitFailed(e) => Err(
            String::from_str("Failed to wait for aad-tool: ").concat(e.as_str()),
        ),
        FedRunOutcome::Finished(report) => settle_output(false, &report),
    }
}


/// A command line to launch: the program, its arguments, and whether it
/// goes through `pkexec`.
pub struct Invocation {
    pub program: String,
    pub args: Vec<String>,
    pub privileged: bool,
}

/// The choice among candidate places is the first present one: a result
/// names a place found present with none present before it, and the
/// not-found error comes exactly when no place that was looked at is present.
pub proof fn lemma_first_present_is_first(
    candidates: Seq<Seq<char>>,
    present: Seq<bool>,
    missing: Seq<char>,
)
    ensures
        first_present(candidates, present, missing) matches Ok(p) ==> exists|i: int|
            0 <= i < candidates.len() && i < present.len() && #[trigger] present[i]
                && candidates[i] == p && forall|k: int| 0 <= k < i ==> !#[trigger] present[k],
        first_present(candidates, present, missing) is Err <==> forall|k: int|
            0 <= k < candidates.len() && k < present.len() ==> !#[trigger] present[k],
    decreases candidates.len(),
{
    if candidates.len() > 0 && present.len() > 0 {
        if present[0] {
            assert(present[0] && candidates[0] == candidates[0]);
        } else {
            let c = candidates.drop_first();
            let q = present.drop_first();
            lemma_first_present_is_first(c, q, missing);
            if let Ok(p) = first_present(candidates, present, missing) {
                let i = choose|i: int|
                    0 <= i < c.len() && i < q.len() && #[trigger] q[i] && c[i] == p && forall|
                        k: int,
                    | 0 <= k < i ==> !#[trigger] q[k];
                assert(present[i + 1] && candidates[i + 1] == p);
                assert forall|k: int| 0 <= k < i + 1 implies !#[trigger] present[k] by {
                    if k > 0 {
                        assert(present[k] == q[k - 1]);
                    }
                }
            }
            if first_present(candidates, present, missing) is Err {
                assert forall|k: int| 0 <= k < candidates.len() && k < present.len() implies !#[trigger] present[k] by {
                    if k > 0 {
                        assert(present[k] == q[k - 1]);
                    }
                }
            } else {
                if forall|k: int| 0 <= k < candidates.len() && k < present.len() ==> !#[trigger] present[k] {
                    assert forall|k: int| 0 <= k < c.len() && k < q.len() implies !#[trigger] q[k] by {
                        assert(q[k] == present[k + 1]);
                    }
                }
            }
        }
    }
}

/// A program that is found is found at one of its usual places, and the
/// only error is the one that names it.
pub proof fn lemma_first_present_member(
    candidates: Seq<Seq<char>>,
    present: Seq<bool>,
    missing: Seq<char>,
)
    ensures
        first_present(candidates, present, missing) matches Ok(p) ==> candidates.contains(p),
        first_present(candidates, present, missing) matches Err(e) ==> e == missing,
    decreases candidates.len(),
{
    if candidates.len() > 0 && present.len() > 0 {
        if present[0] {
            assert(candidates[0] == candidates[0]);
            assert(candidates.contains(candidates[0]));
        } else {
            lemma_first_present_member(candidates.drop_first(), present.drop_first(), missing);
            if let Ok(p) = first_present(candidates, present, missing) {
                let k = choose|k: int| 0 <= k < candidates.drop_first().len() && candidates.drop_first()[k] == p;
                assert(candidates[k + 1] == p);
            }
        }
    }
}

/// Runs `aad-tool` directly, as the current user.
pub fn plan_run(aad_tool: String, args: Vec<String>) -> (inv: Invocation)
    ensures
        inv.program@ == aad_tool@,
        views(inv.args@) == views(args@),
        !inv.privileged,
{
    Invocation { program: aad_tool, args, privileged: false }
}

/// Prepends one argument to a list of arguments.
fn prepend(first: String, rest: Vec<String>) -> (r: Vec<String>)
    ensures
        views(r@) == seq![first@] + views(rest@),
{
    let mut r: Vec<String> = Vec::new();
    r.push(first);
    let mut i: usize = 0;
    while i < rest.len()
        invariant
            i <= rest.len(),
            views(r@) == seq![first@] + views(rest@).take(i as int),
        decreases rest.len() - i,
    {
        let ghost old_r = r@;
        r.push(rest[i].clone());
        proof {
            lemma_views_push(old_r, rest@[i as int]);
            assert(views(rest@).take(i + 1) =~= views(rest@).take(i as int).push(rest@[i as int]@));
            assert(views(r@) =~= seq![first@] + views(rest@).take(i + 1));
        }
        i = i + 1;
    }
    assert(views(rest@).take(rest.len() as int) =~= views(rest@));
    r
}

/// Runs `aad-tool` as root: `pkexec`, then the tool, then its arguments.
pub fn plan_run_as_root(pkexec: String, aad_tool: String, args: Vec<String>) -> (inv: Invocation)
    ensures
        inv.program@ == pkexec@,
        views(inv.args@) == seq![aad_tool@] + views(args@),
        inv.privileged,
{
    Invocation { program: pkexec, args: prepend(aad_tool, args), privileged: true }
}

/// Runs `aad-tool` in a session of its own through `setsid`, so that it reads
/// a credential from its standard input rather than from a terminal.
pub fn plan_fed_run(aad_tool: String, args: Vec<String>) -> (inv: Invocation)
    ensures
        inv.program@ == "setsid"@,
        views(inv.args@) == seq![aad_tool@] + views(args@),
        !inv.privileged,
{
    Invocation { program: String::from_str("setsid"), args: prepend(aad_tool, args), privileged: false }
}

/// The view of a planned launch: program, arguments, through `pkexec`.
pub open spec fn plan_view(r: Result<Invocation, String>) -> Result<
    (Seq<char>, Seq<Seq<char>>, bool),
    Seq<char>,
> {
    match r {
        Ok(inv) => Ok((inv.program@, views(inv.args@), inv.privileged)),
        Err(e) => Err(e@),
    }
}

/// The launch of a command as the current user, from the lookup of
/// `aad-tool`: the tool itself with the arguments, or the lookup's error.
pub open spec fn user_plan(tool: Result<Seq<char>, Seq<char>>, args: Seq<Seq<char>>) -> Result<
    (Seq<char>, Seq<Seq<char>>, bool),
    Seq<char>,
> {
    match tool {
        Ok(t) => Ok((t, args, false)),
        Err(e) => Err(e),
    }
}

/// The launch of a command as root, from the lookups of `aad-tool` and of
/// `pkexec`: `pkexec` with the tool and then the arguments; a missing tool
/// is reported before a missing `pkexec`.
pub open spec fn root_plan(
    tool: Result<Seq<char>, Seq<char>>,
    pkexec: Result<Seq<char>, Seq<char>>,
    args: Seq<Seq<char>>,
) -> Result<(Seq<char>, Seq<Seq<char>>, bool), Seq<char>> {
    match tool {
        Err(e) => Err(e),
        Ok(t) => match pkexec {
            Err(e) => Err(e),
            Ok(p) => Ok((p, seq![t] + args, true)),
        },
    }
}

/// The launch of a command fed on its standard input, from the lookup of
/// `aad-tool`: `setsid` with the tool and then the arguments.
pub open spec fn fed_plan(tool: Result<Seq<char>, Seq<char>>, args: Seq<Seq<char>>) -> Result<
    (Seq<char>, Seq<Seq<char>>, bool),
    Seq<char>,
> {
    match tool {
        Ok(t) => Ok(("setsid"@, seq![t] + args, false)),
        Err(e) => Err(e),
    }
}

/// Plans a launch as the current user from the lookup of `aad-tool`.
pub fn plan_user_launch(tool: Result<String, String>, args: Vec<String>) -> (r: Result<
    Invocation,
    String,
>)
    ensures
        plan_view(r) == user_plan(res_view(tool), views(args@)),
{
    match tool {
        Ok(t) => Ok(plan_run(t, args)),
        Err(e) => Err(e),
    }
}

/// Plans a launch as root from the lookups of `aad-tool` and of `pkexec`.
pub fn plan_root_launch(
    tool: Result<String, String>,
    pkexec: Result<String, String>,
    args: Vec<String>,
) -> (r: Result<Invocation, String>)
    ensures
        plan_view(r) == root_plan(res_view(tool), res_view(pkexec), views(args@)),
{
    match tool {
        Err(e) => Err(e),
        Ok(t) => match pkexec {
            Err(e) => Err(e),
            Ok(p) => Ok(plan_run_as_root(p, t, args)),
        },
    }
}

/// Plans a launch fed on its standard input from the lookup of `aad-tool`.
pub fn plan_fed_launch(tool: Result<String, String>, args: Vec<String>) -> (r: Result<
    Invocation,
    String,
>)
    ensures
        plan_view(r) == fed_plan(res_view(tool), views(args@)),
{
    match tool {
        Ok(t) => Ok(plan_fed_run(t, args)),
        Err(e) => Err(e),
    }
}

/// The outcome of a lookup of `aad-tool`, given what exists at its places.
pub open spec fn aad_tool_lookup(present: Seq<bool>) -> Result<Seq<char>, Seq<char>> {
    first_present(aad_tool_candidates(), present, aad_tool_missing())
}

/// The outcome of a lookup of `pkexec`, given what exists at its places.
pub open spec fn pkexec_lookup(present: Seq<bool>) -> Result<Seq<char>, Seq<char>> {
    first_present(pkexec_candidates(), present, pkexec_missing())
}

/// Finds the programs that a command needs and plans its launch: `aad-tool`
/// first, then, for a privileged command, `pkexec`, which is looked for
/// only once the tool was found. Whatever the file system holds, the plan
/// is the one that the lookups' outcomes give.
pub fn prepare_run(args: Vec<String>, privileged: bool) -> (r: Result<Invocation, String>)
    ensures
        !privileged ==> exists|tp: Seq<bool>|
            tp.len() == aad_tool_candidates().len() && plan_view(r) == user_plan(
                #[trigger] aad_tool_lookup(tp),
                views(args@),
            ),
        privileged ==> exists|tp: Seq<bool>, pp: Seq<bool>|
            tp.len() == aad_tool_candidates().len() && pp.len() == pkexec_candidates().len()
                && plan_view(r) == root_plan(
                #[trigger] aad_tool_lookup(tp),
                #[trigger] pkexec_lookup(pp),
                views(args@),
            ),
{
    let tool = find_aad_tool();
    let ghost tp = choose|tp: Seq<bool>|
        tp.len() == aad_tool_candidates().len() && res_view(tool) == #[trigger] first_present(
            aad_tool_candidates(),
            tp,
            aad_tool_missing(),
        );
    assert(res_view(tool) == aad_tool_lookup(tp));
    if !privileged {
        return plan_user_launch(tool, args);
    }
    if tool.is_err() {
        let ghost pp: Seq<bool> = seq![false, false];
        let r = plan_root_launch(tool, Err(String::new()), args);
        assert(plan_view(r) == root_plan(aad_tool_lookup(tp), pkexec_lookup(pp), views(args@)));
        return r;
    }
    let pk = find_pkexec();
    let ghost pp = choose|pp: Seq<bool>|
        pp.len() == pkexec_candidates().len() && res_view(pk) == #[trigger] first_present(
            pkexec_candidates(),
            pp,
            pkexec_missing(),
        );
    assert(res_view(pk) == pkexec_lookup(pp));
    plan_root_launch(tool, pk, args)
}

/// Finds `aad-tool` and plans a run fed on its standard input.
pub fn prepare_fed_run(args: Vec<String>) -> (r: Result<Invocation, String>)
    ensures
        exists|tp: Seq<bool>|
            tp.len() == aad_tool_candidates().len() && plan_view(r) == fed_plan(
                #[trigger] aad_tool_lookup(tp),
                views(args@),
            ),
{
    let tool = find_aad_tool();
    let ghost tp = choose|tp: Seq<bool>|
        tp.len() == aad_tool_candidates().len() && res_view(tool) == #[trigger] first_present(
            aad_tool_candidates(),
            tp,
            aad_tool_missing(),
        );
    assert(res_view(tool) == aad_tool_lookup(tp));
    plan_fed_launch(tool, args)
}

/// Joining the two outputs loses nothing: the text is empty exactly when
/// both outputs are.
pub proof fn lemma_combined_empty(out: Seq<char>, err: Seq<char>)
    ensures
        combined(out, err).len() == 0 <==> (out.len() == 0 && err.len() == 0),
{
}

proof fn lemma_decimal_nonempty(n: nat)
    ensures
        decimal(n).len() > 0,
    decreases n,
{
    if n >= 10 {
        lemma_decimal_nonempty(n / 10);
    }
}

/// A command that exits with zero reports what it printed: the trimmed
/// standard output and standard error, joined by a line break when both hold
/// text, whichever holds text when only one does; the quiet-success message
/// only when both are blank. A command that fails with output reports that
/// output the same way, unless `pkexec` explains its exit code.
pub proof fn lemma_reports_show_output(privileged: bool, code: Option<i32>, out: Seq<char>, err: Seq<char>)
    ensures
        ({
            let o = trim_ws(out);
            let e = trim_ws(err);
            let shown = if o.len() > 0 && e.len() > 0 {
                o + seq!['\n'] + e
            } else if o.len() > 0 {
                o
            } else {
                e
            };
            &&& code == Some(0i32) ==> settled(privileged, code, out, err) == Ok::<
                Seq<char>,
                Seq<char>,
            >(if shown.len() > 0 { shown } else { "(completed successfully)"@ })
            &&& code != Some(0i32) && !(privileged && (code == Some(126i32) || code == Some(127i32)))
                && shown.len() > 0 ==> settled(privileged, code, out, err) == Err::<
                Seq<char>,
                Seq<char>,
            >(shown)
            &&& o.len() > 0 ==> shown.take(o.len() as int) == o
            &&& e.len() > 0 ==> shown.skip(shown.len() - e.len()) == e
        }),
{
    let o = trim_ws(out);
    let e = trim_ws(err);
    if o.len() > 0 && e.len() > 0 {
        assert((o + seq!['\n'] + e).take(o.len() as int) =~= o);
        assert((o + seq!['\n'] + e).skip((o.len() + 1) as int) =~= e);
    } else if o.len() > 0 {
        assert(o.take(o.len() as int) =~= o);
    } else if e.len() > 0 {
        assert(e.skip(0) =~= e);
    }
}

/// A finished command succeeds exactly when it exits with code zero, and
/// whatever the outcome, the report is never an empty text.
pub proof fn lemma_settled_reports(
    privileged: bool,
    code: Option<i32>,
    out: Seq<char>,
    err: Seq<char>,
)
    ensures
        settled(privileged, code, out, err) is Ok <==> code == Some(0i32),
        settled(privileged, code, out, err) matches Ok(t) ==> t.len() > 0,
        settled(privileged, code, out, err) matches Err(e) ==> e.len() > 0,
{
    reveal_strlit("Authentication cancelled or access denied. No changes were made.");
    reveal_strlit("aad-tool not found by pkexec. Ensure Himmelblau is installed in /usr/bin.");
    reveal_strlit("(completed successfully)");
    reveal_strlit("Command failed with exit code ");
    let c: int = match code {
        Some(k) => k as int,
        None => -1,
    };
    if c < 0 {
        lemma_decimal_nonempty((-c) as nat);
    } else {
        lemma_decimal_nonempty(c as nat);
    }
}

} // verus!
