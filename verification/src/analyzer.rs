//! Check evaluation: the ordered list of boot-console checks, the violation
//! predicate, the fail-fast evaluator, and the resulting diagnosis.
//!
//! A check holds an optional forbidden substring and an optional required
//! substring; it is violated when the forbidden text appears in the
//! transcript or the required text does not.  Checks are evaluated strictly
//! in order and the first violated check decides the diagnosis — an earlier
//! systemic failure makes the later checks meaningless, so their order
//! encodes the triage priority.

use vstd::prelude::*;
use vstd::string::StringExecFns;

use crate::driver::{boot_transcript_of, command_transcript_of, enter_shell, collect_command_output};
use crate::text::seq_contains;
use crate::text::contains_str;

verus! {

/// The idle-poll ceiling used for one diagnosis run: how many consecutive
/// polls may come back empty before a phase gives up on further output.
pub const IDLE_POLL_CEILING: u64 = 10;

/// One rule to validate a console transcript against.
pub struct CheckSpec {
    /// Substring that must NOT appear in the transcript.
    pub not_expected: Option<String>,
    /// Substring that MUST appear in the transcript.
    pub expected: Option<String>,
    /// Human fault description, reported only on violation.
    pub message: String,
    /// Remediation text, reported only on violation.
    pub instructions: String,
    /// Boot-loader command whose output this check inspects; absent for
    /// checks evaluated against the boot transcript itself.
    pub command: Option<String>,
}

/// The mathematical content of a [`CheckSpec`]: the same fields as sequences
/// of characters.
#[verifier::ext_equal]
pub struct CheckSpecModel {
    pub not_expected: Option<Seq<char>>,
    pub expected: Option<Seq<char>>,
    pub message: Seq<char>,
    pub instructions: Seq<char>,
    pub command: Option<Seq<char>>,
}

impl View for CheckSpec {
    type V = CheckSpecModel;

    open spec fn view(&self) -> CheckSpecModel {
        CheckSpecModel {
            not_expected: self.not_expected.deep_view(),
            expected: self.expected.deep_view(),
            message: self.message@,
            instructions: self.instructions@,
            command: self.command.deep_view(),
        }
    }
}

impl DeepView for CheckSpec {
    type V = CheckSpecModel;

    open spec fn deep_view(&self) -> CheckSpecModel {
        self.view()
    }
}

/// A meaningful check names at least one of its two substrings.
pub open spec fn check_wf(c: CheckSpecModel) -> bool {
    c.not_expected is Some || c.expected is Some
}

/// The violation predicate: the forbidden substring appears in the
/// transcript, or the required substring does not.
pub open spec fn check_violated_spec(c: CheckSpecModel, t: Seq<char>) -> bool {
    (c.not_expected is Some && seq_contains(t, c.not_expected->0)) || (c.expected is Some
        && !seq_contains(t, c.expected->0))
}

/// A check with only a forbidden substring is violated exactly when the
/// transcript contains that substring.
pub proof fn lemma_only_not_expected(c: CheckSpecModel, t: Seq<char>)
    requires
        c.not_expected is Some,
        c.expected is None,
    ensures
        check_violated_spec(c, t) <==> seq_contains(t, c.not_expected->0),
{
}

/// A check with only a required substring is violated exactly when the
/// transcript does NOT contain that substring.
pub proof fn lemma_only_expected(c: CheckSpecModel, t: Seq<char>)
    requires
        c.expected is Some,
        c.not_expected is None,
    ensures
        check_violated_spec(c, t) <==> !seq_contains(t, c.expected->0),
{
}

/// Evaluate the violation predicate of one check against a transcript.
pub fn check_violated(check: &CheckSpec, transcript: &str) -> (b: bool)
    ensures
        b == check_violated_spec(check@, transcript@),
{
    let not_expected_hit = match &check.not_expected {
        Some(p) => contains_str(transcript, p.as_str()),
        None => false,
    };
    if not_expected_hit {
        return true;
    }
    match &check.expected {
        Some(p) => !contains_str(transcript, p.as_str()),
        None => false,
    }
}

/// The position of the first violated check in an ordered list, if any.
pub open spec fn first_violation_spec(checks: Seq<CheckSpecModel>, t: Seq<char>) -> Option<int>
    decreases checks.len(),
{
    if checks.len() == 0 {
        None
    } else if check_violated_spec(checks[0], t) {
        Some(0)
    } else {
        match first_violation_spec(checks.drop_first(), t) {
            Some(i) => Some(i + 1),
            None => None,
        }
    }
}

/// What [`first_violation_spec`] returns: the least violated position when
/// one exists, and nothing exactly when no check is violated.
pub proof fn lemma_first_violation_characterizes(checks: Seq<CheckSpecModel>, t: Seq<char>)
    ensures
        match first_violation_spec(checks, t) {
            Some(i) => 0 <= i < checks.len() && check_violated_spec(checks[i], t) && (forall|j: int|
                0 <= j < i ==> !check_violated_spec(checks[j], t)),
            None => forall|j: int| 0 <= j < checks.len() ==> !check_violated_spec(checks[j], t),
        },
    decreases checks.len(),
{
    if checks.len() == 0 {
    } else if check_violated_spec(checks[0], t) {
    } else {
        let rest = checks.drop_first();
        lemma_first_violation_characterizes(rest, t);
        assert(forall|j: int| 0 <= j < rest.len() ==> rest[j] == checks[j + 1]);
        match first_violation_spec(rest, t) {
            Some(i) => {
                assert forall|j: int| 0 <= j < i + 1 implies !check_violated_spec(
                    checks[j],
                    t,
                ) by {
                    if j > 0 {
                        assert(checks[j] == rest[j - 1]);
                    }
                }
            },
            None => {
                assert forall|j: int| 0 <= j < checks.len() implies !check_violated_spec(
                    checks[j],
                    t,
                ) by {
                    if j > 0 {
                        assert(checks[j] == rest[j - 1]);
                    }
                }
            },
        }
    }
}

/// Evaluation is fail-fast: whenever two checks at positions `i < j` are both
/// violated by a transcript, the reported check is the earliest violated one,
/// which is at position `i` at the latest — never the one at `j`.
pub proof fn lemma_fail_fast(checks: Seq<CheckSpecModel>, t: Seq<char>, i: int, j: int)
    requires
        0 <= i < j < checks.len(),
        check_violated_spec(checks[i], t),
        check_violated_spec(checks[j], t),
    ensures
        ({
            let r = first_violation_spec(checks, t);
            &&& r is Some
            &&& r->0 <= i
            &&& check_violated_spec(checks[r->0], t)
            &&& forall|m: int| 0 <= m < r->0 ==> !check_violated_spec(checks[m], t)
        }),
{
    lemma_first_violation_characterizes(checks, t);
}

/// Find the first violated check in order, stopping at the first hit.
pub fn first_violation(checks: &Vec<CheckSpec>, transcript: &str) -> (r: Option<usize>)
    ensures
        match r {
            Some(i) => i < checks.len() && first_violation_spec(checks.deep_view(), transcript@)
                == Some(i as int),
            None => first_violation_spec(checks.deep_view(), transcript@) is None,
        },
{
    let ghost cs = checks.deep_view();
    let mut i: usize = 0;
    while i < checks.len()
        invariant
            cs == checks.deep_view(),
            i <= checks.len(),
            forall|j: int| 0 <= j < i ==> !check_violated_spec(cs[j], transcript@),
        decreases checks.len() - i,
    {
        if check_violated(&checks[i], transcript) {
            proof {
                lemma_first_violation_characterizes(cs, transcript@);
                let r = first_violation_spec(cs, transcript@);
                assert(check_violated_spec(cs[i as int], transcript@));
                if r is None {
                    assert(!check_violated_spec(cs[i as int], transcript@));
                }
                let k = r->0;
                if k < i {
                    assert(check_violated_spec(cs[k], transcript@));
                    assert(!check_violated_spec(cs[k], transcript@));
                }
                if k > i {
                    assert(!check_violated_spec(cs[i as int], transcript@));
                }
                assert(r == Some(i as int));
            }
            return Some(i);
        }
        i += 1;
    }
    proof {
        lemma_first_violation_characterizes(cs, transcript@);
    }
    None
}

/// Immutable result of one engine run.
pub struct Diagnosis {
    /// Always set; `"No issues found"` on success.
    pub message: String,
    /// Remediation text, set only on failure.
    pub instructions: Option<String>,
    pub healthy: bool,
}

/// The mathematical content of a [`Diagnosis`].
#[verifier::ext_equal]
pub struct DiagnosisModel {
    pub message: Seq<char>,
    pub instructions: Option<Seq<char>>,
    pub healthy: bool,
}

impl View for Diagnosis {
    type V = DiagnosisModel;

    open spec fn view(&self) -> DiagnosisModel {
        DiagnosisModel {
            message: self.message@,
            instructions: self.instructions.deep_view(),
            healthy: self.healthy,
        }
    }
}

impl DeepView for Diagnosis {
    type V = DiagnosisModel;

    open spec fn deep_view(&self) -> DiagnosisModel {
        self.view()
    }
}

impl Clone for Diagnosis {
    fn clone(&self) -> (r: Self)
        ensures
            r@ == self@,
    {
        Diagnosis {
            message: self.message.clone(),
            instructions: match &self.instructions {
                Some(s) => Some(s.clone()),
                None => None,
            },
            healthy: self.healthy,
        }
    }
}

/// The diagnosis reported for a violated check: its fault message and its
/// remediation instructions, unhealthy.
pub open spec fn fault_diagnosis(c: CheckSpecModel) -> DiagnosisModel {
    DiagnosisModel { message: c.message, instructions: Some(c.instructions), healthy: false }
}

/// The diagnosis of a run in which every check passed.
pub open spec fn healthy_diagnosis() -> DiagnosisModel {
    DiagnosisModel { message: "No issues found"@, instructions: None, healthy: true }
}

/// Build the [`Diagnosis`] for a violated check.
pub fn report_violation(check: &CheckSpec) -> (diagnosis: Diagnosis)
    ensures
        diagnosis@ == fault_diagnosis(check@),
{
    Diagnosis {
        message: check.message.clone(),
        instructions: Some(check.instructions.clone()),
        healthy: false,
    }
}

/// Build the [`Diagnosis`] of a run in which every check passed.
pub fn healthy_report() -> (diagnosis: Diagnosis)
    ensures
        diagnosis@ == healthy_diagnosis(),
{
    Diagnosis { message: "No issues found".to_owned(), instructions: None, healthy: true }
}

/// Format a fault event for the presentation layer: the engine renders
/// nothing itself, it hands the caller the fault message and the remediation
/// instructions as the two lines to report, in that order.
pub fn log_issue(issue: &str, instructions: &str) -> (lines: Vec<String>)
    ensures
        lines@.len() == 2,
        lines@[0]@ == issue@,
        lines@[1]@ == instructions@,
{
    let mut lines: Vec<String> = Vec::new();
    lines.push(issue.to_owned());
    lines.push(instructions.to_owned());
    lines
}

fn make_check(
    not_expected: Option<&str>,
    expected: Option<&str>,
    message: &str,
    instructions: &str,
    command: Option<&str>,
) -> (c: CheckSpec)
    ensures
        c@.not_expected == not_expected.deep_view(),
        c@.expected == expected.deep_view(),
        c@.message == message@,
        c@.instructions == instructions@,
        c@.command == command.deep_view(),
{
    CheckSpec {
        not_expected: match not_expected {
            Some(s) => Some(s.to_owned()),
            None => None,
        },
        expected: match expected {
            Some(s) => Some(s.to_owned()),
            None => None,
        },
        message: message.to_owned(),
        instructions: instructions.to_owned(),
        command: match command {
            Some(s) => Some(s.to_owned()),
            None => None,
        },
    }
}

/// The fixed, ordered table of checks evaluated against the boot transcript,
/// from boot-loader integrity down to shell availability.
pub open spec fn early_table() -> Seq<CheckSpecModel> {
    seq![
        CheckSpecModel {
            not_expected: Some("SPL: failed to boot from all boot devices"@),
            expected: None,
            message: "U-Boot corrupt"@,
            instructions: "Linux Module (probably) faulty, return to UniElec"@,
            command: None,
        },
        CheckSpecModel {
            not_expected: None,
            expected: Some("U-Boot SPL"@),
            message: "No or wrong U-Boot detected"@,
            instructions: "Linux Module (probably) faulty, return to UniElec"@,
            command: None,
        },
        CheckSpecModel {
            not_expected: None,
            expected: Some("DRAM:  128 MiB"@),
            message: "Wrong RAM size detected"@,
            instructions: "Linux Module (probably) faulty, return to UniElec"@,
            command: None,
        },
        CheckSpecModel {
            not_expected: Some("F-Data:Magic value not correct"@),
            expected: Some("F-Data:factory-data version 1 detected"@),
            message: "Factory data missing"@,
            instructions: "Linux Module (probably) faulty, return to UniElec"@,
            command: None,
        },
        CheckSpecModel {
            not_expected: None,
            expected: Some("Net:   eth0: eth@10110000"@),
            message: "Ethernet could not be initialized"@,
            instructions: "Linux Module (probably) faulty, return to UniElec"@,
            command: None,
        },
        CheckSpecModel {
            not_expected: None,
            expected: Some("=>"@),
            message: "Could not enter U-Boot shell"@,
            instructions: "Linux Module (probably) faulty, return to UniElec"@,
            command: None,
        },
    ]
}

/// The fixed, ordered table of checks that each run a boot-loader command and
/// inspect its output: flash presence, then the physical button.
pub open spec fn command_table() -> Seq<CheckSpecModel> {
    seq![
        CheckSpecModel {
            not_expected: Some("Could not find a valid device for spi0.1"@),
            expected: Some("spi-nand0"@),
            message: "NAND flash not detected"@,
            instructions: "Linux Module (probably) faulty, return to UniElec"@,
            command: Some("mtd list"@),
        },
        CheckSpecModel {
            not_expected: Some("gpio: pin PA11 (gpio 11) value is 0"@),
            expected: Some("gpio: pin PA11 (gpio 11) value is 1"@),
            message: "Button stuck"@,
            instructions: "Check button"@,
            command: Some("gpio input PA11"@),
        },
    ]
}

/// Construct the early check table, in its triage order.
pub fn early_checks() -> (checks: Vec<CheckSpec>)
    ensures
        checks.deep_view() == early_table(),
{
    let mut v: Vec<CheckSpec> = Vec::new();
    v.push(
        make_check(
            Some("SPL: failed to boot from all boot devices"),
            None,
            "U-Boot corrupt",
            "Linux Module (probably) faulty, return to UniElec",
            None,
        ),
    );
    v.push(
        make_check(
            None,
            Some("U-Boot SPL"),
            "No or wrong U-Boot detected",
            "Linux Module (probably) faulty, return to UniElec",
            None,
        ),
    );
    v.push(
        make_check(
            None,
            Some("DRAM:  128 MiB"),
            "Wrong RAM size detected",
            "Linux Module (probably) faulty, return to UniElec",
            None,
        ),
    );
    v.push(
        make_check(
            Some("F-Data:Magic value not correct"),
            Some("F-Data:factory-data version 1 detected"),
            "Factory data missing",
            "Linux Module (probably) faulty, return to UniElec",
            None,
        ),
    );
    v.push(
        make_check(
            None,
            Some("Net:   eth0: eth@10110000"),
            "Ethernet could not be initialized",
            "Linux Module (probably) faulty, return to UniElec",
            None,
        ),
    );
    v.push(
        make_check(
            None,
            Some("=>"),
            "Could not enter U-Boot shell",
            "Linux Module (probably) faulty, return to UniElec",
            None,
        ),
    );
    proof {
        assert(v.deep_view() =~~= early_table());
    }
    v
}

/// Construct the command check table, in its triage order.
pub fn command_checks() -> (checks: Vec<CheckSpec>)
    ensures
        checks.deep_view() == command_table(),
{
    let mut v: Vec<CheckSpec> = Vec::new();
    v.push(
        make_check(
            Some("Could not find a valid device for spi0.1"),
            Some("spi-nand0"),
            "NAND flash not detected",
            "Linux Module (probably) faulty, return to UniElec",
            Some("mtd list"),
        ),
    );
    v.push(
        make_check(
            Some("gpio: pin PA11 (gpio 11) value is 0"),
            Some("gpio: pin PA11 (gpio 11) value is 1"),
            "Button stuck",
            "Check button",
            Some("gpio input PA11"),
        ),
    );
    proof {
        assert(v.deep_view() =~~= command_table());
    }
    v
}

/// Every check of both standard tables is meaningful: each names at least
/// one substring, and a command check also names its command.
pub proof fn lemma_tables_wf()
    ensures
        forall|i: int| 0 <= i < early_table().len() ==> check_wf(#[trigger] early_table()[i]),
        forall|i: int| 0 <= i < command_table().len() ==> check_wf(#[trigger] command_table()[i]),
{
    assert forall|i: int| 0 <= i < early_table().len() implies check_wf(
        #[trigger] early_table()[i],
    ) by {
        if i == 0 {
            assert(check_wf(early_table()[0]));
        } else if i == 1 {
            assert(check_wf(early_table()[1]));
        } else if i == 2 {
            assert(check_wf(early_table()[2]));
        } else if i == 3 {
            assert(check_wf(early_table()[3]));
        } else if i == 4 {
            assert(check_wf(early_table()[4]));
        } else {
            assert(check_wf(early_table()[5]));
        }
    }
    assert forall|i: int| 0 <= i < command_table().len() implies check_wf(
        #[trigger] command_table()[i],
    ) by {
        if i == 0 {
            assert(check_wf(command_table()[0]));
        } else {
            assert(check_wf(command_table()[1]));
        }
    }
}

/// Every check of a command table names the command whose output it
/// inspects.
pub open spec fn command_table_wf(s: Seq<CheckSpecModel>) -> bool {
    forall|i: int| 0 <= i < s.len() ==> (#[trigger] s[i]).command is Some
}

/// The standard command table is well formed: both its checks name their
/// command.
pub proof fn lemma_command_table_wf()
    ensures
        command_table_wf(command_table()),
{
    assert forall|i: int| 0 <= i < command_table().len() implies (
    #[trigger] command_table()[i]).command is Some by {
        if i == 0 {
            assert(command_table()[0].command is Some);
        } else {
            assert(command_table()[1].command is Some);
        }
    }
}

/// The poll script of the `i`-th command check: a run that never reaches it,
/// or a script with no entry for it, behaves as a silent device.
pub open spec fn command_polls_at(cmd_polls: Seq<Seq<Seq<char>>>, i: int) -> Seq<Seq<char>> {
    if 0 <= i < cmd_polls.len() {
        cmd_polls[i]
    } else {
        Seq::empty()
    }
}

/// The diagnosis of the command phase from the `i`-th command check on, when
/// every earlier check passed: each check's command output is collected and
/// the first violated check decides.
pub open spec fn run_commands_spec(
    commands: Seq<CheckSpecModel>,
    cmd_polls: Seq<Seq<Seq<char>>>,
    i: int,
    ceiling: nat,
) -> DiagnosisModel
    decreases commands.len() - i,
{
    if i < 0 || i >= commands.len() {
        healthy_diagnosis()
    } else {
        let t = command_transcript_of(command_polls_at(cmd_polls, i), ceiling);
        if check_violated_spec(commands[i], t) {
            fault_diagnosis(commands[i])
        } else {
            run_commands_spec(commands, cmd_polls, i + 1, ceiling)
        }
    }
}

/// The diagnosis of one whole run: the boot transcript is accumulated and
/// checked against the early table; if it passes, each command check runs in
/// turn; the first violated check decides, and a run with no violation is
/// healthy.
pub open spec fn run_spec(
    early: Seq<CheckSpecModel>,
    commands: Seq<CheckSpecModel>,
    boot_polls: Seq<Seq<char>>,
    cmd_polls: Seq<Seq<Seq<char>>>,
    ceiling: nat,
) -> DiagnosisModel {
    let t = boot_transcript_of(boot_polls, ceiling);
    match first_violation_spec(early, t) {
        Some(i) => fault_diagnosis(early[i]),
        None => run_commands_spec(commands, cmd_polls, 0, ceiling),
    }
}

/// Evaluate an ordered pair of check tables over a fixed transcript and
/// command-response set.
///
/// `boot_polls` scripts the polls of the shell-entry phase and `cmd_polls[i]`
/// those of the `i`-th command check, with the empty string standing for an
/// idle poll; a missing script behaves as a silent device.  The result is a
/// function of the arguments alone, so re-running the evaluator over an
/// identical script always yields an identical diagnosis.
pub fn evaluate(
    early: &Vec<CheckSpec>,
    commands: &Vec<CheckSpec>,
    boot_polls: &Vec<String>,
    cmd_polls: &Vec<Vec<String>>,
    ceiling: u64,
) -> (diagnosis: Diagnosis)
    requires
        1 <= ceiling,
    ensures
        diagnosis@ == run_spec(
            early.deep_view(),
            commands.deep_view(),
            boot_polls.deep_view(),
            cmd_polls.deep_view(),
            ceiling as nat,
        ),
{
    let ghost early_v = early.deep_view();
    let ghost commands_v = commands.deep_view();
    let ghost polls_v = cmd_polls.deep_view();
    let ghost target = run_spec(early_v, commands_v, boot_polls.deep_view(), polls_v, ceiling as nat);
    let boot_transcript = enter_shell(boot_polls, ceiling);
    match first_violation(early, boot_transcript.as_str()) {
        Some(i) => report_violation(&early[i]),
        None => {
            let empty_polls: Vec<String> = Vec::new();
            proof {
                assert(empty_polls.deep_view() =~= Seq::<Seq<char>>::empty());
            }
            let mut i: usize = 0;
            loop
                invariant
                    early_v == early.deep_view(),
                    commands_v == commands.deep_view(),
                    polls_v == cmd_polls.deep_view(),
                    target == run_spec(
                        early_v,
                        commands_v,
                        boot_polls.deep_view(),
                        polls_v,
                        ceiling as nat,
                    ),
                    empty_polls.deep_view() == Seq::<Seq<char>>::empty(),
                    1 <= ceiling,
                    i <= commands.len(),
                    target == run_commands_spec(commands_v, polls_v, i as int, ceiling as nat),
                decreases commands.len() - i,
            {
                if i >= commands.len() {
                    return healthy_report();
                }
                let polls = if i < cmd_polls.len() {
                    &cmd_polls[i]
                } else {
                    &empty_polls
                };
                proof {
                    assert(polls.deep_view() == command_polls_at(polls_v, i as int));
                }
                let t = collect_command_output(polls, ceiling);
                if check_violated(&commands[i], t.as_str()) {
                    return report_violation(&commands[i]);
                }
                i += 1;
            }
        },
    }
}

/// Run one full diagnosis over a fixed transcript and command-response set,
/// against the standard check tables and the standard idle-poll ceiling of a
/// diagnosis run.
pub fn analyze(boot_polls: &Vec<String>, cmd_polls: &Vec<Vec<String>>) -> (diagnosis: Diagnosis)
    ensures
        diagnosis@ == run_spec(
            early_table(),
            command_table(),
            boot_polls.deep_view(),
            cmd_polls.deep_view(),
            IDLE_POLL_CEILING as nat,
        ),
{
    let early = early_checks();
    let commands = command_checks();
    evaluate(&early, &commands, boot_polls, cmd_polls, IDLE_POLL_CEILING)
}

} // verus!
