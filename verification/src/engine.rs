//! The diagnosis engine as an explicit state machine.
//!
//! One engine run drives an interactive boot-loader console: wake the shell
//! by repeated probing, evaluate the early checks against the boot
//! transcript, then run each command check in turn.  All transport work is
//! outside the engine: every transition returns an [`EngineAction`] telling
//! the caller which bytes to send and whether to poll, and the caller feeds
//! the cleaned text of each poll back into [`Engine::step`].  The caller
//! performs I/O and nothing else; every decision is taken here.

use vstd::prelude::*;

use crate::analyzer::{
    check_violated, check_violated_spec, command_checks, command_polls_at, command_table,
    command_table_wf, early_checks, early_table, fault_diagnosis, first_violation,
    first_violation_spec, healthy_diagnosis, healthy_report, lemma_command_table_wf,
    report_violation, run_commands_spec, run_spec, CheckSpec, Diagnosis, IDLE_POLL_CEILING,
};
use crate::driver::{
    apply_poll, boot_done, boot_poll_step, boot_run_from, boot_transcript_of, command_done,
    command_poll_step, command_run_from, command_transcript_of, counter_after, PollState,
};

verus! {

/// Where in a run the engine stands: entering the shell, collecting the
/// output of one command check, or finished with a diagnosis.
pub enum EnginePhase {
    Booting(PollState),
    RunningCommand { index: usize, poll: PollState },
    Finished(Diagnosis),
}

/// What the caller must do next.  Every sequence of sends is followed by one
/// poll whose cleaned text (empty for a poll that yielded no meaningful
/// data) is fed to [`Engine::step`] — except when the run is over.
pub enum EngineAction {
    /// Send the single probe byte `b"x"`, then poll once.
    ProbeThenPoll,
    /// Poll once, sending nothing.
    PollAgain,
    /// Send the interrupt byte `0x03` to clear the partial input line at the
    /// prompt, send this command followed by a newline, then poll once.
    InterruptThenCommandThenPoll(String),
    /// Send this command followed by a newline, then poll once.
    CommandThenPoll(String),
    /// Send the interrupt byte `0x03`; the run is over with this diagnosis.
    InterruptThenDone(Diagnosis),
    /// The run is over with this diagnosis.
    Done(Diagnosis),
}

/// One diagnosis run in progress: the two check tables, the idle-poll
/// ceiling, and the current phase.
pub struct Engine {
    /// Checks evaluated against the boot transcript, in triage order.
    pub early: Vec<CheckSpec>,
    /// Checks that each run a boot-loader command, in triage order.
    pub commands: Vec<CheckSpec>,
    /// How many consecutive empty polls end a phase.
    pub ceiling: u64,
    pub phase: EnginePhase,
}

impl Engine {
    /// The engine's internal invariant: a positive ceiling, a command for
    /// every command check, an idle counter still under the ceiling, and a
    /// command index still inside the table.
    pub open spec fn wf(&self) -> bool {
        &&& 1 <= self.ceiling
        &&& command_table_wf(self.commands.deep_view())
        &&& match self.phase {
            EnginePhase::Booting(st) => st.timeout_counter < self.ceiling,
            EnginePhase::RunningCommand { index, poll } => index < self.commands.len()
                && poll.timeout_counter < self.ceiling,
            EnginePhase::Finished(_) => true,
        }
    }

    /// Start a run: the engine enters the boot phase with an empty
    /// transcript and asks the caller for the first probe.
    pub fn new(early: Vec<CheckSpec>, commands: Vec<CheckSpec>, ceiling: u64) -> (r: (
        Engine,
        EngineAction,
    ))
        requires
            1 <= ceiling,
            command_table_wf(commands.deep_view()),
        ensures
            r.0.wf(),
            r.0.early == early,
            r.0.commands == commands,
            r.0.ceiling == ceiling,
            r.0.phase matches EnginePhase::Booting(st) && st.transcript@ == Seq::<char>::empty()
                && st.timeout_counter == 0,
            r.1 is ProbeThenPoll,
    {
        (
            Engine { early, commands, ceiling, phase: EnginePhase::Booting(PollState::new()) },
            EngineAction::ProbeThenPoll,
        )
    }

    /// Start a run against the standard check tables and the standard
    /// idle-poll ceiling of a diagnosis run.
    pub fn standard() -> (r: (Engine, EngineAction))
        ensures
            r.0.wf(),
            r.0.early.deep_view() == early_table(),
            r.0.commands.deep_view() == command_table(),
            r.0.ceiling == IDLE_POLL_CEILING,
            r.0.phase matches EnginePhase::Booting(st) && st.transcript@ == Seq::<char>::empty()
                && st.timeout_counter == 0,
            r.1 is ProbeThenPoll,
    {
        proof {
            lemma_command_table_wf();
        }
        Engine::new(early_checks(), command_checks(), IDLE_POLL_CEILING)
    }

    /// Feed the cleaned text of one poll to the engine and take its next
    /// decision.
    ///
    /// In the boot phase the chunk extends the boot transcript; once the
    /// prompt marker has appeared or the idle ceiling is reached, the early
    /// checks decide between a fault and the first command check.  In a
    /// command phase the chunk extends that command's transcript; once the
    /// prompt-plus-space marker ends it or the idle ceiling is reached, the
    /// check decides between a fault, the next command check, and — after
    /// the last check — a healthy diagnosis.  A finished engine stays
    /// finished and repeats its diagnosis.
    pub fn step(self, chunk: &str) -> (r: (Engine, EngineAction))
        requires
            self.wf(),
        ensures
            r.0.wf(),
            r.0.early == self.early,
            r.0.commands == self.commands,
            r.0.ceiling == self.ceiling,
            (self.phase matches EnginePhase::Booting(st) ==> ({
                let t2 = apply_poll(st.transcript@, chunk@);
                let c2 = counter_after(st.timeout_counter as nat, chunk@);
                if !boot_done(t2, c2, self.ceiling as nat) {
                    &&& r.0.phase matches EnginePhase::Booting(st2) && st2.transcript@ == t2
                        && st2.timeout_counter as nat == c2
                    &&& r.1 is ProbeThenPoll
                } else {
                    match first_violation_spec(self.early.deep_view(), t2) {
                        Some(i) => {
                            &&& r.0.phase matches EnginePhase::Finished(d) && d@
                                == fault_diagnosis(self.early.deep_view()[i])
                            &&& r.1 matches EngineAction::InterruptThenDone(d2) && d2@
                                == fault_diagnosis(self.early.deep_view()[i])
                        },
                        None => {
                            if self.commands.len() > 0 {
                                &&& r.0.phase matches EnginePhase::RunningCommand {
                                    index,
                                    poll,
                                } && index == 0 && poll.transcript@ == Seq::<char>::empty()
                                    && poll.timeout_counter == 0
                                &&& r.1 matches EngineAction::InterruptThenCommandThenPoll(c) && c@
                                    == self.commands.deep_view()[0].command->0
                            } else {
                                &&& r.0.phase matches EnginePhase::Finished(d) && d@
                                    == healthy_diagnosis()
                                &&& r.1 matches EngineAction::InterruptThenDone(d2) && d2@
                                    == healthy_diagnosis()
                            }
                        },
                    }
                }
            })),
            (self.phase matches EnginePhase::RunningCommand { index, poll } ==> ({
                let t2 = apply_poll(poll.transcript@, chunk@);
                let c2 = counter_after(poll.timeout_counter as nat, chunk@);
                let cmds = self.commands.deep_view();
                if !command_done(t2, c2, self.ceiling as nat) {
                    &&& r.0.phase matches EnginePhase::RunningCommand { index: i2, poll: p2 } && i2
                        == index && p2.transcript@ == t2 && p2.timeout_counter as nat == c2
                    &&& r.1 is PollAgain
                } else if check_violated_spec(cmds[index as int], t2) {
                    &&& r.0.phase matches EnginePhase::Finished(d) && d@ == fault_diagnosis(
                        cmds[index as int],
                    )
                    &&& r.1 matches EngineAction::Done(d2) && d2@ == fault_diagnosis(
                        cmds[index as int],
                    )
                } else if index + 1 < cmds.len() {
                    &&& r.0.phase matches EnginePhase::RunningCommand { index: i2, poll: p2 } && i2
                        == index + 1 && p2.transcript@ == Seq::<char>::empty()
                        && p2.timeout_counter == 0
                    &&& r.1 matches EngineAction::CommandThenPoll(c) && c@ == cmds[index
                        + 1].command->0
                } else {
                    &&& r.0.phase matches EnginePhase::Finished(d) && d@ == healthy_diagnosis()
                    &&& r.1 matches EngineAction::Done(d2) && d2@ == healthy_diagnosis()
                }
            })),
            (self.phase matches EnginePhase::Finished(d) ==> r.0.phase == self.phase && (
            r.1 matches EngineAction::Done(d2) && d2@ == d@)),
    {
        let Engine { early, commands, ceiling, phase } = self;
        match phase {
            EnginePhase::Booting(mut st) => {
                let done = boot_poll_step(&mut st, chunk, ceiling);
                if !done {
                    (
                        Engine { early, commands, ceiling, phase: EnginePhase::Booting(st) },
                        EngineAction::ProbeThenPoll,
                    )
                } else {
                    match first_violation(&early, st.transcript.as_str()) {
                        Some(i) => {
                            let d = report_violation(&early[i]);
                            let d2 = d.clone();
                            (
                                Engine {
                                    early,
                                    commands,
                                    ceiling,
                                    phase: EnginePhase::Finished(d),
                                },
                                EngineAction::InterruptThenDone(d2),
                            )
                        },
                        None => {
                            if commands.len() > 0 {
                                let cmd = clone_command(&commands[0]);
                                (
                                    Engine {
                                        early,
                                        commands,
                                        ceiling,
                                        phase: EnginePhase::RunningCommand {
                                            index: 0,
                                            poll: PollState::new(),
                                        },
                                    },
                                    EngineAction::InterruptThenCommandThenPoll(cmd),
                                )
                            } else {
                                let d = healthy_report();
                                let d2 = d.clone();
                                (
                                    Engine {
                                        early,
                                        commands,
                                        ceiling,
                                        phase: EnginePhase::Finished(d),
                                    },
                                    EngineAction::InterruptThenDone(d2),
                                )
                            }
                        },
                    }
                }
            },
            EnginePhase::RunningCommand { index, poll: mut st } => {
                let done = command_poll_step(&mut st, chunk, ceiling);
                if !done {
                    (
                        Engine {
                            early,
                            commands,
                            ceiling,
                            phase: EnginePhase::RunningCommand { index, poll: st },
                        },
                        EngineAction::PollAgain,
                    )
                } else if check_violated(&commands[index], st.transcript.as_str()) {
                    let d = report_violation(&commands[index]);
                    let d2 = d.clone();
                    (
                        Engine { early, commands, ceiling, phase: EnginePhase::Finished(d) },
                        EngineAction::Done(d2),
                    )
                } else if index + 1 < commands.len() {
                    let cmd = clone_command(&commands[index + 1]);
                    (
                        Engine {
                            early,
                            commands,
                            ceiling,
                            phase: EnginePhase::RunningCommand {
                                index: index + 1,
                                poll: PollState::new(),
                            },
                        },
                        EngineAction::CommandThenPoll(cmd),
                    )
                } else {
                    let d = healthy_report();
                    let d2 = d.clone();
                    (
                        Engine { early, commands, ceiling, phase: EnginePhase::Finished(d) },
                        EngineAction::Done(d2),
                    )
                }
            },
            EnginePhase::Finished(d) => {
                let d2 = d.clone();
                (
                    Engine { early, commands, ceiling, phase: EnginePhase::Finished(d) },
                    EngineAction::Done(d2),
                )
            },
        }
    }
}

/// Rank of a phase while the boot loop runs: drops when the boot phase is
/// left, so that the final transition is seen to make progress.
spec fn boot_rank(p: EnginePhase) -> int {
    if p matches EnginePhase::Booting(_) {
        1
    } else {
        0
    }
}

/// The idle counter of the boot phase, for the termination measure.
spec fn booting_counter(p: EnginePhase) -> int {
    match p {
        EnginePhase::Booting(st) => st.timeout_counter as int,
        _ => 0,
    }
}

/// Rank of a phase while the command loop runs.
spec fn command_rank(p: EnginePhase) -> int {
    if p matches EnginePhase::RunningCommand { .. } {
        1
    } else {
        0
    }
}

/// The index of the command check being run, for the termination measure.
spec fn running_index(p: EnginePhase) -> int {
    match p {
        EnginePhase::RunningCommand { index, .. } => index as int,
        _ => 0,
    }
}

/// The idle counter of the command phase being run, for the termination
/// measure.
spec fn running_counter(p: EnginePhase) -> int {
    match p {
        EnginePhase::RunningCommand { poll, .. } => poll.timeout_counter as int,
        _ => 0,
    }
}

/// One whole diagnosis run driven through the state machine over a fixed
/// script of poll outcomes, exactly as a transport-driving caller would:
/// `boot_polls` scripts the boot phase and `cmd_polls[i]` the `i`-th command
/// check, the empty string standing for an idle poll, and a device that
/// falls silent once a script runs out.
///
/// The diagnosis is exactly the one that the pure evaluator assigns to the
/// same script: the step-by-step state machine refines [`run_spec`].
pub fn run_scripted(boot_polls: &Vec<String>, cmd_polls: &Vec<Vec<String>>) -> (diagnosis:
    Diagnosis)
    ensures
        diagnosis@ == run_spec(
            early_table(),
            command_table(),
            boot_polls.deep_view(),
            cmd_polls.deep_view(),
            IDLE_POLL_CEILING as nat,
        ),
{
    let ghost all_boot: Seq<Seq<char>> = boot_polls.deep_view();
    let ghost all_cmds: Seq<Seq<Seq<char>>> = cmd_polls.deep_view();
    let ghost ceil: nat = IDLE_POLL_CEILING as nat;
    let ghost target = run_spec(early_table(), command_table(), all_boot, all_cmds, ceil);
    let (mut engine, _) = Engine::standard();
    proof {
        assert(all_boot.skip(0) =~= all_boot);
    }

    // Boot phase: feed the scripted polls, then silence, until the engine
    // leaves the boot phase.
    let mut i: usize = 0;
    loop
        invariant
            engine.wf(),
            engine.early.deep_view() == early_table(),
            engine.commands.deep_view() == command_table(),
            engine.ceiling == IDLE_POLL_CEILING,
            all_boot == boot_polls.deep_view(),
            all_cmds == cmd_polls.deep_view(),
            ceil == IDLE_POLL_CEILING as nat,
            target == run_spec(early_table(), command_table(), all_boot, all_cmds, ceil),
            i <= boot_polls.len(),
            engine.phase matches EnginePhase::Booting(st) ==> boot_run_from(
                all_boot.skip(i as int),
                st.transcript@,
                st.timeout_counter as nat,
                ceil,
            ) == boot_transcript_of(all_boot, ceil),
            engine.phase matches EnginePhase::Finished(d) ==> d@ == target,
            engine.phase matches EnginePhase::RunningCommand { index, poll } ==> (index == 0
                && poll.transcript@ == Seq::<char>::empty() && poll.timeout_counter == 0 && target
                == run_commands_spec(command_table(), all_cmds, 0, ceil)),
        ensures
            !(engine.phase matches EnginePhase::Booting(_)),
            engine.wf(),
            engine.early.deep_view() == early_table(),
            engine.commands.deep_view() == command_table(),
            engine.ceiling == IDLE_POLL_CEILING,
            engine.phase matches EnginePhase::Finished(d) ==> d@ == target,
            engine.phase matches EnginePhase::RunningCommand { index, poll } ==> (index == 0
                && poll.transcript@ == Seq::<char>::empty() && poll.timeout_counter == 0 && target
                == run_commands_spec(command_table(), all_cmds, 0, ceil)),
        decreases boot_rank(engine.phase), boot_polls.len() - i, IDLE_POLL_CEILING as int
            - booting_counter(engine.phase),
    {
        let still_booting = match &engine.phase {
            EnginePhase::Booting(_) => true,
            _ => false,
        };
        if !still_booting {
            break ;
        }
        let ghost pre = engine;
        let ghost fed: Seq<char> = if i < boot_polls.len() {
            all_boot[i as int]
        } else {
            Seq::empty()
        };
        let (next, _) = if i < boot_polls.len() {
            engine.step(boot_polls[i].as_str())
        } else {
            engine.step("")
        };
        proof {
            reveal_strlit("");
            if i < boot_polls.len() {
                assert(fed == boot_polls@[i as int]@);
            } else {
                assert(""@ =~= Seq::<char>::empty());
            }
            match pre.phase {
                EnginePhase::Booting(st) => {
                    let t = st.transcript@;
                    let c = st.timeout_counter as nat;
                    let t2 = apply_poll(t, fed);
                    let c2 = counter_after(c, fed);
                    if i < boot_polls.len() {
                        let rest = all_boot.skip(i as int);
                        assert(rest[0] == all_boot[i as int]);
                        assert(rest.drop_first() =~= all_boot.skip(i + 1));
                        assert(boot_run_from(rest, t, c, ceil) == (if boot_done(t2, c2, ceil) {
                            t2
                        } else {
                            boot_run_from(all_boot.skip(i + 1), t2, c2, ceil)
                        }));
                    } else {
                        assert(all_boot.skip(i as int) =~= Seq::<Seq<char>>::empty());
                        assert(t2 == t);
                    }
                    if boot_done(t2, c2, ceil) {
                        assert(t2 == boot_transcript_of(all_boot, ceil));
                    }
                },
                _ => {},
            }
        }
        engine = next;
        if i < boot_polls.len() {
            i += 1;
        }
    }

    // Command phase: feed each check's script in turn; the engine advances
    // from check to check and finishes with the diagnosis.
    let mut j: usize = 0;
    proof {
        assert(command_polls_at(all_cmds, 0).skip(0) =~= command_polls_at(all_cmds, 0));
    }
    loop
        invariant
            engine.wf(),
            engine.early.deep_view() == early_table(),
            engine.commands.deep_view() == command_table(),
            engine.ceiling == IDLE_POLL_CEILING,
            all_boot == boot_polls.deep_view(),
            all_cmds == cmd_polls.deep_view(),
            ceil == IDLE_POLL_CEILING as nat,
            target == run_spec(early_table(), command_table(), all_boot, all_cmds, ceil),
            !(engine.phase matches EnginePhase::Booting(_)),
            engine.phase matches EnginePhase::RunningCommand { index, poll } ==> ({
                let script = command_polls_at(all_cmds, index as int);
                &&& j <= script.len()
                &&& command_run_from(
                    script.skip(j as int),
                    poll.transcript@,
                    poll.timeout_counter as nat,
                    ceil,
                ) == command_transcript_of(script, ceil)
                &&& target == run_commands_spec(command_table(), all_cmds, index as int, ceil)
            }),
            engine.phase matches EnginePhase::Finished(d) ==> d@ == target,
        ensures
            engine.phase matches EnginePhase::Finished(d) && d@ == target,
        decreases command_rank(engine.phase), command_table().len() - running_index(engine.phase),
            command_polls_at(all_cmds, running_index(engine.phase)).len() - j, IDLE_POLL_CEILING
            as int - running_counter(engine.phase),
    {
        let (index, still_running) = match &engine.phase {
            EnginePhase::RunningCommand { index, .. } => (*index, true),
            _ => (0usize, false),
        };
        if !still_running {
            break ;
        }
        let have_chunk = if index < cmd_polls.len() {
            j < cmd_polls[index].len()
        } else {
            false
        };
        let ghost pre = engine;
        let ghost script = command_polls_at(all_cmds, index as int);
        let ghost fed: Seq<char> = if have_chunk {
            all_cmds[index as int][j as int]
        } else {
            Seq::empty()
        };
        let (next, _) = if have_chunk {
            engine.step(cmd_polls[index][j].as_str())
        } else {
            engine.step("")
        };
        proof {
            reveal_strlit("");
            if have_chunk {
                assert(all_cmds[index as int] == cmd_polls@[index as int].deep_view());
                assert(fed == cmd_polls@[index as int]@[j as int]@);
            } else {
                assert(""@ =~= Seq::<char>::empty());
            }
            match pre.phase {
                EnginePhase::RunningCommand { index: ghost_index, poll: st } => {
                    let t = st.transcript@;
                    let c = st.timeout_counter as nat;
                    let t2 = apply_poll(t, fed);
                    let c2 = counter_after(c, fed);
                    if have_chunk {
                        let rest = script.skip(j as int);
                        assert(rest[0] == script[j as int]);
                        assert(rest.drop_first() =~= script.skip(j + 1));
                        assert(command_run_from(rest, t, c, ceil) == (if command_done(
                            t2,
                            c2,
                            ceil,
                        ) {
                            t2
                        } else {
                            command_run_from(script.skip(j + 1), t2, c2, ceil)
                        }));
                    } else {
                        assert(script.skip(j as int) =~= Seq::<Seq<char>>::empty());
                        assert(t2 == t);
                    }
                    if command_done(t2, c2, ceil) {
                        assert(t2 == command_transcript_of(script, ceil));
                        assert(run_commands_spec(command_table(), all_cmds, index as int, ceil)
                            == (if check_violated_spec(command_table()[index as int], t2) {
                            fault_diagnosis(command_table()[index as int])
                        } else {
                            run_commands_spec(command_table(), all_cmds, index as int + 1, ceil)
                        }));
                        if index as int + 1 < command_table().len() {
                            let script2 = command_polls_at(all_cmds, index as int + 1);
                            assert(script2.skip(0) =~= script2);
                        }
                    }
                },
                _ => {},
            }
        }
        engine = next;
        let new_index = match &engine.phase {
            EnginePhase::RunningCommand { index, .. } => *index,
            _ => index,
        };
        if new_index != index {
            j = 0;
        } else if have_chunk {
            j = j + 1;
        }
    }

    match engine.phase {
        EnginePhase::Finished(diagnosis) => diagnosis,
        _ => {
            proof {
                assert(false);
            }
            healthy_report()
        },
    }
}

/// Copy the command string of a command check.
fn clone_command(check: &CheckSpec) -> (cmd: String)
    requires
        check@.command is Some,
    ensures
        cmd@ == check@.command->0,
{
    match &check.command {
        Some(c) => c.clone(),
        None => {
            proof {
                assert(false);
            }
            String::new()
        },
    }
}

} // verus!
