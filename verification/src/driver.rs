//! Interactive console driver: the polling state machine that wakes the
//! device under test into its boot-loader shell and collects the output of a
//! shell command.
//!
//! The boot loader gives no framing and no acknowledgement; the only reliable
//! termination signal is its own prompt string reappearing, with an
//! idle-poll ceiling as the fallback when the device stays silent.  Both
//! phases are modelled as a fold over the sequence of cleaned text chunks
//! that the polls return, where an empty chunk means "no meaningful data this
//! poll".

use vstd::prelude::*;
use vstd::string::StringExecFns;

use crate::text::{contains_str, ends_with_str, seq_contains, seq_ends_with};

verus! {

/// The marker whose appearance anywhere in the boot transcript shows that the
/// interactive boot-loader shell has been reached.
pub open spec fn prompt_marker() -> Seq<char> {
    "=>"@
}

/// The marker whose appearance at the end of a command transcript shows that
/// the shell has printed its prompt again and the command output is complete.
pub open spec fn command_done_marker() -> Seq<char> {
    "=> "@
}

/// Per-phase polling state: the transcript accumulated so far and the number
/// of consecutive polls that yielded no meaningful data.
pub struct PollState {
    pub transcript: String,
    pub timeout_counter: u64,
}

/// The transcript after one poll: a non-empty chunk is appended, an empty
/// chunk leaves it unchanged.
pub open spec fn apply_poll(t: Seq<char>, chunk: Seq<char>) -> Seq<char> {
    if chunk.len() > 0 {
        t + chunk
    } else {
        t
    }
}

/// The idle counter after one poll: reset by a non-empty chunk, incremented
/// by an empty one.
pub open spec fn counter_after(c: nat, chunk: Seq<char>) -> nat {
    if chunk.len() > 0 {
        0
    } else {
        c + 1
    }
}

/// The boot phase is over once the prompt marker has appeared anywhere in the
/// transcript, or the idle ceiling has been reached.
pub open spec fn boot_done(t: Seq<char>, c: nat, ceiling: nat) -> bool {
    seq_contains(t, prompt_marker()) || c >= ceiling
}

/// A command phase is over once the transcript ends with the prompt-plus-space
/// marker, or the idle ceiling has been reached.
pub open spec fn command_done(t: Seq<char>, c: nat, ceiling: nat) -> bool {
    seq_ends_with(t, command_done_marker()) || c >= ceiling
}

/// The transcript with which the boot phase ends, starting from transcript
/// `t` and idle counter `c`, when the successive polls yield the chunks in
/// `polls`.  Each poll is applied first and the stop condition is checked
/// after it; once the script runs out the device stays silent, the idle
/// ceiling runs out, and the transcript is returned unchanged.
pub open spec fn boot_run_from(polls: Seq<Seq<char>>, t: Seq<char>, c: nat, ceiling: nat) -> Seq<
    char,
>
    decreases polls.len(),
{
    if polls.len() == 0 {
        t
    } else {
        let t2 = apply_poll(t, polls[0]);
        let c2 = counter_after(c, polls[0]);
        if boot_done(t2, c2, ceiling) {
            t2
        } else {
            boot_run_from(polls.drop_first(), t2, c2, ceiling)
        }
    }
}

/// The full boot transcript produced by entering the shell with the given
/// poll outcomes and idle ceiling.
pub open spec fn boot_transcript_of(polls: Seq<Seq<char>>, ceiling: nat) -> Seq<char> {
    boot_run_from(polls, Seq::empty(), 0, ceiling)
}

/// Like [`boot_run_from`], for a command phase: the stop condition is the
/// transcript ending with the prompt-plus-space marker.
pub open spec fn command_run_from(polls: Seq<Seq<char>>, t: Seq<char>, c: nat, ceiling: nat) -> Seq<
    char,
>
    decreases polls.len(),
{
    if polls.len() == 0 {
        t
    } else {
        let t2 = apply_poll(t, polls[0]);
        let c2 = counter_after(c, polls[0]);
        if command_done(t2, c2, ceiling) {
            t2
        } else {
            command_run_from(polls.drop_first(), t2, c2, ceiling)
        }
    }
}

/// The full transcript of one command's output under the given poll outcomes
/// and idle ceiling.
pub open spec fn command_transcript_of(polls: Seq<Seq<char>>, ceiling: nat) -> Seq<char> {
    command_run_from(polls, Seq::empty(), 0, ceiling)
}

impl PollState {
    /// Fresh state for a new phase: empty transcript, idle counter at zero.
    pub fn new() -> (r: PollState)
        ensures
            r.transcript@ == Seq::<char>::empty(),
            r.timeout_counter == 0,
    {
        PollState { transcript: String::new(), timeout_counter: 0 }
    }
}

/// Feed one poll outcome to the boot phase: accumulate the chunk, update the
/// idle counter, and report whether the phase is over.  The stop condition is
/// checked after every poll, so a prompt marker arriving mid-stream ends the
/// phase at once.
pub fn boot_poll_step(state: &mut PollState, chunk: &str, ceiling: u64) -> (done: bool)
    requires
        old(state).timeout_counter < ceiling,
    ensures
        final(state).transcript@ == apply_poll(old(state).transcript@, chunk@),
        final(state).timeout_counter as nat == counter_after(
            old(state).timeout_counter as nat,
            chunk@,
        ),
        done == boot_done(
            final(state).transcript@,
            final(state).timeout_counter as nat,
            ceiling as nat,
        ),
{
    if !chunk.is_empty() {
        state.transcript.append(chunk);
        state.timeout_counter = 0;
    } else {
        state.timeout_counter = state.timeout_counter + 1;
    }
    contains_str(state.transcript.as_str(), "=>") || state.timeout_counter >= ceiling
}

/// Feed one poll outcome to a command phase; as [`boot_poll_step`], but the
/// phase is over once the transcript ends with the prompt-plus-space marker.
pub fn command_poll_step(state: &mut PollState, chunk: &str, ceiling: u64) -> (done: bool)
    requires
        old(state).timeout_counter < ceiling,
    ensures
        final(state).transcript@ == apply_poll(old(state).transcript@, chunk@),
        final(state).timeout_counter as nat == counter_after(
            old(state).timeout_counter as nat,
            chunk@,
        ),
        done == command_done(
            final(state).transcript@,
            final(state).timeout_counter as nat,
            ceiling as nat,
        ),
{
    if !chunk.is_empty() {
        state.transcript.append(chunk);
        state.timeout_counter = 0;
    } else {
        state.timeout_counter = state.timeout_counter + 1;
    }
    ends_with_str(state.transcript.as_str(), "=> ") || state.timeout_counter >= ceiling
}

/// Enter the boot-loader shell against a fixed script of poll outcomes: the
/// chunk `polls[i]` is what the `i`-th poll yields after its probe, with the
/// empty string standing for a poll that returned no meaningful data.
/// Returns the accumulated boot transcript.
pub fn enter_shell(polls: &Vec<String>, ceiling: u64) -> (transcript: String)
    requires
        1 <= ceiling,
    ensures
        transcript@ == boot_transcript_of(polls.deep_view(), ceiling as nat),
{
    let ghost all: Seq<Seq<char>> = polls.deep_view();
    let mut state = PollState::new();
    let mut i: usize = 0;
    proof {
        assert(all.skip(0) =~= all);
    }
    loop
        invariant
            all == polls.deep_view(),
            i <= polls.len(),
            state.timeout_counter < ceiling,
            boot_transcript_of(all, ceiling as nat) == boot_run_from(
                all.skip(i as int),
                state.transcript@,
                state.timeout_counter as nat,
                ceiling as nat,
            ),
        decreases polls.len() - i,
    {
        if i >= polls.len() {
            proof {
                assert(all.skip(i as int) =~= Seq::<Seq<char>>::empty());
            }
            return state.transcript;
        }
        let ghost rest = all.skip(i as int);
        let done = boot_poll_step(&mut state, polls[i].as_str(), ceiling);
        proof {
            assert(rest[0] == all[i as int]);
            assert(rest.drop_first() =~= all.skip(i + 1));
        }
        i += 1;
        if done {
            return state.transcript;
        }
    }
}

/// Collect the output of one already-sent command against a fixed script of
/// poll outcomes, exactly as [`enter_shell`] but with the command phase's
/// stop condition.
pub fn collect_command_output(polls: &Vec<String>, ceiling: u64) -> (transcript: String)
    requires
        1 <= ceiling,
    ensures
        transcript@ == command_transcript_of(polls.deep_view(), ceiling as nat),
{
    let ghost all: Seq<Seq<char>> = polls.deep_view();
    let mut state = PollState::new();
    let mut i: usize = 0;
    proof {
        assert(all.skip(0) =~= all);
    }
    loop
        invariant
            all == polls.deep_view(),
            i <= polls.len(),
            state.timeout_counter < ceiling,
            command_transcript_of(all, ceiling as nat) == command_run_from(
                all.skip(i as int),
                state.transcript@,
                state.timeout_counter as nat,
                ceiling as nat,
            ),
        decreases polls.len() - i,
    {
        if i >= polls.len() {
            proof {
                assert(all.skip(i as int) =~= Seq::<Seq<char>>::empty());
            }
            return state.transcript;
        }
        let ghost rest = all.skip(i as int);
        let done = command_poll_step(&mut state, polls[i].as_str(), ceiling);
        proof {
            assert(rest[0] == all[i as int]);
            assert(rest.drop_first() =~= all.skip(i + 1));
        }
        i += 1;
        if done {
            return state.transcript;
        }
    }
}

/// Once a single poll makes the prompt marker visible in the accumulated
/// transcript, the boot phase stops with exactly that transcript: no further
/// poll is consumed and no idle waiting happens, whatever the idle counter
/// and ceiling are.
pub proof fn lemma_prompt_stops_boot(polls: Seq<Seq<char>>, t: Seq<char>, c: nat, ceiling: nat)
    requires
        polls.len() > 0,
        seq_contains(apply_poll(t, polls[0]), prompt_marker()),
    ensures
        boot_run_from(polls, t, c, ceiling) == apply_poll(t, polls[0]),
{
}

} // verus!
