use gateway_doctor::driver::{
    boot_poll_step, collect_command_output, command_poll_step, enter_shell, PollState,
};

fn polls(chunks: &[&str]) -> Vec<String> {
    chunks.iter().map(|c| c.to_string()).collect()
}

#[test]
fn shell_entry_stops_at_prompt_mid_stream() {
    // The prompt marker arrives in the second chunk; the third chunk is
    // never consumed and no idle waiting happens.
    let script = polls(&["U-Boot SPL\n", "Hit any key\n=>", "NOT CONSUMED"]);
    let transcript = enter_shell(&script, 10);
    assert_eq!(transcript, "U-Boot SPL\nHit any key\n=>");
}

#[test]
fn shell_entry_gives_up_at_idle_ceiling() {
    let script = polls(&["", "", "", "", "", "", "", "", "", "", "IGNORED"]);
    let transcript = enter_shell(&script, 10);
    assert_eq!(transcript, "");
}

#[test]
fn shell_entry_with_exhausted_script_returns_partial_transcript() {
    // A device that produces some output and then stays silent: the idle
    // ceiling runs out and the partial transcript is returned unchanged.
    let script = polls(&["U-Boot SPL\nDRAM:  128 MiB\n"]);
    let transcript = enter_shell(&script, 10);
    assert_eq!(transcript, "U-Boot SPL\nDRAM:  128 MiB\n");
}

#[test]
fn shell_entry_idle_counter_resets_on_data() {
    // Two idle polls, data, two idle polls, data with the prompt: with a
    // ceiling of 3 the phase survives both idle stretches.
    let script = polls(&["", "", "U-Boot SPL\n", "", "", "=>"]);
    let transcript = enter_shell(&script, 3);
    assert_eq!(transcript, "U-Boot SPL\n=>");
}

#[test]
fn command_output_ends_at_prompt_suffix() {
    let script = polls(&["mtd list\nspi-nand0\n=> ", "NOT CONSUMED"]);
    let transcript = collect_command_output(&script, 10);
    assert_eq!(transcript, "mtd list\nspi-nand0\n=> ");
}

#[test]
fn command_output_needs_prompt_at_the_end() {
    // "=>" in the middle does not end a command phase; only the
    // prompt-plus-space suffix does.
    let script = polls(&["=> mtd list\n", "spi-nand0\n", "=> "]);
    let transcript = collect_command_output(&script, 10);
    assert_eq!(transcript, "=> mtd list\nspi-nand0\n=> ");
}

#[test]
fn command_output_of_silent_device_is_empty() {
    let script: Vec<String> = Vec::new();
    let transcript = collect_command_output(&script, 10);
    assert_eq!(transcript, "");
}

#[test]
fn boot_step_accumulates_and_resets_counter() {
    let mut state = PollState::new();
    state.timeout_counter = 4;
    state.transcript.push_str("U-");
    let done = boot_poll_step(&mut state, "Boot", 10);
    assert!(!done);
    assert_eq!(state.transcript, "U-Boot");
    assert_eq!(state.timeout_counter, 0);
}

#[test]
fn boot_step_counts_idle_polls_and_hits_ceiling() {
    let mut state = PollState::new();
    let mut done = boot_poll_step(&mut state, "", 2);
    assert!(!done);
    assert_eq!(state.timeout_counter, 1);
    done = boot_poll_step(&mut state, "", 2);
    assert!(done);
    assert_eq!(state.transcript, "");
}

#[test]
fn boot_step_is_done_as_soon_as_prompt_appears() {
    let mut state = PollState::new();
    let done = boot_poll_step(&mut state, "abc => def", 10);
    assert!(done);
}

#[test]
fn command_step_is_done_only_on_prompt_suffix() {
    let mut state = PollState::new();
    let mut done = command_poll_step(&mut state, "=> abc", 10);
    assert!(!done);
    done = command_poll_step(&mut state, "\n=> ", 10);
    assert!(done);
    assert_eq!(state.transcript, "=> abc\n=> ");
}
