use gateway_doctor::analyzer::{analyze, command_checks, early_checks, IDLE_POLL_CEILING};
use gateway_doctor::engine::{run_scripted, Engine, EngineAction, EnginePhase};

const GOOD_BOOT: &str = "U-Boot SPL 2021.04\nDRAM:  128 MiB\n\
    F-Data:factory-data version 1 detected\nNet:   eth0: eth@10110000\n=>";

fn new_engine() -> (Engine, EngineAction) {
    Engine::standard()
}

#[test]
fn standard_engine_matches_the_standard_tables() {
    let (engine, _) = new_engine();
    assert_eq!(engine.ceiling, IDLE_POLL_CEILING);
    assert_eq!(engine.early.len(), early_checks().len());
    assert_eq!(engine.commands.len(), command_checks().len());
}

#[test]
fn run_starts_with_a_probe() {
    let (engine, action) = new_engine();
    assert!(matches!(action, EngineAction::ProbeThenPoll));
    assert!(matches!(engine.phase, EnginePhase::Booting(_)));
}

#[test]
fn healthy_run_walks_through_both_commands() {
    let (engine, _) = new_engine();

    // The whole boot log arrives in one poll; the early checks pass and the
    // engine asks for the interrupt and the first command.
    let (engine, action) = engine.step(GOOD_BOOT);
    match &action {
        EngineAction::InterruptThenCommandThenPoll(cmd) => assert_eq!(cmd, "mtd list"),
        other => panic!("expected the first command, got {:?}", action_name(other)),
    }

    // The mtd output passes its check; the next command follows.
    let (engine, action) = engine.step("mtd list\n* spi-nand0\n=> ");
    match &action {
        EngineAction::CommandThenPoll(cmd) => assert_eq!(cmd, "gpio input PA11"),
        other => panic!("expected the second command, got {:?}", action_name(other)),
    }

    // The gpio output arrives split across two polls.
    let (engine, action) = engine.step("gpio: pin PA11 (gpio 11) va");
    assert!(matches!(action, EngineAction::PollAgain));
    let (engine, action) = engine.step("lue is 1\n=> ");
    match &action {
        EngineAction::Done(d) => {
            assert!(d.healthy);
            assert_eq!(d.message, "No issues found");
            assert_eq!(d.instructions, None);
        }
        other => panic!("expected the run to be over, got {:?}", action_name(other)),
    }
    assert!(matches!(engine.phase, EnginePhase::Finished(_)));
}

#[test]
fn silent_device_faults_after_the_idle_ceiling() {
    let (mut engine, _) = new_engine();
    for _ in 0..IDLE_POLL_CEILING - 1 {
        let (next, action) = engine.step("");
        assert!(matches!(action, EngineAction::ProbeThenPoll));
        engine = next;
    }
    let (_, action) = engine.step("");
    match &action {
        EngineAction::InterruptThenDone(d) => {
            assert!(!d.healthy);
            assert_eq!(d.message, "No or wrong U-Boot detected");
        }
        other => panic!("expected a fault, got {:?}", action_name(other)),
    }
}

#[test]
fn boot_fault_asks_for_the_interrupt_before_reporting() {
    let (engine, _) = new_engine();
    // The prompt appears but the RAM line is wrong: the early checks fail
    // and the interrupt byte must still be sent.
    let (_, action) = engine.step("U-Boot SPL 2021.04\nDRAM:  64 MiB\n=>");
    match &action {
        EngineAction::InterruptThenDone(d) => {
            assert_eq!(d.message, "Wrong RAM size detected");
            assert_eq!(
                d.instructions.as_deref(),
                Some("Linux Module (probably) faulty, return to UniElec")
            );
        }
        other => panic!("expected a fault, got {:?}", action_name(other)),
    }
}

#[test]
fn command_fault_reports_the_violated_check() {
    let (engine, _) = new_engine();
    let (engine, _) = engine.step(GOOD_BOOT);
    let (engine, _) = engine.step("mtd list\n* spi-nand0\n=> ");
    let (_, action) = engine.step("gpio: pin PA11 (gpio 11) value is 0\n=> ");
    match &action {
        EngineAction::Done(d) => {
            assert_eq!(d.message, "Button stuck");
            assert_eq!(d.instructions.as_deref(), Some("Check button"));
            assert!(!d.healthy);
        }
        other => panic!("expected a fault, got {:?}", action_name(other)),
    }
}

#[test]
fn command_phase_gives_up_at_its_idle_ceiling() {
    let (engine, _) = new_engine();
    let (mut engine, _) = engine.step(GOOD_BOOT);
    for _ in 0..IDLE_POLL_CEILING - 1 {
        let (next, action) = engine.step("");
        assert!(matches!(action, EngineAction::PollAgain));
        engine = next;
    }
    let (_, action) = engine.step("");
    match &action {
        EngineAction::Done(d) => assert_eq!(d.message, "NAND flash not detected"),
        other => panic!("expected a fault, got {:?}", action_name(other)),
    }
}

#[test]
fn finished_engine_repeats_its_diagnosis() {
    let (engine, _) = new_engine();
    let (engine, _) = engine.step("SPL: failed to boot from all boot devices\n=>");
    let (_, action) = engine.step("late noise");
    match &action {
        EngineAction::Done(d) => assert_eq!(d.message, "U-Boot corrupt"),
        other => panic!("expected the stored diagnosis, got {:?}", action_name(other)),
    }
}

#[test]
fn scripted_run_agrees_with_the_evaluator() {
    let scripts: Vec<(Vec<String>, Vec<Vec<String>>)> = vec![
        (vec![GOOD_BOOT.to_string()], vec![
            vec!["mtd list\n* spi-nand0\n=> ".to_string()],
            vec!["gpio: pin PA11 (gpio 11) value is 1\n=> ".to_string()],
        ]),
        (vec![GOOD_BOOT.to_string()], vec![
            vec!["mtd list\n* spi-nand0\n=> ".to_string()],
            vec!["gpio: pin PA11 (gpio 11) value is 0\n=> ".to_string()],
        ]),
        (vec!["".to_string(), "noise".to_string()], vec![]),
        (vec![], vec![]),
    ];
    for (boot, cmds) in &scripts {
        let from_engine = run_scripted(boot, cmds);
        let from_evaluator = analyze(boot, cmds);
        assert_eq!(from_engine.message, from_evaluator.message);
        assert_eq!(from_engine.instructions, from_evaluator.instructions);
        assert_eq!(from_engine.healthy, from_evaluator.healthy);
    }
}

#[test]
fn scripted_healthy_run() {
    let boot = vec![GOOD_BOOT.to_string()];
    let cmds = vec![
        vec!["mtd list\n* spi-nand0\n=> ".to_string()],
        vec!["gpio: pin PA11 (gpio 11) value is 1\n=> ".to_string()],
    ];
    let diagnosis = run_scripted(&boot, &cmds);
    assert!(diagnosis.healthy);
    assert_eq!(diagnosis.message, "No issues found");
}

fn action_name(action: &EngineAction) -> &'static str {
    match action {
        EngineAction::ProbeThenPoll => "ProbeThenPoll",
        EngineAction::PollAgain => "PollAgain",
        EngineAction::InterruptThenCommandThenPoll(_) => "InterruptThenCommandThenPoll",
        EngineAction::CommandThenPoll(_) => "CommandThenPoll",
        EngineAction::InterruptThenDone(_) => "InterruptThenDone",
        EngineAction::Done(_) => "Done",
    }
}
