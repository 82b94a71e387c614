use uci_driver::engine::{
    command_text, search_go_command, EngineCommand, EngineError, EngineState, EngineStateEnum,
    Evaluation, StartAction, StartProtocol, StateWait, WaitStep, RETRY_LIMIT,
};
use uci_driver::parse::UCI;

#[test]
fn fresh_state_is_uninitialized_with_nothing_seen() {
    let st = EngineState::new();
    assert_eq!(st.state, EngineStateEnum::Uninitialized);
    assert!(st.evaluation.is_none());
    assert!(st.options.is_empty());
}

#[test]
fn acknowledgements_move_the_phase() {
    let mut st = EngineState::new();
    st.process_line("uciok".to_string());
    assert_eq!(st.state, EngineStateEnum::Initialized);
    st.process_line("readyok".to_string());
    assert_eq!(st.state, EngineStateEnum::Ready);
}

#[test]
fn info_merge_keeps_absent_fields() {
    let mut st = EngineState::new();
    st.process_line(
        "info depth 1 seldepth 2 multipv 1 score cp 59 nodes 56 time 1 pv d6f4 e3f4".to_string(),
    );
    let first = st.evaluation.clone().unwrap();
    assert_eq!(first.score, 59);
    assert_eq!(first.depth, 1);
    assert_eq!(first.seldepth, 2);
    assert_eq!(first.nodes, 56);
    assert_eq!(first.multipv, 1);
    assert_eq!(first.time, 1);
    assert_eq!(first.mate, 0);
    assert_eq!(first.pv, vec!["d6f4".to_string(), "e3f4".to_string()]);

    // An update carrying only depth and nodes changes exactly those two.
    st.process_line("info depth 7 nodes 4242".to_string());
    let second = st.evaluation.clone().unwrap();
    assert_eq!(second.depth, 7);
    assert_eq!(second.nodes, 4242);
    assert_eq!(second.score, first.score);
    assert_eq!(second.mate, first.mate);
    assert_eq!(second.seldepth, first.seldepth);
    assert_eq!(second.multipv, first.multipv);
    assert_eq!(second.time, first.time);
    assert_eq!(second.pv, first.pv);
}

#[test]
fn first_info_line_merges_into_empty_defaults() {
    let mut st = EngineState::new();
    st.apply_event(UCI::Info {
        cp: Some(10),
        mate: None,
        depth: None,
        seldepth: None,
        nodes: None,
        time: None,
        multipv: None,
        pv: None,
    });
    let ev = st.evaluation.clone().unwrap();
    assert_eq!(ev.score, 10);
    assert_eq!(ev.depth, 0);
    assert_eq!(ev.pv, Vec::<String>::new());
}

#[test]
fn option_lines_accumulate_in_order_without_dedup() {
    let mut st = EngineState::new();
    st.process_line("option name Hash type spin default 16 min 1 max 64".to_string());
    st.process_line("option name Ponder type check default false".to_string());
    st.process_line("option name Hash type spin default 32 min 1 max 64".to_string());
    assert_eq!(st.options.len(), 3);
    assert_eq!(st.options[0].name, "Hash");
    assert_eq!(st.options[1].name, "Ponder");
    assert_eq!(st.options[2].name, "Hash");
}

#[test]
fn junk_and_parse_errors_leave_the_state_alone() {
    let mut st = EngineState::new();
    st.process_line("uciok".to_string());
    st.process_line("bestmove e2e4".to_string());
    st.process_line("option name Broken type spin min 1".to_string());
    assert_eq!(st.state, EngineStateEnum::Initialized);
    assert!(st.evaluation.is_none());
    assert!(st.options.is_empty());
}

#[test]
fn command_texts_match_the_wire_format() {
    assert_eq!(command_text(&EngineCommand::Uci), "uci\n");
    assert_eq!(command_text(&EngineCommand::IsReady), "isready\n");
    assert_eq!(command_text(&EngineCommand::UciNewGame), "ucinewgame\n");
    assert_eq!(command_text(&EngineCommand::Stop), "stop\n");
    assert_eq!(command_text(&EngineCommand::GoInfinite), "go infinite\n");
    assert_eq!(
        command_text(&EngineCommand::GoDepth { plies: 25 }),
        "go depth 25\n"
    );
    assert_eq!(
        command_text(&EngineCommand::GoTime { ms: 1500 }),
        "go movetime 1500\n"
    );
    assert_eq!(
        command_text(&EngineCommand::GoMate { mate_in: 3 }),
        "go mate 3\n"
    );
    assert_eq!(
        command_text(&EngineCommand::PositionFen {
            fen: "r2qk2r/pp3ppp/B1nbpn2/2pp1b2/Q2P1B2/2P1PN2/PP1N1PPP/R3K2R b KQkq - 4 8"
                .to_string()
        }),
        "position fen r2qk2r/pp3ppp/B1nbpn2/2pp1b2/Q2P1B2/2P1PN2/PP1N1PPP/R3K2R b KQkq - 4 8\n"
    );
    assert_eq!(
        command_text(&EngineCommand::SetOption {
            name: "MultiPV".to_string(),
            value: "3".to_string()
        }),
        "setoption name MultiPV value 3\n"
    );
}

#[test]
fn go_and_stop_commands_move_the_local_phase() {
    let mut st = EngineState::new();
    st.process_line("uciok".to_string());
    st.process_line("readyok".to_string());
    st.apply_command(&EngineCommand::GoInfinite);
    assert_eq!(st.state, EngineStateEnum::Thinking);
    st.apply_command(&EngineCommand::Stop);
    assert_eq!(st.state, EngineStateEnum::Initialized);
    st.apply_command(&EngineCommand::GoDepth { plies: 3 });
    assert_eq!(st.state, EngineStateEnum::Thinking);
    st.apply_command(&EngineCommand::UciNewGame);
    assert_eq!(st.state, EngineStateEnum::Initialized);
    // Plain sends leave the phase alone.
    st.apply_command(&EngineCommand::IsReady);
    assert_eq!(st.state, EngineStateEnum::Initialized);
}

#[test]
fn search_dispatch_prefers_depth_then_time_then_mate() {
    assert_eq!(
        search_go_command(25, 1000, 2),
        EngineCommand::GoDepth { plies: 25 }
    );
    assert_eq!(
        search_go_command(0, 1000, 2),
        EngineCommand::GoTime { ms: 1000 }
    );
    assert_eq!(
        search_go_command(0, 0, 2),
        EngineCommand::GoMate { mate_in: 2 }
    );
    assert_eq!(search_go_command(0, 0, 0), EngineCommand::GoInfinite);
}

#[test]
fn state_wait_counts_its_polls() {
    let mut w = StateWait::new(EngineStateEnum::Ready);
    assert_eq!(w.remaining, RETRY_LIMIT);
    for _ in 0..(RETRY_LIMIT - 1) {
        assert_eq!(
            w.poll(EngineStateEnum::Initialized),
            WaitStep::Retry
        );
    }
    assert_eq!(w.poll(EngineStateEnum::Initialized), WaitStep::TimedOut);

    let mut w = StateWait::new(EngineStateEnum::Ready);
    assert_eq!(w.poll(EngineStateEnum::Ready), WaitStep::Satisfied);
    assert_eq!(w.remaining, RETRY_LIMIT);
}

#[test]
fn start_protocol_reaches_ready_when_both_acks_arrive() {
    // The engine answers `uci` with `uciok` and `isready` with `readyok`:
    // the start operation drives the phase Uninitialized -> Ready with no
    // timeout.
    let mut st = EngineState::new();
    let (mut start, first) = StartProtocol::begin();
    assert_eq!(first, EngineCommand::Uci);

    st.process_line("uciok".to_string());
    let action = start.poll(st.state);
    assert_eq!(action, StartAction::SendIsReady);

    st.process_line("readyok".to_string());
    let action = start.poll(st.state);
    assert_eq!(action, StartAction::Succeeded);
    assert_eq!(st.state, EngineStateEnum::Ready);
}

#[test]
fn start_protocol_times_out_when_readyok_never_arrives() {
    // The engine acknowledges `uci` but never sends `readyok`: the start
    // operation fails by timeout after its bounded retries and the phase
    // stays at Initialized.
    let mut st = EngineState::new();
    let (mut start, _first) = StartProtocol::begin();

    st.process_line("uciok".to_string());
    assert_eq!(start.poll(st.state), StartAction::SendIsReady);

    let mut polls = 0u32;
    loop {
        match start.poll(st.state) {
            StartAction::Sleep => {
                polls += 1;
                assert!(polls < RETRY_LIMIT);
            }
            StartAction::TimedOut => break,
            other => panic!("unexpected action {:?}", other),
        }
    }
    assert_eq!(polls, RETRY_LIMIT - 1);
    assert_eq!(st.state, EngineStateEnum::Initialized);
    assert_eq!(EngineError::ProtocolTimeout.message(), "the engine did not reach the expected state");
}

#[test]
fn evaluation_display_format() {
    let mut st = EngineState::new();
    st.process_line(
        "info depth 1 seldepth 2 multipv 3 score cp -59 nodes 56 time 7 pv d6f4 e3f4".to_string(),
    );
    let ev = st.evaluation.clone().unwrap();
    assert_eq!(
        ev.display(false),
        "score: -59 mate: 0 depth: 1 nodes: 56 seldepth: 2 multipv: 3 time: 7"
    );
    assert_eq!(
        ev.display(true),
        "score: -59 mate: 0 depth: 1 nodes: 56 seldepth: 2 multipv: 3 time: 7\npv: d6f4, e3f4"
    );
}

#[test]
fn default_evaluation_is_all_zero() {
    let ev = Evaluation::default();
    assert_eq!(ev.score, 0);
    assert_eq!(ev.mate, 0);
    assert_eq!(ev.depth, 0);
    assert_eq!(ev.nodes, 0);
    assert_eq!(ev.seldepth, 0);
    assert_eq!(ev.multipv, 0);
    assert_eq!(ev.time, 0);
    assert!(ev.pv.is_empty());
    assert_eq!(ev.display(true), "score: 0 mate: 0 depth: 0 nodes: 0 seldepth: 0 multipv: 0 time: 0\npv: ");
}
