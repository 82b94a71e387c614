use uci_driver::parse::{parse_info_line, parse_option_line, parse_pv, parse_uci, OptionType, UCI, UCIError};
use uci_driver::text::{isize_string, parse_isize, tokenize, usize_string};

fn info_line(line: &str) -> UCI {
    parse_info_line(line.to_string()).unwrap()
}

#[test]
fn test_parse_info_line() {
    assert_eq!(
        info_line("info depth 1 seldepth 1 multipv 1 score cp 59 nodes 56 nps 56000 hashfull 0 tbhits 0 time 1"),
        UCI::Info {
            cp: Some(59),
            mate: None,
            depth: Some(1),
            nodes: Some(56),
            seldepth: Some(1),
            multipv: Some(1),
            time: Some(1),
            pv: None,
        }
    );
    assert_eq!(
        info_line("info depth 1 seldepth 1 multipv 1 score cp 59 nodes 56 nps 56000 hashfull 0 tbhits 0 time 1 pv d6f4 e3f4"),
        UCI::Info {
            cp: Some(59),
            mate: None,
            depth: Some(1),
            nodes: Some(56),
            seldepth: Some(1),
            multipv: Some(1),
            time: Some(1),
            pv: Some(vec!["d6f4".to_string(), "e3f4".to_string()]),
        }
    );
    assert_eq!(
        info_line("info depth 2 seldepth 2 multipv 1 score cp -27 nodes 227 nps 227000 hashfull 0 tbhits 0 time 1 pv a8b8 f4d6"),
        UCI::Info {
            cp: Some(-27),
            mate: None,
            depth: Some(2),
            nodes: Some(227),
            seldepth: Some(2),
            multipv: Some(1),
            time: Some(1),
            pv: Some(vec!["a8b8".to_string(), "f4d6".to_string()]),
        }
    );
    assert_eq!(
        info_line("info depth 24 seldepth 33 multipv 1 score cp -195 nodes 2499457 nps 642203 hashfull 812 tbhits 0 time 3892 pv d8a5 a4a5 c6a5 f4d6 b7a6 d6c5 f6d7 c5a3 f7f6 e1g1 a8c8 b2b3 e8f7 f1c1 d7b6 f3e1 f5g6 f2f3 h8d8 e3e4 a5c6 e1d3 e6e5 d3c5 d5e4 d2e4 g6e4 c5e4"),
        UCI::Info {
            cp: Some(-195),
            mate: None,
            depth: Some(24),
            nodes: Some(2499457),
            seldepth: Some(33),
            multipv: Some(1),
            time: Some(3892),
            pv: Some(vec![
                "d8a5".to_string(),
                "a4a5".to_string(),
                "c6a5".to_string(),
                "f4d6".to_string(),
                "b7a6".to_string(),
                "d6c5".to_string(),
                "f6d7".to_string(),
                "c5a3".to_string(),
                "f7f6".to_string(),
                "e1g1".to_string(),
                "a8c8".to_string(),
                "b2b3".to_string(),
                "e8f7".to_string(),
                "f1c1".to_string(),
                "d7b6".to_string(),
                "f3e1".to_string(),
                "f5g6".to_string(),
                "f2f3".to_string(),
                "h8d8".to_string(),
                "e3e4".to_string(),
                "a5c6".to_string(),
                "e1d3".to_string(),
                "e6e5".to_string(),
                "d3c5".to_string(),
                "d5e4".to_string(),
                "d2e4".to_string(),
                "g6e4".to_string(),
                "c5e4".to_string(),
            ]),
        }
    );
}

#[test]
fn uciok_and_readyok_lines() {
    assert_eq!(parse_uci("uciok".to_string()).unwrap(), UCI::UciOk);
    assert_eq!(parse_uci("readyok".to_string()).unwrap(), UCI::ReadyOk);
    assert_eq!(parse_uci("  uciok  ".to_string()).unwrap(), UCI::UciOk);
}

#[test]
fn unknown_lines_are_unrecognized_not_errors() {
    assert_eq!(
        parse_uci("bestmove d6f4 ponder e3f4".to_string()).unwrap(),
        UCI::Unrecognized
    );
    assert_eq!(parse_uci("".to_string()).unwrap(), UCI::Unrecognized);
    assert_eq!(parse_uci("   ".to_string()).unwrap(), UCI::Unrecognized);
    assert_eq!(
        parse_uci("Stockfish 16 by the Stockfish developers".to_string()).unwrap(),
        UCI::Unrecognized
    );
}

#[test]
fn pv_absent_and_pv_empty_are_distinct() {
    // No pv token at all: the field is absent.
    assert_eq!(parse_pv("info depth 3 nodes 9".to_string()), None);
    // A pv token with zero following moves: an empty sequence, not absent.
    assert_eq!(
        parse_pv("info depth 3 nodes 9 pv".to_string()),
        Some(Vec::new())
    );
    let decoded = info_line("info depth 3 pv");
    match decoded {
        UCI::Info { pv, .. } => assert_eq!(pv, Some(Vec::new())),
        other => panic!("expected an info event, got {:?}", other),
    }
}

#[test]
fn info_line_decodes_twice_to_equal_events() {
    let line = "info depth 5 seldepth 6 score cp -11 nodes 400 time 7 pv e2e4 e7e5";
    assert_eq!(info_line(line), info_line(line));
}

#[test]
fn malformed_info_values_read_as_absent() {
    let ev = info_line("info depth x nodes 12");
    assert_eq!(
        ev,
        UCI::Info {
            cp: None,
            mate: None,
            depth: None,
            nodes: Some(12),
            seldepth: None,
            multipv: None,
            time: None,
            pv: None,
        }
    );
}

#[test]
fn keyword_ending_the_line_reads_as_absent() {
    // A keyword with no token after it announces a value it never gives.
    let ev = info_line("info nodes 5 depth");
    assert_eq!(
        ev,
        UCI::Info {
            cp: None,
            mate: None,
            depth: None,
            nodes: Some(5),
            seldepth: None,
            multipv: None,
            time: None,
            pv: None,
        }
    );
}

#[test]
fn spin_option_line_decodes() {
    let ev = parse_uci("option name Hash type spin default 16 min 1 max 33554432".to_string())
        .unwrap();
    assert_eq!(
        ev,
        UCI::Option {
            name: "Hash".to_string(),
            opt_type: OptionType::Spin {
                default: 16,
                min: 1,
                max: 33554432,
            },
        }
    );
}

#[test]
fn check_option_line_decodes() {
    let ev = parse_uci("option name Ponder type check default false".to_string()).unwrap();
    assert_eq!(
        ev,
        UCI::Option {
            name: "Ponder".to_string(),
            opt_type: OptionType::Check { default: false },
        }
    );
}

#[test]
fn combo_option_line_decodes() {
    let ev = parse_option_line(
        "option name Style type combo default Normal var Solid var Normal var Risky".to_string(),
    )
    .unwrap();
    assert_eq!(
        ev,
        UCI::Option {
            name: "Style".to_string(),
            opt_type: OptionType::Combo {
                default: "Normal".to_string(),
                options: vec![
                    "Solid".to_string(),
                    "Normal".to_string(),
                    "Risky".to_string(),
                ],
            },
        }
    );
}

#[test]
fn button_and_string_option_lines_decode() {
    assert_eq!(
        parse_uci("option name Clear type button".to_string()).unwrap(),
        UCI::Option {
            name: "Clear".to_string(),
            opt_type: OptionType::Button,
        }
    );
    assert_eq!(
        parse_uci("option name SyzygyPath type string default <empty>".to_string()).unwrap(),
        UCI::Option {
            name: "SyzygyPath".to_string(),
            opt_type: OptionType::String {
                default: "<empty>".to_string(),
            },
        }
    );
}

#[test]
fn option_line_errors() {
    // A spin without its required default is a hard parse error.
    assert_eq!(
        parse_uci("option name Hash type spin min 1 max 64".to_string()),
        Err(UCIError::ParseError)
    );
    // An unknown type name is a hard parse error.
    assert_eq!(
        parse_uci("option name Hash type slider default 3".to_string()),
        Err(UCIError::ParseError)
    );
    // A missing name or type keyword is a hard parse error.
    assert_eq!(
        parse_uci("option type spin default 1 min 0 max 2".to_string()),
        Err(UCIError::ParseError)
    );
    assert_eq!(
        parse_uci("option name Hash default 1".to_string()),
        Err(UCIError::ParseError)
    );
    // A combo whose line ends in `var` announces a choice it never names.
    assert_eq!(
        parse_uci("option name Style type combo default Normal var".to_string()),
        Err(UCIError::ParseError)
    );
    // A check whose default is neither `true` nor `false`.
    assert_eq!(
        parse_uci("option name Ponder type check default maybe".to_string()),
        Err(UCIError::ParseError)
    );
    // A required sub-field keyword that ends the line gives no value.
    assert_eq!(
        parse_uci("option name Hash type spin default 5 min 1 max".to_string()),
        Err(UCIError::ParseError)
    );
    assert_eq!(
        parse_uci("option name SyzygyPath type string default".to_string()),
        Err(UCIError::ParseError)
    );
    assert_eq!(
        parse_uci("option name".to_string()),
        Err(UCIError::ParseError)
    );
}

#[test]
fn error_message_text() {
    assert_eq!(UCIError::ParseError.message(), "error parsing uci command");
}

#[test]
fn tokenize_splits_on_any_whitespace_run() {
    assert_eq!(
        tokenize("  go \t depth\n3  "),
        vec!["go".to_string(), "depth".to_string(), "3".to_string()]
    );
    assert_eq!(tokenize(""), Vec::<String>::new());
    assert_eq!(tokenize(" \t "), Vec::<String>::new());
    // Any Unicode whitespace separates, as str::split_whitespace has it.
    assert_eq!(
        tokenize("uciok\u{a0}now"),
        vec!["uciok".to_string(), "now".to_string()]
    );
}

#[test]
fn parse_isize_accepts_exactly_decimal_integers() {
    assert_eq!(parse_isize("0"), Some(0));
    assert_eq!(parse_isize("-195"), Some(-195));
    assert_eq!(parse_isize("+42"), Some(42));
    assert_eq!(parse_isize("9223372036854775807"), Some(isize::MAX));
    assert_eq!(parse_isize("-9223372036854775808"), Some(isize::MIN));
    assert_eq!(parse_isize("9223372036854775808"), None);
    assert_eq!(parse_isize("-9223372036854775809"), None);
    assert_eq!(parse_isize(""), None);
    assert_eq!(parse_isize("-"), None);
    assert_eq!(parse_isize("12a"), None);
    assert_eq!(parse_isize(" 12"), None);
}

#[test]
fn decimal_rendering_is_exact() {
    assert_eq!(usize_string(0), "0");
    assert_eq!(usize_string(7), "7");
    assert_eq!(usize_string(33554432), "33554432");
    assert_eq!(isize_string(0), "0");
    assert_eq!(isize_string(-1), "-1");
    assert_eq!(isize_string(-195), "-195");
    assert_eq!(isize_string(isize::MAX), "9223372036854775807");
    assert_eq!(isize_string(isize::MIN), "-9223372036854775808");
}
