use mk_sql::checker::{CheckResult, State};
use mk_sql::output::Output;

fn s(s: &str) -> String {
    String::from(s)
}

#[test]
fn test_no_check_results_is_ok() {
    assert_eq!(Output::from_check_results(vec![]).to_string(), "HTTP OK");
}

#[test]
fn test_merge_check_results_with_state_only() {
    let cr1 = CheckResult {
        state: State::Okay,
        summary: s(""),
    };
    let cr2 = CheckResult {
        state: State::Okay,
        summary: s(""),
    };
    let cr3 = CheckResult {
        state: State::Okay,
        summary: s(""),
    };
    assert_eq!(
        Output::from_check_results(vec![cr1, cr2, cr3]).to_string(),
        "HTTP OK"
    );
}

#[test]
fn test_merge_check_results_ok() {
    let cr1 = CheckResult {
        state: State::Okay,
        summary: s("summary 1"),
    };
    let cr2 = CheckResult {
        state: State::Okay,
        summary: s("summary 2"),
    };
    let cr3 = CheckResult {
        state: State::Okay,
        summary: s("summary 3"),
    };
    assert_eq!(
        Output::from_check_results(vec![cr1, cr2, cr3]).to_string(),
        "HTTP OK - summary 1, summary 2, summary 3"
    );
}

#[test]
fn test_merge_check_results_warn() {
    let cr1 = CheckResult {
        state: State::Okay,
        summary: s("summary 1"),
    };
    let cr2 = CheckResult {
        state: State::Warn,
        summary: s("summary 2"),
    };
    let cr3 = CheckResult {
        state: State::Okay,
        summary: s("summary 3"),
    };
    assert_eq!(
        Output::from_check_results(vec![cr1, cr2, cr3]).to_string(),
        "HTTP WARNING - summary 1, summary 2 (!), summary 3"
    );
}

#[test]
fn test_merge_check_results_crit() {
    let cr1 = CheckResult {
        state: State::Okay,
        summary: s("summary 1"),
    };
    let cr2 = CheckResult {
        state: State::Warn,
        summary: s("summary 2"),
    };
    let cr3 = CheckResult {
        state: State::Crit,
        summary: s("summary 3"),
    };
    assert_eq!(
        Output::from_check_results(vec![cr1, cr2, cr3]).to_string(),
        "HTTP CRITICAL - summary 1, summary 2 (!), summary 3 (!!)"
    );
}

#[test]
fn test_merge_check_results_unknown() {
    let cr1 = CheckResult {
        state: State::Okay,
        summary: s("summary 1"),
    };
    let cr2 = CheckResult {
        state: State::Warn,
        summary: s("summary 2"),
    };
    let cr3 = CheckResult {
        state: State::Crit,
        summary: s("summary 3"),
    };
    let cr4 = CheckResult {
        state: State::Unknown,
        summary: s("summary 4"),
    };
    assert_eq!(
        Output::from_check_results(vec![cr1, cr2, cr3, cr4]).to_string(),
        "HTTP UNKNOWN - summary 1, summary 2 (!), summary 3 (!!), summary 4 (?)"
    );
}

#[test]
fn status_line_of_short_summaries() {
    let results = vec![
        CheckResult {
            state: State::Okay,
            summary: s("s1"),
        },
        CheckResult {
            state: State::Warn,
            summary: s("s2"),
        },
        CheckResult {
            state: State::Crit,
            summary: s("s3"),
        },
    ];
    assert_eq!(
        Output::from_check_results(results).to_string(),
        "HTTP CRITICAL - s1, s2 (!), s3 (!!)"
    );
}

#[test]
fn worst_state_is_the_highest_wherever_it_stands() {
    let results = |states: &[State]| -> Vec<CheckResult> {
        states
            .iter()
            .map(|state| CheckResult {
                state: *state,
                summary: s(""),
            })
            .collect()
    };
    assert_eq!(Output::from_check_results(vec![]).worst_state, State::Okay);
    assert_eq!(
        Output::from_check_results(results(&[State::Unknown, State::Okay, State::Crit]))
            .worst_state,
        State::Unknown
    );
    assert_eq!(
        Output::from_check_results(results(&[State::Warn, State::Crit, State::Warn])).worst_state,
        State::Crit
    );
    assert_eq!(
        Output::from_check_results(results(&[State::Okay, State::Warn])).worst_state,
        State::Warn
    );
    assert_eq!(
        Output::from_check_results(results(&[State::Okay])).worst_state,
        State::Okay
    );
}

#[test]
fn worst_state_can_be_read() {
    let output = Output::from_check_results(vec![
        CheckResult {
            state: State::Warn,
            summary: s("a"),
        },
        CheckResult {
            state: State::Crit,
            summary: s(""),
        },
    ]);
    assert_eq!(output.worst_state(), State::Crit);
    assert_eq!(output.worst_state(), output.worst_state);
}

#[test]
fn severities_are_ordered() {
    assert!(State::Okay < State::Warn);
    assert!(State::Warn < State::Crit);
    assert!(State::Crit < State::Unknown);
    assert!(State::Unknown.at_least(State::Crit));
    assert!(State::Warn.at_least(State::Warn));
    assert!(!State::Okay.at_least(State::Warn));
    assert!(!State::Crit.at_least(State::Unknown));
}

#[test]
fn results_without_summary_are_not_shown() {
    let results = vec![
        CheckResult {
            state: State::Crit,
            summary: s(""),
        },
        CheckResult {
            state: State::Warn,
            summary: s("late"),
        },
        CheckResult {
            state: State::Unknown,
            summary: s(""),
        },
    ];
    assert_eq!(
        Output::from_check_results(results).to_string(),
        "HTTP UNKNOWN - late (!)"
    );
    let only_state = vec![CheckResult {
        state: State::Crit,
        summary: s(""),
    }];
    assert_eq!(
        Output::from_check_results(only_state).to_string(),
        "HTTP CRITICAL"
    );
}

#[test]
fn the_line_names_the_state_that_the_output_holds() {
    let mut output = Output::from_check_results(vec![CheckResult {
        state: State::Warn,
        summary: s("a"),
    }]);
    output.worst_state = State::Okay;
    assert_eq!(output.to_string(), "HTTP OK - a (!)");
}

#[test]
fn text_of_a_result_carries_its_marker() {
    let text = |state: State| {
        CheckResult {
            state,
            summary: s("x"),
        }
        .to_string()
    };
    assert_eq!(text(State::Okay), "x");
    assert_eq!(text(State::Warn), "x (!)");
    assert_eq!(text(State::Crit), "x (!!)");
    assert_eq!(text(State::Unknown), "x (?)");
    assert_eq!(State::Okay.as_str(), "OK");
    assert_eq!(State::Warn.as_str(), "WARNING");
    assert_eq!(State::Crit.as_str(), "CRITICAL");
    assert_eq!(State::Unknown.as_str(), "UNKNOWN");
}
