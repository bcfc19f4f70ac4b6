use pfm::remote::RateRequest;
use pfm::total::{
    display_decimals, total_line, HoldingLine, Term, TotalRun, TotalStep, TOTAL_DECIMALS,
};
use pfm::{
    ApiError, AuthToken, CommandError, Currency, GetExchangeRateResponse, Number, Portfolio, State,
    User,
};

fn number(value: f64) -> Number {
    Number::from_bits(value.to_bits())
}

fn holding(code: &str, amount: f64) -> Currency {
    Currency { code: code.to_string(), amount: number(amount) }
}

fn state(token: Option<&str>, holdings: Vec<Currency>) -> State {
    State {
        user: token.map(|_| User { username: "ann".to_string() }),
        auth_token: token.map(|id| AuthToken { id: id.to_string() }),
        portfolio: Portfolio { currencies: holdings },
    }
}

fn rate(quote: &str, value: f64) -> Result<GetExchangeRateResponse, ApiError> {
    Ok(GetExchangeRateResponse {
        quote: quote.to_string(),
        base: "USD".to_string(),
        rate: number(value),
    })
}

fn refusal(code: u16, message: &str) -> Result<GetExchangeRateResponse, ApiError> {
    Err(ApiError { code, message: message.to_string() })
}

fn sum(terms: &[Term]) -> f64 {
    let mut total = 0.0;
    for term in terms {
        total += f64::from_bits(term.rate.to_bits()) * f64::from_bits(term.amount.to_bits());
    }
    total
}

fn shown(line: &HoldingLine) -> String {
    line.text(&format!("{:.*}", line.decimals, f64::from_bits(line.amount.to_bits())))
}

/// Runs the command against canned answers and returns what it prints.
fn run(state: State, replies: Vec<Result<GetExchangeRateResponse, ApiError>>) -> Vec<String> {
    let mut printed = vec![];
    let mut replies = replies.into_iter();
    let mut run = TotalRun::start(state);
    loop {
        match run.step() {
            TotalStep::Lookup { line, .. } => {
                printed.push(shown(&line));
                if let Some(notice) = run.record(replies.next().unwrap()) {
                    printed.push(notice);
                }
            }
            TotalStep::Abort { line, error } => {
                printed.push(shown(&line));
                printed.push(format!("{:?}", error));
                return printed;
            }
            TotalStep::Finish { terms } => {
                printed.push(total_line(&format!("{:.*}", TOTAL_DECIMALS, sum(&terms))));
                assert!(replies.next().is_none());
                return printed;
            }
        }
    }
}

#[test]
fn bitcoin_is_shown_with_eight_decimals() {
    for code in ["btc", "BTC", "Btc", "bTc", "btC", "BTc", "bTC", "BtC"] {
        assert_eq!(display_decimals(code), 8, "{}", code);
    }
}

#[test]
fn everything_else_is_shown_with_two_decimals() {
    for code in ["", "b", "bt", "btcx", "xbtc", "usd", "USD", "eth", "bt c", " btc", "btc ", "ｂtc",
        "b\u{74}\u{63}\u{301}", "btk", "BTK", "bt\u{212a}", "8tc"]
    {
        assert_eq!(display_decimals(code), 2, "{:?}", code);
    }
}

#[test]
fn decimals_follow_the_lower_case_of_the_code() {
    let letters = ['b', 'B', 't', 'T', 'c', 'C', 'x', 'ß', 'İ', '\u{212a}', 'Ｂ', ' '];
    for a in letters {
        for b in letters {
            for c in letters {
                let code: String = [a, b, c].iter().collect();
                let expected = if code.to_lowercase() == "btc" { 8 } else { 2 };
                assert_eq!(display_decimals(&code), expected, "{:?}", code);
            }
        }
    }
}

#[test]
fn holding_lines_are_written_with_their_decimals() {
    let btc = HoldingLine { code: "BTC".to_string(), amount: number(0.5), decimals: 8 };
    assert_eq!(shown(&btc), "BTC: 0.50000000");
    let usd = HoldingLine { code: "USD".to_string(), amount: number(100.0), decimals: 2 };
    assert_eq!(shown(&usd), "USD: 100.00");
    assert_eq!(usd.text("1.005"), "USD: 1.005");
    assert_eq!(usd.text(""), "USD: ");
}

#[test]
fn total_line_has_the_dollar_sign() {
    assert_eq!(TOTAL_DECIMALS, 2);
    assert_eq!(total_line("10100.00"), "Total: $10100.00");
    assert_eq!(total_line("0.00"), "Total: $0.00");
    assert_eq!(total_line(""), "Total: $");
}

#[test]
fn total_adds_rate_times_amount() {
    let s = state(Some("t"), vec![holding("USD", 100.0), holding("BTC", 0.5)]);
    let printed = run(s, vec![rate("USD", 1.0), rate("BTC", 20000.0)]);
    assert_eq!(printed, vec!["USD: 100.00", "BTC: 0.50000000", "Total: $10100.00"]);
}

#[test]
fn terms_pair_each_rate_with_its_amount() {
    let s = state(Some("t"), vec![holding("USD", 100.0), holding("BTC", 0.5)]);
    let mut run = TotalRun::start(s);
    assert!(!run.finished());
    assert_eq!(run.record(rate("USD", 1.0)), None);
    assert!(!run.finished());
    assert_eq!(run.record(rate("BTC", 20000.0)), None);
    assert!(run.finished());
    let expected = vec![
        Term { rate: number(1.0), amount: number(100.0) },
        Term { rate: number(20000.0), amount: number(0.5) },
    ];
    assert_eq!(run.step(), TotalStep::Finish { terms: expected.clone() });
    assert_eq!(sum(&expected), 10100.0);
}

#[test]
fn a_refused_lookup_adds_nothing_and_the_run_goes_on() {
    let s = state(
        Some("t"),
        vec![holding("USD", 100.0), holding("XXX", 5.0), holding("BTC", 0.5)],
    );
    let printed = run(
        s,
        vec![rate("USD", 1.0), refusal(404, "Unknown currency"), rate("BTC", 20000.0)],
    );
    assert_eq!(
        printed,
        vec![
            "USD: 100.00",
            "XXX: 5.00",
            "Unknown currency",
            "BTC: 0.50000000",
            "Total: $10100.00",
        ]
    );
}

#[test]
fn a_refusal_leaves_the_terms_of_the_run_without_that_holding() {
    let with = state(
        Some("t"),
        vec![holding("USD", 100.0), holding("XXX", 5.0), holding("BTC", 0.5)],
    );
    let without = state(Some("t"), vec![holding("USD", 100.0), holding("BTC", 0.5)]);
    let mut a = TotalRun::start(with);
    a.record(rate("USD", 1.0));
    assert_eq!(a.record(refusal(500, "down")), Some("down".to_string()));
    a.record(rate("BTC", 20000.0));
    let mut b = TotalRun::start(without);
    b.record(rate("USD", 1.0));
    b.record(rate("BTC", 20000.0));
    assert_eq!(a.step(), b.step());
}

#[test]
fn every_lookup_refused_gives_a_total_of_zero() {
    let s = state(None, vec![holding("USD", 100.0), holding("BTC", 0.5)]);
    let printed = run(s, vec![refusal(401, "Unauthorized"), refusal(401, "Unauthorized")]);
    assert_eq!(
        printed,
        vec![
            "USD: 100.00",
            "Unauthorized",
            "BTC: 0.50000000",
            "Unauthorized",
            "Total: $0.00",
        ]
    );
}

#[test]
fn an_empty_portfolio_finishes_at_once() {
    let mut run_ = TotalRun::start(state(Some("t"), vec![]));
    assert!(run_.finished());
    assert_eq!(run_.step(), TotalStep::Finish { terms: vec![] });
    assert_eq!(run_.record(rate("USD", 1.0)), None);
    assert_eq!(run_.record(refusal(500, "late")), None);
    assert_eq!(run_.step(), TotalStep::Finish { terms: vec![] });
    assert_eq!(run(state(None, vec![]), vec![]), vec!["Total: $0.00"]);
}

#[test]
fn an_answer_after_the_end_changes_nothing() {
    let mut run = TotalRun::start(state(Some("t"), vec![holding("USD", 2.0)]));
    run.record(rate("USD", 3.0));
    let end = TotalStep::Finish { terms: vec![Term { rate: number(3.0), amount: number(2.0) }] };
    assert_eq!(run.step(), end);
    assert_eq!(run.record(rate("USD", 9.0)), None);
    assert_eq!(run.record(refusal(500, "late")), None);
    assert_eq!(run.step(), end);
}

#[test]
fn lookups_follow_the_order_of_the_holdings() {
    let s = state(Some("abc"), vec![holding("USD", 1.0), holding("btc", 2.0), holding("EUR", 3.0)]);
    let mut run = TotalRun::start(s);
    let mut seen = vec![];
    loop {
        match run.step() {
            TotalStep::Lookup { line, request } => {
                seen.push((line, request));
                run.record(refusal(500, "no"));
            }
            _ => break,
        }
    }
    let expected: Vec<(HoldingLine, RateRequest)> = [("USD", 1.0, 2), ("btc", 2.0, 8), ("EUR", 3.0, 2)]
        .iter()
        .map(|(code, amount, decimals)| {
            (
                HoldingLine { code: code.to_string(), amount: number(*amount), decimals: *decimals },
                RateRequest {
                    url: format!(
                        "https://api.easyportfol.io/exchange_rates?quote={}&base=USD",
                        code
                    ),
                    authorization: Some("Bearer abc".to_string()),
                },
            )
        })
        .collect();
    assert_eq!(seen, expected);
}

#[test]
fn step_does_not_move_the_run() {
    let run = TotalRun::start(state(Some("t"), vec![holding("USD", 1.0), holding("EUR", 1.0)]));
    let first = run.step();
    assert_eq!(run.step(), first);
    assert!(matches!(first, TotalStep::Lookup { ref line, .. } if line.code == "USD"));
}

#[test]
fn two_holdings_of_one_code_are_looked_up_and_added_separately() {
    let s = state(Some("t"), vec![holding("BTC", 1.0), holding("BTC", 2.0)]);
    let printed = run(s, vec![rate("BTC", 10.0), rate("BTC", 10.0)]);
    assert_eq!(printed, vec!["BTC: 1.00000000", "BTC: 2.00000000", "Total: $30.00"]);
    let s = state(Some("t"), vec![holding("BTC", 1.0), holding("BTC", 2.0)]);
    let printed = run(s, vec![refusal(500, "busy"), rate("BTC", 10.0)]);
    assert_eq!(printed, vec!["BTC: 1.00000000", "busy", "BTC: 2.00000000", "Total: $20.00"]);
}

#[test]
fn without_a_credential_the_lookup_goes_out_bare() {
    let run = TotalRun::start(state(None, vec![holding("USD", 1.0)]));
    match run.step() {
        TotalStep::Lookup { request, .. } => {
            assert_eq!(request.authorization, None);
            assert_eq!(
                request.url,
                "https://api.easyportfol.io/exchange_rates?quote=USD&base=USD"
            );
        }
        other => panic!("{:?}", other),
    }
}

#[test]
fn an_unsendable_credential_stops_the_run_after_the_first_line() {
    let s = state(Some("bad\ntoken"), vec![holding("BTC", 0.25), holding("USD", 1.0)]);
    let start = TotalRun::start(s);
    assert_eq!(
        start.step(),
        TotalStep::Abort {
            line: HoldingLine { code: "BTC".to_string(), amount: number(0.25), decimals: 8 },
            error: CommandError::InvalidHeader,
        }
    );
    let s = state(Some("bad\ntoken"), vec![holding("BTC", 0.25), holding("USD", 1.0)]);
    assert_eq!(run(s, vec![]), vec!["BTC: 0.25000000", "InvalidHeader"]);
    let none = TotalRun::start(state(Some("bad\ntoken"), vec![]));
    assert_eq!(none.step(), TotalStep::Finish { terms: vec![] });
}

#[test]
fn the_sum_is_taken_in_the_order_of_the_holdings() {
    let s = state(
        Some("t"),
        vec![holding("A", 1e16), holding("B", 1.0), holding("C", -1e16), holding("D", 1.0)],
    );
    let mut run = TotalRun::start(s);
    for code in ["A", "B", "C", "D"] {
        run.record(rate(code, 1.0));
    }
    match run.step() {
        TotalStep::Finish { terms } => {
            let amounts: Vec<f64> =
                terms.iter().map(|t| f64::from_bits(t.amount.to_bits())).collect();
            assert_eq!(amounts, vec![1e16, 1.0, -1e16, 1.0]);
            assert_eq!(sum(&terms), ((0.0 + 1e16 + 1.0) + -1e16) + 1.0);
        }
        other => panic!("{:?}", other),
    }
}
