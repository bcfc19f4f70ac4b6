//! Showing the portfolio's total value: which holdings are printed and how,
//! which rates are asked for, and what the answers add up to.
//!
//! The command alternates between the library and the program around it. The
//! library says what to do next ([`TotalRun::step`]); the program prints the
//! line, asks the service, and reports the answer ([`TotalRun::record`]). The
//! library keeps the products that make up the total as pairs of numbers, in
//! the order in which they are to be added; multiplying and adding them is
//! left to the program, which has the arithmetic for it.

use crate::error::CommandError;
use crate::model::{
    ApiError, ApiErrorView, AuthToken, AuthTokenView, Currency, CurrencyView,
    GetExchangeRateResponse, GetExchangeRateResponseView, Number, State, StateView,
};
use crate::remote::{rate_request, rate_request_of, unsendable, RateRequest, RateRequestView};
use vstd::prelude::*;
use vstd::string::*;

verus! {

/// The code names bitcoin: it reads `btc`, in capitals or small letters or
/// any mixture of the two.
pub open spec fn is_bitcoin(code: Seq<char>) -> bool {
    &&& code.len() == 3
    &&& (code[0] == 'b' || code[0] == 'B')
    &&& (code[1] == 't' || code[1] == 'T')
    &&& (code[2] == 'c' || code[2] == 'C')
}

/// The number of decimal places that an amount of `code` is shown with.
pub open spec fn decimals_of(code: Seq<char>) -> usize {
    if is_bitcoin(code) {
        8
    } else {
        2
    }
}

/// The number of decimal places that an amount of `code` is shown with: 8 for
/// bitcoin, 2 for everything else.
pub fn display_decimals(code: &str) -> (r: usize)
    ensures
        r == decimals_of(code@),
{
    if code.unicode_len() != 3 {
        return 2;
    }
    let b = code.get_char(0);
    let t = code.get_char(1);
    let c = code.get_char(2);
    if (b == 'b' || b == 'B') && (t == 't' || t == 'T') && (c == 'c' || c == 'C') {
        8
    } else {
        2
    }
}

/// The reference currency that the total is given in.
pub open spec fn reference_code() -> Seq<char> {
    "USD"@
}

/// One line of the listing: the amount of `code`, to be shown with `decimals`
/// decimal places.
#[derive(Debug, PartialEq, Eq)]
pub struct HoldingLine {
    pub code: String,
    pub amount: Number,
    pub decimals: usize,
}

pub struct HoldingLineView {
    pub code: Seq<char>,
    pub amount: Number,
    pub decimals: usize,
}

impl View for HoldingLine {
    type V = HoldingLineView;

    open spec fn view(&self) -> HoldingLineView {
        HoldingLineView { code: self.code@, amount: self.amount, decimals: self.decimals }
    }
}

/// The line that lists `holding`.
pub open spec fn line_of(holding: CurrencyView) -> HoldingLineView {
    HoldingLineView {
        code: holding.code,
        amount: holding.amount,
        decimals: decimals_of(holding.code),
    }
}

/// The text of the line that lists an amount of `code`, where `amount` is
/// the amount written out.
pub open spec fn holding_line_text(code: Seq<char>, amount: Seq<char>) -> Seq<char> {
    code + ": "@ + amount
}

impl HoldingLine {
    /// The text of the line, where `amount` is the amount written out with
    /// `self.decimals` decimal places.
    pub fn text(&self, amount: &str) -> (r: String)
        ensures
            r@ == holding_line_text(self.code@, amount@),
    {
        let mut line = self.code.clone();
        line.append(": ");
        line.append(amount);
        line
    }
}

/// The number of decimal places that the total is shown with.
pub const TOTAL_DECIMALS: usize = 2;

/// The text of the last line, where `total` is the total written out.
pub open spec fn total_line_text(total: Seq<char>) -> Seq<char> {
    "Total: $"@ + total
}

/// The text of the last line, where `total` is the total written out with
/// [`TOTAL_DECIMALS`] decimal places.
pub fn total_line(total: &str) -> (r: String)
    ensures
        r@ == total_line_text(total@),
{
    let mut line = "Total: $".to_owned();
    line.append(total);
    line
}

/// The request for the rate of `holding` in the reference currency, sent in
/// the name of `auth_token`.
pub open spec fn request_of(
    holding: CurrencyView,
    auth_token: Option<AuthTokenView>,
) -> RateRequestView {
    rate_request_of(holding.code, reference_code(), auth_token)
}

/// One product of the total: `rate` times `amount`.
#[derive(Clone, Copy, Debug, PartialEq, Eq, Structural)]
pub struct Term {
    pub rate: Number,
    pub amount: Number,
}

/// What the service said to one lookup.
pub type RateReplyView = Result<GetExchangeRateResponseView, ApiErrorView>;

/// The view of an answer to a lookup.
pub open spec fn rate_reply_view(
    reply: Result<GetExchangeRateResponse, ApiError>,
) -> RateReplyView {
    match reply {
        Ok(response) => Ok(response@),
        Err(error) => Err(error@),
    }
}

/// What the program is to do next.
#[derive(Debug, PartialEq, Eq)]
pub enum TotalStep {
    /// Print `line`, send `request`, and report the answer.
    Lookup { line: HoldingLine, request: RateRequest },
    /// Print `line` and give up with `error`: no request can be made.
    Abort { line: HoldingLine, error: CommandError },
    /// Every holding is dealt with: the total is the sum of `terms`, added
    /// from the first to the last, starting at zero.
    Finish { terms: Vec<Term> },
}

pub enum TotalStepView {
    Lookup { line: HoldingLineView, request: RateRequestView },
    Abort { line: HoldingLineView, error: CommandError },
    Finish { terms: Seq<Term> },
}

impl View for TotalStep {
    type V = TotalStepView;

    open spec fn view(&self) -> TotalStepView {
        match self {
            TotalStep::Lookup { line, request } => TotalStepView::Lookup {
                line: line@,
                request: request@,
            },
            TotalStep::Abort { line, error } => TotalStepView::Abort { line: line@, error: *error },
            TotalStep::Finish { terms } => TotalStepView::Finish { terms: terms@ },
        }
    }
}

/// A run of the command, as mathematics: the holdings to go through, the
/// credential, how many holdings have been dealt with, and the products
/// gathered so far.
pub struct TotalRunView {
    pub holdings: Seq<CurrencyView>,
    pub auth_token: Option<AuthTokenView>,
    pub settled: nat,
    pub terms: Seq<Term>,
}

impl TotalRunView {
    /// The run at its beginning.
    pub open spec fn start(state: StateView) -> TotalRunView {
        TotalRunView {
            holdings: state.portfolio.currencies,
            auth_token: state.auth_token,
            settled: 0,
            terms: Seq::empty(),
        }
    }

    /// No holding is left.
    pub open spec fn finished(self) -> bool {
        self.settled >= self.holdings.len()
    }

    /// What is to be done next.
    pub open spec fn step(self) -> TotalStepView {
        if self.finished() {
            TotalStepView::Finish { terms: self.terms }
        } else {
            let holding = self.holdings[self.settled as int];
            if unsendable(self.auth_token) {
                TotalStepView::Abort { line: line_of(holding), error: CommandError::InvalidHeader }
            } else {
                TotalStepView::Lookup {
                    line: line_of(holding),
                    request: request_of(holding, self.auth_token),
                }
            }
        }
    }

    /// The run after the answer to the pending lookup. A rate adds its
    /// product with the holding's amount; a refusal adds nothing. With no
    /// lookup pending the answer changes nothing.
    pub open spec fn record(self, reply: RateReplyView) -> TotalRunView {
        if self.finished() {
            self
        } else {
            TotalRunView {
                settled: self.settled + 1,
                terms: match reply {
                    Ok(response) => self.terms.push(
                        Term {
                            rate: response.rate,
                            amount: self.holdings[self.settled as int].amount,
                        },
                    ),
                    Err(_) => self.terms,
                },
                ..self
            }
        }
    }

    /// What the user is told about the answer to the pending lookup: the
    /// message of a refusal, and nothing about a rate.
    pub open spec fn notice(self, reply: RateReplyView) -> Option<Seq<char>> {
        match reply {
            Err(error) if !self.finished() => Some(error.message),
            _ => None,
        }
    }
}

/// A run of the command.
#[derive(Debug)]
pub struct TotalRun {
    holdings: Vec<Currency>,
    auth_token: Option<AuthToken>,
    settled: usize,
    terms: Vec<Term>,
}

impl View for TotalRun {
    type V = TotalRunView;

    closed spec fn view(&self) -> TotalRunView {
        TotalRunView {
            holdings: self.holdings.deep_view(),
            auth_token: self.auth_token.deep_view(),
            settled: self.settled as nat,
            terms: self.terms@,
        }
    }
}

impl TotalRun {
    /// Begins a run over the holdings of `state`, with its credential.
    pub fn start(state: State) -> (r: TotalRun)
        ensures
            r@ == TotalRunView::start(state@),
    {
        TotalRun {
            holdings: state.portfolio.currencies,
            auth_token: state.auth_token,
            settled: 0,
            terms: Vec::new(),
        }
    }

    /// Whether every holding has been dealt with.
    pub fn finished(&self) -> (r: bool)
        ensures
            r == self@.finished(),
    {
        self.settled >= self.holdings.len()
    }

    /// What the program is to do next. Asking twice gives the same answer:
    /// only [`TotalRun::record`] moves the run on.
    pub fn step(&self) -> (r: TotalStep)
        ensures
            r@ == self@.step(),
    {
        if self.settled >= self.holdings.len() {
            let terms = self.terms.clone();
            assert(terms@ =~= self.terms@);
            return TotalStep::Finish { terms };
        }
        let holding = &self.holdings[self.settled];
        let line = HoldingLine {
            code: holding.code.clone(),
            amount: holding.amount,
            decimals: display_decimals(holding.code.as_str()),
        };
        match rate_request(holding.code.as_str(), "USD", self.auth_token.as_ref()) {
            Ok(request) => TotalStep::Lookup { line, request },
            Err(error) => TotalStep::Abort { line, error },
        }
    }

    /// Takes the answer to the pending lookup and moves on to the next
    /// holding. Returns what the user is to be told, if anything.
    pub fn record(&mut self, reply: Result<GetExchangeRateResponse, ApiError>) -> (notice: Option<
        String,
    >)
        ensures
            final(self)@ == old(self)@.record(rate_reply_view(reply)),
            notice.deep_view() == old(self)@.notice(rate_reply_view(reply)),
    {
        if self.settled >= self.holdings.len() {
            return None;
        }
        let amount = self.holdings[self.settled].amount;
        self.settled = self.settled + 1;
        match reply {
            Ok(response) => {
                self.terms.push(Term { rate: response.rate, amount });
                None
            },
            Err(error) => Some(error.message),
        }
    }
}

impl TotalRunView {
    /// The run after the answers `replies`, taken one after another.
    pub open spec fn record_all(self, replies: Seq<RateReplyView>) -> TotalRunView
        decreases replies.len(),
    {
        if replies.len() == 0 {
            self
        } else {
            self.record_all(replies.drop_last()).record(replies.last())
        }
    }
}

/// The products that the first `count` answers leave to be added up, where
/// `replies[i]` answers the lookup for `holdings[i]`: one for each rate, in
/// the order of the holdings, and none for a refusal.
pub open spec fn terms_of(
    holdings: Seq<CurrencyView>,
    replies: Seq<RateReplyView>,
    count: nat,
) -> Seq<Term>
    decreases count,
{
    if count == 0 {
        Seq::empty()
    } else {
        let earlier = terms_of(holdings, replies, (count - 1) as nat);
        match replies[count - 1] {
            Ok(response) => earlier.push(
                Term { rate: response.rate, amount: holdings[count - 1].amount },
            ),
            Err(_) => earlier,
        }
    }
}

/// The products of the first `count` answers depend on nothing behind them.
proof fn lemma_terms_of_prefix(
    holdings: Seq<CurrencyView>,
    replies: Seq<RateReplyView>,
    others: Seq<CurrencyView>,
    other_replies: Seq<RateReplyView>,
    count: nat,
)
    requires
        forall|i: int| 0 <= i < count ==> holdings[i] == others[i],
        forall|i: int| 0 <= i < count ==> replies[i] == other_replies[i],
    ensures
        terms_of(holdings, replies, count) == terms_of(others, other_replies, count),
    decreases count,
{
    if count > 0 {
        lemma_terms_of_prefix(holdings, replies, others, other_replies, (count - 1) as nat);
    }
}

/// While answers come in, the run has dealt with as many holdings as there
/// were answers, and has gathered their products.
pub proof fn law_run_gathers_terms(state: StateView, replies: Seq<RateReplyView>)
    requires
        replies.len() <= state.portfolio.currencies.len(),
    ensures
        TotalRunView::start(state).record_all(replies) == (TotalRunView {
            settled: replies.len(),
            terms: terms_of(state.portfolio.currencies, replies, replies.len()),
            ..TotalRunView::start(state)
        }),
    decreases replies.len(),
{
    if replies.len() > 0 {
        let earlier = replies.drop_last();
        law_run_gathers_terms(state, earlier);
        lemma_terms_of_prefix(
            state.portfolio.currencies,
            replies,
            state.portfolio.currencies,
            earlier,
            earlier.len(),
        );
    }
}

/// Every holding gets a lookup of its own, in the order in which the
/// holdings were recorded: after `replies.len()` answers the next thing to
/// do is to list and look up the holding at that place, as long as the
/// credential, if there is one, can be sent.
pub proof fn law_lookups_follow_holdings(state: StateView, replies: Seq<RateReplyView>)
    requires
        replies.len() < state.portfolio.currencies.len(),
        !unsendable(state.auth_token),
    ensures
        ({
            let holding = state.portfolio.currencies[replies.len() as int];
            TotalRunView::start(state).record_all(replies).step() == (TotalStepView::Lookup {
                line: line_of(holding),
                request: request_of(holding, state.auth_token),
            })
        }),
{
    law_run_gathers_terms(state, replies);
}

/// Once every lookup is answered, by a rate or by a refusal, the run ends
/// with the products of the rates that came.
pub proof fn law_run_finishes(state: StateView, replies: Seq<RateReplyView>)
    requires
        replies.len() == state.portfolio.currencies.len(),
    ensures
        TotalRunView::start(state).record_all(replies).step() == (TotalStepView::Finish {
            terms: terms_of(state.portfolio.currencies, replies, replies.len()),
        }),
{
    law_run_gathers_terms(state, replies);
}

/// A refused lookup takes nothing from the others: the products are those
/// of the same run without the holding whose lookup was refused.
pub proof fn law_refusal_adds_nothing(
    holdings: Seq<CurrencyView>,
    replies: Seq<RateReplyView>,
    refused: int,
    count: nat,
)
    requires
        0 <= refused < count <= holdings.len(),
        holdings.len() == replies.len(),
        replies[refused] is Err,
    ensures
        terms_of(holdings, replies, count) == terms_of(
            holdings.remove(refused),
            replies.remove(refused),
            (count - 1) as nat,
        ),
    decreases count,
{
    let fewer = holdings.remove(refused);
    let fewer_replies = replies.remove(refused);
    if count == refused + 1 {
        lemma_terms_of_prefix(holdings, replies, fewer, fewer_replies, refused as nat);
    } else {
        law_refusal_adds_nothing(holdings, replies, refused, (count - 1) as nat);
        assert(fewer[count - 2] == holdings[count - 1]);
        assert(fewer_replies[count - 2] == replies[count - 1]);
    }
}

/// One refused lookup does not spoil the rest. Where the credential, if
/// there is one, can be sent, the command never gives up: before the end
/// every step is a lookup, whatever was answered so far; and it ends with
/// the products of the other holdings, as if the refused one were not held.
pub proof fn law_refusal_is_isolated(state: StateView, replies: Seq<RateReplyView>, refused: int)
    requires
        replies.len() == state.portfolio.currencies.len(),
        0 <= refused < replies.len(),
        replies[refused] is Err,
        !unsendable(state.auth_token),
    ensures
        forall|done: int|
            0 <= done < replies.len() ==> (#[trigger] TotalRunView::start(state).record_all(
                replies.take(done),
            )).step() is Lookup,
        TotalRunView::start(state).record_all(replies).step() == (TotalStepView::Finish {
            terms: terms_of(
                state.portfolio.currencies.remove(refused),
                replies.remove(refused),
                (replies.len() - 1) as nat,
            ),
        }),
{
    assert forall|done: int| 0 <= done < replies.len() implies (#[trigger] TotalRunView::start(
        state,
    ).record_all(replies.take(done))).step() is Lookup by {
        law_lookups_follow_holdings(state, replies.take(done));
    }
    law_run_finishes(state, replies);
    law_refusal_adds_nothing(state.portfolio.currencies, replies, refused, replies.len());
}

/// Two holdings of one code stay two: each is listed and looked up by
/// itself, and each rate that comes adds a product of its own.
pub proof fn law_same_code_twice(
    state: StateView,
    code: Seq<char>,
    first: Number,
    second: Number,
    replies: Seq<RateReplyView>,
)
    requires
        replies.len() == state.portfolio.currencies.len() + 2,
        !unsendable(state.auth_token),
    ensures
        ({
            let one = CurrencyView { code, amount: first };
            let other = CurrencyView { code, amount: second };
            let after = state.with_holding(one).with_holding(other);
            let run = TotalRunView::start(after);
            let count = state.portfolio.currencies.len() as int;
            let earlier = terms_of(after.portfolio.currencies, replies, count as nat);
            &&& run.record_all(replies.take(count)).step() == (TotalStepView::Lookup {
                line: line_of(one),
                request: request_of(one, state.auth_token),
            })
            &&& run.record_all(replies.take(count + 1)).step() == (TotalStepView::Lookup {
                line: line_of(other),
                request: request_of(other, state.auth_token),
            })
            &&& replies[count] is Ok && replies[count + 1] is Ok ==> run.record_all(replies).step()
                == (TotalStepView::Finish {
                terms: earlier.push((Term { rate: replies[count]->Ok_0.rate, amount: first })).push(
                    (Term { rate: replies[count + 1]->Ok_0.rate, amount: second }),
                ),
            })
        }),
{
    let one = CurrencyView { code, amount: first };
    let other = CurrencyView { code, amount: second };
    let after = state.with_holding(one).with_holding(other);
    let holdings = after.portfolio.currencies;
    let count = state.portfolio.currencies.len() as int;
    law_lookups_follow_holdings(after, replies.take(count));
    law_lookups_follow_holdings(after, replies.take(count + 1));
    law_run_finishes(after, replies);
    assert(holdings[count] == one);
    assert(holdings[count + 1] == other);
    assert(terms_of(holdings, replies, (count + 2) as nat) == {
        let upto = terms_of(holdings, replies, (count + 1) as nat);
        match replies[count + 1] {
            Ok(response) => upto.push(Term { rate: response.rate, amount: second }),
            Err(_) => upto,
        }
    });
    assert(terms_of(holdings, replies, (count + 1) as nat) == {
        let upto = terms_of(holdings, replies, count as nat);
        match replies[count] {
            Ok(response) => upto.push(Term { rate: response.rate, amount: first }),
            Err(_) => upto,
        }
    });
}

} // verus!
