//! The data the tracker keeps and exchanges, each type with its mathematical view.

use vstd::prelude::*;

verus! {

/// A binary64 number, carried as its IEEE 754 bit pattern.
///
/// The library stores and hands on amounts and rates without ever computing
/// with them, so the bit pattern is all it needs; two numbers are the same
/// exactly when their patterns are.
#[derive(Clone, Copy, Debug, PartialEq, Eq, Structural)]
pub struct Number {
    pub bits: u64,
}

impl Number {
    /// The number with the bit pattern `bits`.
    pub fn from_bits(bits: u64) -> (r: Number)
        ensures
            r.bits == bits,
    {
        Number { bits }
    }

    /// The bit pattern of the number.
    pub fn to_bits(&self) -> (r: u64)
        ensures
            r == self.bits,
    {
        self.bits
    }
}

/// The registered user.
#[derive(Debug, PartialEq, Eq)]
pub struct User {
    pub username: String,
}

pub struct UserView {
    pub username: Seq<char>,
}

impl View for User {
    type V = UserView;

    open spec fn view(&self) -> UserView {
        UserView { username: self.username@ }
    }
}

impl DeepView for User {
    type V = UserView;

    open spec fn deep_view(&self) -> UserView {
        self@
    }
}

impl Clone for User {
    fn clone(&self) -> (r: User)
        ensures
            r@ == self@,
    {
        User { username: self.username.clone() }
    }
}

/// The bearer credential that the service handed out at signup.
#[derive(Debug, PartialEq, Eq)]
pub struct AuthToken {
    pub id: String,
}

pub struct AuthTokenView {
    pub id: Seq<char>,
}

impl View for AuthToken {
    type V = AuthTokenView;

    open spec fn view(&self) -> AuthTokenView {
        AuthTokenView { id: self.id@ }
    }
}

impl DeepView for AuthToken {
    type V = AuthTokenView;

    open spec fn deep_view(&self) -> AuthTokenView {
        self@
    }
}

impl Clone for AuthToken {
    fn clone(&self) -> (r: AuthToken)
        ensures
            r@ == self@,
    {
        AuthToken { id: self.id.clone() }
    }
}

/// A holding: so much of one currency or ticker symbol.
#[derive(Debug, PartialEq, Eq)]
pub struct Currency {
    pub code: String,
    pub amount: Number,
}

pub struct CurrencyView {
    pub code: Seq<char>,
    pub amount: Number,
}

impl View for Currency {
    type V = CurrencyView;

    open spec fn view(&self) -> CurrencyView {
        CurrencyView { code: self.code@, amount: self.amount }
    }
}

impl DeepView for Currency {
    type V = CurrencyView;

    open spec fn deep_view(&self) -> CurrencyView {
        self@
    }
}

impl Clone for Currency {
    fn clone(&self) -> (r: Currency)
        ensures
            r@ == self@,
    {
        Currency { code: self.code.clone(), amount: self.amount }
    }
}

/// The holdings, in the order in which they were recorded. A code may occur
/// more than once.
#[derive(Debug, PartialEq, Eq)]
pub struct Portfolio {
    pub currencies: Vec<Currency>,
}

pub struct PortfolioView {
    pub currencies: Seq<CurrencyView>,
}

impl View for Portfolio {
    type V = PortfolioView;

    open spec fn view(&self) -> PortfolioView {
        PortfolioView { currencies: self.currencies.deep_view() }
    }
}

impl DeepView for Portfolio {
    type V = PortfolioView;

    open spec fn deep_view(&self) -> PortfolioView {
        self@
    }
}

impl Clone for Portfolio {
    fn clone(&self) -> (r: Portfolio)
        ensures
            r@ == self@,
    {
        let mut currencies: Vec<Currency> = Vec::new();
        let mut i: usize = 0;
        while i < self.currencies.len()
            invariant
                i <= self.currencies.len(),
                currencies.len() == i,
                forall|k: int| 0 <= k < i ==> currencies[k]@ == self.currencies[k]@,
            decreases self.currencies.len() - i,
        {
            currencies.push(self.currencies[i].clone());
            i += 1;
        }
        assert(currencies.deep_view() =~= self.currencies.deep_view());
        Portfolio { currencies }
    }
}

/// Everything the tracker keeps between runs.
#[derive(Debug, PartialEq, Eq)]
pub struct State {
    pub user: Option<User>,
    pub auth_token: Option<AuthToken>,
    pub portfolio: Portfolio,
}

pub struct StateView {
    pub user: Option<UserView>,
    pub auth_token: Option<AuthTokenView>,
    pub portfolio: PortfolioView,
}

impl StateView {
    /// The state of a fresh installation: nobody signed up, nothing held.
    pub open spec fn empty() -> StateView {
        StateView {
            user: None,
            auth_token: None,
            portfolio: PortfolioView { currencies: Seq::empty() },
        }
    }
}

impl View for State {
    type V = StateView;

    open spec fn view(&self) -> StateView {
        StateView {
            user: self.user.deep_view(),
            auth_token: self.auth_token.deep_view(),
            portfolio: self.portfolio@,
        }
    }
}

impl DeepView for State {
    type V = StateView;

    open spec fn deep_view(&self) -> StateView {
        self@
    }
}

impl State {
    /// The state of a fresh installation.
    pub fn new() -> (r: State)
        ensures
            r@ == StateView::empty(),
    {
        let r = State { user: None, auth_token: None, portfolio: Portfolio { currencies: Vec::new() } };
        assert(r.portfolio.currencies.deep_view() =~= Seq::empty());
        r
    }
}

impl Clone for State {
    fn clone(&self) -> (r: State)
        ensures
            r@ == self@,
    {
        let user = match &self.user {
            Some(u) => Some(u.clone()),
            None => None,
        };
        let auth_token = match &self.auth_token {
            Some(t) => Some(t.clone()),
            None => None,
        };
        State { user, auth_token, portfolio: self.portfolio.clone() }
    }
}

/// What the service answers to a successful signup.
#[derive(Debug, PartialEq, Eq)]
pub struct PostUserResponse {
    pub user: User,
    pub auth_token: AuthToken,
}

pub struct PostUserResponseView {
    pub user: UserView,
    pub auth_token: AuthTokenView,
}

impl View for PostUserResponse {
    type V = PostUserResponseView;

    open spec fn view(&self) -> PostUserResponseView {
        PostUserResponseView { user: self.user@, auth_token: self.auth_token@ }
    }
}

impl DeepView for PostUserResponse {
    type V = PostUserResponseView;

    open spec fn deep_view(&self) -> PostUserResponseView {
        self@
    }
}

impl Clone for PostUserResponse {
    fn clone(&self) -> (r: PostUserResponse)
        ensures
            r@ == self@,
    {
        PostUserResponse { user: self.user.clone(), auth_token: self.auth_token.clone() }
    }
}

/// What the service answers to a successful exchange-rate lookup: one unit of
/// `quote` is worth `rate` units of `base`.
#[derive(Debug, PartialEq, Eq)]
pub struct GetExchangeRateResponse {
    pub quote: String,
    pub base: String,
    pub rate: Number,
}

pub struct GetExchangeRateResponseView {
    pub quote: Seq<char>,
    pub base: Seq<char>,
    pub rate: Number,
}

impl View for GetExchangeRateResponse {
    type V = GetExchangeRateResponseView;

    open spec fn view(&self) -> GetExchangeRateResponseView {
        GetExchangeRateResponseView { quote: self.quote@, base: self.base@, rate: self.rate }
    }
}

impl DeepView for GetExchangeRateResponse {
    type V = GetExchangeRateResponseView;

    open spec fn deep_view(&self) -> GetExchangeRateResponseView {
        self@
    }
}

impl Clone for GetExchangeRateResponse {
    fn clone(&self) -> (r: GetExchangeRateResponse)
        ensures
            r@ == self@,
    {
        GetExchangeRateResponse {
            quote: self.quote.clone(),
            base: self.base.clone(),
            rate: self.rate,
        }
    }
}

/// What the service answers when it turns a request down. It is shown to the
/// user and never stored.
#[derive(Debug, PartialEq, Eq)]
pub struct ApiError {
    pub code: u16,
    pub message: String,
}

pub struct ApiErrorView {
    pub code: u16,
    pub message: Seq<char>,
}

impl View for ApiError {
    type V = ApiErrorView;

    open spec fn view(&self) -> ApiErrorView {
        ApiErrorView { code: self.code, message: self.message@ }
    }
}

impl DeepView for ApiError {
    type V = ApiErrorView;

    open spec fn deep_view(&self) -> ApiErrorView {
        self@
    }
}

impl Clone for ApiError {
    fn clone(&self) -> (r: ApiError)
        ensures
            r@ == self@,
    {
        ApiError { code: self.code, message: self.message.clone() }
    }
}

} // verus!
