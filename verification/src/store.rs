//! The life of the stored state: what loading makes of what was found on
//! disk, and the changes that the commands make to it.
//!
//! A command that changes the state does not touch it directly. It returns a
//! [`StoreUpdate`]; the program then loads the state, applies the update and
//! saves the result. A command that fails returns no update, so the state
//! file is neither read nor written.

use crate::error::CommandError;
use crate::model::{
    ApiError, ApiErrorView, AuthToken, AuthTokenView, Currency, CurrencyView, Number,
    PortfolioView, PostUserResponse, PostUserResponseView, State, StateView, User, UserView,
};
use vstd::prelude::*;
use vstd::string::*;

verus! {

/// What the program found where the state file is kept.
#[derive(Debug, PartialEq, Eq)]
pub enum Stored {
    /// There is no file.
    Absent,
    /// There is a file, and it does not hold a state.
    Unreadable,
    /// There is a file, and it holds this state.
    Found(State),
}

/// The state to work on, given what was found on disk: the stored state, the
/// empty state where nothing was stored yet, and no state at all where the
/// file is damaged. Loading never creates the file.
pub fn load_state(stored: Stored) -> (r: Result<State, CommandError>)
    ensures
        match stored {
            Stored::Absent => r is Ok && r->Ok_0@ == StateView::empty(),
            Stored::Unreadable => r == Err::<State, CommandError>(CommandError::StateCorrupt),
            Stored::Found(state) => r == Ok::<State, CommandError>(state),
        },
{
    match stored {
        Stored::Absent => Ok(State::new()),
        Stored::Unreadable => Err(CommandError::StateCorrupt),
        Stored::Found(state) => Ok(state),
    }
}

impl StateView {
    /// The state after signing up as `user` with `auth_token`: both replace
    /// what was there, and the holdings stay.
    pub open spec fn with_credentials(self, user: UserView, auth_token: AuthTokenView) -> StateView {
        StateView { user: Some(user), auth_token: Some(auth_token), ..self }
    }

    /// The state after recording `holding`: it comes last, behind all earlier
    /// holdings, whether or not its code is held already.
    pub open spec fn with_holding(self, holding: CurrencyView) -> StateView {
        StateView {
            portfolio: PortfolioView { currencies: self.portfolio.currencies.push(holding) },
            ..self
        }
    }
}

impl State {
    /// Stores who signed up, and the credential.
    pub fn set_credentials(&mut self, user: User, auth_token: AuthToken)
        ensures
            final(self)@ == old(self)@.with_credentials(user@, auth_token@),
    {
        self.user = Some(user);
        self.auth_token = Some(auth_token);
    }

    /// Records a holding behind the ones that are there.
    pub fn add_holding(&mut self, holding: Currency)
        ensures
            final(self)@ == old(self)@.with_holding(holding@),
    {
        self.portfolio.currencies.push(holding);
        assert(self.portfolio.currencies.deep_view() =~= old(self).portfolio.currencies.deep_view().push(
            holding@,
        ));
    }
}

/// A change to the stored state.
#[derive(Debug, PartialEq, Eq)]
pub enum StoreUpdate {
    /// Store who signed up, and the credential.
    Credentials { user: User, auth_token: AuthToken },
    /// Record a holding.
    Holding(Currency),
}

pub enum StoreUpdateView {
    Credentials { user: UserView, auth_token: AuthTokenView },
    Holding(CurrencyView),
}

impl View for StoreUpdate {
    type V = StoreUpdateView;

    open spec fn view(&self) -> StoreUpdateView {
        match self {
            StoreUpdate::Credentials { user, auth_token } => StoreUpdateView::Credentials {
                user: user@,
                auth_token: auth_token@,
            },
            StoreUpdate::Holding(holding) => StoreUpdateView::Holding(holding@),
        }
    }
}

impl DeepView for StoreUpdate {
    type V = StoreUpdateView;

    open spec fn deep_view(&self) -> StoreUpdateView {
        self@
    }
}

impl StoreUpdateView {
    /// The state after the change.
    pub open spec fn applied(self, state: StateView) -> StateView {
        match self {
            StoreUpdateView::Credentials { user, auth_token } => state.with_credentials(
                user,
                auth_token,
            ),
            StoreUpdateView::Holding(holding) => state.with_holding(holding),
        }
    }
}

/// The state after a command that asked for `update`, or for none.
pub open spec fn state_after(update: Option<StoreUpdateView>, state: StateView) -> StateView {
    match update {
        Some(change) => change.applied(state),
        None => state,
    }
}

impl StoreUpdate {
    /// Makes the change to `state`.
    pub fn apply(self, state: &mut State)
        ensures
            final(state)@ == self@.applied(old(state)@),
    {
        match self {
            StoreUpdate::Credentials { user, auth_token } => state.set_credentials(user, auth_token),
            StoreUpdate::Holding(holding) => state.add_holding(holding),
        }
    }
}

/// Sets a holding: `amount` of `code` is to be recorded as a new entry.
///
/// The amount is the number that the user's text stands for, and `None`
/// where it stands for none: the command then fails and asks for no change.
pub fn set_currency(code: &str, amount: Option<Number>) -> (r: Result<StoreUpdate, CommandError>)
    ensures
        match amount {
            Some(number) => r is Ok && r->Ok_0@ == StoreUpdateView::Holding(
                CurrencyView { code: code@, amount: number },
            ),
            None => r == Err::<StoreUpdate, CommandError>(CommandError::InvalidAmount),
        },
{
    match amount {
        Some(number) => Ok(StoreUpdate::Holding(Currency { code: code.to_owned(), amount: number })),
        None => Err(CommandError::InvalidAmount),
    }
}

/// What the service said to a signup.
pub type SignupReplyView = Result<PostUserResponseView, ApiErrorView>;

/// The view of an answer to a signup.
pub open spec fn signup_reply_view(reply: Result<PostUserResponse, ApiError>) -> SignupReplyView {
    match reply {
        Ok(response) => Ok(response@),
        Err(error) => Err(error@),
    }
}

/// What a signup comes to: what the user is told, and the change to make to
/// the stored state, if any.
#[derive(Debug, PartialEq, Eq)]
pub struct SignupReport {
    pub message: String,
    pub update: Option<StoreUpdate>,
}

pub struct SignupReportView {
    pub message: Seq<char>,
    pub update: Option<StoreUpdateView>,
}

impl View for SignupReport {
    type V = SignupReportView;

    open spec fn view(&self) -> SignupReportView {
        SignupReportView { message: self.message@, update: self.update.deep_view() }
    }
}

/// What a signup comes to. Accepted, the user is greeted by name and the new
/// credentials are to be stored; refused, the user reads the service's
/// message and nothing is to be stored.
pub open spec fn signup_report(reply: SignupReplyView) -> SignupReportView {
    match reply {
        Ok(response) => SignupReportView {
            message: "Signed up as "@ + response.user.username,
            update: Some(
                StoreUpdateView::Credentials {
                    user: response.user,
                    auth_token: response.auth_token,
                },
            ),
        },
        Err(error) => SignupReportView { message: error.message, update: None },
    }
}

/// Reads the service's answer to a signup.
pub fn signup(reply: Result<PostUserResponse, ApiError>) -> (r: SignupReport)
    ensures
        r@ == signup_report(signup_reply_view(reply)),
{
    match reply {
        Ok(response) => {
            let mut message = "Signed up as ".to_owned();
            message.append(response.user.username.as_str());
            SignupReport {
                message,
                update: Some(
                    StoreUpdate::Credentials {
                        user: response.user,
                        auth_token: response.auth_token,
                    },
                ),
            }
        },
        Err(error) => SignupReport { message: error.message, update: None },
    }
}

/// A refused signup leaves the stored state as it is: it asks for no change,
/// so nothing is loaded and nothing is written.
pub proof fn law_refused_signup_keeps_state(reply: SignupReplyView, state: StateView)
    requires
        reply is Err,
    ensures
        signup_report(reply).update is None,
        state_after(signup_report(reply).update, state) == state,
{
}

/// An accepted signup replaces the user and the credential, and keeps every
/// holding that was recorded before.
pub proof fn law_accepted_signup_keeps_holdings(reply: SignupReplyView, state: StateView)
    requires
        reply is Ok,
    ensures
        state_after(signup_report(reply).update, state) == (StateView {
            user: Some(reply->Ok_0.user),
            auth_token: Some(reply->Ok_0.auth_token),
            portfolio: state.portfolio,
        }),
{
}

/// Setting a holding never merges: two holdings set one after the other
/// become the last two entries, in that order, behind all earlier ones,
/// also where both have the same code.
pub proof fn law_holdings_accumulate(state: StateView, first: CurrencyView, second: CurrencyView)
    ensures
        ({
            let before = state.portfolio.currencies;
            let after = state.with_holding(first).with_holding(second);
            &&& after.portfolio.currencies == before + seq![first, second]
            &&& after.portfolio.currencies.len() == before.len() + 2
            &&& after.user == state.user
            &&& after.auth_token == state.auth_token
        }),
{
    let before = state.portfolio.currencies;
    assert(before.push(first).push(second) =~= before + seq![first, second]);
}

} // verus!
