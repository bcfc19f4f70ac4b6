//! The rules of a command-line portfolio tracker: the state it keeps between
//! runs, the requests it sends to the remote service, and what each command
//! does with the answers.
//!
//! The library performs no input or output. The program around it reads and
//! writes the state file, talks to the service and prints; it hands plain
//! values to the functions here and acts on what they return.

pub mod error;
pub mod model;
pub mod remote;
pub mod store;
pub mod total;
pub mod verbosity;

pub use error::CommandError;
pub use model::{
    ApiError, AuthToken, Currency, GetExchangeRateResponse, Number, Portfolio, PostUserResponse,
    State, User,
};
pub use store::{load_state, set_currency, signup, SignupReport, StoreUpdate, Stored};
pub use total::{Term, TotalRun, TotalStep};
