//! Authenticated, paginated access to subreddit post listings.
//!
//! The library holds the decisions of the client: what a token exchange
//! answer means, when an authenticated request is retried after logging in
//! again, and how a listing page turns into posts handed out one by one.
//! The network round trips themselves are made by the caller, who feeds
//! their outcomes back into these state machines.
pub mod auth;
pub mod client;
pub mod error;
pub mod things;

pub use auth::{
    default_agent, exchange_result, ApplicationAuthenticator, Authenticator, ClientInfo,
    Credentials, ExchangeResponse, ScriptAuthenticator, Token, TokenRequest,
};
pub use client::{check_auth, initial_session, GetAction, GetCall, GetEvent, GetPhase, Session};
pub use error::{decimal_string, Error};
pub use things::{
    Comment, FeedStep, Me, PageRequest, Pagination, Post, PostFeed, RawComment, RawKind,
    RawListing, RawListingData, RawPostData, Subreddit,
};
