//! The router: from a path to the kind of page it asks for.

use crate::account::accepted_account_id;
use crate::account::valid_account_id;
use crate::text::parse_u64;
use crate::text::parsed_u64;
use crate::text::same_text;
use crate::text::split_at_first;
use crate::text::split_once;
use crate::text::strip_prefix;
use crate::web4::Web4Error;
use crate::web4::outcome_view;
use vstd::prelude::*;

verus! {

/// What a path asks for.
#[derive(Clone, Debug, PartialEq, Eq)]
pub enum Route {
    /// The crawler policy.
    Robots,
    /// The image of one token.
    NftImage { contract_id: String, token_id: String },
    /// The card of an account's profile.
    Profile { account_id: String },
    /// The card of a post.
    Post { account_id: String, block_height: u64 },
    /// The card of a comment.
    Comment { account_id: String, block_height: u64 },
    /// The card of the site itself: what any other path gets.
    Home,
    /// A path for a token, a post or a comment that stops after its first
    /// segment: there is nothing to show.
    Incomplete,
}

pub enum RouteView {
    Robots,
    NftImage { contract_id: Seq<char>, token_id: Seq<char> },
    Profile { account_id: Seq<char> },
    Post { account_id: Seq<char>, block_height: u64 },
    Comment { account_id: Seq<char>, block_height: u64 },
    Home,
    Incomplete,
}

impl DeepView for Route {
    type V = RouteView;

    open spec fn deep_view(&self) -> RouteView {
        match self {
            Route::Robots => RouteView::Robots,
            Route::NftImage { contract_id, token_id } => RouteView::NftImage {
                contract_id: contract_id@,
                token_id: token_id@,
            },
            Route::Profile { account_id } => RouteView::Profile { account_id: account_id@ },
            Route::Post { account_id, block_height } => RouteView::Post {
                account_id: account_id@,
                block_height: *block_height,
            },
            Route::Comment { account_id, block_height } => RouteView::Comment {
                account_id: account_id@,
                block_height: *block_height,
            },
            Route::Home => RouteView::Home,
            Route::Incomplete => RouteView::Incomplete,
        }
    }
}

impl View for Route {
    type V = RouteView;

    open spec fn view(&self) -> RouteView {
        self.deep_view()
    }
}

/// The route of a token path, given what follows `/nft/`: the contract up
/// to the first `/`, the token after it.
pub open spec fn nft_route_of(rest: Seq<char>) -> Result<RouteView, Web4Error> {
    match split_at_first(rest, '/') {
        None => Ok(RouteView::Incomplete),
        Some((contract_id, token_id)) => if valid_account_id(contract_id) {
            Ok(RouteView::NftImage { contract_id, token_id })
        } else {
            Err(Web4Error::InvalidNftAccountId)
        },
    }
}

/// The route of a profile path, given what follows `/u/`.
pub open spec fn profile_route_of(rest: Seq<char>) -> Result<RouteView, Web4Error> {
    if valid_account_id(rest) {
        Ok(RouteView::Profile { account_id: rest })
    } else {
        Err(Web4Error::InvalidAccountId)
    }
}

/// The route of a post or comment path, given what follows `/p/` or `/c/`:
/// the account up to the first `/`, the block height after it. The account
/// is judged before the block height.
pub open spec fn post_route_of(rest: Seq<char>, is_post: bool) -> Result<RouteView, Web4Error> {
    match split_at_first(rest, '/') {
        None => Ok(RouteView::Incomplete),
        Some((account_id, block_height)) => if !valid_account_id(account_id) {
            Err(Web4Error::InvalidAccountId)
        } else {
            match parsed_u64(block_height) {
                None => Err(Web4Error::InvalidBlockHeight),
                Some(block_height) => if is_post {
                    Ok(RouteView::Post { account_id, block_height })
                } else {
                    Ok(RouteView::Comment { account_id, block_height })
                },
            }
        },
    }
}

/// The route of `path`. The kinds are tried in a fixed order: the crawler
/// policy, a token, a profile, a post, a comment; any other path is the
/// site's own.
pub open spec fn route_of(path: Seq<char>) -> Result<RouteView, Web4Error> {
    if path == "/robots.txt"@ {
        Ok(RouteView::Robots)
    } else if "/nft/"@.is_prefix_of(path) {
        nft_route_of(path.skip("/nft/"@.len() as int))
    } else if "/u/"@.is_prefix_of(path) {
        profile_route_of(path.skip("/u/"@.len() as int))
    } else if "/p/"@.is_prefix_of(path) {
        post_route_of(path.skip("/p/"@.len() as int), true)
    } else if "/c/"@.is_prefix_of(path) {
        post_route_of(path.skip("/c/"@.len() as int), false)
    } else {
        Ok(RouteView::Home)
    }
}

impl Route {
    /// Reads what follows `/nft/` in a path.
    pub fn parse_nft(rest: &str) -> (r: Result<Route, Web4Error>)
        ensures
            outcome_view(r) == nft_route_of(rest@),
    {
        match split_once(rest, '/') {
            None => Ok(Route::Incomplete),
            Some((contract_id, token_id)) => {
                if accepted_account_id(contract_id.as_str()) {
                    Ok(Route::NftImage { contract_id, token_id })
                } else {
                    Err(Web4Error::InvalidNftAccountId)
                }
            },
        }
    }

    /// Reads what follows `/u/` in a path.
    pub fn parse_profile(rest: String) -> (r: Result<Route, Web4Error>)
        ensures
            outcome_view(r) == profile_route_of(rest@),
    {
        if accepted_account_id(rest.as_str()) {
            Ok(Route::Profile { account_id: rest })
        } else {
            Err(Web4Error::InvalidAccountId)
        }
    }

    /// Reads what follows `/p/` or `/c/` in a path.
    pub fn parse_post(rest: &str, is_post: bool) -> (r: Result<Route, Web4Error>)
        ensures
            outcome_view(r) == post_route_of(rest@, is_post),
    {
        match split_once(rest, '/') {
            None => Ok(Route::Incomplete),
            Some((account_id, block_height)) => {
                if !accepted_account_id(account_id.as_str()) {
                    return Err(Web4Error::InvalidAccountId);
                }
                match parse_u64(block_height.as_str()) {
                    None => Err(Web4Error::InvalidBlockHeight),
                    Some(block_height) => if is_post {
                        Ok(Route::Post { account_id, block_height })
                    } else {
                        Ok(Route::Comment { account_id, block_height })
                    },
                }
            },
        }
    }

    /// Classifies `path`.
    pub fn parse(path: &str) -> (r: Result<Route, Web4Error>)
        ensures
            outcome_view(r) == route_of(path@),
    {
        if same_text(path, "/robots.txt") {
            return Ok(Route::Robots);
        }
        if let Some(rest) = strip_prefix(path, "/nft/") {
            return Route::parse_nft(rest.as_str());
        }
        if let Some(rest) = strip_prefix(path, "/u/") {
            return Route::parse_profile(rest);
        }
        if let Some(rest) = strip_prefix(path, "/p/") {
            return Route::parse_post(rest.as_str(), true);
        }
        if let Some(rest) = strip_prefix(path, "/c/") {
            return Route::parse_post(rest.as_str(), false);
        }
        Ok(Route::Home)
    }
}

} // verus!
