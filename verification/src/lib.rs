//! Link previews for a social network, resolved round by round.
//!
//! A host asks with a path and with what it has fetched so far. The answer
//! is either final (a status, a text, or the card of a page) or a list of
//! URLs that the host has to fetch before it asks again. This crate fetches
//! nothing itself: [`Contract::web4_get`] is a function of the request.
//!
//! Two things are left to the host. It decodes the bodies it has fetched
//! into the records that this crate defines ([`social::Social`],
//! [`nft::Token`], [`nft::Reference`]) and hands them over beside the
//! bodies, in a [`web4::Preload`]; only the metadata of an NFT contract,
//! whose format the NFT standard defines, is decoded here. And it renders
//! the card of a final answer into a page, with a template of its own,
//! before it turns the answer into a response with
//! [`web4::Resolution::into_response`].
//!
//! What holds across rounds is stated and proved in [`laws`].

use vstd::prelude::*;

pub mod account;
pub mod laws;
pub mod nft;
pub mod preview;
pub mod resolver;
pub mod route;
pub mod social;
pub mod text;
pub mod web4;

verus! {

/// The resolver. It keeps no state: every round stands for itself.
#[derive(Clone, Copy, Debug)]
pub struct Contract {}

impl Default for Contract {
    fn default() -> (r: Self)
        ensures
            r == (Contract {  }),
    {
        Contract {  }
    }
}

} // verus!
