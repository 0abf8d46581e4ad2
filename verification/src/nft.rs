//! Records of NFT contracts, and the rules that turn what a token declares
//! into the URL of its image.

use crate::text::join;
use crate::text::same_text;
use crate::text::starts_with;
use crate::text::strip_prefix;
use vstd::prelude::*;

verus! {

/// What a token's metadata says of its image.
#[derive(Clone, Debug, PartialEq, Eq)]
pub struct TokenMetadata {
    /// The image itself: a URL, a path below the contract's base URI, or a content id.
    pub media: Option<String>,
    /// Where a record with more about the token is kept.
    pub reference: Option<String>,
}

pub struct TokenMetadataView {
    pub media: Option<Seq<char>>,
    pub reference: Option<Seq<char>>,
}

impl DeepView for TokenMetadata {
    type V = TokenMetadataView;

    open spec fn deep_view(&self) -> TokenMetadataView {
        TokenMetadataView { media: self.media.deep_view(), reference: self.reference.deep_view() }
    }
}

impl View for TokenMetadata {
    type V = TokenMetadataView;

    open spec fn view(&self) -> TokenMetadataView {
        self.deep_view()
    }
}

/// A token as its contract reports it.
#[derive(Clone, Debug, PartialEq, Eq)]
pub struct Token {
    pub owner_id: String,
    pub metadata: Option<TokenMetadata>,
}

pub struct TokenView {
    pub owner_id: Seq<char>,
    pub metadata: Option<TokenMetadataView>,
}

impl DeepView for Token {
    type V = TokenView;

    open spec fn deep_view(&self) -> TokenView {
        TokenView { owner_id: self.owner_id@, metadata: self.metadata.deep_view() }
    }
}

impl View for Token {
    type V = TokenView;

    open spec fn view(&self) -> TokenView {
        self.deep_view()
    }
}

/// The record that a token's reference leads to.
#[derive(Clone, Debug, PartialEq, Eq)]
pub struct Reference {
    pub media: Option<String>,
}

pub struct ReferenceView {
    pub media: Option<Seq<char>>,
}

impl DeepView for Reference {
    type V = ReferenceView;

    open spec fn deep_view(&self) -> ReferenceView {
        ReferenceView { media: self.media.deep_view() }
    }
}

impl View for Reference {
    type V = ReferenceView;

    open spec fn view(&self) -> ReferenceView {
        self.deep_view()
    }
}

impl Default for Reference {
    fn default() -> (r: Self)
        ensures
            r@ == (ReferenceView { media: None }),
    {
        Reference { media: None }
    }
}

/// What `serde_json` reads from `body` as the metadata of an NFT contract:
/// `None` where `body` is no such record, else the base URI that the record
/// declares, if it declares one.
pub uninterp spec fn contract_base_uri(body: Seq<u8>) -> Option<Option<Seq<char>>>;

/// Decodes `body` with `near_sdk::serde_json::from_slice` as an
/// `NFTContractMetadata` of `near_contract_standards`, and hands out the
/// record's `base_uri`. The result is a function of the bytes alone.
#[verifier::external_body]
pub(crate) fn decode_base_uri(body: &[u8]) -> (r: Option<Option<String>>)
    ensures
        r.deep_view() == contract_base_uri(body@),
{
    match near_sdk::serde_json::from_slice::<
        near_contract_standards::non_fungible_token::metadata::NFTContractMetadata,
    >(body) {
        Ok(metadata) => Some(metadata.base_uri),
        Err(_) => None,
    }
}

/// The media that `token` declares; a token without metadata or without
/// media declares the empty text.
pub open spec fn token_media(token: Option<TokenView>) -> Seq<char> {
    if token is Some && token->0.metadata is Some && token->0.metadata->0.media is Some {
        token->0.metadata->0.media->0
    } else {
        Seq::empty()
    }
}

/// The reference that `token` declares, if any.
pub open spec fn token_reference(token: Option<TokenView>) -> Option<Seq<char>> {
    if token is Some && token->0.metadata is Some {
        token->0.metadata->0.reference
    } else {
        None
    }
}

/// Whether `url` names its own origin over HTTP.
pub open spec fn is_absolute(url: Seq<char>) -> bool {
    "https://"@.is_prefix_of(url) || "http://"@.is_prefix_of(url)
}

/// The URL at which the record behind `reference` is kept, where the rules
/// give one. Below the archival origin a reference that is not absolute is a
/// path; an absolute reference is its own URL; one in the archival scheme is
/// a path below the archival origin; any other leads nowhere.
pub open spec fn reference_target(base_uri: Option<Seq<char>>, reference: Seq<char>) -> Option<
    Seq<char>,
> {
    if base_uri == Some("https://arweave.net"@) && !is_absolute(reference) {
        Some("https://arweave.net/"@ + reference)
    } else if is_absolute(reference) {
        Some(reference)
    } else if "ar://"@.is_prefix_of(reference) {
        Some("https://arweave.net/"@ + reference.skip("ar://"@.len() as int))
    } else {
        None
    }
}

/// The URL of the image that `media` names. An absolute URL and an inline
/// image stand for themselves; under a base URI anything else is a path below
/// it; without one a content id is read through the content gateway, and
/// what is left stands for itself.
pub open spec fn media_target(base_uri: Option<Seq<char>>, media: Seq<char>) -> Seq<char> {
    if is_absolute(media) || "data:image"@.is_prefix_of(media) {
        media
    } else if base_uri is Some {
        base_uri->0 + "/"@ + media
    } else if "Qm"@.is_prefix_of(media) || "ba"@.is_prefix_of(media) {
        "https://ipfs.near.social/ipfs"@ + "/"@ + media
    } else {
        media
    }
}

/// Whether `url` begins with `http://` or `https://`.
pub fn absolute(url: &str) -> (r: bool)
    ensures
        r == is_absolute(url@),
{
    starts_with(url, "https://") || starts_with(url, "http://")
}

/// Where to fetch the record that `reference` names, for a contract with
/// the base URI `base_uri`.
pub fn reference_url(base_uri: Option<&str>, reference: &str) -> (r: Option<String>)
    ensures
        r.deep_view() == reference_target(base_uri.deep_view(), reference@),
{
    let archival = match base_uri {
        Some(base) => same_text(base, "https://arweave.net"),
        None => false,
    };
    let is_absolute = absolute(reference);
    if archival && !is_absolute {
        Some(join("https://arweave.net/", reference))
    } else if is_absolute {
        Some(reference.to_owned())
    } else {
        match strip_prefix(reference, "ar://") {
            Some(path) => Some(join("https://arweave.net/", path.as_str())),
            None => None,
        }
    }
}

/// The URL of the image that a token's `media` names, for a contract with
/// the base URI `base_uri`.
pub fn media_url(base_uri: Option<&str>, media: &str) -> (r: String)
    ensures
        r@ == media_target(base_uri.deep_view(), media@),
{
    if absolute(media) || starts_with(media, "data:image") {
        media.to_owned()
    } else if let Some(base) = base_uri {
        let mut url = join(base, "/");
        url.append(media);
        url
    } else if starts_with(media, "Qm") || starts_with(media, "ba") {
        let mut url = join("https://ipfs.near.social/ipfs", "/");
        url.append(media);
        url
    } else {
        media.to_owned()
    }
}

} // verus!
