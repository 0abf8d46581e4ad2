//! The request that a host hands in and the responses that go back to it.

use crate::nft::Reference;
use crate::nft::ReferenceView;
use crate::nft::Token;
use crate::nft::TokenView;
use crate::social::AccountDataView;
use crate::social::Social;
use crate::text::same_text;
use vstd::prelude::*;
use vstd::string::*;
use vstd::utf8::encode_utf8;

verus! {

/// A response as it travels between the host and this crate.
#[derive(Clone, Debug, PartialEq, Eq)]
pub struct Web4Response {
    pub content_type: Option<String>,
    pub status: Option<u32>,
    pub body: Option<Vec<u8>>,
    pub body_url: Option<String>,
    pub preload_urls: Option<Vec<String>>,
}

pub struct Web4ResponseView {
    pub content_type: Option<Seq<char>>,
    pub status: Option<u32>,
    pub body: Option<Seq<u8>>,
    pub body_url: Option<Seq<char>>,
    pub preload_urls: Option<Seq<Seq<char>>>,
}

impl DeepView for Web4Response {
    type V = Web4ResponseView;

    open spec fn deep_view(&self) -> Web4ResponseView {
        Web4ResponseView {
            content_type: self.content_type.deep_view(),
            status: self.status,
            body: match self.body {
                Some(body) => Some(body@),
                None => None,
            },
            body_url: self.body_url.deep_view(),
            preload_urls: self.preload_urls.deep_view(),
        }
    }
}

impl View for Web4Response {
    type V = Web4ResponseView;

    open spec fn view(&self) -> Web4ResponseView {
        self.deep_view()
    }
}

/// The response that says nothing.
pub open spec fn empty_response() -> Web4ResponseView {
    Web4ResponseView {
        content_type: None,
        status: None,
        body: None,
        body_url: None,
        preload_urls: None,
    }
}

impl Default for Web4Response {
    fn default() -> (r: Self)
        ensures
            r@ == empty_response(),
    {
        Web4Response {
            content_type: None,
            status: None,
            body: None,
            body_url: None,
            preload_urls: None,
        }
    }
}

impl Web4Response {
    /// A page: `text` in UTF-8, served as HTML.
    pub fn html_response(text: String) -> (r: Self)
        ensures
            r@ == (Web4ResponseView {
                content_type: Some("text/html; charset=UTF-8"@),
                body: Some(encode_utf8(text@)),
                ..empty_response()
            }),
    {
        let body = text.as_str().as_bytes_vec();
        Web4Response {
            content_type: Some("text/html; charset=UTF-8".to_owned()),
            status: None,
            body: Some(body),
            body_url: None,
            preload_urls: None,
        }
    }

    /// `text` in UTF-8, served as plain text.
    pub fn plain_response(text: String) -> (r: Self)
        ensures
            r@ == (Web4ResponseView {
                content_type: Some("text/plain; charset=UTF-8"@),
                body: Some(encode_utf8(text@)),
                ..empty_response()
            }),
    {
        let body = text.as_str().as_bytes_vec();
        Web4Response {
            content_type: Some("text/plain; charset=UTF-8".to_owned()),
            status: None,
            body: Some(body),
            body_url: None,
            preload_urls: None,
        }
    }

    /// A demand: the host is to fetch `urls` and ask again.
    pub fn preload_urls(urls: Vec<String>) -> (r: Self)
        ensures
            r@ == (Web4ResponseView { preload_urls: Some(urls.deep_view()), ..empty_response() }),
    {
        Web4Response {
            content_type: None,
            status: None,
            body: None,
            body_url: None,
            preload_urls: Some(urls),
        }
    }

    /// A body that the host is to take from `url`.
    pub fn body_url(url: String) -> (r: Self)
        ensures
            r@ == (Web4ResponseView { body_url: Some(url@), ..empty_response() }),
    {
        Web4Response {
            content_type: None,
            status: None,
            body: None,
            body_url: Some(url),
            preload_urls: None,
        }
    }

    /// A status code and nothing else.
    pub fn status(status: u32) -> (r: Self)
        ensures
            r@ == (Web4ResponseView { status: Some(status), ..empty_response() }),
    {
        Web4Response {
            content_type: None,
            status: Some(status),
            body: None,
            body_url: None,
            preload_urls: None,
        }
    }
}

/// What the host has fetched from one URL. Beside the response as it came,
/// a preload holds the response's body as the host has decoded it under each
/// of the three record formats that a body may follow; a field is `None`
/// where the response has no body or the body is no such record.
#[derive(Clone, Debug, PartialEq, Eq)]
pub struct Preload {
    pub url: String,
    pub response: Web4Response,
    pub social: Option<Social>,
    pub token: Option<Token>,
    pub reference: Option<Reference>,
}

pub struct PreloadView {
    pub url: Seq<char>,
    pub response: Web4ResponseView,
    pub social: Option<Seq<(Seq<char>, AccountDataView)>>,
    pub token: Option<TokenView>,
    pub reference: Option<ReferenceView>,
}

impl DeepView for Preload {
    type V = PreloadView;

    open spec fn deep_view(&self) -> PreloadView {
        PreloadView {
            url: self.url@,
            response: self.response@,
            social: self.social.deep_view(),
            token: self.token.deep_view(),
            reference: self.reference.deep_view(),
        }
    }
}

impl View for Preload {
    type V = PreloadView;

    open spec fn view(&self) -> PreloadView {
        self.deep_view()
    }
}

/// The first of `preloads` that was fetched from `url`.
pub open spec fn preload_at(preloads: Seq<PreloadView>, url: Seq<char>) -> Option<PreloadView>
    decreases preloads.len(),
{
    if preloads.len() == 0 {
        None
    } else if preloads[0].url == url {
        Some(preloads[0])
    } else {
        preload_at(preloads.skip(1), url)
    }
}

/// Whether no two of `preloads` were fetched from one URL.
pub open spec fn distinct_urls(preloads: Seq<PreloadView>) -> bool {
    forall|i: int, j: int|
        0 <= i < j < preloads.len() ==> (#[trigger] preloads[i]).url != (#[trigger] preloads[j]).url
}

/// A request: the path asked for and what the host has fetched so far. A
/// URL is looked up among the preloads from the front; a host holds one
/// preload for each URL, and then the order of the preloads does not count.
#[derive(Clone, Debug, PartialEq, Eq)]
pub struct Web4Request {
    pub account_id: Option<String>,
    pub path: Option<String>,
    pub params: Option<Vec<(String, String)>>,
    pub query: Option<Vec<(String, Vec<String>)>>,
    pub preloads: Option<Vec<Preload>>,
}

pub struct Web4RequestView {
    pub account_id: Option<Seq<char>>,
    pub path: Option<Seq<char>>,
    pub params: Option<Seq<(Seq<char>, Seq<char>)>>,
    pub query: Option<Seq<(Seq<char>, Seq<Seq<char>>)>>,
    pub preloads: Option<Seq<PreloadView>>,
}

impl Web4RequestView {
    /// What the host has fetched so far; a request without preloads has fetched nothing.
    pub open spec fn known(self) -> Seq<PreloadView> {
        match self.preloads {
            Some(preloads) => preloads,
            None => Seq::empty(),
        }
    }
}

impl DeepView for Web4Request {
    type V = Web4RequestView;

    open spec fn deep_view(&self) -> Web4RequestView {
        Web4RequestView {
            account_id: self.account_id.deep_view(),
            path: self.path.deep_view(),
            params: self.params.deep_view(),
            query: self.query.deep_view(),
            preloads: self.preloads.deep_view(),
        }
    }
}

impl View for Web4Request {
    type V = Web4RequestView;

    open spec fn view(&self) -> Web4RequestView {
        self.deep_view()
    }
}

impl Web4Request {
    /// What the host has fetched from `url`, if it has.
    pub fn preload(&self, url: &str) -> (r: Option<&Preload>)
        ensures
            r.deep_view() == preload_at(self@.known(), url@),
    {
        match &self.preloads {
            None => None,
            Some(preloads) => {
                let ghost all = preloads.deep_view();
                let mut i: usize = 0;
                assert(all.skip(0) =~= all);
                while i < preloads.len()
                    invariant
                        i <= preloads.len(),
                        all == preloads.deep_view(),
                        all == self@.known(),
                        preload_at(all, url@) == preload_at(all.skip(i as int), url@),
                    decreases preloads.len() - i,
                {
                    let preload = &preloads[i];
                    assert(all.skip(i as int).skip(1) =~= all.skip(i + 1));
                    if same_text(preload.url.as_str(), url) {
                        return Some(preload);
                    }
                    i += 1;
                }
                None
            },
        }
    }
}

/// The five fields of a preview card, as the page template takes them.
#[derive(Clone, Debug, PartialEq, Eq)]
pub struct Card {
    /// The layout: `summary_large_image` or `summary`.
    pub card: String,
    pub title: String,
    pub description: String,
    /// The image, addressed through the image proxy.
    pub image: String,
    /// The page that the card stands for.
    pub url: String,
}

pub struct CardView {
    pub card: Seq<char>,
    pub title: Seq<char>,
    pub description: Seq<char>,
    pub image: Seq<char>,
    pub url: Seq<char>,
}

impl DeepView for Card {
    type V = CardView;

    open spec fn deep_view(&self) -> CardView {
        CardView {
            card: self.card@,
            title: self.title@,
            description: self.description@,
            image: self.image@,
            url: self.url@,
        }
    }
}

impl View for Card {
    type V = CardView;

    open spec fn view(&self) -> CardView {
        self.deep_view()
    }
}

/// A final answer: a bare status, a text, or a page made from a card.
#[derive(Clone, Debug, PartialEq, Eq)]
pub enum Reply {
    Status(u32),
    Plain(String),
    Html(Card),
}

pub enum ReplyView {
    Status(u32),
    Plain(Seq<char>),
    Html(CardView),
}

impl DeepView for Reply {
    type V = ReplyView;

    open spec fn deep_view(&self) -> ReplyView {
        match self {
            Reply::Status(status) => ReplyView::Status(*status),
            Reply::Plain(text) => ReplyView::Plain(text@),
            Reply::Html(card) => ReplyView::Html(card@),
        }
    }
}

impl View for Reply {
    type V = ReplyView;

    open spec fn view(&self) -> ReplyView {
        self.deep_view()
    }
}

/// The outcome of one round: either the answer, or the URLs that the host
/// has to fetch before it asks again.
#[derive(Clone, Debug, PartialEq, Eq)]
pub enum Resolution {
    NeedMore(Vec<String>),
    Done(Reply),
}

pub enum ResolutionView {
    NeedMore(Seq<Seq<char>>),
    Done(ReplyView),
}

impl DeepView for Resolution {
    type V = ResolutionView;

    open spec fn deep_view(&self) -> ResolutionView {
        match self {
            Resolution::NeedMore(urls) => ResolutionView::NeedMore(urls.deep_view()),
            Resolution::Done(reply) => ResolutionView::Done(reply@),
        }
    }
}

impl View for Resolution {
    type V = ResolutionView;

    open spec fn view(&self) -> ResolutionView {
        self.deep_view()
    }
}

/// The response that carries `resolution` to the host, where `page` is the
/// rendering of the card, if the resolution is one.
pub open spec fn response_of(resolution: ResolutionView, page: Seq<char>) -> Web4ResponseView {
    match resolution {
        ResolutionView::NeedMore(urls) => Web4ResponseView {
            preload_urls: Some(urls),
            ..empty_response()
        },
        ResolutionView::Done(ReplyView::Status(status)) => Web4ResponseView {
            status: Some(status),
            ..empty_response()
        },
        ResolutionView::Done(ReplyView::Plain(text)) => Web4ResponseView {
            content_type: Some("text/plain; charset=UTF-8"@),
            body: Some(encode_utf8(text)),
            ..empty_response()
        },
        ResolutionView::Done(ReplyView::Html(_)) => Web4ResponseView {
            content_type: Some("text/html; charset=UTF-8"@),
            body: Some(encode_utf8(page)),
            ..empty_response()
        },
    }
}

impl Resolution {
    /// The card that the host has to render before it can respond.
    pub fn card(&self) -> (r: Option<&Card>)
        ensures
            r.deep_view() == (match self@ {
                ResolutionView::Done(ReplyView::Html(card)) => Some(card),
                _ => None,
            }),
    {
        match self {
            Resolution::Done(Reply::Html(card)) => Some(card),
            _ => None,
        }
    }

    /// The response that carries this resolution to the host. `page` is the
    /// card as the host's template renders it; nothing else reads it.
    pub fn into_response(self, page: String) -> (r: Web4Response)
        ensures
            r@ == response_of(self@, page@),
    {
        match self {
            Resolution::NeedMore(urls) => Web4Response::preload_urls(urls),
            Resolution::Done(Reply::Status(status)) => Web4Response::status(status),
            Resolution::Done(Reply::Plain(text)) => Web4Response::plain_response(text),
            Resolution::Done(Reply::Html(_)) => Web4Response::html_response(page),
        }
    }
}

/// Why a request gets no response at all.
#[derive(Clone, Copy, Debug, PartialEq, Eq, Structural)]
pub enum Web4Error {
    /// The request names no path.
    PathMissing,
    /// The contract of an NFT path is no account id.
    InvalidNftAccountId,
    /// The account of a profile, post or comment path is no account id.
    InvalidAccountId,
    /// The block height of a post or comment path is no number.
    InvalidBlockHeight,
}

/// The view of an outcome: that of the value it holds, or the failure itself.
pub open spec fn outcome_view<T: View>(outcome: Result<T, Web4Error>) -> Result<T::V, Web4Error> {
    match outcome {
        Ok(value) => Ok(value@),
        Err(error) => Err(error),
    }
}

impl Web4Error {
    /// The failure in words.
    pub fn message(&self) -> (r: String)
        ensures
            r@ == (match *self {
                Web4Error::PathMissing => "Path expected"@,
                Web4Error::InvalidNftAccountId => "Invalid NFT account ID"@,
                Web4Error::InvalidAccountId => "Invalid account ID"@,
                Web4Error::InvalidBlockHeight => "Invalid block height"@,
            }),
    {
        match self {
            Web4Error::PathMissing => "Path expected".to_owned(),
            Web4Error::InvalidNftAccountId => "Invalid NFT account ID".to_owned(),
            Web4Error::InvalidAccountId => "Invalid account ID".to_owned(),
            Web4Error::InvalidBlockHeight => "Invalid block height".to_owned(),
        }
    }
}

} // verus!
