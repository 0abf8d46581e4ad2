//! The resolvers: one per kind of route, each from what has been fetched so
//! far to the answer or to the URLs that are still missing.

use crate::Contract;
use crate::nft::ReferenceView;
use crate::nft::Token;
use crate::nft::TokenView;
use crate::nft::contract_base_uri;
use crate::nft::decode_base_uri;
use crate::nft::media_target;
use crate::nft::media_url;
use crate::nft::reference_target;
use crate::nft::reference_url;
use crate::nft::token_media;
use crate::nft::token_reference;
use crate::preview::account_url;
use crate::preview::card_of;
use crate::preview::card_resolution;
use crate::preview::filter_string;
use crate::preview::get_post;
use crate::preview::get_profile;
use crate::preview::make_account_url;
use crate::preview::make_post_url;
use crate::preview::post_at;
use crate::preview::post_url;
use crate::preview::profile_at;
use crate::preview::render;
use crate::preview::render_with_image;
use crate::preview::sanitized;
use crate::preview::with_url;
use crate::route::Route;
use crate::route::RouteView;
use crate::route::route_of;
use crate::social::ContentView;
use crate::social::Image;
use crate::social::ImageView;
use crate::social::Profile;
use crate::social::ProfileView;
use crate::social::UrlOrNft;
use crate::social::UrlOrNftView;
use crate::social::image_target;
use crate::social::image_to_url;
use crate::text::decimal;
use crate::text::decimal_text;
use crate::text::join;
use crate::web4::Preload;
use crate::web4::PreloadView;
use crate::web4::Reply;
use crate::web4::ReplyView;
use crate::web4::Resolution;
use crate::web4::ResolutionView;
use crate::web4::Web4Error;
use crate::web4::Web4Request;
use crate::web4::Web4RequestView;
use crate::web4::outcome_view;
use crate::web4::preload_at;
use vstd::prelude::*;
use vstd::string::*;

verus! {

/// The answer to a request for the crawler policy.
pub open spec fn robots_resolution() -> ResolutionView {
    ResolutionView::Done(ReplyView::Plain("User-agent: *\nDisallow:"@))
}

/// The card of the site itself.
pub open spec fn home_resolution() -> ResolutionView {
    ResolutionView::Done(
        ReplyView::Html(
            card_of(
                "Near Social"@,
                "Open Web protocol built on NEAR"@,
                "https://near.social/assets/logo.png"@,
                "https://near.social"@,
                true,
            ),
        ),
    )
}

/// Where the metadata of an NFT contract is read from.
pub open spec fn metadata_url(contract_id: Seq<char>) -> Seq<char> {
    "/web4/contract/"@ + contract_id + "/nft_metadata"@
}

/// Where one token of an NFT contract is read from.
pub open spec fn token_url(contract_id: Seq<char>, token_id: Seq<char>) -> Seq<char> {
    "/web4/contract/"@ + contract_id + "/nft_token?token_id="@ + token_id
}

/// The base URI that a fetched contract metadata declares. A response
/// without a body, a body that is no metadata, and metadata without a base
/// URI all declare none.
pub open spec fn base_uri_in(body: Option<Seq<u8>>) -> Option<Seq<char>> {
    if body is Some && contract_base_uri(body->0) is Some {
        contract_base_uri(body->0)->0
    } else {
        None
    }
}

/// The URL of the record that has to be read before the token's image is
/// known: the target of the token's reference, and only where the token
/// declares no media of its own.
pub open spec fn pending_reference(base_uri: Option<Seq<char>>, token: Option<TokenView>) -> Option<
    Seq<char>,
> {
    if token_media(token).len() == 0 && token_reference(token) is Some {
        reference_target(base_uri, token_reference(token)->0)
    } else {
        None
    }
}

/// The media that a fetched reference record declares, if it is one and
/// declares any.
pub open spec fn referenced_media(reference: Option<ReferenceView>) -> Option<Seq<char>> {
    match reference {
        Some(reference) => reference.media,
        None => None,
    }
}

/// The outcome for a token whose contract declares `base_uri`. Where a
/// reference record has to be read first, it is demanded after `urls`
/// until it has been fetched, and the media it declares is the answer.
/// In every other case the answer is the URL of the token's own media.
pub open spec fn token_resolution(
    base_uri: Option<Seq<char>>,
    token: Option<TokenView>,
    urls: Seq<Seq<char>>,
    preloads: Seq<PreloadView>,
) -> ResolutionView {
    let own = ResolutionView::Done(ReplyView::Plain(media_target(base_uri, token_media(token))));
    match pending_reference(base_uri, token) {
        None => own,
        Some(candidate) => match preload_at(preloads, candidate) {
            None => ResolutionView::NeedMore(urls.push(candidate)),
            Some(preload) => match referenced_media(preload.reference) {
                Some(media) => ResolutionView::Done(ReplyView::Plain(media)),
                None => own,
            },
        },
    }
}

/// The outcome for the image of a token: a demand for the contract's
/// metadata and the token until both have been fetched, then what
/// `token_resolution` says of them.
pub open spec fn nft_resolution(
    contract_id: Seq<char>,
    token_id: Seq<char>,
    preloads: Seq<PreloadView>,
) -> ResolutionView {
    let urls = seq![metadata_url(contract_id), token_url(contract_id, token_id)];
    match (preload_at(preloads, urls[0]), preload_at(preloads, urls[1])) {
        (Some(metadata), Some(token)) => token_resolution(
            base_uri_in(metadata.response.body),
            token.token,
            urls,
            preloads,
        ),
        _ => ResolutionView::NeedMore(urls),
    }
}

/// The name on a card: the profile's name, or the account id where the
/// profile has none; sanitized.
pub open spec fn display_name(profile: ProfileView, account_id: Seq<char>) -> Seq<char> {
    sanitized(
        match profile.name {
            Some(name) => name,
            None => account_id,
        },
    )
}

/// Where an optional image is to be had.
pub open spec fn optional_target(image: Option<ImageView>) -> Option<UrlOrNftView> {
    match image {
        Some(image) => image_target(image),
        None => None,
    }
}

/// The page of an account's profile.
pub open spec fn profile_page(account_id: Seq<char>) -> Seq<char> {
    "https://near.social/#/mob.near/widget/ProfilePage?accountId="@ + account_id
}

/// The outcome for the card of a profile: a demand for the profile until it
/// has been fetched, then the card that names the account, describes it in
/// the profile's words or in stock words, and shows the profile's image.
pub open spec fn profile_resolution(account_id: Seq<char>, preloads: Seq<PreloadView>)
    -> ResolutionView {
    let urls = seq![account_url(account_id)];
    match profile_at(preloads, account_id) {
        None => ResolutionView::NeedMore(urls),
        Some(profile) => card_resolution(
            display_name(profile, account_id) + " | Near Social"@,
            sanitized(
                match profile.description {
                    Some(description) => description,
                    None => "User profile on Near Social"@,
                },
            ),
            optional_target(profile.image),
            "https://ipfs.near.social/ipfs/bafkreibmiy4ozblcgv3fm3gc6q62s55em33vconbavfd2ekkuliznaq3zm"@,
            profile_page(account_id),
            urls,
            preloads,
        ),
    }
}

/// The page of a post or of a comment.
pub open spec fn post_page(account_id: Seq<char>, block_height: u64, is_post: bool) -> Seq<char> {
    "https://near.social/#/mob.near/widget/"@ + (if is_post {
        "MainPage.Post.Page"@
    } else {
        "MainPage.Comment.Page"@
    }) + "?accountId="@ + account_id + "&blockHeight="@ + decimal(block_height as nat)
}

/// The title of the card of a post or of a comment.
pub open spec fn post_title(profile: ProfileView, account_id: Seq<char>, is_post: bool) -> Seq<
    char,
> {
    (if is_post {
        "Post"@
    } else {
        "Comment"@
    }) + " by "@ + display_name(profile, account_id) + " | Near Social"@
}

/// The card of a post or comment with this content, by the account with
/// this profile: the text is the description, and the image is the
/// content's own or else the profile's.
pub open spec fn post_card_resolution(
    profile: ProfileView,
    content: ContentView,
    account_id: Seq<char>,
    block_height: u64,
    is_post: bool,
    preloads: Seq<PreloadView>,
) -> ResolutionView {
    card_resolution(
        post_title(profile, account_id, is_post),
        sanitized(
            match content.text {
                Some(text) => text,
                None => ""@,
            },
        ),
        optional_target(
            match content.image {
                Some(image) => Some(image),
                None => profile.image,
            },
        ),
        "https://near.social/assets/logo.png"@,
        post_page(account_id, block_height, is_post),
        seq![account_url(account_id), post_url(account_id, block_height, is_post)],
        preloads,
    )
}

/// The outcome for the card of a post or of a comment: a demand for the
/// profile and the post until both have been fetched; then status 404 where
/// what was fetched holds no content, and else the card.
pub open spec fn post_resolution(
    account_id: Seq<char>,
    block_height: u64,
    is_post: bool,
    preloads: Seq<PreloadView>,
) -> ResolutionView {
    match (
        profile_at(preloads, account_id),
        post_at(preloads, account_id, block_height, is_post),
    ) {
        (Some(profile), Some(content)) => match content {
            None => ResolutionView::Done(ReplyView::Status(404)),
            Some(content) => post_card_resolution(
                profile,
                content,
                account_id,
                block_height,
                is_post,
                preloads,
            ),
        },
        _ => ResolutionView::NeedMore(
            seq![account_url(account_id), post_url(account_id, block_height, is_post)],
        ),
    }
}

/// The outcome of one round for `route`.
pub open spec fn resolution_of(route: RouteView, preloads: Seq<PreloadView>) -> ResolutionView {
    match route {
        RouteView::Robots => robots_resolution(),
        RouteView::NftImage { contract_id, token_id } => nft_resolution(
            contract_id,
            token_id,
            preloads,
        ),
        RouteView::Profile { account_id } => profile_resolution(account_id, preloads),
        RouteView::Post { account_id, block_height } => post_resolution(
            account_id,
            block_height,
            true,
            preloads,
        ),
        RouteView::Comment { account_id, block_height } => post_resolution(
            account_id,
            block_height,
            false,
            preloads,
        ),
        RouteView::Home => home_resolution(),
        RouteView::Incomplete => ResolutionView::Done(ReplyView::Status(404)),
    }
}

/// The outcome of one round for the path `path`.
pub open spec fn resolve(path: Seq<char>, preloads: Seq<PreloadView>) -> Result<
    ResolutionView,
    Web4Error,
> {
    match route_of(path) {
        Ok(route) => Ok(resolution_of(route, preloads)),
        Err(error) => Err(error),
    }
}

/// The outcome of one round for `request`: a request without a path fails,
/// any other is resolved by its path and its preloads.
pub open spec fn answer(request: Web4RequestView) -> Result<ResolutionView, Web4Error> {
    match request.path {
        Some(path) => resolve(path, request.known()),
        None => Err(Web4Error::PathMissing),
    }
}

/// The crawler policy: crawl everything.
pub fn resolve_robots() -> (r: Resolution)
    ensures
        r@ == robots_resolution(),
{
    Resolution::Done(Reply::Plain("User-agent: *\nDisallow:".to_owned()))
}

/// The card of the site itself.
pub fn resolve_home() -> (r: Resolution)
    ensures
        r@ == home_resolution(),
{
    Resolution::Done(
        Reply::Html(
            render(
                "Near Social".to_owned(),
                "Open Web protocol built on NEAR".to_owned(),
                "https://near.social/assets/logo.png".to_owned(),
                "https://near.social".to_owned(),
                true,
            ),
        ),
    )
}

/// The base URI that the contract metadata fetched into `preload` declares.
pub fn base_uri_from(preload: &Preload) -> (r: Option<String>)
    ensures
        r.deep_view() == base_uri_in(preload@.response.body),
{
    match &preload.response.body {
        Some(body) => match decode_base_uri(body.as_slice()) {
            Some(base_uri) => base_uri,
            None => None,
        },
        None => None,
    }
}

/// Resolves the image of `token`, whose contract declares `base_uri`.
/// `urls` are the URLs that the two were fetched from.
pub fn resolve_token(
    base_uri: Option<&str>,
    token: Option<&Token>,
    urls: Vec<String>,
    request: &Web4Request,
) -> (r: Resolution)
    ensures
        r@ == token_resolution(
            base_uri.deep_view(),
            token.deep_view(),
            urls.deep_view(),
            request@.known(),
        ),
{
    let metadata = match token {
        Some(token) => token.metadata.as_ref(),
        None => None,
    };
    let media: &str = match metadata {
        Some(metadata) => match &metadata.media {
            Some(media) => media.as_str(),
            None => "",
        },
        None => "",
    };
    let reference: Option<&String> = match metadata {
        Some(metadata) => metadata.reference.as_ref(),
        None => None,
    };
    assert(media@ == token_media(token.deep_view())) by {
        reveal_strlit("");
    }
    if media.unicode_len() == 0 {
        if let Some(reference) = reference {
            if let Some(candidate) = reference_url(base_uri, reference.as_str()) {
                match request.preload(candidate.as_str()) {
                    None => {
                        return Resolution::NeedMore(with_url(urls, candidate));
                    },
                    Some(preload) => {
                        if let Some(record) = &preload.reference {
                            if let Some(media) = &record.media {
                                return Resolution::Done(Reply::Plain(media.clone()));
                            }
                        }
                    },
                }
            }
        }
    }
    Resolution::Done(Reply::Plain(media_url(base_uri, media)))
}

/// The two URLs `first` and `second`, in this order.
fn url_pair(first: String, second: String) -> (r: Vec<String>)
    ensures
        r.deep_view() == seq![first@, second@],
{
    let mut r: Vec<String> = Vec::new();
    r.push(first);
    r.push(second);
    r
}

/// Resolves the image of the token `token_id` of `contract_id`.
pub fn resolve_nft(contract_id: &str, token_id: &str, request: &Web4Request) -> (r: Resolution)
    ensures
        r@ == nft_resolution(contract_id@, token_id@, request@.known()),
{
    let mut metadata_url = join("/web4/contract/", contract_id);
    metadata_url.append("/nft_metadata");
    let mut token_url = join("/web4/contract/", contract_id);
    token_url.append("/nft_token?token_id=");
    token_url.append(token_id);
    let metadata = request.preload(metadata_url.as_str());
    let token = request.preload(token_url.as_str());
    let urls = url_pair(metadata_url, token_url);
    match (metadata, token) {
        (Some(metadata), Some(token)) => {
            let base_uri = base_uri_from(metadata);
            let base_uri: Option<&str> = match &base_uri {
                Some(base_uri) => Some(base_uri.as_str()),
                None => None,
            };
            resolve_token(base_uri, token.token.as_ref(), urls, request)
        },
        _ => Resolution::NeedMore(urls),
    }
}

/// The sanitized name to show for `account_id`.
pub fn name_of(profile: &Profile, account_id: &str) -> (r: String)
    ensures
        r@ == display_name(profile@, account_id@),
{
    filter_string(
        match &profile.name {
            Some(name) => name.clone(),
            None => account_id.to_owned(),
        },
    )
}

/// Where an optional image is to be had.
pub fn optional_image_to_url(image: Option<Image>) -> (r: Option<UrlOrNft>)
    ensures
        r.deep_view() == optional_target(image.deep_view()),
{
    match image {
        Some(image) => image_to_url(image),
        None => None,
    }
}

/// Resolves the card of the profile of `account_id`.
pub fn resolve_profile(account_id: &str, request: &Web4Request) -> (r: Resolution)
    ensures
        r@ == profile_resolution(account_id@, request@.known()),
{
    let mut preload_urls: Vec<String> = Vec::new();
    preload_urls.push(make_account_url(account_id));
    assert(preload_urls.deep_view() =~= seq![account_url(account_id@)]);
    match get_profile(account_id, request) {
        None => Resolution::NeedMore(preload_urls),
        Some(profile) => {
            let url = join(
                "https://near.social/#/mob.near/widget/ProfilePage?accountId=",
                account_id,
            );
            let mut title = name_of(&profile, account_id);
            title.append(" | Near Social");
            let description = filter_string(
                match profile.description {
                    Some(description) => description,
                    None => "User profile on Near Social".to_owned(),
                },
            );
            let image = optional_image_to_url(profile.image);
            render_with_image(
                title,
                description,
                image,
                "https://ipfs.near.social/ipfs/bafkreibmiy4ozblcgv3fm3gc6q62s55em33vconbavfd2ekkuliznaq3zm",
                url,
                preload_urls,
                request,
            )
        },
    }
}

/// Resolves the card of what `account_id` posted at `block_height`: the
/// post, or the comment.
pub fn resolve_post(account_id: &str, block_height: u64, is_post: bool, request: &Web4Request) -> (r:
    Resolution)
    ensures
        r@ == post_resolution(account_id@, block_height, is_post, request@.known()),
{
    let preload_urls = url_pair(
        make_account_url(account_id),
        make_post_url(account_id, block_height, is_post),
    );
    let profile = get_profile(account_id, request);
    let post = get_post(account_id, block_height, is_post, request);
    match (profile, post) {
        (Some(profile), Some(content)) => match content {
            None => Resolution::Done(Reply::Status(404)),
            Some(content) => {
                let mut url = join(
                    "https://near.social/#/mob.near/widget/",
                    if is_post {
                        "MainPage.Post.Page"
                    } else {
                        "MainPage.Comment.Page"
                    },
                );
                url.append("?accountId=");
                url.append(account_id);
                url.append("&blockHeight=");
                url.append(decimal_text(block_height).as_str());
                let mut title = join(
                    if is_post {
                        "Post"
                    } else {
                        "Comment"
                    },
                    " by ",
                );
                title.append(name_of(&profile, account_id).as_str());
                title.append(" | Near Social");
                let description = filter_string(
                    match content.text {
                        Some(text) => text,
                        None => "".to_owned(),
                    },
                );
                let image = optional_image_to_url(
                    match content.image {
                        Some(image) => Some(image),
                        None => profile.image,
                    },
                );
                render_with_image(
                    title,
                    description,
                    image,
                    "https://near.social/assets/logo.png",
                    url,
                    preload_urls,
                    request,
                )
            },
        },
        _ => Resolution::NeedMore(preload_urls),
    }
}

/// Resolves `route` against what `request` holds.
pub fn resolve_route(route: &Route, request: &Web4Request) -> (r: Resolution)
    ensures
        r@ == resolution_of(route@, request@.known()),
{
    match route {
        Route::Robots => resolve_robots(),
        Route::NftImage { contract_id, token_id } => resolve_nft(
            contract_id.as_str(),
            token_id.as_str(),
            request,
        ),
        Route::Profile { account_id } => resolve_profile(account_id.as_str(), request),
        Route::Post { account_id, block_height } => resolve_post(
            account_id.as_str(),
            *block_height,
            true,
            request,
        ),
        Route::Comment { account_id, block_height } => resolve_post(
            account_id.as_str(),
            *block_height,
            false,
            request,
        ),
        Route::Home => resolve_home(),
        Route::Incomplete => Resolution::Done(Reply::Status(404)),
    }
}

impl Contract {
    /// One round of resolution: the answer to `request`, or the URLs that
    /// the host has to fetch before it asks again. A request without a
    /// path, or with a path that names a malformed account or block
    /// height, fails.
    pub fn web4_get(&self, request: Web4Request) -> (r: Result<Resolution, Web4Error>)
        ensures
            outcome_view(r) == answer(request@),
    {
        match &request.path {
            None => Err(Web4Error::PathMissing),
            Some(path) => match Route::parse(path.as_str()) {
                Ok(route) => Ok(resolve_route(&route, &request)),
                Err(error) => Err(error),
            },
        }
    }
}

} // verus!
