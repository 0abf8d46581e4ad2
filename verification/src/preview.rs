//! The parts of a preview card: sanitized text, the URLs to fetch an
//! account's records from, the records themselves, and the image.

use crate::nft::absolute;
use crate::nft::is_absolute;
use crate::social::AccountDataView;
use crate::social::Content;
use crate::social::ContentView;
use crate::social::Profile;
use crate::social::ProfileView;
use crate::social::Social;
use crate::social::UrlOrNft;
use crate::social::UrlOrNftView;
use crate::social::account_in;
use crate::social::empty_profile;
use crate::text::alphanumeric;
use crate::text::chars_of;
use crate::text::decimal;
use crate::text::decimal_text;
use crate::text::join;
use crate::text::utf8_text;
use crate::web4::Card;
use crate::web4::CardView;
use crate::web4::PreloadView;
use crate::web4::Reply;
use crate::web4::ReplyView;
use crate::web4::Resolution;
use crate::web4::ResolutionView;
use crate::web4::Web4Request;
use crate::web4::preload_at;
use vstd::prelude::*;
use vstd::string::*;
use vstd::utf8::decode_utf8;
use vstd::utf8::valid_utf8;

verus! {

/// The punctuation that sanitized text may hold.
pub open spec fn is_punctuation(c: char) -> bool {
    c == ' ' || c == '_' || c == '.' || c == '-' || c == ',' || c == '!' || c == '(' || c == ')'
        || c == '/' || c == ':' || c == '?'
}

/// What sanitized text may hold: the punctuation above, letters and numbers.
pub open spec fn allowed(c: char) -> bool {
    is_punctuation(c) || alphanumeric(c)
}

/// What becomes of the character `c`, where `letter_or_number` tells
/// whether it is a letter or a number: a line break turns into a space, an
/// allowed character stays, any other is dropped.
pub open spec fn kept_char(c: char, letter_or_number: bool) -> Option<char> {
    if c == '\n' {
        Some(' ')
    } else if is_punctuation(c) || letter_or_number {
        Some(c)
    } else {
        None
    }
}

/// What becomes of the character `c`.
pub open spec fn sanitized_char(c: char) -> Option<char> {
    kept_char(c, alphanumeric(c))
}

/// `sanitized_char` as a value.
pub open spec fn sanitizer() -> spec_fn(char) -> Option<char> {
    |c: char| sanitized_char(c)
}

/// The first 250 characters of `s`, or all of it where it has fewer.
pub open spec fn truncated(s: Seq<char>) -> Seq<char> {
    if s.len() <= 250 {
        s
    } else {
        s.take(250)
    }
}

/// `s` cut to 250 characters and then sanitized character by character.
pub open spec fn sanitized(s: Seq<char>) -> Seq<char> {
    truncated(s).filter_map(sanitizer())
}

/// Whether `c` is one of the allowed punctuation characters.
pub fn punctuation(c: char) -> (r: bool)
    ensures
        r == is_punctuation(c),
{
    c == ' ' || c == '_' || c == '.' || c == '-' || c == ',' || c == '!' || c == '(' || c == ')'
        || c == '/' || c == ':' || c == '?'
}

/// Sanitizes one character, told whether it is a letter or a number.
pub fn sanitize_char(c: char, letter_or_number: bool) -> (r: Option<char>)
    ensures
        r == kept_char(c, letter_or_number),
{
    if c == '\n' {
        Some(' ')
    } else if punctuation(c) || letter_or_number {
        Some(c)
    } else {
        None
    }
}

/// Cuts `s` to 250 characters, turns line breaks into spaces and drops what
/// is not allowed. The result is no longer than 250 characters, holds no
/// line break, and holds allowed characters only.
pub fn filter_string(s: String) -> (r: String)
    ensures
        r@ == sanitized(s@),
        r@.len() <= 250,
        forall|i: int| 0 <= i < r@.len() ==> allowed(#[trigger] r@[i]) && r@[i] != '\n',
{
    let chars = chars_of(s.as_str());
    let end: usize = if chars.len() <= 250 {
        chars.len()
    } else {
        250
    };
    let ghost head = truncated(s@);
    let mut r = String::new();
    let mut i: usize = 0;
    while i < end
        invariant
            i <= end == head.len() <= chars.len(),
            head == chars@.take(end as int),
            r@ == head.take(i as int).filter_map(sanitizer()),
            r@.len() <= i,
            forall|j: int| 0 <= j < r@.len() ==> allowed(#[trigger] r@[j]) && r@[j] != '\n',
        decreases end - i,
    {
        let c = chars[i];
        proof {
            head.lemma_filter_map_take_succ(sanitizer(), i as int);
        }
        if let Some(kept) = sanitize_char(c, c.is_alphanumeric()) {
            r.push(kept);
        }
        i += 1;
    }
    assert(head.take(end as int) =~= head);
    r
}

/// Where an account's profile is read from.
pub open spec fn account_url(account_id: Seq<char>) -> Seq<char> {
    "https://api.near.social/get?keys="@ + account_id + "/profile/**"@
}

/// Where an account's post or comment at a block height is read from.
pub open spec fn post_url(account_id: Seq<char>, block_height: u64, is_post: bool) -> Seq<char> {
    "https://api.near.social/get?keys="@ + account_id + "/post/"@ + (if is_post {
        "main"@
    } else {
        "comment"@
    }) + "&blockHeight="@ + decimal(block_height as nat)
}

/// The URL of the profile of `account_id`.
pub fn make_account_url(account_id: &str) -> (r: String)
    ensures
        r@ == account_url(account_id@),
{
    let mut url = join("https://api.near.social/get?keys=", account_id);
    url.append("/profile/**");
    url
}

/// The URL of what `account_id` posted at `block_height`: the post, or the comment.
pub fn make_post_url(account_id: &str, block_height: u64, is_post: bool) -> (r: String)
    ensures
        r@ == post_url(account_id@, block_height, is_post),
{
    let mut url = join("https://api.near.social/get?keys=", account_id);
    url.append("/post/");
    url.append(
        if is_post {
            "main"
        } else {
            "comment"
        },
    );
    url.append("&blockHeight=");
    url.append(decimal_text(block_height).as_str());
    url
}

/// The card with these fields: the layout is large or compact, and the
/// image is addressed through the image proxy.
pub open spec fn card_of(
    title: Seq<char>,
    description: Seq<char>,
    image: Seq<char>,
    url: Seq<char>,
    large: bool,
) -> CardView {
    CardView {
        card: if large {
            "summary_large_image"@
        } else {
            "summary"@
        },
        title,
        description,
        image: "https://i.near.social/large/"@ + image,
        url,
    }
}

/// Makes the card that the page template turns into a page.
pub fn render(title: String, description: String, image: String, url: String, large: bool) -> (r:
    Card)
    ensures
        r@ == card_of(title@, description@, image@, url@, large),
{
    Card {
        card: if large {
            "summary_large_image".to_owned()
        } else {
            "summary".to_owned()
        },
        title,
        description,
        image: join("https://i.near.social/large/", image.as_str()),
        url,
    }
}

/// The profile of `account_id` in a snapshot. Where there is no snapshot,
/// or none of the account or of its profile in it, the profile is empty.
pub open spec fn profile_in(
    social: Option<Seq<(Seq<char>, AccountDataView)>>,
    account_id: Seq<char>,
) -> ProfileView {
    if social is Some && account_in(social->0, account_id) is Some && account_in(
        social->0,
        account_id,
    )->0.profile is Some {
        account_in(social->0, account_id)->0.profile->0
    } else {
        empty_profile()
    }
}

/// The profile of `account_id` as the preloads hold it; `None` until the
/// profile's URL has been fetched.
pub open spec fn profile_at(preloads: Seq<PreloadView>, account_id: Seq<char>) -> Option<
    ProfileView,
> {
    match preload_at(preloads, account_url(account_id)) {
        Some(preload) => Some(profile_in(preload.social, account_id)),
        None => None,
    }
}

/// Reads the profile of `account_id` from a snapshot.
pub fn profile_from(social: &Option<Social>, account_id: &str) -> (r: Profile)
    ensures
        r@ == profile_in(social.deep_view(), account_id@),
{
    if let Some(social) = social {
        if let Some(data) = social.account(account_id) {
            if let Some(profile) = &data.profile {
                return profile.clone();
            }
        }
    }
    Profile::default()
}

/// The profile of `account_id`, once its preload is there.
pub fn get_profile(account_id: &str, request: &Web4Request) -> (r: Option<Profile>)
    ensures
        r.deep_view() == profile_at(request@.known(), account_id@),
{
    let url = make_account_url(account_id);
    match request.preload(url.as_str()) {
        Some(preload) => Some(profile_from(&preload.social, account_id)),
        None => None,
    }
}

/// The content that `account_id` posted, as a snapshot holds it: that of
/// the post, or that of the comment.
pub open spec fn content_in(
    social: Option<Seq<(Seq<char>, AccountDataView)>>,
    account_id: Seq<char>,
    is_post: bool,
) -> Option<ContentView> {
    if social is Some && account_in(social->0, account_id) is Some && account_in(
        social->0,
        account_id,
    )->0.post is Some {
        if is_post {
            account_in(social->0, account_id)->0.post->0.main
        } else {
            account_in(social->0, account_id)->0.post->0.comment
        }
    } else {
        None
    }
}

/// What `account_id` posted at `block_height`, as the preloads hold it:
/// `None` until the post's URL has been fetched, then the content, if the
/// snapshot fetched from there holds one.
pub open spec fn post_at(
    preloads: Seq<PreloadView>,
    account_id: Seq<char>,
    block_height: u64,
    is_post: bool,
) -> Option<Option<ContentView>> {
    match preload_at(preloads, post_url(account_id, block_height, is_post)) {
        Some(preload) => Some(content_in(preload.social, account_id, is_post)),
        None => None,
    }
}

/// Reads what `account_id` posted from a snapshot.
pub fn content_from(social: &Option<Social>, account_id: &str, is_post: bool) -> (r: Option<
    Content,
>)
    ensures
        r.deep_view() == content_in(social.deep_view(), account_id@, is_post),
{
    if let Some(social) = social {
        if let Some(data) = social.account(account_id) {
            if let Some(post) = &data.post {
                let content = if is_post {
                    &post.main
                } else {
                    &post.comment
                };
                return match content {
                    Some(content) => Some(content.clone()),
                    None => None,
                };
            }
        }
    }
    None
}

/// What `account_id` posted at `block_height`, once its preload is there.
pub fn get_post(account_id: &str, block_height: u64, is_post: bool, request: &Web4Request) -> (r:
    Option<Option<Content>>)
    ensures
        r.deep_view() == post_at(request@.known(), account_id@, block_height, is_post),
{
    let url = make_post_url(account_id, block_height, is_post);
    match request.preload(url.as_str()) {
        Some(preload) => Some(content_from(&preload.social, account_id, is_post)),
        None => None,
    }
}

/// The path under which this crate itself resolves the image of a token.
pub open spec fn nft_path(contract_id: Seq<char>, token_id: Seq<char>) -> Seq<char> {
    "/nft/"@ + contract_id + "/"@ + token_id
}

/// Whether `text` can stand as the URL of an image: it begins with
/// `http://` or `https://` and has fewer than 1000 characters.
pub open spec fn is_image_url(text: Seq<char>) -> bool {
    is_absolute(text) && text.len() < 1000
}

/// The image URL that a body holds: the body's text, where the body is
/// UTF-8 and its text can stand as the URL of an image.
pub open spec fn image_in(body: Option<Seq<u8>>) -> Option<Seq<char>> {
    if body is Some && valid_utf8(body->0) && is_image_url(decode_utf8(body->0)) {
        Some(decode_utf8(body->0))
    } else {
        None
    }
}

/// The outcome for a card whose image may still have to be resolved.
/// Without an image the card is compact and shows `fallback`; with a URL it
/// is large and shows the URL. A token is resolved through the token's own
/// path: until that path has been fetched it is demanded after
/// `preload_urls`; then the card is large with the image fetched from
/// there, or compact with `fallback` where what was fetched holds no image
/// URL.
pub open spec fn card_resolution(
    title: Seq<char>,
    description: Seq<char>,
    image: Option<UrlOrNftView>,
    fallback: Seq<char>,
    url: Seq<char>,
    preload_urls: Seq<Seq<char>>,
    preloads: Seq<PreloadView>,
) -> ResolutionView {
    match image {
        None => ResolutionView::Done(
            ReplyView::Html(card_of(title, description, fallback, url, false)),
        ),
        Some(UrlOrNftView::Url(image_url)) => ResolutionView::Done(
            ReplyView::Html(card_of(title, description, image_url, url, true)),
        ),
        Some(UrlOrNftView::Nft(contract_id, token_id)) => match preload_at(
            preloads,
            nft_path(contract_id, token_id),
        ) {
            None => ResolutionView::NeedMore(preload_urls.push(nft_path(contract_id, token_id))),
            Some(preload) => match image_in(preload.response.body) {
                Some(image_url) => ResolutionView::Done(
                    ReplyView::Html(card_of(title, description, image_url, url, true)),
                ),
                None => ResolutionView::Done(
                    ReplyView::Html(card_of(title, description, fallback, url, false)),
                ),
            },
        },
    }
}

/// Whether `text` can stand as the URL of an image.
pub fn image_url_fits(text: &str) -> (r: bool)
    ensures
        r == is_image_url(text@),
{
    absolute(text) && text.unicode_len() < 1000
}

/// Reads an image URL from the body of a response.
pub fn image_from(body: &Option<Vec<u8>>) -> (r: Option<String>)
    ensures
        r.deep_view() == image_in(
            match *body {
                Some(bytes) => Some(bytes@),
                None => None,
            },
        ),
{
    if let Some(bytes) = body {
        if let Some(text) = utf8_text(bytes.as_slice()) {
            if image_url_fits(text) {
                return Some(text.to_owned());
            }
        }
    }
    None
}

/// `urls` with `url` added at the end.
pub(crate) fn with_url(urls: Vec<String>, url: String) -> (r: Vec<String>)
    ensures
        r.deep_view() == urls.deep_view().push(url@),
{
    let mut r = urls;
    r.push(url);
    r
}

/// Finishes a card: with the image at hand, or with a demand for the
/// token's image on top of `preload_urls`.
pub fn render_with_image(
    title: String,
    description: String,
    image: Option<UrlOrNft>,
    image_fallback_url: &str,
    url: String,
    preload_urls: Vec<String>,
    request: &Web4Request,
) -> (r: Resolution)
    ensures
        r@ == card_resolution(
            title@,
            description@,
            image.deep_view(),
            image_fallback_url@,
            url@,
            preload_urls.deep_view(),
            request@.known(),
        ),
{
    match image {
        None => Resolution::Done(
            Reply::Html(render(title, description, image_fallback_url.to_owned(), url, false)),
        ),
        Some(UrlOrNft::Url(image_url)) => Resolution::Done(
            Reply::Html(render(title, description, image_url, url, true)),
        ),
        Some(UrlOrNft::Nft(contract_id, token_id)) => {
            let mut nft_url = join("/nft/", contract_id.as_str());
            nft_url.append("/");
            nft_url.append(token_id.as_str());
            match request.preload(nft_url.as_str()) {
                None => Resolution::NeedMore(with_url(preload_urls, nft_url)),
                Some(preload) => match image_from(&preload.response.body) {
                    Some(image_url) => Resolution::Done(
                        Reply::Html(render(title, description, image_url, url, true)),
                    ),
                    None => Resolution::Done(
                        Reply::Html(
                            render(title, description, image_fallback_url.to_owned(), url, false),
                        ),
                    ),
                },
            }
        },
    }
}

} // verus!
