//! What holds of resolution across rounds.
//!
//! A host asks, fetches what is demanded, and asks again with more
//! preloads. The laws below say that this ends: an outcome depends on the
//! path and the preloads alone, every demand names something new, a final
//! answer stays, and each round that follows a demand either answers or
//! demands strictly more.

use crate::preview::account_url;
use crate::preview::card_resolution;
use crate::preview::nft_path;
use crate::preview::post_at;
use crate::preview::post_url;
use crate::preview::profile_at;
use crate::resolver::answer;
use crate::resolver::base_uri_in;
use crate::resolver::metadata_url;
use crate::resolver::optional_target;
use crate::resolver::pending_reference;
use crate::resolver::post_resolution;
use crate::resolver::resolution_of;
use crate::resolver::resolve;
use crate::resolver::token_url;
use crate::route::RouteView;
use crate::route::route_of;
use crate::social::UrlOrNftView;
use crate::web4::PreloadView;
use crate::web4::Resolution;
use crate::web4::ResolutionView;
use crate::web4::Web4Error;
use crate::web4::Web4Request;
use crate::web4::distinct_urls;
use crate::web4::outcome_view;
use crate::web4::preload_at;
use vstd::prelude::*;

verus! {

/// Whether `url` has been fetched.
pub open spec fn knows(preloads: Seq<PreloadView>, url: Seq<char>) -> bool {
    preload_at(preloads, url) is Some
}

/// Whether `later` holds all that `earlier` holds: what was fetched from a
/// URL then is what is held for that URL now.
pub open spec fn extends(later: Seq<PreloadView>, earlier: Seq<PreloadView>) -> bool {
    forall|url: Seq<char>| #[trigger]
        knows(earlier, url) ==> preload_at(later, url) == preload_at(earlier, url)
}

/// Whether `outcome` is a demand.
pub open spec fn demands(outcome: Result<ResolutionView, Web4Error>) -> bool {
    outcome matches Ok(ResolutionView::NeedMore(_))
}

/// The URLs that `outcome` demands.
pub open spec fn demanded(outcome: Result<ResolutionView, Web4Error>) -> Seq<Seq<char>> {
    match outcome {
        Ok(ResolutionView::NeedMore(urls)) => urls,
        _ => Seq::empty(),
    }
}

/// Whether every one of `urls` has been fetched.
pub open spec fn knows_all(preloads: Seq<PreloadView>, urls: Seq<Seq<char>>) -> bool {
    forall|i: int| 0 <= i < urls.len() ==> knows(preloads, #[trigger] urls[i])
}

/// Whether `next` takes `urls` up and goes on from there with URLs that
/// `preloads` does not hold.
pub open spec fn demands_more(
    next: Seq<Seq<char>>,
    urls: Seq<Seq<char>>,
    preloads: Seq<PreloadView>,
) -> bool {
    &&& urls.len() < next.len()
    &&& next.take(urls.len() as int) == urls
    &&& forall|i: int| urls.len() <= i < next.len() ==> !knows(preloads, #[trigger] next[i])
}

/// Whether `first` and `second` hold the same preloads, in whatever order.
pub open spec fn same_preloads(first: Seq<PreloadView>, second: Seq<PreloadView>) -> bool {
    forall|preload: PreloadView| first.contains(preload) <==> second.contains(preload)
}

/// Resolution is a function of the path and of the preloads: two requests
/// that agree in both have the same outcome, whatever else they hold. So
/// the same request, asked twice, is answered twice the same.
pub proof fn law_same_request_same_outcome(
    first: Web4Request,
    second: Web4Request,
    first_outcome: Result<Resolution, Web4Error>,
    second_outcome: Result<Resolution, Web4Error>,
)
    requires
        first@.path == second@.path,
        first@.known() == second@.known(),
        outcome_view(first_outcome) == answer(first@),
        outcome_view(second_outcome) == answer(second@),
    ensures
        outcome_view(first_outcome) == outcome_view(second_outcome),
{
}

/// A failure lies in the path alone: a request that fails, fails the same
/// way whatever the host has fetched, so asking again cannot mend it.
pub proof fn law_failure_lies_in_the_path(
    path: Seq<char>,
    first: Seq<PreloadView>,
    second: Seq<PreloadView>,
)
    requires
        resolve(path, first) is Err,
    ensures
        resolve(path, second) == resolve(path, first),
{
}

/// The order of the preloads does not count: where no URL was fetched
/// twice, two lists of the same preloads have the same outcome.
pub proof fn law_order_is_irrelevant(
    path: Seq<char>,
    first: Seq<PreloadView>,
    second: Seq<PreloadView>,
)
    requires
        distinct_urls(first),
        distinct_urls(second),
        same_preloads(first, second),
    ensures
        resolve(path, first) == resolve(path, second),
{
    assert forall|url: Seq<char>| preload_at(first, url) == preload_at(second, url) by {
        lemma_preload_at(first, url);
        lemma_preload_at(second, url);
        match preload_at(first, url) {
            Some(preload) => {
                assert(second.contains(preload));
            },
            None => {
                if let Some(preload) = preload_at(second, url) {
                    assert(first.contains(preload));
                }
            },
        }
    }
    lemma_same_lookups_same_outcome(path, first, second);
}

/// A demand has one, two or three URLs, and at least one of them has not
/// been fetched.
pub proof fn law_demand_names_unknown_url(path: Seq<char>, preloads: Seq<PreloadView>)
    requires
        demands(resolve(path, preloads)),
    ensures
        1 <= demanded(resolve(path, preloads)).len() <= 3,
        exists|i: int|
            0 <= i < demanded(resolve(path, preloads)).len() && !knows(
                preloads,
                #[trigger] demanded(resolve(path, preloads))[i],
            ),
{
    let urls = demanded(resolve(path, preloads));
    if !knows(preloads, urls[0]) {
    } else if urls.len() > 1 && !knows(preloads, urls[1]) {
    } else {
        assert(urls.len() == 3 || urls.len() == 2);
        assert(!knows(preloads, urls[urls.len() - 1]));
    }
}

/// A final answer stays, and so does a failure: what has been answered from
/// some preloads is answered the same from any preloads that extend them.
pub proof fn law_answer_is_final(
    path: Seq<char>,
    earlier: Seq<PreloadView>,
    later: Seq<PreloadView>,
)
    requires
        extends(later, earlier),
        !demands(resolve(path, earlier)),
    ensures
        resolve(path, later) == resolve(path, earlier),
{
    match route_of(path) {
        Ok(route) => {
            lemma_route_answer_is_final(route, earlier, later);
        },
        Err(_) => {},
    }
}

/// A round that follows a demand, with all that was there before and all
/// that was demanded, does not fail. It answers, or it demands again: then
/// it repeats the earlier demand and adds to it, and every URL it adds has
/// not been fetched. So no round asks for a new URL that it already holds,
/// and the demand grows from round to round until the answer comes.
pub proof fn law_round_after_demand(
    path: Seq<char>,
    earlier: Seq<PreloadView>,
    later: Seq<PreloadView>,
)
    requires
        demands(resolve(path, earlier)),
        extends(later, earlier),
        knows_all(later, demanded(resolve(path, earlier))),
    ensures
        resolve(path, later) is Ok,
        demands(resolve(path, later)) ==> demands_more(
            demanded(resolve(path, later)),
            demanded(resolve(path, earlier)),
            later,
        ),
{
    match route_of(path) {
        Ok(route) => {
            lemma_route_round_after_demand(route, earlier, later);
        },
        Err(_) => {},
    }
}

/// Resolution ends: a host that fetches what is demanded is answered in
/// the third round at the latest. Whatever the first round says, if the
/// second round holds all that the first demanded, and the third all that the
/// second demanded, the third round answers.
pub proof fn law_third_round_answers(
    path: Seq<char>,
    first: Seq<PreloadView>,
    second: Seq<PreloadView>,
    third: Seq<PreloadView>,
)
    requires
        extends(second, first),
        knows_all(second, demanded(resolve(path, first))),
        extends(third, second),
        knows_all(third, demanded(resolve(path, second))),
        resolve(path, first) is Ok,
    ensures
        resolve(path, third) matches Ok(ResolutionView::Done(_)),
{
    let route = route_of(path)->Ok_0;
    lemma_demand_has_one_of_two_lengths(route, first);
    lemma_demand_has_one_of_two_lengths(route, second);
    lemma_demand_has_one_of_two_lengths(route, third);
    if demands(resolve(path, first)) {
        law_round_after_demand(path, first, second);
    } else {
        law_answer_is_final(path, first, second);
    }
    if demands(resolve(path, second)) {
        law_round_after_demand(path, second, third);
    } else {
        law_answer_is_final(path, second, third);
    }
}

/// The number of URLs in the first demand for `route`.
spec fn first_demand_len(route: RouteView) -> nat {
    match route {
        RouteView::Profile { .. } => 1,
        _ => 2,
    }
}

proof fn lemma_demand_has_one_of_two_lengths(route: RouteView, preloads: Seq<PreloadView>)
    ensures
        resolution_of(route, preloads) matches ResolutionView::NeedMore(urls) ==> urls.len()
            == first_demand_len(route) || urls.len() == first_demand_len(route) + 1,
{
}

proof fn lemma_route_answer_is_final(
    route: RouteView,
    earlier: Seq<PreloadView>,
    later: Seq<PreloadView>,
)
    requires
        extends(later, earlier),
        !(resolution_of(route, earlier) is NeedMore),
    ensures
        resolution_of(route, later) == resolution_of(route, earlier),
{
    match route {
        RouteView::NftImage { contract_id, token_id } => {
            let urls = seq![metadata_url(contract_id), token_url(contract_id, token_id)];
            assert(knows(earlier, urls[0]) && knows(earlier, urls[1]));
            let base_uri = base_uri_in(preload_at(earlier, urls[0])->0.response.body);
            let token = preload_at(earlier, urls[1])->0.token;
            match pending_reference(base_uri, token) {
                Some(candidate) => {
                    assert(knows(earlier, candidate));
                },
                None => {},
            }
        },
        RouteView::Profile { account_id } => {
            assert(knows(earlier, account_url(account_id)));
            let profile = profile_at(earlier, account_id)->0;
            lemma_card_is_final(optional_target(profile.image), earlier, later);
        },
        RouteView::Post { account_id, block_height } => {
            lemma_post_answer_is_final(account_id, block_height, true, earlier, later);
        },
        RouteView::Comment { account_id, block_height } => {
            lemma_post_answer_is_final(account_id, block_height, false, earlier, later);
        },
        _ => {},
    }
}

proof fn lemma_card_is_final(
    image: Option<UrlOrNftView>,
    earlier: Seq<PreloadView>,
    later: Seq<PreloadView>,
)
    requires
        extends(later, earlier),
    ensures
        forall|
            title: Seq<char>,
            description: Seq<char>,
            fallback: Seq<char>,
            url: Seq<char>,
            urls: Seq<Seq<char>>,
        |
            !(#[trigger] card_resolution(title, description, image, fallback, url, urls, earlier)
                is NeedMore) ==> card_resolution(
                title,
                description,
                image,
                fallback,
                url,
                urls,
                later,
            ) == card_resolution(title, description, image, fallback, url, urls, earlier),
{
    match image {
        Some(UrlOrNftView::Nft(contract_id, token_id)) => {
            let nested = nft_path(contract_id, token_id);
            assert(knows(earlier, nested) ==> preload_at(later, nested) == preload_at(
                earlier,
                nested,
            ));
        },
        _ => {},
    }
}

proof fn lemma_post_answer_is_final(
    account_id: Seq<char>,
    block_height: u64,
    is_post: bool,
    earlier: Seq<PreloadView>,
    later: Seq<PreloadView>,
)
    requires
        extends(later, earlier),
        !(post_resolution(account_id, block_height, is_post, earlier) is NeedMore),
    ensures
        post_resolution(account_id, block_height, is_post, later) == post_resolution(
            account_id,
            block_height,
            is_post,
            earlier,
        ),
{
    assert(knows(earlier, account_url(account_id)));
    assert(knows(earlier, post_url(account_id, block_height, is_post)));
    let profile = profile_at(earlier, account_id)->0;
    match post_at(earlier, account_id, block_height, is_post)->0 {
        Some(content) => {
            let image = optional_target(
                match content.image {
                    Some(image) => Some(image),
                    None => profile.image,
                },
            );
            lemma_card_is_final(image, earlier, later);
        },
        None => {},
    }
}

proof fn lemma_route_round_after_demand(
    route: RouteView,
    earlier: Seq<PreloadView>,
    later: Seq<PreloadView>,
)
    requires
        resolution_of(route, earlier) is NeedMore,
        extends(later, earlier),
        knows_all(later, resolution_of(route, earlier)->NeedMore_0),
    ensures
        resolution_of(route, later) is NeedMore ==> demands_more(
            resolution_of(route, later)->NeedMore_0,
            resolution_of(route, earlier)->NeedMore_0,
            later,
        ),
{
    let urls = resolution_of(route, earlier)->NeedMore_0;
    match route {
        RouteView::NftImage { contract_id, token_id } => {
            let pair = seq![metadata_url(contract_id), token_url(contract_id, token_id)];
            assert(urls.len() >= 2 && urls[0] == pair[0] && urls[1] == pair[1]);
            assert(knows(later, urls[0]) && knows(later, urls[1]));
            if knows(earlier, pair[0]) && knows(earlier, pair[1]) {
                assert(urls.len() == 3);
                assert(knows(later, urls[2]));
            } else {
                if resolution_of(route, later) is NeedMore {
                    let next = resolution_of(route, later)->NeedMore_0;
                    assert(next.take(2) =~= urls);
                }
            }
        },
        RouteView::Profile { account_id } => {
            let account = account_url(account_id);
            assert(urls[0] == account);
            assert(knows(later, urls[0]));
            if knows(earlier, account) {
                assert(urls.len() == 2);
                assert(knows(later, urls[1]));
            } else {
                if resolution_of(route, later) is NeedMore {
                    let next = resolution_of(route, later)->NeedMore_0;
                    assert(next.take(1) =~= urls);
                }
            }
        },
        RouteView::Post { account_id, block_height } => {
            lemma_post_round_after_demand(account_id, block_height, true, earlier, later);
        },
        RouteView::Comment { account_id, block_height } => {
            lemma_post_round_after_demand(account_id, block_height, false, earlier, later);
        },
        _ => {},
    }
}

proof fn lemma_post_round_after_demand(
    account_id: Seq<char>,
    block_height: u64,
    is_post: bool,
    earlier: Seq<PreloadView>,
    later: Seq<PreloadView>,
)
    requires
        post_resolution(account_id, block_height, is_post, earlier) is NeedMore,
        extends(later, earlier),
        knows_all(later, post_resolution(account_id, block_height, is_post, earlier)->NeedMore_0),
    ensures
        post_resolution(account_id, block_height, is_post, later) is NeedMore ==> demands_more(
            post_resolution(account_id, block_height, is_post, later)->NeedMore_0,
            post_resolution(account_id, block_height, is_post, earlier)->NeedMore_0,
            later,
        ),
{
    let urls = post_resolution(account_id, block_height, is_post, earlier)->NeedMore_0;
    let account = account_url(account_id);
    let post = post_url(account_id, block_height, is_post);
    assert(urls.len() >= 2 && urls[0] == account && urls[1] == post);
    assert(knows(later, urls[0]) && knows(later, urls[1]));
    if knows(earlier, account) && knows(earlier, post) {
        assert(urls.len() == 3);
        assert(knows(later, urls[2]));
    } else {
        if post_resolution(account_id, block_height, is_post, later) is NeedMore {
            let next = post_resolution(account_id, block_height, is_post, later)->NeedMore_0;
            assert(next.take(2) =~= urls);
        }
    }
}

/// What is found for a URL is one of the preloads and was fetched from that
/// URL; nothing is found only where no preload was fetched from it. Among
/// preloads with distinct URLs, each is what is found for its URL.
proof fn lemma_preload_at(preloads: Seq<PreloadView>, url: Seq<char>)
    ensures
        match preload_at(preloads, url) {
            Some(preload) => preloads.contains(preload) && preload.url == url,
            None => forall|i: int| 0 <= i < preloads.len() ==> (#[trigger] preloads[i]).url != url,
        },
        distinct_urls(preloads) ==> forall|i: int|
            0 <= i < preloads.len() && (#[trigger] preloads[i]).url == url ==> preload_at(
                preloads,
                url,
            ) == Some(preloads[i]),
    decreases preloads.len(),
{
    if preloads.len() > 0 {
        let rest = preloads.skip(1);
        lemma_preload_at(rest, url);
        assert(forall|i: int| 0 <= i < rest.len() ==> rest[i] == preloads[i + 1]);
        if preloads[0].url == url {
            assert(preloads.contains(preloads[0]));
        } else {
            match preload_at(rest, url) {
                Some(preload) => {
                    let i = choose|i: int| 0 <= i < rest.len() && rest[i] == preload;
                    assert(preloads[i + 1] == preload);
                },
                None => {
                    assert forall|i: int| 0 <= i < preloads.len() implies (#[trigger] preloads[i]).url
                        != url by {
                        if i > 0 {
                            assert(rest[i - 1] == preloads[i]);
                        }
                    }
                },
            }
        }
        if distinct_urls(preloads) {
            assert(distinct_urls(rest)) by {
                assert forall|i: int, j: int| 0 <= i < j < rest.len() implies (#[trigger] rest[i]).url
                    != (#[trigger] rest[j]).url by {
                    assert(rest[i] == preloads[i + 1] && rest[j] == preloads[j + 1]);
                }
            }
            assert forall|i: int|
                0 <= i < preloads.len() && (#[trigger] preloads[i]).url == url implies preload_at(
                preloads,
                url,
            ) == Some(preloads[i]) by {
                if i > 0 {
                    assert(rest[i - 1] == preloads[i]);
                    assert(preloads[0].url != preloads[i].url);
                }
            }
        }
    }
}

/// The outcome depends on the preloads only through what is found for each URL.
proof fn lemma_same_lookups_same_outcome(
    path: Seq<char>,
    first: Seq<PreloadView>,
    second: Seq<PreloadView>,
)
    requires
        forall|url: Seq<char>| #[trigger] preload_at(first, url) == preload_at(second, url),
    ensures
        resolve(path, first) == resolve(path, second),
{
}

} // verus!
