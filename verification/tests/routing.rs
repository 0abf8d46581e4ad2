use social_preview::route::Route;
use social_preview::web4::Card;
use social_preview::web4::Reply;
use social_preview::web4::Resolution;
use social_preview::web4::Web4Error;
use social_preview::web4::Web4Request;
use social_preview::Contract;

fn ask_path(path: &str) -> Result<Resolution, Web4Error> {
    let request = Web4Request {
        account_id: None,
        path: Some(path.to_string()),
        params: None,
        query: None,
        preloads: Some(Vec::new()),
    };
    Contract::default().web4_get(request)
}

fn home_card() -> Card {
    Card {
        card: "summary_large_image".to_string(),
        title: "Near Social".to_string(),
        description: "Open Web protocol built on NEAR".to_string(),
        image: "https://i.near.social/large/https://near.social/assets/logo.png".to_string(),
        url: "https://near.social".to_string(),
    }
}

#[test]
fn robots_txt_is_answered_in_plain_text() {
    assert_eq!(
        ask_path("/robots.txt"),
        Ok(Resolution::Done(Reply::Plain("User-agent: *\nDisallow:".to_string())))
    );
}

#[test]
fn profile_path_without_preloads_demands_the_profile() {
    assert_eq!(
        ask_path("/u/alice.near"),
        Ok(Resolution::NeedMore(vec![
            "https://api.near.social/get?keys=alice.near/profile/**".to_string()
        ]))
    );
}

#[test]
fn post_path_without_preloads_demands_profile_and_post() {
    assert_eq!(
        ask_path("/p/alice.near/100"),
        Ok(Resolution::NeedMore(vec![
            "https://api.near.social/get?keys=alice.near/profile/**".to_string(),
            "https://api.near.social/get?keys=alice.near/post/main&blockHeight=100".to_string(),
        ]))
    );
}

#[test]
fn comment_path_without_preloads_demands_profile_and_comment() {
    assert_eq!(
        ask_path("/c/alice.near/100"),
        Ok(Resolution::NeedMore(vec![
            "https://api.near.social/get?keys=alice.near/profile/**".to_string(),
            "https://api.near.social/get?keys=alice.near/post/comment&blockHeight=100".to_string(),
        ]))
    );
}

#[test]
fn nft_path_without_preloads_demands_metadata_and_token() {
    assert_eq!(
        ask_path("/nft/art.near/7"),
        Ok(Resolution::NeedMore(vec![
            "/web4/contract/art.near/nft_metadata".to_string(),
            "/web4/contract/art.near/nft_token?token_id=7".to_string(),
        ]))
    );
}

#[test]
fn request_without_a_preload_map_is_a_request_without_preloads() {
    let request = Web4Request {
        account_id: None,
        path: Some("/nft/art.near/7".to_string()),
        params: None,
        query: None,
        preloads: None,
    };
    assert_eq!(Contract::default().web4_get(request), ask_path("/nft/art.near/7"));
}

#[test]
fn unknown_path_gets_the_card_of_the_site() {
    assert_eq!(ask_path("/unknown/path"), Ok(Resolution::Done(Reply::Html(home_card()))));
}

#[test]
fn empty_path_and_root_get_the_card_of_the_site() {
    assert_eq!(ask_path(""), Ok(Resolution::Done(Reply::Html(home_card()))));
    assert_eq!(ask_path("/"), Ok(Resolution::Done(Reply::Html(home_card()))));
}

#[test]
fn only_the_exact_robots_path_is_the_crawler_policy() {
    assert_eq!(Route::parse("/robots.txt"), Ok(Route::Robots));
    assert_eq!(Route::parse("/robots.txt/"), Ok(Route::Home));
    assert_eq!(Route::parse("/robots.txtx"), Ok(Route::Home));
    assert_eq!(Route::parse("robots.txt"), Ok(Route::Home));
}

#[test]
fn malformed_account_id_in_profile_path_is_fatal() {
    assert_eq!(ask_path("/u/not a valid id"), Err(Web4Error::InvalidAccountId));
}

#[test]
fn profile_path_takes_everything_after_the_prefix_as_the_account() {
    assert_eq!(
        Route::parse("/u/alice.near"),
        Ok(Route::Profile { account_id: "alice.near".to_string() })
    );
    assert_eq!(Route::parse("/u/alice.near/"), Err(Web4Error::InvalidAccountId));
    assert_eq!(Route::parse("/u/"), Err(Web4Error::InvalidAccountId));
}

#[test]
fn account_ids_are_judged_by_the_account_id_rules() {
    let longest = "a".repeat(64);
    let too_long = "a".repeat(65);
    assert!(Route::parse(&format!("/u/{}", longest)).is_ok());
    assert_eq!(Route::parse(&format!("/u/{}", too_long)), Err(Web4Error::InvalidAccountId));
    assert!(Route::parse("/u/aa").is_ok());
    assert!(Route::parse("/u/b-o_w_e-n").is_ok());
    assert!(Route::parse("/u/10-4.8-2").is_ok());
    assert_eq!(Route::parse("/u/a"), Err(Web4Error::InvalidAccountId));
    assert_eq!(Route::parse("/u/Alice.near"), Err(Web4Error::InvalidAccountId));
    assert_eq!(Route::parse("/u/-near"), Err(Web4Error::InvalidAccountId));
    assert_eq!(Route::parse("/u/near."), Err(Web4Error::InvalidAccountId));
    assert_eq!(Route::parse("/u/0__0"), Err(Web4Error::InvalidAccountId));
    assert_eq!(Route::parse("/u/a..near"), Err(Web4Error::InvalidAccountId));
    assert_eq!(Route::parse("/u/\u{43d}\u{435}\u{430}\u{440}"), Err(Web4Error::InvalidAccountId));
}

#[test]
fn nft_path_splits_at_the_first_slash() {
    assert_eq!(
        Route::parse("/nft/art.near/7"),
        Ok(Route::NftImage { contract_id: "art.near".to_string(), token_id: "7".to_string() })
    );
    assert_eq!(
        Route::parse("/nft/art.near/a/b:c"),
        Ok(Route::NftImage { contract_id: "art.near".to_string(), token_id: "a/b:c".to_string() })
    );
    assert_eq!(
        Route::parse("/nft/art.near/"),
        Ok(Route::NftImage { contract_id: "art.near".to_string(), token_id: String::new() })
    );
}

#[test]
fn nft_path_without_a_token_segment_is_not_found() {
    assert_eq!(Route::parse("/nft/art.near"), Ok(Route::Incomplete));
    assert_eq!(Route::parse("/nft/"), Ok(Route::Incomplete));
    assert_eq!(ask_path("/nft/art.near"), Ok(Resolution::Done(Reply::Status(404))));
    assert_eq!(ask_path("/nft/Not An Id"), Ok(Resolution::Done(Reply::Status(404))));
}

#[test]
fn malformed_contract_id_in_nft_path_is_fatal() {
    assert_eq!(ask_path("/nft/Art.near/7"), Err(Web4Error::InvalidNftAccountId));
    assert_eq!(ask_path("/nft//7"), Err(Web4Error::InvalidNftAccountId));
}

#[test]
fn post_and_comment_paths_carry_account_and_block_height() {
    assert_eq!(
        Route::parse("/p/alice.near/100"),
        Ok(Route::Post { account_id: "alice.near".to_string(), block_height: 100 })
    );
    assert_eq!(
        Route::parse("/c/alice.near/100"),
        Ok(Route::Comment { account_id: "alice.near".to_string(), block_height: 100 })
    );
}

#[test]
fn post_path_without_a_block_height_segment_is_not_found() {
    assert_eq!(Route::parse("/p/alice.near"), Ok(Route::Incomplete));
    assert_eq!(Route::parse("/c/"), Ok(Route::Incomplete));
    assert_eq!(ask_path("/p/alice.near"), Ok(Resolution::Done(Reply::Status(404))));
    assert_eq!(ask_path("/c/not an id"), Ok(Resolution::Done(Reply::Status(404))));
}

#[test]
fn malformed_block_height_is_fatal() {
    assert_eq!(ask_path("/p/alice.near/abc"), Err(Web4Error::InvalidBlockHeight));
    assert_eq!(ask_path("/p/alice.near/"), Err(Web4Error::InvalidBlockHeight));
    assert_eq!(ask_path("/p/alice.near/-1"), Err(Web4Error::InvalidBlockHeight));
    assert_eq!(ask_path("/p/alice.near/1/2"), Err(Web4Error::InvalidBlockHeight));
    assert_eq!(ask_path("/c/alice.near/1 "), Err(Web4Error::InvalidBlockHeight));
    assert_eq!(ask_path("/c/alice.near/18446744073709551616"), Err(Web4Error::InvalidBlockHeight));
}

#[test]
fn block_height_is_read_as_a_u64_is_read() {
    assert_eq!(
        Route::parse("/p/alice.near/18446744073709551615"),
        Ok(Route::Post { account_id: "alice.near".to_string(), block_height: u64::MAX })
    );
    assert_eq!(
        Route::parse("/p/alice.near/+7"),
        Ok(Route::Post { account_id: "alice.near".to_string(), block_height: 7 })
    );
    assert_eq!(
        Route::parse("/c/alice.near/007"),
        Ok(Route::Comment { account_id: "alice.near".to_string(), block_height: 7 })
    );
    assert_eq!(
        ask_path("/c/alice.near/007"),
        Ok(Resolution::NeedMore(vec![
            "https://api.near.social/get?keys=alice.near/profile/**".to_string(),
            "https://api.near.social/get?keys=alice.near/post/comment&blockHeight=7".to_string(),
        ]))
    );
}

#[test]
fn malformed_account_is_reported_before_malformed_block_height() {
    assert_eq!(ask_path("/p/Alice/abc"), Err(Web4Error::InvalidAccountId));
    assert_eq!(ask_path("/c/Alice/abc"), Err(Web4Error::InvalidAccountId));
}

#[test]
fn request_without_a_path_is_fatal() {
    let request = Web4Request {
        account_id: Some("alice.near".to_string()),
        path: None,
        params: None,
        query: None,
        preloads: None,
    };
    assert_eq!(Contract::default().web4_get(request), Err(Web4Error::PathMissing));
}

#[test]
fn each_failure_has_its_words() {
    assert_eq!(Web4Error::PathMissing.message(), "Path expected");
    assert_eq!(Web4Error::InvalidNftAccountId.message(), "Invalid NFT account ID");
    assert_eq!(Web4Error::InvalidAccountId.message(), "Invalid account ID");
    assert_eq!(Web4Error::InvalidBlockHeight.message(), "Invalid block height");
}

#[test]
fn parts_of_a_path_are_read_alike_alone_and_in_the_path() {
    assert_eq!(Route::parse_nft("art.near/7"), Route::parse("/nft/art.near/7"));
    assert_eq!(Route::parse_profile("alice.near".to_string()), Route::parse("/u/alice.near"));
    assert_eq!(Route::parse_post("alice.near/5", true), Route::parse("/p/alice.near/5"));
    assert_eq!(Route::parse_post("alice.near/5", false), Route::parse("/c/alice.near/5"));
    assert_eq!(Route::parse_post("alice.near/x", false), Err(Web4Error::InvalidBlockHeight));
}

fn well_formed(id: &str) -> bool {
    let chars: Vec<char> = id.chars().collect();
    let separator = |c: char| c == '-' || c == '_' || c == '.';
    let letter = |c: char| c.is_ascii_lowercase() || c.is_ascii_digit();
    chars.len() >= 2
        && chars.len() <= 64
        && chars.iter().all(|&c| letter(c) || separator(c))
        && !separator(chars[0])
        && !separator(chars[chars.len() - 1])
        && chars.windows(2).all(|pair| !(separator(pair[0]) && separator(pair[1])))
}

#[test]
fn every_short_text_is_judged_by_the_account_id_rules() {
    let alphabet = ['a', 'z', '0', '9', '-', '_', '.', 'A', ' ', '/', '\u{e9}'];
    let mut texts: Vec<String> = vec![String::new()];
    let mut last: Vec<String> = vec![String::new()];
    for _ in 0..4 {
        let mut next = Vec::new();
        for text in &last {
            for c in alphabet {
                let mut longer = text.clone();
                longer.push(c);
                next.push(longer);
            }
        }
        texts.extend(next.iter().cloned());
        last = next;
    }
    assert_eq!(texts.len(), 1 + 11 + 121 + 1331 + 14641);
    for text in texts {
        assert_eq!(Route::parse_profile(text.clone()).is_ok(), well_formed(&text), "{:?}", text);
    }
}

#[test]
fn account_ids_of_every_length_are_judged_by_their_length() {
    for n in 0..=70usize {
        let id = "a".repeat(n);
        assert_eq!(Route::parse_profile(id).is_ok(), (2..=64).contains(&n), "{}", n);
        let dotted = format!("a.{}", "b".repeat(n));
        assert_eq!(Route::parse_profile(dotted).is_ok(), (1..=62).contains(&n), "{}", n);
    }
}
