use ads_stream::model::{AdsList, Context, MAX_SCORE_PPM};
use ads_stream::scoring::generate_ads;

fn request(query: &str, asin_id: &str, understanding: &str) -> Context {
    Context::new(query.to_string(), asin_id.to_string(), understanding.to_string())
}

fn scores(list: &AdsList) -> Vec<u32> {
    list.ads.iter().map(|a| a.score_ppm).collect()
}

#[test]
fn first_version_holds_five_to_ten_items_best_first() {
    let list = generate_ads(&request("coffee maker", "B000123", ""), 1);
    assert_eq!(list.version, 1);
    assert!(list.ads.len() >= 5 && list.ads.len() <= 10);
    let s = scores(&list);
    for w in s.windows(2) {
        assert!(w[0] >= w[1]);
    }
}

#[test]
fn generate_is_deterministic() {
    let ctx = request("coffee maker", "B000123", "refined understanding");
    for version in 1..=4u32 {
        let a = generate_ads(&ctx, version);
        let b = generate_ads(&ctx, version);
        assert_eq!(a, b);
    }
}

#[test]
fn scores_stay_between_zero_and_one() {
    let queries = ["", "coffee maker", "tea", "a very long query about kettles"];
    let understandings = ["", "x", "brewing at home"];
    for q in queries.iter() {
        for u in understandings.iter() {
            for version in 0..=5u32 {
                let list = generate_ads(&request(q, "B000123", u), version);
                for ad in list.ads.iter() {
                    assert!(ad.score_ppm <= MAX_SCORE_PPM);
                }
            }
        }
    }
}

#[test]
fn item_ids_name_subject_ordinal_and_version() {
    let list = generate_ads(&request("coffee maker", "B000123", ""), 2);
    let n = list.ads.len();
    let mut ids: Vec<String> = list.ads.iter().map(|a| a.ad_id.clone()).collect();
    ids.sort();
    let mut expected: Vec<String> = (1..=n).map(|i| format!("ad_B000123_{}_v2", i)).collect();
    expected.sort();
    assert_eq!(ids, expected);
    for ad in list.ads.iter() {
        assert_eq!(ad.asin_id, "B000123");
    }
}

#[test]
fn version_changes_scores_not_count() {
    let ctx = request("coffee maker", "B000123", "x");
    let v1 = generate_ads(&ctx, 1);
    let v3 = generate_ads(&ctx, 3);
    assert_eq!(v1.ads.len(), v3.ads.len());
    assert_eq!(v3.version, 3);
    assert!(v3.ads.iter().all(|a| a.ad_id.ends_with("_v3")));
}

#[test]
fn count_depends_on_query_and_subject_only() {
    let a = generate_ads(&request("coffee maker", "B000123", ""), 1);
    let b = generate_ads(&request("coffee maker", "B000123", "something else"), 2);
    assert_eq!(a.ads.len(), b.ads.len());
}

#[test]
fn understanding_never_lowers_a_score() {
    let plain = generate_ads(&request("coffee maker", "B000123", ""), 2);
    let boosted = generate_ads(&request("coffee maker", "B000123", "x"), 2);
    for ad in plain.ads.iter() {
        let other = boosted.ads.iter().find(|b| b.ad_id == ad.ad_id).unwrap();
        assert!(other.score_ppm >= ad.score_ppm);
    }
}
