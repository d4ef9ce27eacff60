//! Messages exchanged over a session.
use vstd::prelude::*;

verus! {

/// The largest score, in millionths: a score of one.
pub const MAX_SCORE_PPM: u32 = 1_000_000;

/// One request of a session: what the caller is looking for.
#[derive(Clone, Debug, PartialEq, Eq)]
pub struct Context {
    pub query: String,
    pub asin_id: String,
    pub understanding: String,
}

pub struct ContextView {
    pub query: Seq<char>,
    pub asin_id: Seq<char>,
    pub understanding: Seq<char>,
}

impl View for Context {
    type V = ContextView;

    open spec fn view(&self) -> ContextView {
        ContextView {
            query: self.query@,
            asin_id: self.asin_id@,
            understanding: self.understanding@,
        }
    }
}

/// One scored item. The score is held in millionths, so that
/// `score_ppm == 1_000_000` stands for a score of one.
#[derive(Clone, Debug, PartialEq, Eq)]
pub struct Ad {
    pub asin_id: String,
    pub ad_id: String,
    pub score_ppm: u32,
}

pub struct AdView {
    pub asin_id: Seq<char>,
    pub ad_id: Seq<char>,
    pub score_ppm: u32,
}

impl View for Ad {
    type V = AdView;

    open spec fn view(&self) -> AdView {
        AdView { asin_id: self.asin_id@, ad_id: self.ad_id@, score_ppm: self.score_ppm }
    }
}

/// The views of a sequence of items.
pub open spec fn views(ads: Seq<Ad>) -> Seq<AdView> {
    ads.map_values(|a: Ad| a@)
}

/// One response of a session: a version and its items, best first.
#[derive(Clone, Debug, PartialEq, Eq)]
pub struct AdsList {
    pub version: u32,
    pub ads: Vec<Ad>,
}

pub struct AdsListView {
    pub version: u32,
    pub ads: Seq<AdView>,
}

impl View for AdsList {
    type V = AdsListView;

    open spec fn view(&self) -> AdsListView {
        AdsListView { version: self.version, ads: views(self.ads@) }
    }
}

impl Context {
    /// A request made of the three texts.
    pub fn new(query: String, asin_id: String, understanding: String) -> (r: Context)
        ensures
            r.query == query,
            r.asin_id == asin_id,
            r.understanding == understanding,
    {
        Context { query, asin_id, understanding }
    }
}

} // verus!
