//! The scoring engine: a deterministic, versioned list of scored items for
//! one request.
use vstd::prelude::*;
use vstd::utf8::encode_utf8;
use vstd::std_specs::hash::DefaultHasherAdditionalSpecFns;
use std::collections::hash_map::DefaultHasher;
use std::hash::Hasher;
use crate::model::{Ad, AdView, AdsList, AdsListView, Context, ContextView, MAX_SCORE_PPM, views};
use crate::draws::{SeededDraws, seeded_draw};

verus! {

/// The fewest items a list holds.
pub const MIN_ADS: i64 = 5;

/// The most items a list holds.
pub const MAX_ADS: i64 = 10;

/// The largest jitter added to a score, in millionths.
pub const JITTER_PPM: i64 = 100_000;

/// The largest jitter taken from a score, in millionths, as a negative number.
pub const NEG_JITTER_PPM: i64 = -100_000;

/// What hashing a text writes: its UTF-8 bytes, then an end marker.
pub open spec fn framed(s: Seq<char>) -> Seq<Seq<u8>> {
    seq![encode_utf8(s), seq![0xffu8]]
}

/// The seed of a request's generator: a hash of its query and subject.
pub open spec fn seed_of(query: Seq<char>, asin_id: Seq<char>) -> u64 {
    DefaultHasher::spec_finish(framed(query) + framed(asin_id))
}

/// The hash that an item's base score comes from.
pub open spec fn item_hash(query: Seq<char>, asin_id: Seq<char>, index: int) -> u64 {
    DefaultHasher::spec_finish(framed(query) + framed(asin_id) + seq![seq![index as u8]])
}

/// The hash of a single text.
pub open spec fn text_hash(s: Seq<char>) -> u64 {
    DefaultHasher::spec_finish(framed(s))
}

/// How a version scales a score, in tenths.
pub open spec fn multiplier_tenths(version: u32) -> int {
    if version == 1 {
        7
    } else if version == 2 {
        9
    } else if version == 3 {
        11
    } else {
        10
    }
}

/// The boost that a non-empty understanding adds, in millionths: under 0.2.
pub open spec fn boost_ppm(understanding: Seq<char>) -> int {
    if understanding.len() == 0 {
        0
    } else {
        (text_hash(understanding) % 200) as int * 1000
    }
}

/// A raw score brought into `0..=MAX_SCORE_PPM`.
pub open spec fn clamp_score(x: int) -> int {
    if x < 0 {
        0
    } else if x > MAX_SCORE_PPM {
        MAX_SCORE_PPM as int
    } else {
        x
    }
}

/// The score of the item at `index`, given its jitter.
pub open spec fn item_score(ctx: ContextView, version: u32, index: int, jitter: int) -> int {
    let base = (item_hash(ctx.query, ctx.asin_id, index) % 1000) as int * 1000;
    clamp_score((base + boost_ppm(ctx.understanding)) * multiplier_tenths(version) / 10 + jitter)
}

/// The ranges drawn from a request's generator before the jitter of the
/// item at `index`: the item count, then one jitter per earlier item.
pub open spec fn draws_before_item(index: int) -> Seq<(i64, i64)> {
    seq![(MIN_ADS, MAX_ADS)] + Seq::new(index as nat, |k: int| (NEG_JITTER_PPM, JITTER_PPM))
}

/// How many items a request gets.
pub open spec fn ad_count(ctx: ContextView) -> int {
    seeded_draw(seed_of(ctx.query, ctx.asin_id), Seq::empty(), MIN_ADS, MAX_ADS) as int
}

/// The jitter of the item at `index`.
pub open spec fn jitter_of(ctx: ContextView, index: int) -> int {
    seeded_draw(
        seed_of(ctx.query, ctx.asin_id),
        draws_before_item(index),
        NEG_JITTER_PPM,
        JITTER_PPM,
    ) as int
}

/// The character of a decimal digit.
pub open spec fn digit_char(d: int) -> char {
    if d == 0 {
        '0'
    } else if d == 1 {
        '1'
    } else if d == 2 {
        '2'
    } else if d == 3 {
        '3'
    } else if d == 4 {
        '4'
    } else if d == 5 {
        '5'
    } else if d == 6 {
        '6'
    } else if d == 7 {
        '7'
    } else if d == 8 {
        '8'
    } else {
        '9'
    }
}

/// The decimal digits of `n`, without leading zeros.
pub open spec fn decimal_text(n: nat) -> Seq<char>
    decreases n,
{
    if n < 10 {
        seq![digit_char(n as int)]
    } else {
        decimal_text(n / 10).push(digit_char((n % 10) as int))
    }
}

/// An item's identifier: `ad_<subject>_<ordinal>_v<version>`.
pub open spec fn ad_id_text(asin_id: Seq<char>, ordinal: nat, version: nat) -> Seq<char> {
    "ad_"@ + asin_id + "_"@ + decimal_text(ordinal) + "_v"@ + decimal_text(version)
}

/// The item at `index`, in generation order.
pub open spec fn scored_ad(ctx: ContextView, version: u32, index: int) -> AdView {
    AdView {
        asin_id: ctx.asin_id,
        ad_id: ad_id_text(ctx.asin_id, (index + 1) as nat, version as nat),
        score_ppm: item_score(ctx, version, index, jitter_of(ctx, index)) as u32,
    }
}

/// The items of a request, in generation order.
pub open spec fn generated_ads(ctx: ContextView, version: u32) -> Seq<AdView> {
    Seq::new(ad_count(ctx) as nat, |i: int| scored_ad(ctx, version, i))
}

/// Where an item of score `score` goes in `s`, looking from `from` on:
/// after every item that scores at least as much.
pub open spec fn insert_position(s: Seq<AdView>, score: u32, from: int) -> int
    decreases s.len() - from,
{
    if from >= s.len() || s[from].score_ppm < score {
        from
    } else {
        insert_position(s, score, from + 1)
    }
}

/// `s` ordered best first; items of equal score keep their order.
pub open spec fn ranked(s: Seq<AdView>) -> Seq<AdView>
    decreases s.len(),
{
    if s.len() == 0 {
        s
    } else {
        let r = ranked(s.drop_last());
        r.insert(insert_position(r, s.last().score_ppm, 0), s.last())
    }
}

pub open spec fn non_increasing(s: Seq<AdView>) -> bool {
    forall|i: int, j: int| 0 <= i < j < s.len() ==> s[i].score_ppm >= s[j].score_ppm
}

/// The list that the engine makes for a request and a version.
pub open spec fn generate_spec(ctx: ContextView, version: u32) -> AdsListView {
    AdsListView { version, ads: ranked(generated_ads(ctx, version)) }
}

/// The engine is deterministic: requests with the same query, subject and
/// understanding, at the same version, get the same list, item for item.
pub proof fn lemma_generate_deterministic(a: ContextView, b: ContextView, version: u32)
    requires
        a.query == b.query,
        a.asin_id == b.asin_id,
        a.understanding == b.understanding,
    ensures
        generate_spec(a, version) == generate_spec(b, version),
{
    assert(a == b);
}

proof fn lemma_insert_position(s: Seq<AdView>, score: u32, from: int)
    requires
        0 <= from <= s.len(),
    ensures
        from <= insert_position(s, score, from) <= s.len(),
        forall|j: int| from <= j < insert_position(s, score, from) ==> s[j].score_ppm >= score,
        insert_position(s, score, from) < s.len() ==> s[insert_position(s, score, from)].score_ppm
            < score,
    decreases s.len() - from,
{
    if from < s.len() && s[from].score_ppm >= score {
        lemma_insert_position(s, score, from + 1);
    }
}

proof fn lemma_ranked(s: Seq<AdView>)
    ensures
        ranked(s).len() == s.len(),
        non_increasing(ranked(s)),
        ranked(s).to_multiset() == s.to_multiset(),
    decreases s.len(),
{
    if s.len() > 0 {
        assert(s =~= s.drop_last().push(s.last()));
        vstd::seq_lib::to_multiset_build(s.drop_last(), s.last());
        let r = ranked(s.drop_last());
        lemma_ranked(s.drop_last());
        let a = s.last();
        let p = insert_position(r, a.score_ppm, 0);
        lemma_insert_position(r, a.score_ppm, 0);
        let t = r.insert(p, a);
        vstd::seq_lib::to_multiset_insert(r, p, a);
        assert forall|i: int, j: int| 0 <= i < j < t.len() implies t[i].score_ppm
            >= t[j].score_ppm by {
            if j < p {
            } else if j == p {
            } else if i < p {
            } else if i == p {
                assert(r[p].score_ppm >= r[j - 1].score_ppm);
            } else {
            }
        }
    }
}

/// Relies on std's `u64::to_string`: the decimal digits of the number.
#[verifier::external_body]
fn decimal(n: u64) -> (r: String)
    ensures
        r@ == decimal_text(n as nat),
{
    n.to_string()
}

fn ad_id(asin_id: &String, ordinal: u64, version: u32) -> (r: String)
    ensures
        r@ == ad_id_text(asin_id@, ordinal as nat, version as nat),
{
    let mut s = String::from_str("ad_");
    s.append(asin_id.as_str());
    s.append("_");
    let o = decimal(ordinal);
    s.append(o.as_str());
    s.append("_v");
    let v = decimal(version as u64);
    s.append(v.as_str());
    s
}

fn end_marker() -> (r: Vec<u8>)
    ensures
        r@ == seq![0xffu8],
{
    let mut v: Vec<u8> = Vec::new();
    v.push(0xff);
    v
}

fn write_text(h: &mut DefaultHasher, s: &String)
    ensures
        final(h)@ == old(h)@ + framed(s@),
{
    h.write(s.as_str().as_bytes());
    let end = end_marker();
    h.write(end.as_slice());
    assert(final(h)@ =~= old(h)@ + framed(s@));
}

fn context_seed(query: &String, asin_id: &String) -> (r: u64)
    ensures
        r == seed_of(query@, asin_id@),
{
    let mut h = DefaultHasher::new();
    write_text(&mut h, query);
    write_text(&mut h, asin_id);
    assert(h@ =~= framed(query@) + framed(asin_id@));
    h.finish()
}

fn index_hash(query: &String, asin_id: &String, index: u8) -> (r: u64)
    ensures
        r == item_hash(query@, asin_id@, index as int),
{
    let mut h = DefaultHasher::new();
    write_text(&mut h, query);
    write_text(&mut h, asin_id);
    let mut b: Vec<u8> = Vec::new();
    b.push(index);
    h.write(b.as_slice());
    assert(h@ =~= framed(query@) + framed(asin_id@) + seq![seq![index]]);
    h.finish()
}

fn understanding_boost(understanding: &String) -> (r: i64)
    ensures
        r == boost_ppm(understanding@),
        0 <= r < 200_000,
{
    if understanding.as_str().unicode_len() == 0 {
        0
    } else {
        let mut h = DefaultHasher::new();
        write_text(&mut h, understanding);
        assert(h@ =~= framed(understanding@));
        let x = h.finish();
        (x % 200) as i64 * 1000
    }
}

fn multiplier(version: u32) -> (r: i64)
    ensures
        r == multiplier_tenths(version),
{
    match version {
        1 => 7,
        2 => 9,
        3 => 11,
        _ => 10,
    }
}

fn clamp(x: i64) -> (r: u32)
    ensures
        r == clamp_score(x as int),
{
    if x < 0 {
        0
    } else if x > MAX_SCORE_PPM as i64 {
        MAX_SCORE_PPM
    } else {
        x as u32
    }
}

/// Inserts `ad` after every item of `ads` that scores at least as much.
fn insert_ranked(ads: &mut Vec<Ad>, ad: Ad)
    ensures
        views(final(ads)@) == views(old(ads)@).insert(
            insert_position(views(old(ads)@), ad.score_ppm, 0),
            ad@,
        ),
{
    let ghost s = views(ads@);
    let mut pos: usize = 0;
    while pos < ads.len() && ads[pos].score_ppm >= ad.score_ppm
        invariant
            0 <= pos <= ads.len(),
            s == views(ads@),
            insert_position(s, ad.score_ppm, 0) == insert_position(s, ad.score_ppm, pos as int),
        decreases ads.len() - pos,
    {
        pos = pos + 1;
    }
    let ghost a = ad@;
    ads.insert(pos, ad);
    assert(views(ads@) =~= s.insert(pos as int, a));
}

/// The list of scored items for `context` at `version`: between five and
/// ten items, best first, each score between zero and one.
pub fn generate_ads(context: &Context, version: u32) -> (r: AdsList)
    ensures
        r@ == generate_spec(context@, version),
        MIN_ADS <= r.ads.len() <= MAX_ADS,
        non_increasing(r@.ads),
        r@.ads.to_multiset() == generated_ads(context@, version).to_multiset(),
        forall|i: int| 0 <= i < r@.ads.len() ==> r@.ads[i].score_ppm <= MAX_SCORE_PPM,
{
    let ghost ctx = context@;
    let ghost all = generated_ads(ctx, version);
    let seed = context_seed(&context.query, &context.asin_id);
    let mut rng = SeededDraws::new(seed);
    let count = rng.draw(MIN_ADS, MAX_ADS);
    let boost = understanding_boost(&context.understanding);
    let mult = multiplier(version);
    let mut ads: Vec<Ad> = Vec::new();
    let mut i: usize = 0;
    assert(rng.drawn() =~= draws_before_item(0));
    while i < count as usize
        invariant
            MIN_ADS <= count <= MAX_ADS,
            count == ad_count(ctx),
            all.len() == count,
            ctx == context@,
            all == generated_ads(ctx, version),
            0 <= i <= count,
            rng.seed() == seed,
            seed == seed_of(ctx.query, ctx.asin_id),
            rng.drawn() == draws_before_item(i as int),
            boost == boost_ppm(ctx.understanding),
            0 <= boost < 200_000,
            mult == multiplier_tenths(version),
            views(ads@) == ranked(all.take(i as int)),
        decreases count - i,
    {
        let h = index_hash(&context.query, &context.asin_id, i as u8);
        let base = (h % 1000) as i64 * 1000;
        let jitter = rng.draw(NEG_JITTER_PPM, JITTER_PPM);
        assert(rng.drawn() =~= draws_before_item(i + 1));
        let scaled = (base + boost) * mult / 10;
        let score = clamp(scaled + jitter);
        let ordinal = (i + 1) as u64;
        let id = ad_id(&context.asin_id, ordinal, version);
        let ad = Ad { asin_id: context.asin_id.clone(), ad_id: id, score_ppm: score };
        assert(ad@ == scored_ad(ctx, version, i as int));
        assert(all.take(i + 1).drop_last() =~= all.take(i as int));
        insert_ranked(&mut ads, ad);
        i = i + 1;
    }
    assert(all.take(count as int) =~= all);
    proof {
        lemma_ranked(all);
        let r = ranked(all);
        assert forall|k: int| 0 <= k < r.len() implies r[k].score_ppm <= MAX_SCORE_PPM by {
            vstd::seq_lib::to_multiset_contains(r, r[k]);
            vstd::seq_lib::to_multiset_contains(all, r[k]);
            assert(r.contains(r[k]));
        }
    }
    AdsList { version, ads }
}

} // verus!
