//! Similarity-ranked recommendations: one neighbour ranking per similarity
//! algorithm, each ranked pair turned into a path-annotated recommendation.
use vstd::prelude::*;
use rec_rsys::algorithms::knn::KNN;
use rec_rsys::similarity::SimilarityAlgos;
use rec_rsys::models::Item as RecItem;

use crate::path::{decimal, generate_path, path_of};

verus! {

/// The ranking crate's item: an id, a feature vector and a score.
#[verifier::external_type_specification]
#[verifier::external_body]
pub struct ExRecItem(RecItem);

/// An entity to rank: its id, and its feature vector held in the ranking
/// crate's own item type (whose id field the ranking overwrites with `id`).
pub struct Item {
    pub id: u32,
    pub features: RecItem,
}

/// The similarity algorithms under which neighbours are ranked.
#[derive(Clone, Copy, Debug, PartialEq, Eq, Structural)]
pub enum Similarity {
    Cosine,
    AdjustedCosine,
    Euclidean,
    Spearman,
    PearsonCorrelation,
}

/// The ids of a sequence of items.
pub open spec fn item_ids(items: Seq<Item>) -> Seq<u32> {
    items.map_values(|i: Item| i.id)
}

/// The ids of a ranking of `(id, score)` pairs.
pub open spec fn ranked_ids(ranked: Seq<(u32, u32)>) -> Seq<u32> {
    ranked.map_values(|p: (u32, u32)| p.0)
}

/// How many neighbours a ranking bounded to `k` yields out of `n` references.
pub open spec fn min_len(k: u8, n: nat) -> nat {
    if (k as nat) < n { k as nat } else { n }
}

/// Whether some component of the item's feature vector is NaN.
pub uninterp spec fn has_nan(item: Item) -> bool;

/// Whether the target and every reference are free of NaN features: the
/// ranking sorts feature vectors by a comparison that fails on NaN.
pub open spec fn nan_free(target: Item, references: Seq<Item>) -> bool {
    &&& !has_nan(target)
    &&& forall|i: int| 0 <= i < references.len() ==> !has_nan(#[trigger] references[i])
}

/// Relies on `f32::is_nan`, asked of each component of the feature vector.
#[verifier::external_body]
fn features_have_nan(item: &Item) -> (r: bool)
    ensures
        r == has_nan(*item),
{
    item.features.values.iter().any(|v| v.is_nan())
}

/// Whether `target` and `references` can be ranked: none holds a NaN feature.
pub fn rankable(target: &Item, references: &Vec<Item>) -> (r: bool)
    ensures
        r == nan_free(*target, references@),
{
    if features_have_nan(target) {
        return false;
    }
    let mut i: usize = 0;
    while i < references.len()
        invariant
            i <= references@.len(),
            forall|j: int| 0 <= j < i ==> !has_nan(#[trigger] references@[j]),
        decreases references@.len() - i,
    {
        if features_have_nan(&references[i]) {
            return false;
        }
        i = i + 1;
    }
    true
}

/// Relies on rec_rsys's `KNN::new` and `KNN::result`: every reference is
/// scored against the target, the scored references are sorted stably in the
/// algorithm's direction by `total_cmp` and the first `k` are kept. Each score
/// comes back as its IEEE-754 bit pattern. Which references come first is left
/// open: a score may be a NaN whose sign, and so its place in that order,
/// depends on the machine. Spearman's rank step unwraps a comparison that
/// fails on NaN features, hence the precondition.
#[verifier::external_body]
fn rank_neighbors(target: &Item, references: &Vec<Item>, k: u8, algorithm: Similarity) -> (r: Vec<(u32, u32)>)
    requires
        nan_free(*target, references@),
    ensures
        r@.len() == min_len(k, references@.len()),
        ranked_ids(r@).to_multiset().subset_of(item_ids(references@).to_multiset()),
{
    let algo = match algorithm {
        Similarity::Cosine => SimilarityAlgos::Cosine,
        Similarity::AdjustedCosine => SimilarityAlgos::AdjustedCosine,
        Similarity::Euclidean => SimilarityAlgos::Euclidean,
        Similarity::Spearman => SimilarityAlgos::Spearman,
        Similarity::PearsonCorrelation => SimilarityAlgos::PearsonCorrelation,
    };
    let to_rec = |i: &Item| RecItem { id: i.id, ..i.features.clone() };
    let knn = KNN::new(to_rec(target), references.iter().map(to_rec).collect(), k);
    knn.result(algo).into_iter().map(|i| (i.id, i.result.to_bits())).collect()
}

/// What a recommendation states: the entity, its raw score bits, its path.
pub struct RecommendationView {
    pub prod_id: u32,
    pub rank: u32,
    pub path: Seq<char>,
}

/// A scored, path-annotated reference to a recommended entity. The rank is
/// the raw score of one similarity algorithm, as an IEEE-754 bit pattern;
/// ranks of different algorithms are not comparable.
pub struct Recommendation {
    prod_id: u32,
    rank: u32,
    path: String,
}

impl View for Recommendation {
    type V = RecommendationView;

    closed spec fn view(&self) -> RecommendationView {
        RecommendationView { prod_id: self.prod_id, rank: self.rank, path: self.path@ }
    }
}

/// The recommendation of entity `id` with score bits `rank` under `domain`.
pub open spec fn recommendation_of(id: u32, rank: u32, domain: Seq<char>) -> RecommendationView {
    RecommendationView { prod_id: id, rank, path: path_of(domain, id as nat) }
}

/// The recommendations that a ranking yields under `domain`, in its order.
pub open spec fn recommendations_of(ranked: Seq<(u32, u32)>, domain: Seq<char>) -> Seq<RecommendationView> {
    ranked.map_values(|p: (u32, u32)| recommendation_of(p.0, p.1, domain))
}

/// The views of a sequence of recommendations.
pub open spec fn views(recs: Seq<Recommendation>) -> Seq<RecommendationView> {
    recs.map_values(|r: Recommendation| r@)
}

/// The algorithms in the order in which their rankings are concatenated.
pub open spec fn algorithm_order() -> Seq<Similarity> {
    seq![
        Similarity::Cosine,
        Similarity::AdjustedCosine,
        Similarity::Euclidean,
        Similarity::Spearman,
        Similarity::PearsonCorrelation,
    ]
}

/// The algorithm whose ranking fills segment `a`.
pub fn algorithm_at(a: usize) -> (r: Similarity)
    requires
        a < 5,
    ensures
        r == algorithm_order()[a as int],
{
    match a {
        0 => Similarity::Cosine,
        1 => Similarity::AdjustedCosine,
        2 => Similarity::Euclidean,
        3 => Similarity::Spearman,
        _ => Similarity::PearsonCorrelation,
    }
}

impl Clone for Recommendation {
    fn clone(&self) -> (r: Self)
        ensures
            r@ == self@,
    {
        Recommendation { prod_id: self.prod_id, rank: self.rank, path: self.path.clone() }
    }
}

impl Recommendation {
    /// Builds the recommendation of `prod_id` with score bits `rank`; its path
    /// depends on `domain` and `prod_id` alone.
    pub fn new(prod_id: u32, rank: u32, domain: &str) -> (r: Self)
        ensures
            r@ == recommendation_of(prod_id, rank, domain@),
    {
        Recommendation { prod_id, rank, path: generate_path(domain, prod_id) }
    }

    pub fn prod_id(&self) -> (r: u32)
        ensures
            r == self@.prod_id,
    {
        self.prod_id
    }

    /// The raw score, as an IEEE-754 single-precision bit pattern.
    pub fn rank_bits(&self) -> (r: u32)
        ensures
            r == self@.rank,
    {
        self.rank
    }

    pub fn path(&self) -> (r: &str)
        ensures
            r@ == self@.path,
    {
        self.path.as_str()
    }

    /// Turns a ranking of `(id, score bits)` pairs into recommendations under
    /// `domain`, keeping its order.
    pub fn calculate_recommendations(ranked: &Vec<(u32, u32)>, domain: &str) -> (r: Vec<Recommendation>)
        ensures
            views(r@) == recommendations_of(ranked@, domain@),
    {
        let mut r: Vec<Recommendation> = Vec::new();
        let mut i: usize = 0;
        while i < ranked.len()
            invariant
                i <= ranked@.len(),
                views(r@) =~= recommendations_of(ranked@.subrange(0, i as int), domain@),
            decreases ranked@.len() - i,
        {
            let (id, rank) = ranked[i];
            let ghost before = r@;
            let rec = Recommendation::new(id, rank, domain);
            r.push(rec);
            assert(views(r@) =~= views(before).push(recommendation_of(id, rank, domain@)));
            i = i + 1;
            assert(ranked@.subrange(0, i as int) =~= ranked@.subrange(0, i - 1).push((id, rank)));
        }
        assert(ranked@.subrange(0, i as int) =~= ranked@);
        r
    }

    /// Turns five rankings into recommendations under `domain` and
    /// concatenates them in order, without dedup, re-ranking or interleaving:
    /// the block of ranking `a` follows those of the rankings before it.
    pub fn assemble_recommendations(domain: &str, rankings: &Vec<Vec<(u32, u32)>>) -> (r: Vec<Recommendation>)
        requires
            rankings@.len() == 5,
        ensures
            views(r@) == blocks(ranking_views(rankings@), domain@),
            forall|i: int| 0 <= i < r@.len() ==> (#[trigger] r@[i])@.path == path_of(domain@, r@[i]@.prod_id as nat),
    {
        let ghost rv = ranking_views(rankings@);
        let mut r: Vec<Recommendation> = Vec::new();
        let mut a: usize = 0;
        while a < 5
            invariant
                a <= 5,
                rankings@.len() == 5,
                rv == ranking_views(rankings@),
                views(r@) == blocks_prefix(rv, domain@, a as nat),
                forall|i: int| 0 <= i < r@.len() ==> (#[trigger] r@[i])@.path == path_of(domain@, r@[i]@.prod_id as nat),
            decreases 5 - a,
        {
            let mut recs = Self::calculate_recommendations(&rankings[a], domain);
            let ghost before = r@;
            let ghost added = recs@;
            r.append(&mut recs);
            proof {
                assert(r@ == before + added);
                let ra = recommendations_of(rv[a as int], domain@);
                assert(views(added) == ra);
                assert(views(r@) =~= views(before) + views(added));
                assert forall|i: int| 0 <= i < r@.len() implies (#[trigger] r@[i])@.path == path_of(domain@, r@[i]@.prod_id as nat) by {
                    if i >= before.len() {
                        let j = i - before.len();
                        assert(r@[i] == added[j]);
                        assert(views(added)[j] == r@[i]@);
                        assert(ra[j] == recommendation_of(rv[a as int][j].0, rv[a as int][j].1, domain@));
                    }
                }
            }
            a = a + 1;
        }
        proof {
            reveal_with_fuel(blocks_prefix, 6);
            assert(blocks_prefix(rv, domain@, 5) =~= blocks(rv, domain@));
        }
        r
    }

    /// Ranks `references` against `item` under each algorithm of
    /// `algorithm_order`, at most `num_recs` neighbours each, and concatenates
    /// the five blocks of recommendations in that order: block `a` holds the
    /// `min(num_recs, n)` neighbours that algorithm `a` ranked, best first.
    /// Scores are neither normalised nor re-ranked across algorithms, and
    /// duplicates are kept. The contract states what holds whatever each
    /// ranking returns; `assemble_recommendations` states the result exactly
    /// for given rankings.
    pub fn generate_recommendations(domain: &str, item: &Item, references: &Vec<Item>, num_recs: u8) -> (r: Vec<Recommendation>)
        requires
            nan_free(*item, references@),
        ensures
            is_recommendation_list(r@, domain@, references@, num_recs),
    {
        let ghost m = min_len(num_recs, references@.len());
        let mut rankings: Vec<Vec<(u32, u32)>> = Vec::new();
        let mut a: usize = 0;
        while a < 5
            invariant
                a <= 5,
                rankings@.len() == a,
                m == min_len(num_recs, references@.len()),
                nan_free(*item, references@),
                ranked_by(ranking_views(rankings@), references@, num_recs),
            decreases 5 - a,
        {
            let ranked = rank_neighbors(item, references, num_recs, algorithm_at(a));
            let ghost before = rankings@;
            rankings.push(ranked);
            proof {
                assert(ranking_views(rankings@) =~= ranking_views(before).push(ranked@));
            }
            a = a + 1;
        }
        let r = Self::assemble_recommendations(domain, &rankings);
        proof {
            let rv = ranking_views(rankings@);
            lemma_block_segments(rv, domain@, m);
            assert(valid_rankings(rv, references@, num_recs));
        }
        r
    }

    /// `generate_recommendations` where the features can be ranked; none
    /// where the target or a reference holds a NaN feature.
    pub fn try_generate_recommendations(domain: &str, item: &Item, references: &Vec<Item>, num_recs: u8) -> (r: Option<Vec<Recommendation>>)
        ensures
            r is None <==> !nan_free(*item, references@),
            r matches Some(recs) ==> is_recommendation_list(recs@, domain@, references@, num_recs),
    {
        if rankable(item, references) {
            Some(Self::generate_recommendations(domain, item, references, num_recs))
        } else {
            None
        }
    }
}

/// The views of a sequence of rankings.
pub open spec fn ranking_views(rankings: Seq<Vec<(u32, u32)>>) -> Seq<Seq<(u32, u32)>> {
    rankings.map_values(|v: Vec<(u32, u32)>| v@)
}

/// Each ranking holds `min(k, n)` pairs whose ids are drawn from the
/// references' ids, each id no more often than among the references.
pub open spec fn ranked_by(rankings: Seq<Seq<(u32, u32)>>, references: Seq<Item>, k: u8) -> bool {
    forall|a: int| 0 <= a < rankings.len() ==> (#[trigger] rankings[a]).len() == min_len(k, references.len())
        && ranked_ids(rankings[a]).to_multiset().subset_of(item_ids(references).to_multiset())
}

/// Five rankings of `references`, bounded to `k` neighbours each.
pub open spec fn valid_rankings(rankings: Seq<Seq<(u32, u32)>>, references: Seq<Item>, k: u8) -> bool {
    rankings.len() == 5 && ranked_by(rankings, references, k)
}

/// The recommendations of the first `a` rankings, concatenated.
pub open spec fn blocks_prefix(rankings: Seq<Seq<(u32, u32)>>, domain: Seq<char>, a: nat) -> Seq<RecommendationView>
    decreases a,
{
    if a == 0 {
        Seq::empty()
    } else {
        blocks_prefix(rankings, domain, (a - 1) as nat) + recommendations_of(rankings[a - 1], domain)
    }
}

/// The recommendations of five rankings under `domain`, concatenated in order.
pub open spec fn blocks(rankings: Seq<Seq<(u32, u32)>>, domain: Seq<char>) -> Seq<RecommendationView> {
    recommendations_of(rankings[0], domain) + recommendations_of(rankings[1], domain)
        + recommendations_of(rankings[2], domain) + recommendations_of(rankings[3], domain)
        + recommendations_of(rankings[4], domain)
}

/// The segment of index `a`, of length `m`, of a list of recommendations.
pub open spec fn segment(recs: Seq<RecommendationView>, a: int, m: nat) -> Seq<RecommendationView> {
    recs.subrange(a * m, a * m + m)
}

/// Where each of five rankings holds `m` pairs, the segment of index `a` of
/// their concatenated recommendations is the recommendations of ranking `a`.
proof fn lemma_block_segments(rankings: Seq<Seq<(u32, u32)>>, domain: Seq<char>, m: nat)
    requires
        rankings.len() == 5,
        forall|a: int| 0 <= a < 5 ==> (#[trigger] rankings[a]).len() == m,
    ensures
        blocks(rankings, domain).len() == 5 * m,
        forall|a: int| 0 <= a < 5 ==> #[trigger] segment(blocks(rankings, domain), a, m)
            == recommendations_of(rankings[a], domain),
{
    let all = blocks(rankings, domain);
    let b0 = recommendations_of(rankings[0], domain);
    let b1 = recommendations_of(rankings[1], domain);
    let b2 = recommendations_of(rankings[2], domain);
    let b3 = recommendations_of(rankings[3], domain);
    let b4 = recommendations_of(rankings[4], domain);
    assert(rankings[0].len() == m && rankings[1].len() == m && rankings[2].len() == m);
    assert(rankings[3].len() == m && rankings[4].len() == m);
    assert(all =~= b0 + b1 + b2 + b3 + b4);
    assert(segment(all, 0, m) =~= b0);
    assert(segment(all, 1, m) =~= b1);
    assert(segment(all, 2, m) =~= b2);
    assert(segment(all, 3, m) =~= b3);
    assert(segment(all, 4, m) =~= b4);
}

/// What `generate_recommendations` returns for `references` under `domain`,
/// bounded to `k` neighbours per algorithm: the recommendations of five
/// rankings concatenated, each ranking holding `min(k, n)` pairs with ids
/// drawn from the references' ids, so that block `a` is the segment
/// `[a * min(k, n), (a + 1) * min(k, n))`; and every path the one of its
/// entity under `domain`.
pub open spec fn is_recommendation_list(recs: Seq<Recommendation>, domain: Seq<char>, references: Seq<Item>, k: u8) -> bool {
    &&& recs.len() == 5 * min_len(k, references.len())
    &&& references.len() == 0 ==> recs.len() == 0
    &&& exists|rankings: Seq<Seq<(u32, u32)>>|
            #[trigger] valid_rankings(rankings, references, k)
            && views(recs) == blocks(rankings, domain)
            && forall|a: int| 0 <= a < 5 ==> #[trigger] segment(views(recs), a, min_len(k, references.len()))
                == recommendations_of(rankings[a], domain)
    &&& forall|i: int| 0 <= i < recs.len() ==> (#[trigger] recs[i])@.path == path_of(domain, recs[i]@.prod_id as nat)
}

/// A recommendation's path is the template `my/path/{domain}/{id}/` of its
/// entity under the list's domain: two recommendations of one entity in such
/// lists under one domain share their path, whatever their ranks or the
/// algorithms that ranked them.
pub proof fn lemma_path_fixed(
    first: Seq<Recommendation>,
    second: Seq<Recommendation>,
    domain: Seq<char>,
    references: Seq<Item>,
    other_references: Seq<Item>,
    k: u8,
    other_k: u8,
    i: int,
    j: int,
)
    requires
        is_recommendation_list(first, domain, references, k),
        is_recommendation_list(second, domain, other_references, other_k),
        0 <= i < first.len(),
        0 <= j < second.len(),
        first[i]@.prod_id == second[j]@.prod_id,
    ensures
        first[i]@.path == "my/path/"@ + domain + "/"@ + decimal(first[i]@.prod_id as nat) + "/"@,
        first[i]@.path == second[j]@.path,
{
    assert(first[i]@.path == path_of(domain, first[i]@.prod_id as nat));
    assert(second[j]@.path == path_of(domain, second[j]@.prod_id as nat));
}

} // verus!
