use rec_rsys::models::Item as RecItem;
use webservice::customer::Customer;
use webservice::errors::CRUDError;
use webservice::path::{decimal_string, generate_path};
use webservice::recommendations::{rankable, Item, Recommendation};

fn item(id: u32, values: Vec<f32>) -> Item {
    Item { id, features: RecItem::new(id, values, None) }
}

#[test]
fn path_follows_template() {
    assert_eq!(generate_path("acme", 2), "my/path/acme/2/");
    assert_eq!(generate_path("invfin", 4294967295), "my/path/invfin/4294967295/");
    assert_eq!(generate_path("", 0), "my/path//0/");
}

#[test]
fn decimal_notation() {
    assert_eq!(decimal_string(0), "0");
    assert_eq!(decimal_string(10), "10");
    assert_eq!(decimal_string(907), "907");
}

#[test]
fn path_ignores_rank() {
    let a = Recommendation::new(7, 1.5f32.to_bits(), "acme");
    let b = Recommendation::new(7, (-3.0f32).to_bits(), "acme");
    assert_eq!(a.path(), "my/path/acme/7/");
    assert_eq!(a.path(), b.path());
    assert_eq!(a.prod_id(), 7);
    assert_eq!(f32::from_bits(a.rank_bits()), 1.5);
}

#[test]
fn no_references_give_no_recommendations() {
    let target = item(1, vec![1.0, 0.0]);
    for k in [0u8, 1, 5, 255] {
        let recs = Recommendation::generate_recommendations("acme", &target, &Vec::new(), k);
        assert!(recs.is_empty());
    }
}

#[test]
fn three_references_five_neighbours() {
    let target = item(1, vec![1.0, 2.0, 3.0]);
    let refs = vec![item(2, vec![4.0, 5.0, 6.0]), item(3, vec![7.0, 8.0, 9.0]), item(4, vec![1.0, 0.0, 2.0])];
    let recs = Recommendation::generate_recommendations("acme", &target, &refs, 5);
    assert_eq!(recs.len(), 15);
    for segment in recs.chunks(3) {
        let mut ids: Vec<u32> = segment.iter().map(|r| r.prod_id()).collect();
        ids.sort();
        assert_eq!(ids, vec![2, 3, 4]);
    }
    for r in &recs {
        assert_eq!(r.path(), format!("my/path/acme/{}/", r.prod_id()));
    }
}

#[test]
fn identical_vector_ranks_first() {
    let target = item(1, vec![1.0, 0.0]);
    let refs = vec![item(2, vec![1.0, 0.0]), item(3, vec![0.0, 1.0])];
    let recs = Recommendation::generate_recommendations("acme", &target, &refs, 1);
    assert_eq!(recs.len(), 5);
    assert_eq!(recs[0].prod_id(), 2);
    assert_eq!(recs[0].path(), "my/path/acme/2/");
    assert_eq!(recs[2].prod_id(), 2);
    assert_eq!(recs[2].path(), "my/path/acme/2/");
    assert_eq!(f32::from_bits(recs[2].rank_bits()), 0.0);
}

#[test]
fn fewer_neighbours_than_references() {
    let target = item(1, vec![1.0, 0.0]);
    let refs = vec![item(2, vec![1.0, 0.0]), item(3, vec![0.0, 1.0]), item(4, vec![1.0, 1.0])];
    let recs = Recommendation::generate_recommendations("acme", &target, &refs, 2);
    assert_eq!(recs.len(), 10);
}

#[test]
fn ranking_becomes_recommendations() {
    let ranked = vec![(5u32, 2.0f32.to_bits()), (9, 1.0f32.to_bits())];
    let recs = Recommendation::calculate_recommendations(&ranked, "shop");
    assert_eq!(recs.len(), 2);
    assert_eq!(recs[0].prod_id(), 5);
    assert_eq!(recs[1].path(), "my/path/shop/9/");
    assert_eq!(f32::from_bits(recs[0].rank_bits()), 2.0);
}

#[test]
fn recognised_token_resolves() {
    let c = Customer::get("cool".to_string()).unwrap();
    assert_eq!(c.key, "cool");
    assert_eq!(c.domain, "invfin");
    assert!(Customer::get("warm".to_string()).is_none());
    assert!(Customer::get(String::new()).is_none());
}

#[test]
fn recommendations_use_tenant_domain() {
    let c = Customer::new("cool".to_string());
    let target = item(1, vec![1.0, 0.0]);
    let refs = vec![item(2, vec![1.0, 0.0])];
    let recs = c.get_recommendations(Ok((target, refs)), 5).unwrap();
    assert_eq!(recs.len(), 5);
    assert!(recs.iter().all(|r| r.path() == "my/path/invfin/2/"));
}

#[test]
fn fetch_error_passes_through() {
    let c = Customer::new("cool".to_string());
    let r = c.get_recommendations(Err(CRUDError::NotFound), 5);
    assert!(matches!(r, Err(CRUDError::NotFound)));
}

#[test]
fn nan_features_are_not_ranked() {
    let target = item(1, vec![1.0, 0.0]);
    let refs = vec![item(2, vec![f32::NAN, 1.0]), item(3, vec![0.0, 1.0])];
    assert!(!rankable(&target, &refs));
    assert!(Recommendation::try_generate_recommendations("acme", &target, &refs, 1).is_none());
    let nan_target = item(1, vec![f32::NAN, 0.0]);
    assert!(!rankable(&nan_target, &Vec::new()));
}

#[test]
fn checked_generation_matches_plain() {
    let target = item(1, vec![1.0, 0.0]);
    let refs = vec![item(2, vec![1.0, 0.0]), item(3, vec![0.0, 1.0])];
    assert!(rankable(&target, &refs));
    let checked = Recommendation::try_generate_recommendations("acme", &target, &refs, 1).unwrap();
    let plain = Recommendation::generate_recommendations("acme", &target, &refs, 1);
    assert_eq!(checked.len(), 5);
    for (a, b) in checked.iter().zip(plain.iter()) {
        assert_eq!(a.prod_id(), b.prod_id());
        assert_eq!(a.rank_bits(), b.rank_bits());
        assert_eq!(a.path(), b.path());
    }
}

#[test]
fn rankings_are_concatenated_in_order() {
    let rankings = vec![
        vec![(2u32, 1.0f32.to_bits())],
        vec![(3, 0.5f32.to_bits()), (2, 0.25f32.to_bits())],
        vec![],
        vec![(2, 0.0f32.to_bits())],
        vec![(4, (-1.0f32).to_bits())],
    ];
    let recs = Recommendation::assemble_recommendations("acme", &rankings);
    let ids: Vec<u32> = recs.iter().map(|r| r.prod_id()).collect();
    assert_eq!(ids, vec![2, 3, 2, 2, 4]);
    assert_eq!(f32::from_bits(recs[1].rank_bits()), 0.5);
    assert_eq!(f32::from_bits(recs[4].rank_bits()), -1.0);
    assert_eq!(recs[4].path(), "my/path/acme/4/");
}
