use round_robin_proxy::selector::BackendSelector;

fn pool(addrs: &[&str]) -> Vec<String> {
    let mut v: Vec<String> = Vec::new();
    for a in addrs {
        v.push((*a).to_string());
    }
    v
}

#[test]
fn empty_pool_rejected() {
    assert!(BackendSelector::new(Vec::new()).is_none());
}

#[test]
fn non_empty_pool_accepted() {
    let s = BackendSelector::new(pool(&["http://localhost:4000"]));
    assert!(s.is_some());
    assert_eq!(s.unwrap().backend_count(), 1);
}

#[test]
fn rotation_cycles_in_order() {
    let mut s = BackendSelector::new(pool(&[
        "http://localhost:4000",
        "http://localhost:4001",
    ]))
    .unwrap();
    let mut picks: Vec<String> = Vec::new();
    for _ in 0..6 {
        picks.push(s.next());
    }
    assert_eq!(
        picks,
        vec![
            "http://localhost:4000".to_string(),
            "http://localhost:4001".to_string(),
            "http://localhost:4000".to_string(),
            "http://localhost:4001".to_string(),
            "http://localhost:4000".to_string(),
            "http://localhost:4001".to_string(),
        ]
    );
}

#[test]
fn rotation_counts_are_even() {
    let mut s = BackendSelector::new(pool(&["a", "b", "c"])).unwrap();
    let mut count_a: usize = 0;
    let mut count_b: usize = 0;
    let mut count_c: usize = 0;
    for _ in 0..12 {
        let picked = s.next();
        if picked == "a" {
            count_a += 1;
        } else if picked == "b" {
            count_b += 1;
        } else {
            count_c += 1;
        }
    }
    assert_eq!(count_a, 4);
    assert_eq!(count_b, 4);
    assert_eq!(count_c, 4);
}

#[test]
fn single_backend_always_selected() {
    let mut s = BackendSelector::new(pool(&["http://only:9000"])).unwrap();
    for _ in 0..5 {
        assert_eq!(s.next(), "http://only:9000".to_string());
    }
}
