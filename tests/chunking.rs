use gw2lib::chunking::join_ids;

fn ids(range: std::ops::RangeInclusive<u32>) -> Vec<String> {
    range.map(|i| i.to_string()).collect()
}

#[test]
fn bulk_of_450_ids_makes_three_chunks() {
    let chunks = join_ids(&ids(1..=450));
    assert_eq!(chunks.len(), 3);
    let sizes: Vec<usize> = chunks.iter().map(|c| c.split(',').count()).collect();
    assert_eq!(sizes, vec![200, 200, 50]);
    assert!(chunks[0].starts_with("1,2,3,"));
    assert!(chunks[0].ends_with(",200"));
    assert!(chunks[1].starts_with("201,"));
    assert!(chunks[2].ends_with(",450"));
    let rejoined: Vec<String> = chunks.iter().flat_map(|c| c.split(',').map(String::from)).collect();
    assert_eq!(rejoined, ids(1..=450));
}

#[test]
fn chunk_boundaries() {
    assert!(join_ids(&[]).is_empty());
    assert_eq!(join_ids(&ids(1..=1)), vec!["1".to_string()]);
    assert_eq!(join_ids(&ids(1..=200)).len(), 1);
    assert_eq!(join_ids(&ids(1..=201)).len(), 2);
    assert_eq!(join_ids(&ids(1..=400)).len(), 2);
    assert_eq!(join_ids(&ids(1..=201))[1], "201");
}

#[test]
fn joins_with_commas() {
    let v = vec!["1".to_string(), "2".to_string(), "3".to_string(), "4".to_string()];
    assert_eq!(join_ids(&v), vec!["1,2,3,4".to_string()]);
    let names = vec!["Guardian".to_string(), "Warrior".to_string()];
    assert_eq!(join_ids(&names), vec!["Guardian,Warrior".to_string()]);
}
