use swappy::probe::pick_first_dir;

fn strings(v: Vec<&str>) -> Vec<String> {
    v.into_iter().map(|s| s.to_string()).collect()
}

#[test]
fn no_candidate_gives_empty_path() {
    let cands = strings(vec!["/a", "/b", "/c", "/d"]);
    let present = vec![false, false, false, false];
    assert_eq!(pick_first_dir(&cands, &present), "");
}

#[test]
fn first_existing_candidate_wins() {
    let cands = strings(vec!["/a", "/b"]);
    assert_eq!(pick_first_dir(&cands, &vec![true, true]), "/a");
    assert_eq!(pick_first_dir(&cands, &vec![true, false]), "/a");
    assert_eq!(pick_first_dir(&cands, &vec![false, true]), "/b");
}

#[test]
fn empty_candidates_skipped() {
    let cands = strings(vec!["", "/home/u"]);
    let present = vec![true, true];
    assert_eq!(pick_first_dir(&cands, &present), "/home/u");
}

#[test]
fn no_candidates_at_all() {
    let cands: Vec<String> = vec![];
    let present: Vec<bool> = vec![];
    assert_eq!(pick_first_dir(&cands, &present), "");
}
