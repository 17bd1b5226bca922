use dynaflare::plan::{plan, ReconciliationPlan};
use dynaflare::types::{Record, RecordCreate, RecordUpdate, TTL};

fn record(id: &str, name: &str, content: &str) -> Record {
    Record { id: id.to_string(), name: name.to_string(), content: content.to_string() }
}

fn strings(items: &[&str]) -> Vec<String> {
    items.iter().map(|item| item.to_string()).collect()
}

fn names_of(records: &[Record]) -> Vec<String> {
    records.iter().map(|r| r.name.clone()).collect()
}

fn plan_for(desired: &[&str], remote: &[Record], ip: &str) -> ReconciliationPlan {
    plan(&strings(desired), &remote.to_vec(), &ip.to_string())
}

#[test]
fn plan_of_home_and_office() {
    let p = plan_for(&["home", "office"], &[record("1", "home", "1.1.1.1")], "2.2.2.2");
    assert_eq!(p.matched_changed(), vec![record("1", "home", "1.1.1.1")]);
    assert_eq!(p.matched_unchanged(), Vec::<Record>::new());
    assert_eq!(p.unmatched, strings(&["office"]));
    assert_eq!(
        p.patches(),
        vec![RecordUpdate { id: "1".to_string(), content: "2.2.2.2".to_string() }]
    );
    assert_eq!(
        p.posts(),
        vec![RecordCreate {
            name: "office".to_string(),
            content: "2.2.2.2".to_string(),
            ttl: TTL::TTL
        }]
    );
    assert_eq!(p.ids(), strings(&["1"]));
    assert_eq!(p.content, "2.2.2.2");
    assert!(!p.is_converged());
}

#[test]
fn plan_shares_every_desired_name_out_once() {
    let desired = ["a", "b", "c", "d", "e"];
    let remote = [
        record("10", "x", "9.9.9.9"),
        record("11", "c", "1.1.1.1"),
        record("12", "a", "9.9.9.9"),
        record("13", "e", "9.9.9.9"),
    ];
    let p = plan_for(&desired, &remote, "9.9.9.9");
    let unchanged = names_of(&p.matched_unchanged());
    let changed = names_of(&p.matched_changed());
    assert_eq!(unchanged, strings(&["a", "e"]));
    assert_eq!(changed, strings(&["c"]));
    assert_eq!(p.unmatched, strings(&["b", "d"]));
    for name in desired {
        let name = name.to_string();
        let places = [unchanged.contains(&name), changed.contains(&name), p.unmatched.contains(&name)];
        assert_eq!(places.iter().filter(|inside| **inside).count(), 1);
    }
    assert_eq!(unchanged.len() + changed.len() + p.unmatched.len(), desired.len());
}

#[test]
fn plan_keeps_the_order_of_the_store_for_matched_records() {
    let remote = [
        record("3", "c", "1.1.1.1"),
        record("1", "a", "2.2.2.2"),
        record("2", "b", "1.1.1.1"),
    ];
    let p = plan_for(&["a", "b", "c"], &remote, "2.2.2.2");
    assert_eq!(p.ids(), strings(&["3", "1", "2"]));
    assert_eq!(p.matched, remote.to_vec());
    assert_eq!(
        p.patches(),
        vec![
            RecordUpdate { id: "3".to_string(), content: "2.2.2.2".to_string() },
            RecordUpdate { id: "2".to_string(), content: "2.2.2.2".to_string() },
        ]
    );
    assert_eq!(p.posts(), Vec::<RecordCreate>::new());
}

#[test]
fn plan_keeps_the_order_of_the_names_for_creations() {
    let p = plan_for(&["a", "b", "c", "d"], &[record("1", "a", "1.1.1.1")], "1.1.1.1");
    assert_eq!(p.unmatched, strings(&["b", "c", "d"]));
    assert_eq!(names_of_posts(&p.posts()), strings(&["b", "c", "d"]));
}

fn names_of_posts(posts: &[RecordCreate]) -> Vec<String> {
    posts.iter().map(|post| post.name.clone()).collect()
}

#[test]
fn plan_in_step_asks_for_nothing() {
    let remote = [record("1", "home", "2.2.2.2"), record("2", "office", "2.2.2.2")];
    let p = plan_for(&["home", "office"], &remote, "2.2.2.2");
    assert!(p.is_converged());
    assert_eq!(p.patches(), Vec::<RecordUpdate>::new());
    assert_eq!(p.posts(), Vec::<RecordCreate>::new());
    assert_eq!(p.ids(), strings(&["1", "2"]));
    assert_eq!(p.matched_unchanged(), remote.to_vec());
}

#[test]
fn plan_ignores_records_that_were_not_asked_for() {
    let remote = [record("1", "other", "1.1.1.1"), record("2", "home", "2.2.2.2")];
    let p = plan_for(&["home"], &remote, "2.2.2.2");
    assert!(p.is_converged());
    assert_eq!(p.ids(), strings(&["2"]));
}

#[test]
fn plan_creates_a_missing_name_once() {
    let p = plan_for(&["home", "office"], &[record("1", "home", "2.2.2.2")], "2.2.2.2");
    let posts = p.posts();
    assert_eq!(posts.iter().filter(|post| post.name == "office").count(), 1);
    assert_eq!(posts.len(), 1);
    assert_eq!(posts[0].content, "2.2.2.2");
    assert_eq!(posts[0].ttl, TTL::TTL);
    assert!(!p.is_converged());
}

#[test]
fn plan_twice_asks_for_nothing_the_second_time() {
    let desired = ["home", "office", "lab"];
    let remote = [record("1", "home", "1.1.1.1"), record("2", "spare", "1.1.1.1")];
    let first = plan_for(&desired, &remote, "2.2.2.2");
    assert!(!first.is_converged());
    let later = [
        record("1", "home", "2.2.2.2"),
        record("2", "spare", "1.1.1.1"),
        record("7", "office", "2.2.2.2"),
        record("8", "lab", "2.2.2.2"),
    ];
    let second = plan_for(&desired, &later, "2.2.2.2");
    assert!(second.is_converged());
    assert_eq!(second.ids(), strings(&["1", "7", "8"]));
}

#[test]
fn plan_counts_a_name_asked_for_twice_once() {
    let p = plan_for(&["home", "office", "home", "office"], &[record("1", "home", "1.1.1.1")], "2.2.2.2");
    assert_eq!(p.ids(), strings(&["1"]));
    assert_eq!(p.unmatched, strings(&["office"]));
}

#[test]
fn plan_takes_the_first_of_several_records_of_one_name() {
    let remote = [
        record("1", "home", "1.1.1.1"),
        record("2", "home", "3.3.3.3"),
        record("3", "office", "2.2.2.2"),
    ];
    let p = plan_for(&["home", "office"], &remote, "2.2.2.2");
    assert_eq!(p.ids(), strings(&["1", "3"]));
    assert_eq!(
        p.patches(),
        vec![RecordUpdate { id: "1".to_string(), content: "2.2.2.2".to_string() }]
    );
    assert_eq!(p.unmatched, Vec::<String>::new());
}

#[test]
fn plan_compares_names_exactly() {
    let p = plan_for(&["Home"], &[record("1", "home", "2.2.2.2")], "2.2.2.2");
    assert_eq!(p.ids(), Vec::<String>::new());
    assert_eq!(p.unmatched, strings(&["Home"]));
}

#[test]
fn plan_without_names_or_without_records() {
    let nothing = plan_for(&[], &[record("1", "home", "1.1.1.1")], "2.2.2.2");
    assert!(nothing.is_converged());
    assert_eq!(nothing.ids(), Vec::<String>::new());
    let all_new = plan_for(&["home", "office"], &[], "2.2.2.2");
    assert_eq!(all_new.unmatched, strings(&["home", "office"]));
    assert_eq!(all_new.matched, Vec::<Record>::new());
}

#[test]
fn record_is_duplicated_field_by_field() {
    let first = record("1", "home", "1.1.1.1");
    assert_eq!(first.duplicate(), first);
    assert_eq!(record("", "", "").duplicate(), record("", "", ""));
}
