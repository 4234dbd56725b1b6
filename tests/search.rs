use kyubey::record::SystemRow;
use kyubey::search::{next_page, search_pattern, SearchQuery, SearchSystems, PAGE_SIZE};
use kyubey::time::Timestamp;

fn row(system_id: &str, latest: i64) -> SystemRow {
    SystemRow {
        client_name: Some("client".to_string()),
        client_id: Some("client-id".to_string()),
        system_name: Some("system".to_string()),
        system_id: Some(system_id.to_string()),
        team_name: Some("team".to_string()),
        team_id: Some("team-id".to_string()),
        latest_run: Some(Timestamp::from_micros(latest)),
        number_of_dag_runs: Some(1),
    }
}

/// A store holding `all` in its result order: it answers a query with the rows
/// its offset and limit select.
fn answer(all: &[(String, i64)], query: &SearchQuery) -> Vec<SystemRow> {
    all.iter()
        .skip(query.offset as usize)
        .take(query.limit as usize)
        .map(|(id, latest)| row(id, *latest))
        .collect()
}

fn search(all: &[(String, i64)], search_by: &str, page: u32) -> SearchSystems {
    let rows = answer(all, &SearchQuery::for_page(search_by, page));
    let ahead = answer(all, &SearchQuery::look_ahead(search_by, page));
    SearchSystems::from_rows(page, rows, ahead)
}

/// `n` systems in search order: later runs first, equal runs by id.
fn ordered_result(n: usize) -> Vec<(String, i64)> {
    (0..n).map(|i| (format!("sys-{:04}", i), 1_000_000 - (i as i64 / 3))).collect()
}

#[test]
fn pattern_wraps_term_in_wildcards() {
    assert_eq!(search_pattern("billing"), "%billing%");
    assert_eq!(search_pattern(""), "%%");
    assert_eq!(search_pattern("a%b"), "%a%b%");
}

#[test]
fn queries_select_page_and_look_ahead() {
    let q = SearchQuery::for_page("acme", 0);
    assert_eq!(q.pattern, "%acme%");
    assert_eq!(q.limit, 50);
    assert_eq!(q.offset, 0);
    let q = SearchQuery::for_page("acme", 3);
    assert_eq!(q.offset, 150);
    let q = SearchQuery::look_ahead("acme", 3);
    assert_eq!(q.pattern, "%acme%");
    assert_eq!(q.limit, 50);
    assert_eq!(q.offset, 200);
    assert_eq!(PAGE_SIZE, 50);
}

#[test]
fn largest_page_does_not_overflow() {
    let q = SearchQuery::for_page("", u32::MAX);
    assert_eq!(q.offset, u32::MAX as u64 * 50);
    let q = SearchQuery::look_ahead("", u32::MAX);
    assert_eq!(q.offset, (u32::MAX as u64 + 1) * 50);
    let page = search(&ordered_result(10), "", u32::MAX);
    assert!(page.systems.is_empty());
    assert_eq!(page.next_page, None);
    assert_eq!(next_page(u32::MAX, 1), None);
}

#[test]
fn next_page_follows_look_ahead() {
    assert_eq!(next_page(0, 0), None);
    assert_eq!(next_page(0, 1), Some(1));
    assert_eq!(next_page(7, 50), Some(8));
    assert_eq!(next_page(7, 0), None);
}

#[test]
fn first_page_is_bounded_and_ordered() {
    let all = ordered_result(120);
    let page = search(&all, "", 0);
    assert_eq!(page.page, 0);
    assert_eq!(page.systems.len(), 50);
    assert_eq!(page.next_page, Some(1));
    for pair in page.systems.windows(2) {
        let (a, b) = (&pair[0], &pair[1]);
        assert!(
            a.latest_run.micros > b.latest_run.micros
                || (a.latest_run.micros == b.latest_run.micros && a.system_id <= b.system_id)
        );
    }
}

#[test]
fn paging_enumerates_every_system_once() {
    for n in [0usize, 1, 49, 50, 51, 100, 120, 150] {
        let all = ordered_result(n);
        let mut seen: Vec<String> = Vec::new();
        let mut page = 0u32;
        loop {
            let result = search(&all, "", page);
            assert!(result.systems.len() <= 50);
            seen.extend(result.systems.iter().map(|s| s.system_id.clone()));
            match result.next_page {
                Some(next) => {
                    assert_eq!(next, page + 1);
                    page = next;
                }
                None => break,
            }
        }
        let expected: Vec<String> = all.iter().map(|(id, _)| id.clone()).collect();
        assert_eq!(seen, expected, "{n} systems");
    }
}

#[test]
fn page_past_the_end_is_empty() {
    let page = search(&ordered_result(30), "", 5);
    assert!(page.systems.is_empty());
    assert_eq!(page.next_page, None);
    assert_eq!(page.page, 5);
}

#[test]
fn partial_rows_leave_the_page_but_look_ahead_counts_rows() {
    let mut partial = row("sys-x", 5);
    partial.client_id = None;
    let page = SearchSystems::from_rows(2, vec![row("sys-a", 9), partial], vec![row("sys-b", 1)]);
    assert_eq!(page.systems.len(), 1);
    assert_eq!(page.systems[0].system_id, "sys-a");
    assert_eq!(page.next_page, Some(3));
}
