use bus_factor::{
    execute_query, format_results, is_bus_factor_1, process_repo, summarize, Contributor, Error,
    Owner, Repository, RepositorySummary,
};

fn make_contributors(contributions: Vec<u64>) -> Vec<Contributor> {
    let mut v = vec![];
    for (index, number) in contributions.into_iter().enumerate() {
        v.push(Contributor {
            login: format!("user{}", index),
            contributions: number,
        });
    }
    v
}

fn summary(repo_name: &str, lead_contributor: &str, lead: u64, total: u128) -> RepositorySummary {
    RepositorySummary {
        repo_name: repo_name.to_string(),
        lead_contributor: lead_contributor.to_string(),
        lead_contributions: lead,
        total_contributions: total,
    }
}

fn share(s: &RepositorySummary) -> f64 {
    s.lead_contributions as f64 / s.total_contributions as f64
}

fn expected_output_header() -> String {
    let expected_output = format!(
        "{0: <20} | {1: <20} | {2: <20}\n",
        "project", "user", "percentage"
    );
    format!("{}{}\n", expected_output, "-".repeat(60))
}

fn repository(name: &str, owner: &str) -> Repository {
    Repository {
        name: name.into(),
        owner: Owner {
            login: owner.into(),
        },
    }
}

#[test]
fn identifies_bus_factor_1_repos() {
    assert!(is_bus_factor_1(&summary("name", "name", 3, 4)));
    assert!(is_bus_factor_1(&summary("name", "name", 9, 10)));
    assert!(!is_bus_factor_1(&summary("name", "name", 6, 10)));
}

#[test]
fn threshold_is_inclusive_at_three_quarters() {
    assert!(is_bus_factor_1(&summary("a", "b", 75, 100)));
    assert!(!is_bus_factor_1(&summary("a", "b", 7499, 10000)));
    assert!(!is_bus_factor_1(&summary("a", "b", 2, 3)));
    assert!(is_bus_factor_1(&summary("a", "b", u64::MAX, u64::MAX as u128)));
}

#[test]
fn calculate_writes_to_output_in_correct_format() {
    let output = format_results(&vec![summary("ripgrep", "burntsushi", 8, 9)]);
    let line = output.lines().skip(2).next().unwrap(); // skip 2 lines of header
    assert!(line.contains("ripgrep"));
    assert!(line.contains("burntsushi"));
    assert!(line.contains("0.89"));
}

#[test]
fn row_is_padded_to_fixed_width() {
    let output = format_results(&vec![summary("ripgrep", "burntsushi", 8, 9)]);
    let expected = format!(
        "{}{1: <20} | {2: <20} | {3:.2}\n",
        expected_output_header(),
        "ripgrep",
        "burntsushi",
        8.0 / 9.0
    );
    assert_eq!(output, expected);
    assert!(output.ends_with("ripgrep              | burntsushi           | 0.89\n"));
}

#[test]
fn empty_report_is_header_and_rule() {
    let output = format_results(&vec![]);
    assert_eq!(output, expected_output_header());
    assert_eq!(output.lines().count(), 2);
}

#[test]
fn long_names_are_not_cut() {
    let name = "a-repository-name-longer-than-twenty";
    let output = format_results(&vec![summary(name, "x", 1, 1)]);
    assert!(output.ends_with(&format!("{} | {: <20} | 1.00\n", name, "x")));
}

#[test]
fn share_is_rounded_to_two_decimals() {
    let output = format_results(&vec![
        summary("a", "b", 9, 10),
        summary("c", "d", 2, 3),
        summary("e", "f", 7, 8),
        summary("g", "h", 999, 1000),
    ]);
    let rows: Vec<&str> = output.lines().skip(2).collect();
    assert_eq!(rows.len(), 3);
    assert!(rows[0].ends_with("| 0.90"));
    assert!(rows[1].ends_with("| 0.88"));
    assert!(rows[2].ends_with("| 1.00"));
}

#[test]
fn format_results_ignores_non_bus_factor_1() {
    let s = format_results(&vec![summary("", "", 74, 100)]);
    assert_eq!(s.lines().collect::<Vec<_>>().len(), 2); // 2 lines from header, rest should be empty
}

#[test]
fn format_results_ignores_non_bus_factor_1_multiple_items() {
    let ignored_summary = summary("", "", 74, 100);
    let printed_summary = summary("repo", "contributor", 76, 100);
    let both = format_results(&vec![ignored_summary.clone(), printed_summary.clone()]);
    let only_last = format_results(&vec![printed_summary]);
    assert_eq!(both, only_last);
}

#[test]
fn calculate_correctly_summarizes_repos() {
    let name = "repo name".to_string();
    let contributors = make_contributors(vec![1, 2, 3]);
    let summary = summarize(name, contributors).unwrap();
    assert_eq!(summary.repo_name, "repo name");
    assert_eq!(summary.lead_contributor, "user2");
    assert_eq!(share(&summary), 0.5);
}

#[test]
fn unique_maximum_is_selected_anywhere() {
    let summary = summarize("r".into(), make_contributors(vec![4, 10, 3, 3])).unwrap();
    assert_eq!(summary.lead_contributor, "user1");
    assert_eq!(summary.lead_contributions, 10);
    assert_eq!(summary.total_contributions, 20);
    assert_eq!(share(&summary), 0.5);
}

#[test]
fn first_of_equal_counts_leads() {
    let summary = summarize("r".into(), make_contributors(vec![5, 5])).unwrap();
    assert_eq!(summary.lead_contributor, "user0");
    assert_eq!(share(&summary), 0.5);
}

#[test]
fn summarize_fails_without_contributors() {
    let result = summarize("empty".into(), make_contributors(vec![]));
    assert_eq!(result, Err(Error::NoContributors("empty".into())));
}

#[test]
fn summarize_fails_when_all_counts_are_zero() {
    let result = summarize("zeros".into(), make_contributors(vec![0, 0]));
    assert_eq!(result, Err(Error::NoContributors("zeros".into())));
}

#[test]
fn summarize_sums_without_overflow() {
    let summary = summarize("big".into(), make_contributors(vec![u64::MAX, u64::MAX, 1])).unwrap();
    assert_eq!(summary.lead_contributor, "user0");
    assert_eq!(summary.total_contributions, 2 * (u64::MAX as u128) + 1);
}

#[test]
fn process_repo_passes_request_error_on() {
    let result = process_repo(repository("r", "o"), Err(Error::Request("timed out".into())));
    assert_eq!(result, Err(Error::Request("timed out".into())));
}

#[test]
fn mocked_example() {
    let batch = vec![(
        repository("repo1", "user1"),
        Ok(make_named(vec![("user1", 1), ("user2", 9)])),
    )];
    let actual_output = execute_query(batch).unwrap();
    let expected_output = format!(
        "{}{1: <20} | {2: <20} | {3:.2}\n",
        expected_output_header(),
        "repo1",
        "user2",
        0.9
    );
    assert_eq!(actual_output, expected_output);
    assert!(actual_output.ends_with("repo1                | user2                | 0.90\n"));
}

fn make_named(pairs: Vec<(&str, u64)>) -> Vec<Contributor> {
    pairs
        .into_iter()
        .map(|(login, contributions)| Contributor {
            login: login.into(),
            contributions,
        })
        .collect()
}

#[test]
fn failing_request_stops_the_whole_run() {
    let batch = vec![
        (repository("repo1", "o"), Ok(make_named(vec![("a", 9), ("b", 1)]))),
        (repository("repo2", "o"), Err(Error::Request("connection refused".into()))),
    ];
    assert_eq!(
        execute_query(batch),
        Err(Error::Request("connection refused".into()))
    );
}

#[test]
fn first_failure_in_order_is_reported() {
    let batch = vec![
        (repository("repo1", "o"), Ok(vec![])),
        (repository("repo2", "o"), Err(Error::Request("later".into()))),
    ];
    assert_eq!(execute_query(batch), Err(Error::NoContributors("repo1".into())));
}

#[test]
fn runs_on_equal_responses_give_equal_output() {
    let batch = || {
        vec![
            (repository("one", "o"), Ok(make_named(vec![("a", 3), ("b", 1)]))),
            (repository("two", "o"), Ok(make_named(vec![("c", 1), ("d", 1)]))),
            (repository("three", "o"), Ok(make_named(vec![("e", 8), ("f", 1)]))),
        ]
    };
    let first = execute_query(batch()).unwrap();
    let second = execute_query(batch()).unwrap();
    assert_eq!(first, second);
    let rows: Vec<&str> = first.lines().skip(2).collect();
    assert_eq!(rows.len(), 2);
    assert!(rows[0].starts_with("one "));
    assert!(rows[1].starts_with("three "));
}
