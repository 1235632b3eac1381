use vstd::prelude::*;

use crate::errors::{result_view, Error, ErrorView};
use crate::model::{
    Contributor, ContributorView, Repository, RepositorySummary, RepositoryView, SummaryView,
};
use crate::text::{append_digit, append_padded, digit_char, pad_right};

verus! {

/// The sum of all contributions in a contributor list.
pub open spec fn total_of(cs: Seq<ContributorView>) -> nat
    decreases cs.len(),
{
    if cs.len() == 0 {
        0
    } else {
        total_of(cs.drop_last()) + cs.last().contributions
    }
}

/// `k` is the lead of `cs`: its count is positive and the greatest, and every
/// contributor before it has a strictly smaller count (the first of equals).
pub open spec fn is_lead(cs: Seq<ContributorView>, k: int) -> bool {
    &&& 0 <= k < cs.len()
    &&& cs[k].contributions > 0
    &&& forall|j: int| 0 <= j < cs.len() ==> cs[j].contributions <= cs[k].contributions
    &&& forall|j: int| 0 <= j < k ==> cs[j].contributions < cs[k].contributions
}

/// The position of the lead contributor, where there is one.
pub open spec fn lead_index(cs: Seq<ContributorView>) -> int {
    choose|k: int| is_lead(cs, k)
}

/// What summarizing a repository gives: the lead contributor and the totals,
/// or `NoContributors` when no contributor has a positive count.
pub open spec fn summary_of(name: Seq<char>, cs: Seq<ContributorView>) -> Result<
    SummaryView,
    ErrorView,
> {
    if total_of(cs) == 0 {
        Err(ErrorView::NoContributors(name))
    } else {
        Ok(
            SummaryView {
                repo_name: name,
                lead_contributor: cs[lead_index(cs)].login,
                lead_contributions: cs[lead_index(cs)].contributions,
                total_contributions: total_of(cs),
            },
        )
    }
}

pub open spec fn views_of(cs: Seq<Contributor>) -> Seq<ContributorView> {
    cs.map_values(|c: Contributor| c@)
}

proof fn lemma_total_bound(cs: Seq<ContributorView>)
    requires
        forall|j: int| 0 <= j < cs.len() ==> cs[j].contributions <= u64::MAX,
    ensures
        total_of(cs) <= cs.len() * u64::MAX,
    decreases cs.len(),
{
    if cs.len() > 0 {
        lemma_total_bound(cs.drop_last());
    }
}

proof fn lemma_total_zero(cs: Seq<ContributorView>)
    ensures
        total_of(cs) == 0 <==> forall|j: int| 0 <= j < cs.len() ==> cs[j].contributions == 0,
    decreases cs.len(),
{
    if cs.len() > 0 {
        lemma_total_zero(cs.drop_last());
        assert forall|j: int| 0 <= j < cs.len() - 1 implies cs.drop_last()[j] == cs[j] by {}
    }
}

proof fn lemma_count_at_most_total(cs: Seq<ContributorView>, k: int)
    requires
        0 <= k < cs.len(),
    ensures
        cs[k].contributions <= total_of(cs),
    decreases cs.len(),
{
    if k < cs.len() - 1 {
        lemma_count_at_most_total(cs.drop_last(), k);
    }
}

/// At most one position of a list is its lead.
pub proof fn lemma_lead_is_unique(cs: Seq<ContributorView>, a: int, b: int)
    requires
        is_lead(cs, a),
        is_lead(cs, b),
    ensures
        a == b,
{
}

/// Where one contributor has more contributions than every other, and a
/// positive count, summarizing the list selects that contributor, with its
/// count over the sum of all counts as the share.
pub proof fn lemma_unique_maximum_leads(name: Seq<char>, cs: Seq<ContributorView>, m: int)
    requires
        0 <= m < cs.len(),
        cs[m].contributions > 0,
        forall|j: int| 0 <= j < cs.len() && j != m ==> cs[j].contributions < cs[m].contributions,
    ensures
        summary_of(name, cs) == Ok::<SummaryView, ErrorView>(
            SummaryView {
                repo_name: name,
                lead_contributor: cs[m].login,
                lead_contributions: cs[m].contributions,
                total_contributions: total_of(cs),
            },
        ),
{
    assert(is_lead(cs, m));
    lemma_lead_is_unique(cs, m, lead_index(cs));
    lemma_count_at_most_total(cs, m);
}

/// Reduces one repository's contributor list to its lead contributor and the
/// lead's share of all contributions.
///
/// The lead is the contributor with the greatest count; of several with that
/// count, the first. Fails with `NoContributors` when the list is empty or
/// every count is zero, so a share is always a defined ratio.
pub fn summarize(repo_name: String, contributors: Vec<Contributor>) -> (r: Result<
    RepositorySummary,
    Error,
>)
    ensures
        result_view(r) == summary_of(repo_name@, views_of(contributors@)),
        r is Ok ==> r->Ok_0@.wf(),
{
    let ghost cs = views_of(contributors@);
    let mut total: u128 = 0;
    let mut lead: Option<usize> = None;
    let mut i: usize = 0;
    while i < contributors.len()
        invariant
            cs == views_of(contributors@),
            0 <= i <= contributors.len(),
            total == total_of(cs.subrange(0, i as int)),
            match lead {
                None => forall|j: int| 0 <= j < i ==> cs[j].contributions == 0,
                Some(k) => is_lead(cs.subrange(0, i as int), k as int),
            },
        decreases contributors.len() - i,
    {
        proof {
            let p = cs.subrange(0, i as int + 1);
            assert(p.drop_last() =~= cs.subrange(0, i as int));
            assert forall|j: int| 0 <= j < p.len() implies p[j].contributions <= u64::MAX by {}
            lemma_total_bound(p);
            assert(p.len() <= usize::MAX + 1);
            assert(total_of(p) <= (usize::MAX + 1) * u64::MAX) by (nonlinear_arith)
                requires total_of(p) <= p.len() * u64::MAX, p.len() <= usize::MAX + 1;
        }
        let count = contributors[i].contributions;
        total = total + count as u128;
        let current: u64 = match lead {
            None => 0,
            Some(k) => contributors[k].contributions,
        };
        if count > current {
            lead = Some(i);
        }
        i = i + 1;
    }
    assert(cs.subrange(0, i as int) =~= cs);
    match lead {
        None => {
            proof {
                lemma_total_zero(cs);
            }
            Err(Error::NoContributors(repo_name))
        },
        Some(k) => {
            proof {
                lemma_total_zero(cs);
                lemma_lead_is_unique(cs, k as int, lead_index(cs));
                lemma_count_at_most_total(cs, k as int);
            }
            let lead_contributor = contributors[k].login.clone();
            Ok(
                RepositorySummary {
                    repo_name,
                    lead_contributor,
                    lead_contributions: contributors[k].contributions,
                    total_contributions: total,
                },
            )
        },
    }
}

/// A repository depends on one person when the lead holds at least
/// three quarters of all contributions: `lead / total >= 3 / 4`.
pub open spec fn meets_threshold(s: SummaryView) -> bool {
    4 * s.lead_contributions >= 3 * s.total_contributions
}

/// `100 * lead / total` rounded to the nearest integer, ties to even.
pub open spec fn rounded_hundredths(lead: nat, total: nat) -> nat
    recommends
        total > 0,
{
    let q = (100 * lead) / total;
    let r = (100 * lead) % total;
    if 2 * r > total {
        q + 1
    } else if 2 * r == total {
        q + q % 2
    } else {
        q
    }
}

/// A share given in hundredths, written with two decimals (`0.89`, `1.00`).
pub open spec fn share_text(h: nat) -> Seq<char> {
    seq![digit_char(h / 100), '.', digit_char((h / 10) % 10), digit_char(h % 10)]
}

pub open spec fn column_separator() -> Seq<char> {
    seq![' ', '|', ' ']
}

/// The two header lines of the report: the column labels, then a rule.
pub open spec fn header_text() -> Seq<char> {
    pad_right("project"@, 20) + column_separator() + pad_right("user"@, 20)
        + column_separator() + pad_right("percentage"@, 20) + seq!['\n']
        + Seq::new(60, |_i: int| '-') + seq!['\n']
}

/// The report line of one summary.
pub open spec fn row_text(s: SummaryView) -> Seq<char> {
    pad_right(s.repo_name, 20) + column_separator() + pad_right(s.lead_contributor, 20)
        + column_separator() + share_text(
        rounded_hundredths(s.lead_contributions, s.total_contributions),
    ) + seq!['\n']
}

/// The lines of the summaries that meet the threshold, in their order.
pub open spec fn rows_text(ss: Seq<SummaryView>) -> Seq<char>
    decreases ss.len(),
{
    if ss.len() == 0 {
        Seq::empty()
    } else {
        rows_text(ss.drop_last()) + if meets_threshold(ss.last()) {
            row_text(ss.last())
        } else {
            Seq::empty()
        }
    }
}

/// The whole report: header, rule, then one line per kept summary.
pub open spec fn report_text(ss: Seq<SummaryView>) -> Seq<char> {
    header_text() + rows_text(ss)
}

pub open spec fn summary_views(ss: Seq<RepositorySummary>) -> Seq<SummaryView> {
    ss.map_values(|s: RepositorySummary| s@)
}

/// Whether the summary's lead holds at least three quarters of all
/// contributions. The comparison is exact: a share of exactly `0.75` passes.
pub fn is_bus_factor_1(repo: &RepositorySummary) -> (r: bool)
    ensures
        r == meets_threshold(repo@),
{
    let lead4 = repo.lead_contributions as u128 * 4;
    if repo.total_contributions > lead4 {
        false
    } else {
        lead4 >= repo.total_contributions * 3
    }
}

fn hundredths(lead: u64, total: u128) -> (h: u64)
    requires
        0 < lead <= total,
    ensures
        h == rounded_hundredths(lead as nat, total as nat),
        h <= 100,
{
    let scaled = lead as u128 * 100;
    let q = scaled / total;
    let r = scaled % total;
    proof {
        assert(q <= 100) by (nonlinear_arith)
            requires q == scaled / total, scaled == lead * 100, lead <= total, total > 0;
        assert(r < total) by (nonlinear_arith)
            requires r == scaled % total, total > 0;
    }
    let h = if r > total - r {
        q + 1
    } else if r == total - r {
        q + q % 2
    } else {
        q
    };
    proof {
        if h > 100 {
            assert(q == 100);
            assert(scaled == 100 * total) by (nonlinear_arith)
                requires q == scaled / total, scaled == lead * 100, lead <= total, total > 0,
                    q == 100;
            assert(r == 0) by (nonlinear_arith)
                requires r == scaled % total, scaled == 100 * total, total > 0;
        }
    }
    h as u64
}

fn append_row(out: &mut String, repo: &RepositorySummary)
    requires
        repo@.wf(),
    ensures
        final(out)@ == old(out)@ + row_text(repo@),
{
    let ghost start = out@;
    append_padded(out, repo.repo_name.as_str(), 20);
    out.append(" | ");
    append_padded(out, repo.lead_contributor.as_str(), 20);
    out.append(" | ");
    let h = hundredths(repo.lead_contributions, repo.total_contributions);
    append_digit(out, h / 100);
    out.append(".");
    append_digit(out, (h / 10) % 10);
    append_digit(out, h % 10);
    out.append("\n");
    proof {
        reveal_strlit(" | ");
        reveal_strlit(".");
        reveal_strlit("\n");
        assert(out@ =~= start + row_text(repo@));
    }
}

fn append_header(out: &mut String)
    ensures
        final(out)@ == old(out)@ + header_text(),
{
    let ghost start = out@;
    append_padded(out, "project", 20);
    out.append(" | ");
    append_padded(out, "user", 20);
    out.append(" | ");
    append_padded(out, "percentage", 20);
    out.append("\n");
    let ghost labels = out@;
    let mut k: usize = 0;
    while k < 60
        invariant
            k <= 60,
            out@ == labels + Seq::new(k as nat, |_i: int| '-'),
        decreases 60 - k,
    {
        out.append("-");
        proof {
            reveal_strlit("-");
            assert(out@ =~= labels + Seq::new((k + 1) as nat, |_i: int| '-'));
        }
        k = k + 1;
    }
    out.append("\n");
    proof {
        reveal_strlit(" | ");
        reveal_strlit("\n");
        assert(out@ =~= start + header_text());
    }
}

/// Renders the report of the summaries that meet the threshold, in the order
/// given: a header line, a rule of sixty dashes, then one line per summary
/// with its name and lead padded to twenty characters and the share with two
/// decimals. With no summary kept the report is the header and rule alone.
pub fn format_results(results: &Vec<RepositorySummary>) -> (r: String)
    requires
        forall|i: int| 0 <= i < results@.len() ==> (#[trigger] results@[i])@.wf(),
    ensures
        r@ == report_text(summary_views(results@)),
{
    let ghost ss = summary_views(results@);
    let mut out = String::new();
    append_header(&mut out);
    let mut i: usize = 0;
    while i < results.len()
        invariant
            ss == summary_views(results@),
            forall|i: int| 0 <= i < results@.len() ==> (#[trigger] results@[i])@.wf(),
            i <= results.len(),
            out@ == header_text() + rows_text(ss.subrange(0, i as int)),
        decreases results.len() - i,
    {
        proof {
            assert(ss.subrange(0, i as int + 1).drop_last() =~= ss.subrange(0, i as int));
        }
        if is_bus_factor_1(&results[i]) {
            append_row(&mut out, &results[i]);
            assert(out@ =~= header_text() + rows_text(ss.subrange(0, i as int + 1)));
        } else {
            assert(out@ =~= header_text() + rows_text(ss.subrange(0, i as int + 1)));
        }
        i = i + 1;
    }
    assert(ss.subrange(0, i as int) =~= ss);
    out
}

/// What a contributor request returned, as values.
pub open spec fn fetched_view(f: Result<Vec<Contributor>, Error>) -> Result<
    Seq<ContributorView>,
    ErrorView,
> {
    match f {
        Ok(v) => Ok(views_of(v@)),
        Err(e) => Err(e@),
    }
}

/// The outcome for one repository: the request's error, or its summary.
pub open spec fn outcome_of(
    repo: RepositoryView,
    fetched: Result<Seq<ContributorView>, ErrorView>,
) -> Result<SummaryView, ErrorView> {
    match fetched {
        Err(e) => Err(e),
        Ok(cs) => summary_of(repo.name, cs),
    }
}

/// A batch: each repository with what its contributor request returned.
pub open spec fn batch_view(b: Seq<(Repository, Result<Vec<Contributor>, Error>)>) -> Seq<
    (RepositoryView, Result<Seq<ContributorView>, ErrorView>),
> {
    b.map_values(|p: (Repository, Result<Vec<Contributor>, Error>)| (p.0@, fetched_view(p.1)))
}

/// The summaries of a batch in its order, or the first failing outcome.
pub open spec fn batch_summaries(
    b: Seq<(RepositoryView, Result<Seq<ContributorView>, ErrorView>)>,
) -> Result<Seq<SummaryView>, ErrorView>
    decreases b.len(),
{
    if b.len() == 0 {
        Ok(Seq::empty())
    } else {
        match batch_summaries(b.drop_last()) {
            Err(e) => Err(e),
            Ok(ss) => match outcome_of(b.last().0, b.last().1) {
                Err(e) => Err(e),
                Ok(s) => Ok(ss.push(s)),
            },
        }
    }
}

/// What a run produces: the report of all summaries, or the first failure.
pub open spec fn run_of(b: Seq<(RepositoryView, Result<Seq<ContributorView>, ErrorView>)>) -> Result<
    Seq<char>,
    ErrorView,
> {
    match batch_summaries(b) {
        Err(e) => Err(e),
        Ok(ss) => Ok(report_text(ss)),
    }
}

proof fn lemma_failure_stands(
    b: Seq<(RepositoryView, Result<Seq<ContributorView>, ErrorView>)>,
    i: int,
)
    requires
        0 <= i <= b.len(),
        batch_summaries(b.subrange(0, i)) is Err,
    ensures
        batch_summaries(b) == batch_summaries(b.subrange(0, i)),
    decreases b.len() - i,
{
    if i < b.len() {
        assert(b.subrange(0, i + 1).drop_last() =~= b.subrange(0, i));
        lemma_failure_stands(b, i + 1);
    } else {
        assert(b.subrange(0, i) =~= b);
    }
}

/// Running twice on the same collaborator responses gives the same result,
/// byte for byte.
pub proof fn lemma_run_is_deterministic(
    first: Seq<(RepositoryView, Result<Seq<ContributorView>, ErrorView>)>,
    second: Seq<(RepositoryView, Result<Seq<ContributorView>, ErrorView>)>,
)
    requires
        first == second,
    ensures
        run_of(first) == run_of(second),
{
}

/// Summarizes one repository from what its contributor request returned:
/// a failed request gives its error unchanged.
pub fn process_repo(repo: Repository, contributors: Result<Vec<Contributor>, Error>) -> (r:
    Result<RepositorySummary, Error>)
    ensures
        result_view(r) == outcome_of(repo@, fetched_view(contributors)),
        r is Ok ==> r->Ok_0@.wf(),
{
    match contributors {
        Err(e) => Err(e),
        Ok(list) => summarize(repo.name, list),
    }
}

/// Runs the pipeline on the responses of the two sources: each repository,
/// in the order the repository source gave them, with what its contributor
/// request returned. Fails fast: the first repository, in that order, whose
/// request failed or that has no contributors gives the error, and no
/// report is made. Otherwise the result is the report of all summaries.
pub fn execute_query(batch: Vec<(Repository, Result<Vec<Contributor>, Error>)>) -> (r: Result<
    String,
    Error,
>)
    ensures
        result_view(r) == run_of(batch_view(batch@)),
{
    let ghost b = batch_view(batch@);
    let ghost all = batch@;
    let mut rest = batch;
    let mut summaries: Vec<RepositorySummary> = Vec::new();
    let mut i: usize = 0;
    assert(rest@.len() == rest.len());
    assert(b.subrange(0, 0) =~= Seq::<(RepositoryView, Result<Seq<ContributorView>, ErrorView>)>::empty());
    assert(summary_views(summaries@) =~= Seq::<SummaryView>::empty());
    while rest.len() > 0
        invariant
            b == batch_view(all),
            all == batch@,
            i + rest.len() == all.len(),
            all.len() <= usize::MAX,
            rest@ == all.subrange(i as int, all.len() as int),
            batch_summaries(b.subrange(0, i as int)) == Ok::<Seq<SummaryView>, ErrorView>(
                summary_views(summaries@),
            ),
            forall|j: int| 0 <= j < summaries@.len() ==> (#[trigger] summaries@[j])@.wf(),
        decreases rest.len(),
    {
        let (repo, fetched) = rest.remove(0);
        proof {
            assert(all[i as int] == (repo, fetched));
            assert(b.subrange(0, i as int + 1).drop_last() =~= b.subrange(0, i as int));
            assert(b[i as int] == (repo@, fetched_view(fetched)));
            assert(b.subrange(0, i as int + 1).last() == b[i as int]);
        }
        let ghost rv = repo@;
        let ghost fv = fetched_view(fetched);
        match process_repo(repo, fetched) {
            Err(e) => {
                proof {
                    assert(outcome_of(rv, fv) == Err::<SummaryView, ErrorView>(e@));
                    assert(batch_summaries(b.subrange(0, i as int + 1)) == Err::<
                        Seq<SummaryView>,
                        ErrorView,
                    >(e@));
                    lemma_failure_stands(b, i as int + 1);
                    assert(run_of(b) == Err::<Seq<char>, ErrorView>(e@));
                    assert(result_view(Err::<String, Error>(e)) == Err::<Seq<char>, ErrorView>(e@));
                }
                return Err(e);
            },
            Ok(summary) => {
                let ghost prev = summaries@;
                let ghost view = summary@;
                summaries.push(summary);
                assert(summary_views(summaries@) =~= summary_views(prev).push(view));
            },
        }
        i = i + 1;
    }
    assert(b.subrange(0, i as int) =~= b);
    Ok(format_results(&summaries))
}

} // verus!
