//! The hosts rewriter: computes the new hosts-file body that blocks a list
//! of domains.
//!
//! The rewritten content is the original content followed by a managed
//! block: a fixed, human-recognizable marker pair wrapping one loopback
//! entry per domain. A domain is skipped when it is already present as a
//! substring of the current content, or when an equal domain was already
//! given an entry, so entries never accumulate across repeated runs.

use vstd::prelude::*;
use vstd::string::*;

use crate::text::{
    clean_entries, clean_list_spec, contains_substring, is_substring_of, lemma_substring_extend,
    str_eq,
};

verus! {

/// The marker line that opens and closes the managed block.
pub open spec fn marker_text() -> Seq<char> {
    "\n# ========== Temp Hosts ========="@
}

/// The blocking entry appended for one domain: a loopback line.
pub open spec fn blocked_line_spec(domain: Seq<char>) -> Seq<char> {
    "\n127.0.0.1\t"@ + domain
}

/// The domains that receive an entry: those not already present in
/// `hosts`, kept in input order, each at most once.
pub open spec fn appended_domains(hosts: Seq<char>, domains: Seq<Seq<char>>) -> Seq<Seq<char>>
    decreases domains.len(),
{
    if domains.len() == 0 {
        Seq::empty()
    } else {
        let prior = appended_domains(hosts, domains.drop_last());
        let d = domains.last();
        if is_substring_of(hosts, d) || prior.contains(d) {
            prior
        } else {
            prior.push(d)
        }
    }
}

/// The text of the blocking entries for `domains`, in order.
pub open spec fn blocked_lines_text(domains: Seq<Seq<char>>) -> Seq<char>
    decreases domains.len(),
{
    if domains.len() == 0 {
        Seq::empty()
    } else {
        blocked_lines_text(domains.drop_last()) + blocked_line_spec(domains.last())
    }
}

/// The full rewritten hosts content: the current content, then the managed
/// block holding one entry per newly blocked domain.
pub open spec fn rewrite_spec(hosts: Seq<char>, list: Seq<char>) -> Seq<char> {
    hosts + marker_text() + blocked_lines_text(appended_domains(hosts, clean_list_spec(list)))
        + marker_text()
}

/// Membership test against the entries already given a blocking line.
fn already_added(added: &Vec<String>, d: &str) -> (b: bool)
    ensures
        b == added.deep_view().contains(d@),
{
    let mut j: usize = 0;
    while j < added.len()
        invariant
            0 <= j <= added.len(),
            forall|k: int| 0 <= k < j ==> added.deep_view()[k] != d@,
        decreases added.len() - j,
    {
        if str_eq(added[j].as_str(), d) {
            assert(added.deep_view()[j as int] == d@);
            return true;
        }
        j += 1;
    }
    false
}

/// Computes the rewritten hosts content, exactly as [`rewrite_spec`]
/// describes: `hosts_content` followed by the managed block with one
/// loopback entry per listed domain that is not already present.
pub fn rewrite_hosts_contents_to_block_websites(
    hosts_content: &str,
    websites_list_content: &str,
) -> (r: String)
    ensures
        r@ == rewrite_spec(hosts_content@, websites_list_content@),
{
    let domains = clean_entries(websites_list_content);
    let ghost all = domains.deep_view();
    let mut result: String = hosts_content.to_owned();
    result.append("\n# ========== Temp Hosts =========");
    let mut added: Vec<String> = Vec::new();
    let mut i: usize = 0;
    proof {
        assert(all.take(0) =~= Seq::<Seq<char>>::empty());
        assert(added.deep_view() =~= appended_domains(hosts_content@, all.take(0)));
        assert(result@ == hosts_content@ + marker_text() + blocked_lines_text(added.deep_view()));
    }
    while i < domains.len()
        invariant
            all == domains.deep_view(),
            all == clean_list_spec(websites_list_content@),
            0 <= i <= domains.len(),
            added.deep_view() == appended_domains(hosts_content@, all.take(i as int)),
            result@ == hosts_content@ + marker_text() + blocked_lines_text(added.deep_view()),
        decreases domains.len() - i,
    {
        proof {
            assert(all.take(i as int + 1).drop_last() =~= all.take(i as int));
            assert(all.take(i as int + 1).last() == all[i as int]);
            assert(all[i as int] == domains[i as int]@);
        }
        let d = &domains[i];
        if !contains_substring(hosts_content, d.as_str()) && !already_added(&added, d.as_str()) {
            result.append("\n127.0.0.1\t");
            result.append(d.as_str());
            let ghost old_added = added.deep_view();
            added.push(d.clone());
            proof {
                assert(added.deep_view() =~= old_added.push(d@));
                assert(old_added.push(d@).drop_last() =~= old_added);
                assert(old_added.push(d@).last() == d@);
                assert(blocked_lines_text(added.deep_view()) == blocked_lines_text(old_added)
                    + blocked_line_spec(d@));
                assert(result@ =~= hosts_content@ + marker_text() + blocked_lines_text(
                    added.deep_view(),
                ));
            }
        }
        i += 1;
    }
    proof {
        assert(all.take(domains.len() as int) =~= all);
    }
    result.append("\n# ========== Temp Hosts =========");
    proof {
        assert(result@ =~= rewrite_spec(hosts_content@, websites_list_content@));
    }
    result
}

/// A domain already present in the content never receives an entry: the
/// managed block holds no line for it.
pub proof fn lemma_present_domain_never_added(
    hosts: Seq<char>,
    domains: Seq<Seq<char>>,
    d: Seq<char>,
)
    requires
        is_substring_of(hosts, d),
    ensures
        !appended_domains(hosts, domains).contains(d),
    decreases domains.len(),
{
    if domains.len() > 0 {
        lemma_present_domain_never_added(hosts, domains.drop_last(), d);
    }
}

/// A listed domain that is not yet present does receive an entry.
pub proof fn lemma_missing_domain_added(hosts: Seq<char>, domains: Seq<Seq<char>>, d: Seq<char>)
    requires
        domains.contains(d),
        !is_substring_of(hosts, d),
    ensures
        appended_domains(hosts, domains).contains(d),
    decreases domains.len(),
{
    let prior = appended_domains(hosts, domains.drop_last());
    if domains.last() == d {
        if !prior.contains(d) {
            assert(appended_domains(hosts, domains) == prior.push(d));
            assert(prior.push(d).last() == d);
        }
    } else {
        assert(domains.drop_last().contains(d)) by {
            let j = choose|j: int| 0 <= j < domains.len() && domains[j] == d;
            assert(domains.drop_last()[j] == d);
        }
        lemma_missing_domain_added(hosts, domains.drop_last(), d);
        if !(is_substring_of(hosts, domains.last()) || prior.contains(domains.last())) {
            assert(appended_domains(hosts, domains) == prior.push(domains.last()));
            let j = choose|j: int| 0 <= j < prior.len() && prior[j] == d;
            assert(prior.push(domains.last())[j] == d);
        }
    }
}

/// Each entry appears at most once: the appended domains hold no
/// duplicates.
pub proof fn lemma_appended_domains_distinct(hosts: Seq<char>, domains: Seq<Seq<char>>)
    ensures
        forall|i: int, j: int|
            0 <= i < j < appended_domains(hosts, domains).len()
                ==> appended_domains(hosts, domains)[i] != appended_domains(hosts, domains)[j],
    decreases domains.len(),
{
    if domains.len() > 0 {
        lemma_appended_domains_distinct(hosts, domains.drop_last());
        let prior = appended_domains(hosts, domains.drop_last());
        let d = domains.last();
        if !(is_substring_of(hosts, d) || prior.contains(d)) {
            assert forall|i: int, j: int|
                0 <= i < j < prior.push(d).len() implies prior.push(d)[i] != prior.push(d)[j] by {
                if j == prior.len() {
                    assert(prior.push(d)[i] == prior[i]);
                    assert(prior[i] != d) by {
                        if prior[i] == d {
                            assert(prior.contains(d));
                        }
                    }
                }
            }
        }
    }
}

/// A domain that was given an entry occurs in the text of the managed
/// block.
pub proof fn lemma_blocked_lines_contain(domains: Seq<Seq<char>>, d: Seq<char>)
    requires
        domains.contains(d),
    ensures
        is_substring_of(blocked_lines_text(domains), d),
    decreases domains.len(),
{
    let prefix = blocked_lines_text(domains.drop_last());
    let line = blocked_line_spec(domains.last());
    if domains.last() == d {
        assert(is_substring_of(line, d)) by {
            let n = "\n127.0.0.1\t"@.len();
            assert(line.subrange(n as int, n as int + d.len() as int) =~= d);
        }
        lemma_substring_extend(prefix, line, d);
    } else {
        assert(domains.drop_last().contains(d)) by {
            let j = choose|j: int| 0 <= j < domains.len() && domains[j] == d;
            assert(domains.drop_last()[j] == d);
        }
        lemma_blocked_lines_contain(domains.drop_last(), d);
        lemma_substring_extend(prefix, line, d);
    }
}

/// When every listed domain is already present in `hosts`, nothing is
/// appended.
proof fn lemma_all_present_appends_nothing(hosts: Seq<char>, domains: Seq<Seq<char>>)
    requires
        forall|j: int| 0 <= j < domains.len() ==> is_substring_of(hosts, #[trigger] domains[j]),
    ensures
        appended_domains(hosts, domains) =~= Seq::<Seq<char>>::empty(),
    decreases domains.len(),
{
    if domains.len() > 0 {
        lemma_all_present_appends_nothing(hosts, domains.drop_last());
    }
}

/// The rewrite is idempotent: applying it a second time to an already
/// rewritten content, with the same list, appends no entry at all — only
/// another, empty managed block. No duplicate blocking lines accumulate
/// across repeated runs.
pub proof fn lemma_rewrite_idempotent(hosts: Seq<char>, list: Seq<char>)
    ensures
        rewrite_spec(rewrite_spec(hosts, list), list) == rewrite_spec(hosts, list) + marker_text()
            + marker_text(),
{
    let ds = clean_list_spec(list);
    let added = appended_domains(hosts, ds);
    let entries = blocked_lines_text(added);
    let once = rewrite_spec(hosts, list);
    assert forall|j: int| 0 <= j < ds.len() implies is_substring_of(once, #[trigger] ds[j]) by {
        let d = ds[j];
        if is_substring_of(hosts, d) {
            lemma_substring_extend(hosts, marker_text() + entries + marker_text(), d);
            assert(once =~= hosts + (marker_text() + entries + marker_text()));
        } else {
            assert(ds.contains(d));
            lemma_missing_domain_added(hosts, ds, d);
            lemma_blocked_lines_contain(added, d);
            lemma_substring_extend(hosts + marker_text(), entries, d);
            lemma_substring_extend(hosts + marker_text() + entries, marker_text(), d);
        }
    }
    lemma_all_present_appends_nothing(once, ds);
    assert(blocked_lines_text(appended_domains(once, ds)) =~= Seq::<char>::empty());
    assert(rewrite_spec(once, list) =~= once + marker_text() + marker_text());
}

/// An empty domain list — or one holding only blank lines — yields the
/// original content followed by an empty managed block.
pub proof fn lemma_rewrite_empty_list(hosts: Seq<char>, list: Seq<char>)
    requires
        clean_list_spec(list) == Seq::<Seq<char>>::empty(),
    ensures
        rewrite_spec(hosts, list) == hosts + marker_text() + marker_text(),
{
    assert(rewrite_spec(hosts, list) =~= hosts + marker_text() + marker_text());
}

} // verus!
