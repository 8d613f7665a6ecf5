use focus::hosts::rewrite_hosts_contents_to_block_websites;

const MARKER: &str = "\n# ========== Temp Hosts =========";

#[test]
fn rewrite_appends_one_entry_per_new_domain() {
    let hosts = "127.0.0.1 localhost\n";
    let list = "example.com\nexample.com\n \ntest.org";
    let out = rewrite_hosts_contents_to_block_websites(hosts, list);
    let expected = format!(
        "{}{}\n127.0.0.1\texample.com\n127.0.0.1\ttest.org{}",
        hosts, MARKER, MARKER
    );
    assert_eq!(out, expected);
}

#[test]
fn rewrite_empty_list_adds_empty_managed_block() {
    let hosts = "127.0.0.1 localhost\n";
    let out = rewrite_hosts_contents_to_block_websites(hosts, "");
    assert_eq!(out, format!("{}{}{}", hosts, MARKER, MARKER));
}

#[test]
fn rewrite_blank_lines_behave_like_empty_list() {
    let hosts = "127.0.0.1 localhost\n";
    let out = rewrite_hosts_contents_to_block_websites(hosts, " \n\t \n");
    assert_eq!(out, format!("{}{}{}", hosts, MARKER, MARKER));
}

#[test]
fn rewrite_skips_domain_already_present() {
    let hosts = "127.0.0.1 localhost\n0.0.0.0 example.com\n";
    let list = "example.com\ntest.org\n";
    let out = rewrite_hosts_contents_to_block_websites(hosts, list);
    let expected = format!("{}{}\n127.0.0.1\ttest.org{}", hosts, MARKER, MARKER);
    assert_eq!(out, expected);
}

#[test]
fn rewrite_second_application_appends_nothing() {
    let hosts = "127.0.0.1 localhost\n";
    let list = "example.com\ntest.org\n";
    let once = rewrite_hosts_contents_to_block_websites(hosts, list);
    let twice = rewrite_hosts_contents_to_block_websites(&once, list);
    assert_eq!(twice, format!("{}{}{}", once, MARKER, MARKER));
}

#[test]
fn rewrite_keeps_input_order() {
    let hosts = "";
    let list = "b.example\na.example\n";
    let out = rewrite_hosts_contents_to_block_websites(hosts, list);
    let expected = format!("{}\n127.0.0.1\tb.example\n127.0.0.1\ta.example{}", MARKER, MARKER);
    assert_eq!(out, expected);
}

#[test]
fn text_helpers_match_their_contracts() {
    assert!(focus::text::contains_substring("abcde", "bcd"));
    assert!(!focus::text::contains_substring("abcde", "bd"));
    assert!(focus::text::contains_substring("abc", ""));
    assert!(!focus::text::contains_substring("ab", "abc"));
    assert_eq!(focus::text::trim_str("  a b\t"), "a b");
    assert_eq!(focus::text::trim_str("\r\t "), "");
    assert!(focus::text::str_eq("same", "same"));
    assert!(!focus::text::str_eq("same", "same "));
    let lines = focus::text::split_lines("a\n\nb");
    assert_eq!(lines, vec!["a".to_string(), "".to_string(), "b".to_string()]);
    let entries = focus::text::clean_entries(" a \n\nb\n");
    assert_eq!(entries, vec!["a".to_string(), "b".to_string()]);
}
