use klog::resolver::resolve;
use klog::resolver::ResolutionError;

fn chars(s: &str) -> Vec<char> {
    s.chars().collect()
}

#[test]
fn resolves_nginx_scenario() {
    let listing = chars("kube-system   nginx-controller-abc12-xde98   Running ...");
    let matcher = chars("nginx");
    let pod = resolve(&matcher, &listing).unwrap();
    assert_eq!(pod.name, chars("nginx-controller-abc12-xde98"));
    assert_eq!(pod.namespace, chars("kube-system"));
}

#[test]
fn resolves_first_matching_line() {
    let listing = chars(
        "default   web-nginx-aaa11-bbb22   Running\n\
         default   web-nginx-ccc33-ddd44   Running",
    );
    let matcher = chars("nginx");
    let pod = resolve(&matcher, &listing).unwrap();
    assert_eq!(pod.name, chars("web-nginx-aaa11-bbb22"));
    assert_eq!(pod.namespace, chars("default"));
}

#[test]
fn skips_non_matching_lines() {
    let listing = chars(
        "kube-system   coredns-aaa11-bbb22   Running\n\
         default       nginx-deploy-xyz98-abc12   Running",
    );
    let matcher = chars("nginx");
    let pod = resolve(&matcher, &listing).unwrap();
    assert_eq!(pod.name, chars("nginx-deploy-xyz98-abc12"));
    assert_eq!(pod.namespace, chars("default"));
}

#[test]
fn no_match_signals_not_found() {
    let listing = chars("kube-system   coredns-aaa11-bbb22   Running");
    let matcher = chars("nginx");
    assert_eq!(resolve(&matcher, &listing), Err(ResolutionError::NotFound));
}

#[test]
fn empty_matcher_signals_not_found() {
    let listing = chars("kube-system   nginx-controller-abc12-xde98   Running");
    let matcher = chars("");
    assert_eq!(resolve(&matcher, &listing), Err(ResolutionError::NotFound));
}

#[test]
fn empty_listing_signals_not_found() {
    let listing = chars("");
    let matcher = chars("nginx");
    assert_eq!(resolve(&matcher, &listing), Err(ResolutionError::NotFound));
}

#[test]
fn name_without_generated_suffix_does_not_match() {
    let listing = chars("default   nginx   Running");
    let matcher = chars("nginx");
    assert_eq!(resolve(&matcher, &listing), Err(ResolutionError::NotFound));
}

#[test]
fn matcher_in_namespace_column_does_not_match() {
    let listing = chars("nginx-system   coredns-aaa11-bbb22   Running");
    let matcher = chars("nginx");
    assert_eq!(resolve(&matcher, &listing), Err(ResolutionError::NotFound));
}

#[test]
fn malformed_single_column_line_is_skipped() {
    let listing = chars("nginx-controller-abc12-xde98");
    let matcher = chars("nginx");
    assert_eq!(resolve(&matcher, &listing), Err(ResolutionError::NotFound));
}

#[test]
fn resolved_name_contains_matcher_and_suffix() {
    let listing = chars("media   plex-server-55dd8-q2w3e   CrashLoopBackOff");
    let matcher = chars("plex");
    let pod = resolve(&matcher, &listing).unwrap();
    let name: String = pod.name.iter().collect();
    assert!(name.contains("plex"));
    assert!(name.rsplit('-').next().is_some_and(|suffix| {
        !suffix.is_empty() && suffix.chars().all(|c| c.is_ascii_alphanumeric())
    }));
}

#[test]
fn blank_and_tab_separated_columns_both_work() {
    let listing = chars("prod\tapi-gateway-7f9c4-zz00x\tRunning");
    let matcher = chars("gateway");
    let pod = resolve(&matcher, &listing).unwrap();
    assert_eq!(pod.name, chars("api-gateway-7f9c4-zz00x"));
    assert_eq!(pod.namespace, chars("prod"));
}
