use moranda_cids::risk::calculate_risk;

#[test]
fn empty_request_is_benign() {
    let (score, reasons) = calculate_risk("", "");
    assert_eq!(score, 0);
    assert!(reasons.is_empty());
}

#[test]
fn clean_agent_on_unknown_path_is_not_flagged() {
    let (score, reasons) = calculate_risk("Mozilla/5.0 (X11; Linux x86_64)", "/index.html");
    assert_eq!(score, 0);
    assert!(reasons.is_empty());
}

#[test]
fn nutch_on_admin_scores_eighty() {
    let (score, reasons) = calculate_risk("Mozilla/5.0 Nutch/1.2", "/admin");
    assert_eq!(score, 80);
    assert_eq!(
        reasons,
        vec![
            "Automation indicator: Nutch".to_string(),
            "Privileged endpoint probe".to_string()
        ]
    );
}

#[test]
fn two_indicators_on_robots_score_seventy() {
    let (score, reasons) = calculate_risk("WebZip BecomeBot", "/robots.txt");
    assert_eq!(score, 70);
    assert_eq!(reasons.len(), 3);
    assert_eq!(
        reasons,
        vec![
            "Automation indicator: WebZip".to_string(),
            "Automation indicator: BecomeBot".to_string(),
            "Reconnaissance pattern".to_string()
        ]
    );
}

#[test]
fn indicators_are_reported_in_list_order() {
    let (score, reasons) = calculate_risk("CheeseBot Jetbot", "/");
    assert_eq!(score, 60);
    assert_eq!(
        reasons,
        vec![
            "Automation indicator: Jetbot".to_string(),
            "Automation indicator: CheeseBot".to_string()
        ]
    );
}

#[test]
fn matching_is_case_sensitive() {
    let (score, reasons) = calculate_risk("nutch webzip", "/ADMIN");
    assert_eq!(score, 0);
    assert!(reasons.is_empty());
}

#[test]
fn every_signal_saturates_at_one_hundred() {
    let (score, reasons) = calculate_risk("WebZip Nutch Jetbot BecomeBot CheeseBot", "/admin");
    assert_eq!(score, 100);
    assert_eq!(reasons.len(), 6);
}

#[test]
fn single_indicator_on_robots_scores_forty() {
    let (score, reasons) = calculate_risk("Jetbot/2", "/robots.txt");
    assert_eq!(score, 40);
    assert_eq!(
        reasons,
        vec![
            "Automation indicator: Jetbot".to_string(),
            "Reconnaissance pattern".to_string()
        ]
    );
}

#[test]
fn path_must_match_exactly() {
    let (score, reasons) = calculate_risk("curl/8.0", "/admin/");
    assert_eq!(score, 0);
    assert!(reasons.is_empty());
}

#[test]
fn classification_is_repeatable() {
    let first = calculate_risk("Nutch WebZip", "/admin");
    let second = calculate_risk("Nutch WebZip", "/admin");
    assert_eq!(first, second);
    assert_eq!(first.0, 100);
}
