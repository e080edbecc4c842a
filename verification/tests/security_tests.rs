use quibble::security::{Alert, RuleID, Severity};

#[test]
fn compare_sevs() {
    assert!(Severity::High < Severity::Medium)
}

#[test]
fn filter() {
    assert!(Severity::Medium.filter(String::from("medium")));
    assert!(Severity::High.filter(String::from("medium")));
}

#[test]
fn filter_matches_canonical_order() {
    // The filter predicate agrees with the canonical total order for every
    // pair of severities, whatever the casing of the filter string.
    let sevs = [
        Severity::Critical,
        Severity::High,
        Severity::Medium,
        Severity::Low,
        Severity::Information,
        Severity::Quality,
        Severity::Hardening,
        Severity::All,
    ];
    for (i, a) in sevs.iter().enumerate() {
        for (j, b) in sevs.iter().enumerate() {
            let lower_name = b.name().to_lowercase();
            let upper_name = b.name().to_uppercase();
            assert_eq!(a.filter(lower_name), i <= j, "{:?} vs {:?}", a, b);
            assert_eq!(a.filter(upper_name), i <= j, "{:?} vs {:?}", a, b);
        }
    }
}

#[test]
fn filter_below_threshold() {
    assert!(!Severity::Low.filter(String::from("medium")));
    assert!(!Severity::Information.filter(String::from("Medium")));
    assert!(Severity::Critical.filter(String::from("CRITICAL")));
    assert!(!Severity::High.filter(String::from("critical")));
}

#[test]
fn severity_from_names() {
    assert_eq!(Severity::from(String::from("medium")), Severity::Medium);
    assert_eq!(Severity::from(String::from("Med")), Severity::Medium);
    assert_eq!(Severity::from(String::from("m")), Severity::Medium);
    assert_eq!(Severity::from(String::from("CRIT")), Severity::Critical);
    assert_eq!(Severity::from(String::from("info")), Severity::Information);
    assert_eq!(Severity::from(String::from("nonsense")), Severity::All);
}

#[test]
fn cvss_scores() {
    let mut alert = Alert::new();
    assert_eq!(alert.cvss(), String::from(""));
    alert.severity = Severity::Critical;
    assert_eq!(alert.cvss(), String::from("10.0"));
    alert.severity = Severity::High;
    assert_eq!(alert.cvss(), String::from("7.0"));
    alert.severity = Severity::Medium;
    assert_eq!(alert.cvss(), String::from("5.0"));
    alert.severity = Severity::Low;
    assert_eq!(alert.cvss(), String::from("3.0"));
    alert.severity = Severity::Hardening;
    assert_eq!(alert.cvss(), String::from("2.0"));
    alert.severity = Severity::Quality;
    assert_eq!(alert.cvss(), String::from(""));
}

#[test]
fn new_alert_defaults() {
    let alert = Alert::new();
    assert_eq!(alert.details, String::from(""));
    assert_eq!(alert.severity, Severity::Information);
    assert_eq!(alert.id, RuleID::Quibble(String::from("N/A")));
    assert_eq!(alert.path.path, String::from(""));
    assert!(alert.path.line.is_none());
}

#[test]
fn rule_id_rendering() {
    assert_eq!(
        RuleID::Quibble(String::from("DOCKER_SOCKET")).render(),
        String::from("DOCKER_SOCKET")
    );
    assert_eq!(RuleID::Cwe(String::from("215")).render(), String::from("CWE-215"));
    assert_eq!(RuleID::Owasp(String::from("D04")).render(), String::from("OWASP-D04"));
}

#[test]
fn severity_names() {
    assert_eq!(Severity::Critical.name(), String::from("Critical"));
    assert_eq!(Severity::Information.name(), String::from("Information"));
    assert_eq!(Severity::All.name(), String::from("All"));
}
