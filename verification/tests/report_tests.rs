use quibble::compose::spec::{ComposeSpec, Service};
use quibble::compose::{ComposeFile, LineIndex};
use quibble::config::{default_registries, default_severity, Config};
use quibble::formatters::sarif::SarifFile;
use quibble::render::{display_plan, ColorTier};
use quibble::rules::Rules;
use quibble::security::{Alert, AlertLocation, RuleID, Severity};

fn empty_service() -> Service {
    Service {
        image: None,
        build: None,
        container_name: None,
        dns: None,
        env_file: None,
        environment: None,
        expose: None,
        ports: None,
        volumes: None,
        labels: None,
        security_opt: None,
        restart: None,
        sysctls: None,
        cap_add: None,
        privileged: None,
    }
}

fn two_service_manifest() -> ComposeFile {
    let mut a = empty_service();
    a.privileged = Some(true);
    let mut b = empty_service();
    b.cap_add = Some(vec![String::from("ALL")]);
    ComposeFile {
        path: String::from("deploy/docker-compose.yml"),
        compose: ComposeSpec {
            version: None,
            name: None,
            services: vec![(String::from("a"), a), (String::from("b"), b)],
        },
        mappings: LineIndex::new(),
    }
}

#[test]
fn registry_holds_all_rules() {
    let rules = Rules::new(Config::default());
    assert_eq!(rules.len(), 8);

    let mut config = Config::default();
    config.disable_rules = true;
    let rules = Rules::new(config);
    assert_eq!(rules.len(), 0);
}

#[test]
fn end_to_end_two_services() {
    // After filtering at the Medium threshold: at least two High alerts,
    // no Information or Low ones, one path header, severity descending.
    let cf = two_service_manifest();
    let rules = Rules::new(Config::default());
    let results = rules.run(&cf);

    let plan = display_plan(&Severity::Medium, &results);
    assert!(!plan.is_empty());

    let highs = plan.iter().filter(|i| i.severity == "High").count();
    assert!(highs >= 2, "expected at least two High alerts, got {highs}");
    assert!(plan.iter().all(|i| i.severity != "Information" && i.severity != "Low"));

    let headers = plan.iter().filter(|i| i.header.is_some()).count();
    assert_eq!(headers, 1, "all alerts share one path header");

    let sevs: Vec<Severity> = results.iter().map(|a| a.severity).collect();
    let mut sorted = sevs.clone();
    sorted.sort();
    assert_eq!(sevs, sorted, "alerts come sorted most severe first");
}

#[test]
fn structured_report_idempotent() {
    // Running the full registry twice against the same manifest gives
    // identical structured reports.
    let cf = two_service_manifest();
    let rules = Rules::new(Config::default());

    let mut builder1 = SarifFile::new();
    builder1.set_tool(String::from("Quibble"), String::from("0.1.0"));
    builder1.base("deploy");
    builder1.add_results(rules.run(&cf));
    let report1 = builder1.build();

    let mut builder2 = SarifFile::new();
    builder2.set_tool(String::from("Quibble"), String::from("0.1.0"));
    builder2.base("deploy");
    builder2.add_results(rules.run(&cf));
    let report2 = builder2.build();

    assert_eq!(report1, report2);
}

#[test]
fn structured_report_fields() {
    let alert = Alert {
        details: String::from("Container privilege enabled"),
        severity: Severity::High,
        id: RuleID::Quibble(String::from("PRIVILEGED_CONTAINER")),
        path: AlertLocation {
            path: String::from("/work/deploy/docker-compose.yml"),
            line: Some(4),
        },
    };
    let no_line = Alert {
        details: String::from("Possible Hardcoded password"),
        severity: Severity::Low,
        id: RuleID::Cwe(String::from("215")),
        path: AlertLocation { path: String::from("elsewhere.yml"), line: None },
    };

    let mut builder = SarifFile::new();
    builder.set_tool(String::from("Quibble"), String::from("0.1.0"));
    builder.base("/work");
    builder.add_results(vec![alert, no_line]);
    let report = builder.build();

    assert_eq!(report.version, String::from("2.1.0"));
    assert_eq!(report.runs.len(), 1);
    let run = &report.runs[0];
    assert_eq!(run.tool.driver.name, String::from("Quibble"));
    assert_eq!(run.tool.driver.organization, String::from("geekmasher"));
    assert_eq!(run.tool.driver.semantic_version, String::from("0.1.0"));
    assert_eq!(run.tool.driver.rules.len(), 2);
    assert_eq!(run.results.len(), 2);
    assert!(run.artifacts.is_empty());

    let rule = &run.tool.driver.rules[0];
    assert_eq!(rule.id, String::from("PRIVILEGED_CONTAINER"));
    assert_eq!(rule.properties.severity, String::from("high"));
    assert_eq!(rule.properties.security_severity, String::from("7.0"));
    assert_eq!(rule.properties.precision, String::from("high"));

    let result = &run.results[0];
    assert_eq!(result.rule_id, String::from("PRIVILEGED_CONTAINER"));
    assert_eq!(result.message.text, String::from("Container privilege enabled"));
    assert_eq!(result.locations.len(), 1);
    let loc = &result.locations[0].physical_location;
    assert_eq!(loc.artifact_location.uri, String::from("deploy/docker-compose.yml"));
    assert_eq!(loc.artifact_location.uri_base_id, String::from("%SRCROOT%"));
    assert_eq!(loc.region.start_line, 5);

    // A path outside the base stays absolute; a missing line becomes 1.
    let other = &run.results[1];
    assert_eq!(
        other.locations[0].physical_location.artifact_location.uri,
        String::from("elsewhere.yml")
    );
    assert_eq!(other.locations[0].physical_location.region.start_line, 1);
    assert_eq!(run.tool.driver.rules[1].id, String::from("CWE-215"));
    assert_eq!(run.tool.driver.rules[1].properties.severity, String::from("low"));
    assert_eq!(run.tool.driver.rules[1].properties.security_severity, String::from("3.0"));
}

#[test]
fn sarif_catalog_keyed_by_rule_id() {
    // Two findings of one rule give one catalog record (from the first
    // finding) and two results.
    let mk = |details: &str| Alert {
        details: String::from(details),
        severity: Severity::High,
        id: RuleID::Quibble(String::from("DOCKER_SOCKET")),
        path: AlertLocation { path: String::from("a.yml"), line: None },
    };
    let mut builder = SarifFile::new();
    builder.set_tool(String::from("Quibble"), String::from("0.1.0"));
    builder.add_results(vec![mk("first"), mk("second")]);
    let report = builder.build();

    let run = &report.runs[0];
    assert_eq!(run.results.len(), 2);
    assert_eq!(run.tool.driver.rules.len(), 1);
    assert_eq!(run.tool.driver.rules[0].id, String::from("DOCKER_SOCKET"));
    assert_eq!(run.tool.driver.rules[0].name, String::from("first"));
}

#[test]
fn display_plan_groups_and_colors() {
    let mk = |path: &str, sev: Severity, details: &str| Alert {
        details: String::from(details),
        severity: sev,
        id: RuleID::Quibble(String::from("X")),
        path: AlertLocation { path: String::from(path), line: None },
    };
    let alerts = vec![
        mk("a.yml", Severity::Critical, "first"),
        mk("a.yml", Severity::High, "second"),
        mk("b.yml", Severity::Medium, "third"),
        mk("b.yml", Severity::Information, "dropped"),
    ];
    let plan = display_plan(&Severity::Medium, &alerts);
    assert_eq!(plan.len(), 3);
    assert_eq!(plan[0].header, Some(String::from("a.yml")));
    assert_eq!(plan[0].tier, ColorTier::Red);
    assert_eq!(plan[0].details, String::from("first"));
    assert_eq!(plan[1].header, None);
    assert_eq!(plan[1].tier, ColorTier::Red);
    assert_eq!(plan[2].header, Some(String::from("b.yml")));
    assert_eq!(plan[2].tier, ColorTier::Yellow);

    // Everything below the threshold is dropped before grouping.
    let none = display_plan(&Severity::Critical, &alerts);
    assert_eq!(none.len(), 1);
    assert_eq!(none[0].details, String::from("first"));
}

#[test]
fn config_defaults() {
    let config = Config::default();
    assert_eq!(
        config.registries,
        vec![
            String::from("docker.io"),
            String::from("ghcr.io"),
            String::from("mcr.microsoft.com"),
            String::from("gcr.io"),
        ]
    );
    assert_eq!(config.severity, String::from("Medium"));
    assert!(!config.disable_rules);
    assert!(config.rules.is_empty());
    assert_eq!(default_registries().len(), 4);
    assert_eq!(default_severity(), String::from("Medium"));
}

#[test]
fn line_index_behaviour() {
    let mut index = LineIndex::new();
    assert_eq!(index.len(), 0);
    index.insert(String::from("services"), 2);
    index.insert(String::from("version"), 0);
    assert_eq!(index.len(), 2);
    assert_eq!(index.get("services"), Some(2));
    assert_eq!(index.get("version"), Some(0));
    assert_eq!(index.get("missing"), None);
    index.insert(String::from("services"), 7);
    assert_eq!(index.len(), 2);
    assert_eq!(index.get("services"), Some(7));
}
