use quibble::compose::spec::{ComposeSpec, ListOrHashMap, Service, StringOrNumber};
use quibble::compose::{ComposeFile, LineIndex};
use quibble::config::Config;
use quibble::containers::ImageError;
use quibble::rules::all::{kernel_parameters, privileged, security_opts};
use quibble::rules::environment::environment_variables;
use quibble::rules::images::container_images;
use quibble::rules::registry::docker_registry;
use quibble::rules::socket::docker_socket;
use quibble::rules::version::docker_version;
use quibble::security::{RuleID, Severity};

fn empty_service() -> Service {
    Service {
        image: None,
        build: None,
        container_name: None,
        dns: None,
        env_file: None,
        environment: None,
        expose: None,
        ports: None,
        volumes: None,
        labels: None,
        security_opt: None,
        restart: None,
        sysctls: None,
        cap_add: None,
        privileged: None,
    }
}

fn manifest(services: Vec<(String, Service)>) -> ComposeFile {
    ComposeFile {
        path: String::from("docker-compose.yml"),
        compose: ComposeSpec { version: None, name: None, services },
        mappings: LineIndex::new(),
    }
}

fn config_with(registries: Vec<&str>) -> Config {
    Config {
        registries: registries.into_iter().map(String::from).collect(),
        severity: String::from("Medium"),
        disable_rules: false,
        rules: Vec::new(),
    }
}

#[test]
fn version_rule_tiers() {
    let config = Config::default();
    let data = String::from("version: \"1\"\nservices:\n  web:\n    image: nginx\n");
    let mut cf = manifest(vec![]);
    cf.mappings = ComposeFile::mappings(&data);
    cf.compose.version = Some(String::from("1"));

    let alerts = docker_version(&config, &cf);
    assert_eq!(alerts.len(), 1);
    assert_eq!(alerts[0].severity, Severity::Medium);
    assert_eq!(alerts[0].id, RuleID::Quibble(String::from("COMPOSE_V1")));
    assert_eq!(alerts[0].details, String::from("Compose v1"));
    assert_eq!(alerts[0].path.line, Some(0));

    cf.compose.version = Some(String::from("2.2"));
    let alerts = docker_version(&config, &cf);
    assert_eq!(alerts.len(), 1);
    assert_eq!(alerts[0].severity, Severity::Low);
    assert_eq!(alerts[0].id, RuleID::Quibble(String::from("COMPOSE_V2")));

    cf.compose.version = Some(String::from("3.5"));
    let alerts = docker_version(&config, &cf);
    assert_eq!(alerts.len(), 1);
    assert_eq!(alerts[0].severity, Severity::Low);
    assert_eq!(alerts[0].id, RuleID::Quibble(String::from("COMPOSE_V3")));

    cf.compose.version = Some(String::from("3.9"));
    assert!(docker_version(&config, &cf).is_empty());

    cf.compose.version = None;
    assert!(docker_version(&config, &cf).is_empty());
}

#[test]
fn registry_rule_allow_list() {
    // A docker.io image under an allow-list holding docker.io raises
    // nothing; a ghcr.io image raises exactly one High alert naming it.
    let config = config_with(vec!["docker.io"]);

    let mut svc = empty_service();
    svc.image = Some(String::from("myco/app"));
    let cf = manifest(vec![(String::from("app"), svc)]);
    assert!(docker_registry(&config, &cf).is_empty());

    let mut svc = empty_service();
    svc.image = Some(String::from("ghcr.io/myco/app"));
    let cf = manifest(vec![(String::from("app"), svc)]);
    let alerts = docker_registry(&config, &cf);
    assert_eq!(alerts.len(), 1);
    assert_eq!(alerts[0].severity, Severity::High);
    assert_eq!(
        alerts[0].details,
        String::from("Container from unknown registry: ghcr.io")
    );
}

#[test]
fn socket_rule() {
    let config = Config::default();
    let mut svc = empty_service();
    svc.volumes = Some(vec![String::from("/var/run/docker.sock:/var/run/docker.sock")]);
    let cf = manifest(vec![(String::from("app"), svc)]);
    let alerts = docker_socket(&config, &cf);
    assert_eq!(alerts.len(), 1);
    assert_eq!(alerts[0].severity, Severity::High);
    assert_eq!(alerts[0].id, RuleID::Quibble(String::from("DOCKER_SOCKET")));

    let cf = manifest(vec![(String::from("app"), empty_service())]);
    assert!(docker_socket(&config, &cf).is_empty());
}

#[test]
fn privileged_rule() {
    let config = Config::default();
    let mut svc = empty_service();
    svc.privileged = Some(true);
    let cf = manifest(vec![(String::from("app"), svc)]);
    let alerts = privileged(&config, &cf);
    assert_eq!(alerts.len(), 1);
    assert_eq!(alerts[0].severity, Severity::High);
    assert_eq!(alerts[0].details, String::from("Container privilege enabled"));

    let mut svc = empty_service();
    svc.privileged = Some(false);
    let cf = manifest(vec![(String::from("app"), svc)]);
    assert!(privileged(&config, &cf).is_empty());
}

#[test]
fn rolling_tag_rule() {
    // nginx:latest yields the image-reference Information alert and a
    // separate Medium rolling-tag alert; nginx:1.25 only the former.
    let config = Config::default();
    let mut svc = empty_service();
    svc.image = Some(String::from("nginx:latest"));
    let cf = manifest(vec![(String::from("web"), svc)]);
    let alerts = container_images(&config, &cf);
    assert_eq!(alerts.len(), 2);
    assert_eq!(alerts[0].id, RuleID::Quibble(String::from("IMAGE_TAG")));
    assert_eq!(alerts[0].severity, Severity::Information);
    assert_eq!(
        alerts[0].details,
        String::from("Container Image: docker.io/_/nginx:latest")
    );
    assert_eq!(alerts[1].id, RuleID::Quibble(String::from("IMAGE_TAG_LATEST")));
    assert_eq!(alerts[1].severity, Severity::Medium);
    assert_eq!(
        alerts[1].details,
        String::from("Container using rolling release tag: `latest`")
    );

    let mut svc = empty_service();
    svc.image = Some(String::from("nginx:1.25"));
    let cf = manifest(vec![(String::from("web"), svc)]);
    let alerts = container_images(&config, &cf);
    assert_eq!(alerts.len(), 1);
    assert_eq!(alerts[0].id, RuleID::Quibble(String::from("IMAGE_TAG")));
    assert_eq!(alerts[0].severity, Severity::Information);
}

#[test]
fn image_env_var_and_build_context() {
    let config = Config::default();
    let mut svc = empty_service();
    svc.image = Some(String::from("${REGISTRY}/app:1.0"));
    let cf = manifest(vec![(String::from("web"), svc)]);
    let alerts = container_images(&config, &cf);
    assert_eq!(alerts.len(), 1);
    assert_eq!(alerts[0].id, RuleID::Quibble(String::from("IMAGE_ENV_VAR")));

    let mut svc = empty_service();
    svc.build = Some(quibble::compose::spec::StringOrBuild::Str(String::from("./build")));
    let cf = manifest(vec![(String::from("web"), svc)]);
    let alerts = container_images(&config, &cf);
    assert_eq!(alerts.len(), 1);
    assert_eq!(alerts[0].id, RuleID::Quibble(String::from("BUILD_CONTEXT")));
    assert_eq!(alerts[0].details, String::from("Build context path: ./build"));

    // The object form without a context still reports a build, at the
    // default context.
    let mut svc = empty_service();
    svc.build = Some(quibble::compose::spec::StringOrBuild::Build(
        quibble::compose::spec::Build { context: None, dockerfile: None },
    ));
    let cf = manifest(vec![(String::from("web"), svc)]);
    let alerts = container_images(&config, &cf);
    assert_eq!(alerts.len(), 1);
    assert_eq!(alerts[0].id, RuleID::Quibble(String::from("BUILD_CONTEXT")));
    assert_eq!(alerts[0].details, String::from("Build context path: ."));
}

#[test]
fn security_opts_rule() {
    let config = Config::default();

    let cf = manifest(vec![(String::from("app"), empty_service())]);
    let alerts = security_opts(&config, &cf);
    assert_eq!(alerts.len(), 1);
    assert_eq!(alerts[0].severity, Severity::High);
    assert_eq!(
        alerts[0].details,
        String::from("Security Opts `no-new-privileges` not set for 'unknown'")
    );

    let mut svc = empty_service();
    svc.container_name = Some(String::from("app-box"));
    svc.security_opt = Some(vec![String::from("no-new-privileges:false")]);
    let cf = manifest(vec![(String::from("app"), svc)]);
    let alerts = security_opts(&config, &cf);
    assert_eq!(alerts.len(), 1);
    assert_eq!(
        alerts[0].details,
        String::from("Security Opts `no-new-privileges` set to `false` for 'app-box'")
    );

    let mut svc = empty_service();
    svc.security_opt = Some(vec![String::from("no-new-privileges:true")]);
    let cf = manifest(vec![(String::from("app"), svc)]);
    assert!(security_opts(&config, &cf).is_empty());
}

#[test]
fn kernel_parameters_rule() {
    let config = Config::default();

    let mut svc = empty_service();
    svc.sysctls = Some(ListOrHashMap::List(vec![StringOrNumber::Str(String::from(
        "net.ipv4.conf.all.rp_filter=1",
    ))]));
    let cf = manifest(vec![(String::from("app"), svc)]);
    let alerts = kernel_parameters(&config, &cf);
    assert_eq!(alerts.len(), 2);
    assert_eq!(alerts[0].details, String::from("Enabling extra syscalls"));
    assert_eq!(alerts[0].severity, Severity::Information);
    assert_eq!(alerts[0].path.path, String::from("docker-compose.yml"));
    assert!(alerts[1].details.starts_with("IPv4 Kernal Parameters modified:"));

    let mut svc = empty_service();
    svc.cap_add = Some(vec![String::from("NET_ADMIN"), String::from("SYS_ADMIN")]);
    let cf = manifest(vec![(String::from("app"), svc)]);
    let alerts = kernel_parameters(&config, &cf);
    assert_eq!(alerts.len(), 3);
    assert_eq!(alerts[1].id, RuleID::Quibble(String::from("NET_ADMIN")));
    assert_eq!(alerts[1].severity, Severity::Medium);
    assert_eq!(alerts[2].id, RuleID::Quibble(String::from("SYS_ADMIN")));
    assert_eq!(alerts[2].severity, Severity::Medium);

    let mut svc = empty_service();
    svc.cap_add = Some(vec![String::from("ALL")]);
    let cf = manifest(vec![(String::from("app"), svc)]);
    let alerts = kernel_parameters(&config, &cf);
    assert_eq!(alerts.len(), 2);
    assert_eq!(alerts[1].id, RuleID::Quibble(String::from("ALL")));
    assert_eq!(alerts[1].severity, Severity::High);
}

#[test]
fn environment_rule_list_form() {
    let config = Config::default();
    let mut svc = empty_service();
    svc.environment = Some(ListOrHashMap::List(vec![
        StringOrNumber::Str(String::from("DEBUG=1")),
        StringOrNumber::Str(String::from("DB_PASSWORD=hunter2")),
        StringOrNumber::Str(String::from("PLAIN=ok")),
        StringOrNumber::Str(String::from("NOEQUALS")),
    ]));
    let cf = manifest(vec![(String::from("app"), svc)]);
    let alerts = environment_variables(&config, &cf);
    assert_eq!(alerts.len(), 2);
    assert_eq!(alerts[0].id, RuleID::Cwe(String::from("1244")));
    assert_eq!(alerts[0].severity, Severity::Medium);
    assert_eq!(alerts[0].details, String::from("Debugging enabled in the container"));
    assert_eq!(alerts[1].id, RuleID::Cwe(String::from("215")));
    assert_eq!(alerts[1].severity, Severity::Low);
    assert_eq!(alerts[1].details, String::from("Possible Hardcoded password"));
}

#[test]
fn environment_rule_map_form() {
    // Every key of the map form is inspected, whatever shape its value
    // takes.
    let config = Config::default();
    let mut svc = empty_service();
    svc.environment = Some(ListOrHashMap::Hash(vec![
        (String::from("API_TOKEN"), StringOrNumber::Str(String::from("x"))),
        (String::from("COUNT"), StringOrNumber::Num(3)),
        (String::from("DEBUG_LEVEL"), StringOrNumber::Num(2)),
    ]));
    let cf = manifest(vec![(String::from("app"), svc)]);
    let alerts = environment_variables(&config, &cf);
    assert_eq!(alerts.len(), 2);
    assert_eq!(alerts[0].id, RuleID::Cwe(String::from("215")));
    assert_eq!(alerts[0].severity, Severity::Low);
    assert_eq!(alerts[1].id, RuleID::Cwe(String::from("1244")));
    assert_eq!(alerts[1].severity, Severity::Medium);
}

#[test]
fn parse_image_missing() {
    let svc = empty_service();
    assert_eq!(svc.parse_image().unwrap_err(), ImageError::MissingImage);
}
