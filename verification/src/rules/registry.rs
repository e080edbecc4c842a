//! Registry trust rule.
use vstd::prelude::*;

use crate::compose::ComposeFile;
use crate::compose::spec::Service;
use crate::config::{registry_allowed, Config};
use crate::containers::{image_parse, image_parse_ok};
use crate::security::{mk_alert, Alert, AlertLocation, AlertV, RuleID, RuleIdV, Severity};

verus! {

/// Alerts the registry rule raises for one service: one High alert when the
/// image parses and its registry instance is not in the allow-list.
pub open spec fn registry_svc_alerts(
    regs: Seq<Seq<char>>,
    path: Seq<char>,
    svc: Service,
) -> Seq<AlertV> {
    match svc.image {
        Some(ref i) => {
            if image_parse_ok(i@) && !registry_allowed(regs, image_parse(i@).instance) {
                seq![
                    mk_alert(
                        "Container from unknown registry: "@ + image_parse(i@).instance,
                        Severity::High,
                        RuleIdV::Quibble("DOCKER_REGISTRY"@),
                        path,
                        None,
                    ),
                ]
            } else {
                Seq::empty()
            }
        },
        None => Seq::empty(),
    }
}

/// Registry alerts of the services, in order.
pub open spec fn registry_alerts(
    regs: Seq<Seq<char>>,
    path: Seq<char>,
    svcs: Seq<(String, Service)>,
) -> Seq<AlertV>
    decreases svcs.len(),
{
    if svcs.len() == 0 {
        Seq::empty()
    } else {
        registry_alerts(regs, path, svcs.drop_last()) + registry_svc_alerts(
            regs,
            path,
            svcs.last().1,
        )
    }
}

/// Docker registry Rule.
///
/// Make sure that the container is being pulled from a trusted source.
pub fn docker_registry(config: &Config, compose_file: &ComposeFile) -> (alerts: Vec<Alert>)
    ensures
        alerts.deep_view() == registry_alerts(
            config.registries.deep_view(),
            compose_file.path@,
            compose_file.compose.services@,
        ),
{
    let ghost regs = config.registries.deep_view();
    let ghost pathv = compose_file.path@;
    let services = &compose_file.compose.services;
    let n = services.len();
    let mut alerts: Vec<Alert> = Vec::new();
    let mut i: usize = 0;
    proof {
        assert(services@.take(0) =~= Seq::<(String, Service)>::empty());
        assert(alerts.deep_view() =~= Seq::<AlertV>::empty());
    }
    while i < n
        invariant
            n == services@.len(),
            0 <= i <= n,
            config.registries.deep_view() == regs,
            compose_file.path@ == pathv,
            services == &compose_file.compose.services,
            alerts.deep_view() == registry_alerts(regs, pathv, services@.take(i as int)),
        decreases n - i,
    {
        proof {
            assert(services@.take(i + 1).drop_last() =~= services@.take(i as int));
            assert(services@.take(i + 1).last() == services@[i as int]);
        }
        let svc = &services[i].1;
        if let Ok(container) = svc.parse_image() {
            if !config.allows_registry(container.instance.as_str()) {
                let mut details = "Container from unknown registry: ".to_owned();
                details.append(container.instance.as_str());
                let ghost before = alerts.deep_view();
                alerts.push(
                    Alert {
                        details,
                        severity: Severity::High,
                        id: RuleID::Quibble("DOCKER_REGISTRY".to_owned()),
                        path: AlertLocation { path: compose_file.path.clone(), line: None },
                    },
                );
                proof {
                    assert(alerts.deep_view() =~= before.push(alerts@.last()@));
                    assert(alerts.deep_view() =~= registry_alerts(
                        regs,
                        pathv,
                        services@.take(i + 1),
                    ));
                }
            }
        }
        i += 1;
    }
    proof {
        assert(services@.take(n as int) =~= services@);
    }
    alerts
}

} // verus!
