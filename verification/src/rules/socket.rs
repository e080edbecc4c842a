//! Docker socket mount rule.
use vstd::prelude::*;

use crate::compose::{lookup, ComposeFile};
use crate::compose::spec::Service;
use crate::config::Config;
use crate::security::{mk_alert, Alert, AlertLocation, AlertV, RuleID, RuleIdV, Severity};
use crate::text::{starts_with, str_starts_with};

verus! {

/// Alerts the socket rule raises for one service: exactly one High alert
/// when any volume string starts with the docker socket path.
pub open spec fn socket_svc_alerts(
    path: Seq<char>,
    m: Map<Seq<char>, int>,
    name: Seq<char>,
    svc: Service,
) -> Seq<AlertV> {
    match svc.volumes {
        Some(ref vols) => {
            if exists|j: int|
                0 <= j < vols@.len() && starts_with(vols@[j]@, "/var/run/docker.sock"@) {
                seq![
                    mk_alert(
                        "Docker Socket being passed into container"@,
                        Severity::High,
                        RuleIdV::Quibble("DOCKER_SOCKET"@),
                        path,
                        lookup(m, "services."@ + name + ".volumes"@),
                    ),
                ]
            } else {
                Seq::empty()
            }
        },
        None => Seq::empty(),
    }
}

/// Socket alerts of the services, in order.
pub open spec fn socket_alerts(
    path: Seq<char>,
    m: Map<Seq<char>, int>,
    svcs: Seq<(String, Service)>,
) -> Seq<AlertV>
    decreases svcs.len(),
{
    if svcs.len() == 0 {
        Seq::empty()
    } else {
        socket_alerts(path, m, svcs.drop_last()) + socket_svc_alerts(
            path,
            m,
            svcs.last().0@,
            svcs.last().1,
        )
    }
}

/// Docker Socket Rule.
pub fn docker_socket(_config: &Config, compose_file: &ComposeFile) -> (alerts: Vec<Alert>)
    requires
        compose_file.mappings.wf(),
    ensures
        alerts.deep_view() == socket_alerts(
            compose_file.path@,
            compose_file.mappings@,
            compose_file.compose.services@,
        ),
{
    let ghost pathv = compose_file.path@;
    let ghost m = compose_file.mappings@;
    let services = &compose_file.compose.services;
    let n = services.len();
    let mut alerts: Vec<Alert> = Vec::new();
    let mut i: usize = 0;
    proof {
        assert(services@.take(0) =~= Seq::<(String, Service)>::empty());
        assert(alerts.deep_view() =~= Seq::<AlertV>::empty());
    }
    while i < n
        invariant
            n == services@.len(),
            0 <= i <= n,
            compose_file.mappings.wf(),
            compose_file.mappings@ == m,
            compose_file.path@ == pathv,
            services == &compose_file.compose.services,
            alerts.deep_view() == socket_alerts(pathv, m, services@.take(i as int)),
        decreases n - i,
    {
        proof {
            assert(services@.take(i + 1).drop_last() =~= services@.take(i as int));
            assert(services@.take(i + 1).last() == services@[i as int]);
        }
        let name = &services[i].0;
        let svc = &services[i].1;
        if let Some(vols) = &svc.volumes {
            let vn = vols.len();
            let mut j: usize = 0;
            let mut found = false;
            while j < vn
                invariant
                    vn == vols@.len(),
                    0 <= j <= vn,
                    found == exists|k: int|
                        0 <= k < j && starts_with(vols@[k]@, "/var/run/docker.sock"@),
                decreases vn - j,
            {
                if str_starts_with(vols[j].as_str(), "/var/run/docker.sock") {
                    found = true;
                }
                j += 1;
            }
            if found {
                let mut key = "services.".to_owned();
                key.append(name.as_str());
                key.append(".volumes");
                let line = compose_file.mappings.get(key.as_str());
                let ghost before = alerts.deep_view();
                alerts.push(
                    Alert {
                        details: "Docker Socket being passed into container".to_owned(),
                        severity: Severity::High,
                        id: RuleID::Quibble("DOCKER_SOCKET".to_owned()),
                        path: AlertLocation { path: compose_file.path.clone(), line },
                    },
                );
                proof {
                    assert(alerts.deep_view() =~= before.push(alerts@.last()@));
                    assert(alerts.deep_view() =~= socket_alerts(
                        pathv,
                        m,
                        services@.take(i + 1),
                    ));
                }
            }
        }
        i += 1;
    }
    proof {
        assert(services@.take(n as int) =~= services@);
    }
    alerts
}

} // verus!
