//! Environment variable rules: debug toggles and hardcoded secrets.
use vstd::prelude::*;

use crate::compose::{lookup, ComposeFile};
use crate::compose::spec::{ListOrHashMap, Service, StringOrNumber};
use crate::config::Config;
use crate::security::{mk_alert, Alert, AlertLocation, AlertV, RuleID, RuleIdV, Severity};
use crate::text::{
    contains_seq, first_index, lemma_first_index, str_contains, str_find,
};

verus! {

/// Alerts raised for one environment variable: a key mentioning `DEBUG` is
/// Medium, one mentioning `PASSWORD`, `KEY` or `TOKEN` is Low; both can
/// fire.
pub open spec fn check_env_alerts(
    path: Seq<char>,
    m: Map<Seq<char>, int>,
    name: Seq<char>,
    key: Seq<char>,
) -> Seq<AlertV> {
    let line = lookup(m, "services."@ + name + ".environment."@ + key);
    (if contains_seq(key, "DEBUG"@) {
        seq![
            mk_alert(
                "Debugging enabled in the container"@,
                Severity::Medium,
                RuleIdV::Cwe("1244"@),
                path,
                line,
            ),
        ]
    } else {
        Seq::empty()
    }) + (if contains_seq(key, "PASSWORD"@) || contains_seq(key, "KEY"@) || contains_seq(
        key,
        "TOKEN"@,
    ) {
        seq![
            mk_alert(
                "Possible Hardcoded password"@,
                Severity::Low,
                RuleIdV::Cwe("215"@),
                path,
                line,
            ),
        ]
    } else {
        Seq::empty()
    })
}

/// Alerts of a list-shaped `environment` field: string entries of the form
/// `key=value` are inspected.
pub open spec fn env_list_alerts(
    path: Seq<char>,
    m: Map<Seq<char>, int>,
    name: Seq<char>,
    items: Seq<StringOrNumber>,
) -> Seq<AlertV>
    decreases items.len(),
{
    if items.len() == 0 {
        Seq::empty()
    } else {
        env_list_alerts(path, m, name, items.drop_last()) + match items.last() {
            StringOrNumber::Str(s) => {
                if first_index(s@, '=') >= 0 {
                    check_env_alerts(path, m, name, s@.take(first_index(s@, '=')))
                } else {
                    Seq::empty()
                }
            },
            _ => Seq::empty(),
        }
    }
}

/// Alerts of a mapping-shaped `environment` field: every key is inspected,
/// whatever shape its value takes.
pub open spec fn env_hash_alerts(
    path: Seq<char>,
    m: Map<Seq<char>, int>,
    name: Seq<char>,
    items: Seq<(String, StringOrNumber)>,
) -> Seq<AlertV>
    decreases items.len(),
{
    if items.len() == 0 {
        Seq::empty()
    } else {
        env_hash_alerts(path, m, name, items.drop_last()) + check_env_alerts(
            path,
            m,
            name,
            items.last().0@,
        )
    }
}

/// Environment alerts of one service.
pub open spec fn environment_svc_alerts(
    path: Seq<char>,
    m: Map<Seq<char>, int>,
    name: Seq<char>,
    svc: Service,
) -> Seq<AlertV> {
    match svc.environment {
        Some(ListOrHashMap::List(ref v)) => env_list_alerts(path, m, name, v@),
        Some(ListOrHashMap::Hash(ref h)) => env_hash_alerts(path, m, name, h@),
        None => Seq::empty(),
    }
}

/// Environment alerts of the services, in order.
pub open spec fn environment_alerts(
    path: Seq<char>,
    m: Map<Seq<char>, int>,
    svcs: Seq<(String, Service)>,
) -> Seq<AlertV>
    decreases svcs.len(),
{
    if svcs.len() == 0 {
        Seq::empty()
    } else {
        environment_alerts(path, m, svcs.drop_last()) + environment_svc_alerts(
            path,
            m,
            svcs.last().0@,
            svcs.last().1,
        )
    }
}

/// Check one environment variable for sensitive information. The value does
/// not take part in the decision; only the key does.
pub fn check_environment(
    compose_file: &ComposeFile,
    service_name: &String,
    key: String,
    _value: String,
) -> (alerts: Vec<Alert>)
    requires
        compose_file.mappings.wf(),
    ensures
        alerts.deep_view() == check_env_alerts(
            compose_file.path@,
            compose_file.mappings@,
            service_name@,
            key@,
        ),
{
    let mut alerts: Vec<Alert> = Vec::new();
    proof {
        assert(alerts.deep_view() =~= Seq::<AlertV>::empty());
    }
    let mut mkey = "services.".to_owned();
    mkey.append(service_name.as_str());
    mkey.append(".environment.");
    mkey.append(key.as_str());
    let line = compose_file.mappings.get(mkey.as_str());
    if str_contains(key.as_str(), "DEBUG") {
        let line2 = match line {
            Some(l) => Some(l),
            None => None,
        };
        let ghost before = alerts.deep_view();
        alerts.push(
            Alert {
                details: "Debugging enabled in the container".to_owned(),
                severity: Severity::Medium,
                id: RuleID::Cwe("1244".to_owned()),
                path: AlertLocation { path: compose_file.path.clone(), line: line2 },
            },
        );
        proof {
            assert(alerts.deep_view() =~= before.push(alerts@.last()@));
        }
    }
    if str_contains(key.as_str(), "PASSWORD") || str_contains(key.as_str(), "KEY")
        || str_contains(key.as_str(), "TOKEN") {
        let line2 = match line {
            Some(l) => Some(l),
            None => None,
        };
        let ghost before = alerts.deep_view();
        alerts.push(
            Alert {
                details: "Possible Hardcoded password".to_owned(),
                severity: Severity::Low,
                id: RuleID::Cwe("215".to_owned()),
                path: AlertLocation { path: compose_file.path.clone(), line: line2 },
            },
        );
        proof {
            assert(alerts.deep_view() =~= before.push(alerts@.last()@));
        }
    }
    proof {
        assert(alerts.deep_view() =~= check_env_alerts(
            compose_file.path@,
            compose_file.mappings@,
            service_name@,
            key@,
        ));
    }
    alerts
}

/// Environment Variable rules.
pub fn environment_variables(_config: &Config, compose_file: &ComposeFile) -> (alerts: Vec<
    Alert,
>)
    requires
        compose_file.mappings.wf(),
    ensures
        alerts.deep_view() == environment_alerts(
            compose_file.path@,
            compose_file.mappings@,
            compose_file.compose.services@,
        ),
{
    let ghost pathv = compose_file.path@;
    let ghost m = compose_file.mappings@;
    let services = &compose_file.compose.services;
    let n = services.len();
    let mut alerts: Vec<Alert> = Vec::new();
    let mut i: usize = 0;
    proof {
        assert(services@.take(0) =~= Seq::<(String, Service)>::empty());
        assert(alerts.deep_view() =~= Seq::<AlertV>::empty());
    }
    while i < n
        invariant
            n == services@.len(),
            0 <= i <= n,
            compose_file.mappings.wf(),
            compose_file.mappings@ == m,
            compose_file.path@ == pathv,
            services == &compose_file.compose.services,
            alerts.deep_view() == environment_alerts(pathv, m, services@.take(i as int)),
        decreases n - i,
    {
        proof {
            assert(services@.take(i + 1).drop_last() =~= services@.take(i as int));
            assert(services@.take(i + 1).last() == services@[i as int]);
        }
        let name = &services[i].0;
        let svc = &services[i].1;
        let ghost done = alerts.deep_view();
        if let Some(envvars) = &svc.environment {
            match envvars {
                ListOrHashMap::List(v) => {
                    let vn = v.len();
                    let mut j: usize = 0;
                    proof {
                        assert(v@.take(0) =~= Seq::<StringOrNumber>::empty());
                        assert(alerts.deep_view() =~= done + env_list_alerts(
                            pathv,
                            m,
                            name@,
                            v@.take(0),
                        ));
                    }
                    while j < vn
                        invariant
                            vn == v@.len(),
                            0 <= j <= vn,
                            compose_file.mappings.wf(),
                            compose_file.mappings@ == m,
                            compose_file.path@ == pathv,
                            alerts.deep_view() == done + env_list_alerts(
                                pathv,
                                m,
                                name@,
                                v@.take(j as int),
                            ),
                        decreases vn - j,
                    {
                        proof {
                            assert(v@.take(j + 1).drop_last() =~= v@.take(j as int));
                            assert(v@.take(j + 1).last() == v@[j as int]);
                        }
                        if let StringOrNumber::Str(s) = &v[j] {
                            if let Some(ei) = str_find(s.as_str(), '=') {
                                proof {
                                    lemma_first_index(s@, '=');
                                }
                                let slen = s.unicode_len();
                                let k = s.as_str().substring_char(0, ei).to_owned();
                                let value = s.as_str().substring_char(ei + 1, slen).to_owned();
                                proof {
                                    assert(k@ =~= s@.take(first_index(s@, '=')));
                                }
                                let mut sub = check_environment(compose_file, name, k, value);
                                let ghost subv = sub.deep_view();
                                let ghost before = alerts.deep_view();
                                alerts.append(&mut sub);
                                proof {
                                    assert(alerts.deep_view() =~= before + subv);
                                }
                            }
                        }
                        proof {
                            assert(alerts.deep_view() =~= done + env_list_alerts(
                                pathv,
                                m,
                                name@,
                                v@.take(j + 1),
                            ));
                        }
                        j += 1;
                    }
                    proof {
                        assert(v@.take(vn as int) =~= v@);
                    }
                },
                ListOrHashMap::Hash(h) => {
                    let hn = h.len();
                    let mut j: usize = 0;
                    proof {
                        assert(h@.take(0) =~= Seq::<(String, StringOrNumber)>::empty());
                        assert(alerts.deep_view() =~= done + env_hash_alerts(
                            pathv,
                            m,
                            name@,
                            h@.take(0),
                        ));
                    }
                    while j < hn
                        invariant
                            hn == h@.len(),
                            0 <= j <= hn,
                            compose_file.mappings.wf(),
                            compose_file.mappings@ == m,
                            compose_file.path@ == pathv,
                            alerts.deep_view() == done + env_hash_alerts(
                                pathv,
                                m,
                                name@,
                                h@.take(j as int),
                            ),
                        decreases hn - j,
                    {
                        proof {
                            assert(h@.take(j + 1).drop_last() =~= h@.take(j as int));
                            assert(h@.take(j + 1).last() == h@[j as int]);
                        }
                        let k = h[j].0.clone();
                        let value = match &h[j].1 {
                            StringOrNumber::Str(v) => v.clone(),
                            _ => String::new(),
                        };
                        let mut sub = check_environment(compose_file, name, k, value);
                        let ghost subv = sub.deep_view();
                        let ghost before = alerts.deep_view();
                        alerts.append(&mut sub);
                        proof {
                            assert(alerts.deep_view() =~= before + subv);
                        }
                        proof {
                            assert(alerts.deep_view() =~= done + env_hash_alerts(
                                pathv,
                                m,
                                name@,
                                h@.take(j + 1),
                            ));
                        }
                        j += 1;
                    }
                    proof {
                        assert(h@.take(hn as int) =~= h@);
                    }
                },
            }
        }
        proof {
            assert(alerts.deep_view() =~= environment_alerts(
                pathv,
                m,
                services@.take(i + 1),
            ));
        }
        i += 1;
    }
    proof {
        assert(services@.take(n as int) =~= services@);
    }
    alerts
}

} // verus!
