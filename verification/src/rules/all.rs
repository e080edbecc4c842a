//! Privileged-container, security-options and kernel/capability rules.
use vstd::prelude::*;

use crate::compose::{lookup, ComposeFile};
use crate::compose::spec::{service_display, ListOrHashMap, Service, StringOrNumber};
use crate::config::Config;
use crate::security::{mk_alert, Alert, AlertLocation, AlertV, RuleID, RuleIdV, Severity};
use crate::text::{contains_seq, starts_with, ends_with, str_contains, str_starts_with, str_ends_with};

verus! {

/// Alerts the privileged rule raises for one service: one High alert when
/// the service asks to run privileged.
pub open spec fn privileged_svc_alerts(path: Seq<char>, svc: Service) -> Seq<AlertV> {
    if svc.privileged == Some(true) {
        seq![
            mk_alert(
                "Container privilege enabled"@,
                Severity::High,
                RuleIdV::Quibble("PRIVILEGED_CONTAINER"@),
                path,
                None,
            ),
        ]
    } else {
        Seq::empty()
    }
}

/// Privileged alerts of the services, in order.
pub open spec fn privileged_alerts(path: Seq<char>, svcs: Seq<(String, Service)>) -> Seq<AlertV>
    decreases svcs.len(),
{
    if svcs.len() == 0 {
        Seq::empty()
    } else {
        privileged_alerts(path, svcs.drop_last()) + privileged_svc_alerts(path, svcs.last().1)
    }
}

/// Privileged container rule.
pub fn privileged(_config: &Config, compose_file: &ComposeFile) -> (alerts: Vec<Alert>)
    ensures
        alerts.deep_view() == privileged_alerts(
            compose_file.path@,
            compose_file.compose.services@,
        ),
{
    let ghost pathv = compose_file.path@;
    let services = &compose_file.compose.services;
    let n = services.len();
    let mut alerts: Vec<Alert> = Vec::new();
    let mut i: usize = 0;
    proof {
        assert(services@.take(0) =~= Seq::<(String, Service)>::empty());
        assert(alerts.deep_view() =~= Seq::<AlertV>::empty());
    }
    while i < n
        invariant
            n == services@.len(),
            0 <= i <= n,
            compose_file.path@ == pathv,
            services == &compose_file.compose.services,
            alerts.deep_view() == privileged_alerts(pathv, services@.take(i as int)),
        decreases n - i,
    {
        proof {
            assert(services@.take(i + 1).drop_last() =~= services@.take(i as int));
            assert(services@.take(i + 1).last() == services@[i as int]);
        }
        let svc = &services[i].1;
        let is_priv = match svc.privileged {
            Some(p) => p,
            None => false,
        };
        if is_priv {
            let ghost before = alerts.deep_view();
            alerts.push(
                Alert {
                    details: "Container privilege enabled".to_owned(),
                    severity: Severity::High,
                    id: RuleID::Quibble("PRIVILEGED_CONTAINER".to_owned()),
                    path: AlertLocation { path: compose_file.path.clone(), line: None },
                },
            );
            proof {
                assert(alerts.deep_view() =~= before.push(alerts@.last()@));
                assert(alerts.deep_view() =~= privileged_alerts(pathv, services@.take(i + 1)));
            }
        }
        i += 1;
    }
    proof {
        assert(services@.take(n as int) =~= services@);
    }
    alerts
}

/// Alert raised for one security option entry: weak when it starts with
/// `no-new-privileges` and ends with `false`.
pub open spec fn secopt_item_alerts(
    path: Seq<char>,
    m: Map<Seq<char>, int>,
    name: Seq<char>,
    disp: Seq<char>,
    opt: Seq<char>,
) -> Seq<AlertV> {
    if starts_with(opt, "no-new-privileges"@) && ends_with(opt, "false"@) {
        seq![
            mk_alert(
                "Security Opts `no-new-privileges` set to `false` for '"@ + disp + "'"@,
                Severity::High,
                RuleIdV::Quibble("SECURITY_OPTS"@),
                path,
                lookup(m, "services."@ + name + ".security_opt"@),
            ),
        ]
    } else {
        Seq::empty()
    }
}

/// Alerts of a service's security option entries, in order.
pub open spec fn secopt_item_list(
    path: Seq<char>,
    m: Map<Seq<char>, int>,
    name: Seq<char>,
    disp: Seq<char>,
    opts: Seq<String>,
) -> Seq<AlertV>
    decreases opts.len(),
{
    if opts.len() == 0 {
        Seq::empty()
    } else {
        secopt_item_list(path, m, name, disp, opts.drop_last()) + secopt_item_alerts(
            path,
            m,
            name,
            disp,
            opts.last()@,
        )
    }
}

/// Alerts the security-options rule raises for one service: one High alert
/// per weak entry, or a single High alert when the field is absent.
pub open spec fn security_opts_svc_alerts(
    path: Seq<char>,
    m: Map<Seq<char>, int>,
    name: Seq<char>,
    svc: Service,
) -> Seq<AlertV> {
    match svc.security_opt {
        Some(ref opts) => secopt_item_list(path, m, name, service_display(&svc), opts@),
        None => seq![
            mk_alert(
                "Security Opts `no-new-privileges` not set for '"@ + service_display(&svc)
                    + "'"@,
                Severity::High,
                RuleIdV::Quibble("SECURITY_OPTS"@),
                path,
                lookup(m, "services."@ + name),
            ),
        ],
    }
}

/// Security-options alerts of the services, in order.
pub open spec fn security_opts_alerts(
    path: Seq<char>,
    m: Map<Seq<char>, int>,
    svcs: Seq<(String, Service)>,
) -> Seq<AlertV>
    decreases svcs.len(),
{
    if svcs.len() == 0 {
        Seq::empty()
    } else {
        security_opts_alerts(path, m, svcs.drop_last()) + security_opts_svc_alerts(
            path,
            m,
            svcs.last().0@,
            svcs.last().1,
        )
    }
}

/// Security Opts Rule.
pub fn security_opts(_config: &Config, compose_file: &ComposeFile) -> (alerts: Vec<Alert>)
    requires
        compose_file.mappings.wf(),
    ensures
        alerts.deep_view() == security_opts_alerts(
            compose_file.path@,
            compose_file.mappings@,
            compose_file.compose.services@,
        ),
{
    let ghost pathv = compose_file.path@;
    let ghost m = compose_file.mappings@;
    let services = &compose_file.compose.services;
    let n = services.len();
    let mut alerts: Vec<Alert> = Vec::new();
    let mut i: usize = 0;
    proof {
        assert(services@.take(0) =~= Seq::<(String, Service)>::empty());
        assert(alerts.deep_view() =~= Seq::<AlertV>::empty());
    }
    while i < n
        invariant
            n == services@.len(),
            0 <= i <= n,
            compose_file.mappings.wf(),
            compose_file.mappings@ == m,
            compose_file.path@ == pathv,
            services == &compose_file.compose.services,
            alerts.deep_view() == security_opts_alerts(pathv, m, services@.take(i as int)),
        decreases n - i,
    {
        proof {
            assert(services@.take(i + 1).drop_last() =~= services@.take(i as int));
            assert(services@.take(i + 1).last() == services@[i as int]);
        }
        let name = &services[i].0;
        let svc = &services[i].1;
        let disp = svc.display_name();
        match &svc.security_opt {
            Some(opts) => {
                let mut key = "services.".to_owned();
                key.append(name.as_str());
                key.append(".security_opt");
                let line = compose_file.mappings.get(key.as_str());
                let on = opts.len();
                let mut j: usize = 0;
                proof {
                    assert(opts@.take(0) =~= Seq::<String>::empty());
                }
                while j < on
                    invariant
                        on == opts@.len(),
                        0 <= j <= on,
                        compose_file.mappings.wf(),
                        compose_file.mappings@ == m,
                        compose_file.path@ == pathv,
                        svc.security_opt == Some(*opts),
                        disp@ == service_display(svc),
                        match line {
                            Some(l) => lookup(m, "services."@ + name@ + ".security_opt"@)
                                == Some(l as int),
                            None => lookup(m, "services."@ + name@ + ".security_opt"@)
                                is None,
                        },
                        alerts.deep_view() == security_opts_alerts(
                            pathv,
                            m,
                            services@.take(i as int),
                        ) + secopt_item_list(pathv, m, name@, disp@, opts@.take(j as int)),
                    decreases on - j,
                {
                    proof {
                        assert(opts@.take(j + 1).drop_last() =~= opts@.take(j as int));
                        assert(opts@.take(j + 1).last() == opts@[j as int]);
                    }
                    let opt = &opts[j];
                    if str_starts_with(opt.as_str(), "no-new-privileges") && str_ends_with(
                        opt.as_str(),
                        "false",
                    ) {
                        let mut details =
                            "Security Opts `no-new-privileges` set to `false` for '".to_owned();
                        details.append(disp.as_str());
                        details.append("'");
                        let line2 = match line {
                            Some(l) => Some(l),
                            None => None,
                        };
                        let ghost before = alerts.deep_view();
                        alerts.push(
                            Alert {
                                details,
                                severity: Severity::High,
                                id: RuleID::Quibble("SECURITY_OPTS".to_owned()),
                                path: AlertLocation {
                                    path: compose_file.path.clone(),
                                    line: line2,
                                },
                            },
                        );
                        proof {
                            assert(alerts.deep_view() =~= before.push(alerts@.last()@));
                            assert(alerts.deep_view() =~= security_opts_alerts(
                                pathv,
                                m,
                                services@.take(i as int),
                            ) + secopt_item_list(pathv, m, name@, disp@, opts@.take(j + 1)));
                        }
                    }
                    j += 1;
                }
                proof {
                    assert(opts@.take(on as int) =~= opts@);
                    assert(alerts.deep_view() =~= security_opts_alerts(
                        pathv,
                        m,
                        services@.take(i + 1),
                    ));
                }
            },
            None => {
                let mut key = "services.".to_owned();
                key.append(name.as_str());
                let line = compose_file.mappings.get(key.as_str());
                let mut details = "Security Opts `no-new-privileges` not set for '".to_owned();
                details.append(disp.as_str());
                details.append("'");
                let ghost before = alerts.deep_view();
                alerts.push(
                    Alert {
                        details,
                        severity: Severity::High,
                        id: RuleID::Quibble("SECURITY_OPTS".to_owned()),
                        path: AlertLocation { path: compose_file.path.clone(), line },
                    },
                );
                proof {
                    assert(alerts.deep_view() =~= before.push(alerts@.last()@));
                    assert(alerts.deep_view() =~= security_opts_alerts(
                        pathv,
                        m,
                        services@.take(i + 1),
                    ));
                }
            },
        }
        i += 1;
    }
    proof {
        assert(services@.take(n as int) =~= services@);
    }
    alerts
}

/// A note raised when a service enables extra syscalls or capabilities at
/// all: it points at the manifest, with no line.
pub open spec fn kernel_note(path: Seq<char>, details: Seq<char>) -> AlertV {
    mk_alert(
        details,
        Severity::Information,
        RuleIdV::Quibble("KERNEL_PARAMETERS"@),
        path,
        None,
    )
}

/// Alert raised for one sysctl entry: only the `net.ipv4.conf.all` family
/// is reported.
pub open spec fn sysctl_item_alerts(path: Seq<char>, s: Seq<char>) -> Seq<AlertV> {
    if starts_with(s, "net.ipv4.conf.all"@) {
        seq![
            mk_alert(
                "IPv4 Kernal Parameters modified: "@ + s,
                Severity::Information,
                RuleIdV::Quibble("KERNEL_PARAMETERS"@),
                path,
                None,
            ),
        ]
    } else {
        Seq::empty()
    }
}

/// Sysctl alerts of a list-shaped `sysctls` field: only string entries are
/// inspected.
pub open spec fn sysctl_list_alerts(path: Seq<char>, items: Seq<StringOrNumber>) -> Seq<AlertV>
    decreases items.len(),
{
    if items.len() == 0 {
        Seq::empty()
    } else {
        sysctl_list_alerts(path, items.drop_last()) + match items.last() {
            StringOrNumber::Str(s) => sysctl_item_alerts(path, s@),
            _ => Seq::empty(),
        }
    }
}

/// Sysctl alerts of a mapping-shaped `sysctls` field: the keys are
/// inspected.
pub open spec fn sysctl_hash_alerts(
    path: Seq<char>,
    items: Seq<(String, StringOrNumber)>,
) -> Seq<AlertV>
    decreases items.len(),
{
    if items.len() == 0 {
        Seq::empty()
    } else {
        sysctl_hash_alerts(path, items.drop_last()) + sysctl_item_alerts(
            path,
            items.last().0@,
        )
    }
}

/// Alerts raised for one added capability: `NET_ADMIN` and `SYS_ADMIN` are
/// Medium, `ALL` is High.
pub open spec fn cap_item_alerts(path: Seq<char>, cap: Seq<char>) -> Seq<AlertV> {
    (if contains_seq(cap, "NET_ADMIN"@) {
        seq![
            mk_alert(
                "Container with high networking privileages"@,
                Severity::Medium,
                RuleIdV::Quibble("NET_ADMIN"@),
                path,
                None,
            ),
        ]
    } else {
        Seq::empty()
    }) + (if contains_seq(cap, "SYS_ADMIN"@) {
        seq![
            mk_alert(
                "Container with high system privileages"@,
                Severity::Medium,
                RuleIdV::Quibble("SYS_ADMIN"@),
                path,
                None,
            ),
        ]
    } else {
        Seq::empty()
    }) + (if contains_seq(cap, "ALL"@) {
        seq![
            mk_alert(
                "All capabilities are enabled"@,
                Severity::High,
                RuleIdV::Quibble("ALL"@),
                path,
                None,
            ),
        ]
    } else {
        Seq::empty()
    })
}

/// Capability alerts of the `cap_add` entries, in order.
pub open spec fn cap_item_list(path: Seq<char>, caps: Seq<String>) -> Seq<AlertV>
    decreases caps.len(),
{
    if caps.len() == 0 {
        Seq::empty()
    } else {
        cap_item_list(path, caps.drop_last()) + cap_item_alerts(path, caps.last()@)
    }
}

/// Alerts the kernel/capability rule raises for one service: the sysctl
/// part, then the capability part.
pub open spec fn kernel_svc_alerts(path: Seq<char>, svc: Service) -> Seq<AlertV> {
    (match svc.sysctls {
        Some(ListOrHashMap::List(ref v)) => seq![kernel_note(path, "Enabling extra syscalls"@)]
            + sysctl_list_alerts(path, v@),
        Some(ListOrHashMap::Hash(ref h)) => seq![kernel_note(path, "Enabling extra syscalls"@)]
            + sysctl_hash_alerts(path, h@),
        None => Seq::empty(),
    }) + (match svc.cap_add {
        Some(ref caps) => seq![kernel_note(path, "Using extra Kernel Parameters"@)]
            + cap_item_list(path, caps@),
        None => Seq::empty(),
    })
}

/// Kernel/capability alerts of the services, in order.
pub open spec fn kernel_alerts(path: Seq<char>, svcs: Seq<(String, Service)>) -> Seq<AlertV>
    decreases svcs.len(),
{
    if svcs.len() == 0 {
        Seq::empty()
    } else {
        kernel_alerts(path, svcs.drop_last()) + kernel_svc_alerts(path, svcs.last().1)
    }
}

/// Kernel parameters and capabilities rule.
pub fn kernel_parameters(_config: &Config, compose_file: &ComposeFile) -> (alerts: Vec<Alert>)
    ensures
        alerts.deep_view() == kernel_alerts(compose_file.path@, compose_file.compose.services@),
{
    let ghost pathv = compose_file.path@;
    let services = &compose_file.compose.services;
    let n = services.len();
    let mut alerts: Vec<Alert> = Vec::new();
    let mut i: usize = 0;
    proof {
        assert(services@.take(0) =~= Seq::<(String, Service)>::empty());
        assert(alerts.deep_view() =~= Seq::<AlertV>::empty());
    }
    while i < n
        invariant
            n == services@.len(),
            0 <= i <= n,
            compose_file.path@ == pathv,
            services == &compose_file.compose.services,
            alerts.deep_view() == kernel_alerts(pathv, services@.take(i as int)),
        decreases n - i,
    {
        proof {
            assert(services@.take(i + 1).drop_last() =~= services@.take(i as int));
            assert(services@.take(i + 1).last() == services@[i as int]);
        }
        let svc = &services[i].1;
        let ghost done = alerts.deep_view();
        let ghost sys_part = match svc.sysctls {
            Some(ListOrHashMap::List(ref v)) => seq![
                kernel_note(pathv, "Enabling extra syscalls"@),
            ] + sysctl_list_alerts(pathv, v@),
            Some(ListOrHashMap::Hash(ref h)) => seq![
                kernel_note(pathv, "Enabling extra syscalls"@),
            ] + sysctl_hash_alerts(pathv, h@),
            None => Seq::<AlertV>::empty(),
        };
        if let Some(syscalls) = &svc.sysctls {
            let ghost before = alerts.deep_view();
            alerts.push(
                Alert {
                    details: "Enabling extra syscalls".to_owned(),
                    severity: Severity::Information,
                    id: RuleID::Quibble("KERNEL_PARAMETERS".to_owned()),
                    path: AlertLocation { path: compose_file.path.clone(), line: None },
                },
            );
            proof {
                assert(alerts.deep_view() =~= before.push(alerts@.last()@));
            }
            match syscalls {
                ListOrHashMap::List(v) => {
                    let vn = v.len();
                    let mut j: usize = 0;
                    proof {
                        assert(v@.take(0) =~= Seq::<StringOrNumber>::empty());
                        assert(alerts.deep_view() =~= done + seq![
                            kernel_note(pathv, "Enabling extra syscalls"@),
                        ] + sysctl_list_alerts(pathv, v@.take(0)));
                    }
                    while j < vn
                        invariant
                            vn == v@.len(),
                            0 <= j <= vn,
                            compose_file.path@ == pathv,
                            alerts.deep_view() == done + seq![
                                kernel_note(pathv, "Enabling extra syscalls"@),
                            ] + sysctl_list_alerts(pathv, v@.take(j as int)),
                        decreases vn - j,
                    {
                        proof {
                            assert(v@.take(j + 1).drop_last() =~= v@.take(j as int));
                            assert(v@.take(j + 1).last() == v@[j as int]);
                        }
                        if let StringOrNumber::Str(s) = &v[j] {
                            if str_starts_with(s.as_str(), "net.ipv4.conf.all") {
                                let mut details = "IPv4 Kernal Parameters modified: ".to_owned();
                                details.append(s.as_str());
                                let ghost before2 = alerts.deep_view();
                                alerts.push(
                                    Alert {
                                        details,
                                        severity: Severity::Information,
                                        id: RuleID::Quibble("KERNEL_PARAMETERS".to_owned()),
                                        path: AlertLocation {
                                            path: compose_file.path.clone(),
                                            line: None,
                                        },
                                    },
                                );
                                proof {
                                    assert(alerts.deep_view() =~= before2.push(
                                        alerts@.last()@,
                                    ));
                                }
                            }
                        }
                        proof {
                            assert(alerts.deep_view() =~= done + seq![
                                kernel_note(pathv, "Enabling extra syscalls"@),
                            ] + sysctl_list_alerts(pathv, v@.take(j + 1)));
                        }
                        j += 1;
                    }
                    proof {
                        assert(v@.take(vn as int) =~= v@);
                    }
                },
                ListOrHashMap::Hash(h) => {
                    let hn = h.len();
                    let mut j: usize = 0;
                    proof {
                        assert(h@.take(0) =~= Seq::<(String, StringOrNumber)>::empty());
                        assert(alerts.deep_view() =~= done + seq![
                            kernel_note(pathv, "Enabling extra syscalls"@),
                        ] + sysctl_hash_alerts(pathv, h@.take(0)));
                    }
                    while j < hn
                        invariant
                            hn == h@.len(),
                            0 <= j <= hn,
                            compose_file.path@ == pathv,
                            alerts.deep_view() == done + seq![
                                kernel_note(pathv, "Enabling extra syscalls"@),
                            ] + sysctl_hash_alerts(pathv, h@.take(j as int)),
                        decreases hn - j,
                    {
                        proof {
                            assert(h@.take(j + 1).drop_last() =~= h@.take(j as int));
                            assert(h@.take(j + 1).last() == h@[j as int]);
                        }
                        let syscall = &h[j].0;
                        if str_starts_with(syscall.as_str(), "net.ipv4.conf.all") {
                            let mut details = "IPv4 Kernal Parameters modified: ".to_owned();
                            details.append(syscall.as_str());
                            let ghost before2 = alerts.deep_view();
                            alerts.push(
                                Alert {
                                    details,
                                    severity: Severity::Information,
                                    id: RuleID::Quibble("KERNEL_PARAMETERS".to_owned()),
                                    path: AlertLocation {
                                        path: compose_file.path.clone(),
                                        line: None,
                                    },
                                },
                            );
                            proof {
                                assert(alerts.deep_view() =~= before2.push(alerts@.last()@));
                            }
                        }
                        proof {
                            assert(alerts.deep_view() =~= done + seq![
                                kernel_note(pathv, "Enabling extra syscalls"@),
                            ] + sysctl_hash_alerts(pathv, h@.take(j + 1)));
                        }
                        j += 1;
                    }
                    proof {
                        assert(h@.take(hn as int) =~= h@);
                    }
                },
            }
        }
        proof {
            assert(alerts.deep_view() =~= done + sys_part);
        }
        if let Some(capabilities) = &svc.cap_add {
            let ghost before = alerts.deep_view();
            alerts.push(
                Alert {
                    details: "Using extra Kernel Parameters".to_owned(),
                    severity: Severity::Information,
                    id: RuleID::Quibble("KERNEL_PARAMETERS".to_owned()),
                    path: AlertLocation { path: compose_file.path.clone(), line: None },
                },
            );
            proof {
                assert(alerts.deep_view() =~= before.push(alerts@.last()@));
            }
            let cn = capabilities.len();
            let mut j: usize = 0;
            proof {
                assert(capabilities@.take(0) =~= Seq::<String>::empty());
                assert(alerts.deep_view() =~= done + sys_part + seq![
                    kernel_note(pathv, "Using extra Kernel Parameters"@),
                ] + cap_item_list(pathv, capabilities@.take(0)));
            }
            while j < cn
                invariant
                    cn == capabilities@.len(),
                    0 <= j <= cn,
                    compose_file.path@ == pathv,
                    alerts.deep_view() == done + sys_part + seq![
                        kernel_note(pathv, "Using extra Kernel Parameters"@),
                    ] + cap_item_list(pathv, capabilities@.take(j as int)),
                decreases cn - j,
            {
                proof {
                    assert(capabilities@.take(j + 1).drop_last() =~= capabilities@.take(
                        j as int,
                    ));
                    assert(capabilities@.take(j + 1).last() == capabilities@[j as int]);
                }
                let cap = &capabilities[j];
                if str_contains(cap.as_str(), "NET_ADMIN") {
                    let ghost before2 = alerts.deep_view();
                    alerts.push(
                        Alert {
                            details: "Container with high networking privileages".to_owned(),
                            severity: Severity::Medium,
                            id: RuleID::Quibble("NET_ADMIN".to_owned()),
                            path: AlertLocation { path: compose_file.path.clone(), line: None },
                        },
                    );
                    proof {
                        assert(alerts.deep_view() =~= before2.push(alerts@.last()@));
                    }
                }
                if str_contains(cap.as_str(), "SYS_ADMIN") {
                    let ghost before2 = alerts.deep_view();
                    alerts.push(
                        Alert {
                            details: "Container with high system privileages".to_owned(),
                            severity: Severity::Medium,
                            id: RuleID::Quibble("SYS_ADMIN".to_owned()),
                            path: AlertLocation { path: compose_file.path.clone(), line: None },
                        },
                    );
                    proof {
                        assert(alerts.deep_view() =~= before2.push(alerts@.last()@));
                    }
                }
                if str_contains(cap.as_str(), "ALL") {
                    let ghost before2 = alerts.deep_view();
                    alerts.push(
                        Alert {
                            details: "All capabilities are enabled".to_owned(),
                            severity: Severity::High,
                            id: RuleID::Quibble("ALL".to_owned()),
                            path: AlertLocation { path: compose_file.path.clone(), line: None },
                        },
                    );
                    proof {
                        assert(alerts.deep_view() =~= before2.push(alerts@.last()@));
                    }
                }
                proof {
                    assert(alerts.deep_view() =~= done + sys_part + seq![
                        kernel_note(pathv, "Using extra Kernel Parameters"@),
                    ] + cap_item_list(pathv, capabilities@.take(j + 1)));
                }
                j += 1;
            }
            proof {
                assert(capabilities@.take(cn as int) =~= capabilities@);
            }
        }
        proof {
            assert(alerts.deep_view() =~= done + kernel_svc_alerts(
                pathv,
                services@.take(i + 1).last().1,
            ));
            assert(alerts.deep_view() =~= kernel_alerts(pathv, services@.take(i + 1)));
        }
        i += 1;
    }
    proof {
        assert(services@.take(n as int) =~= services@);
    }
    alerts
}

} // verus!
