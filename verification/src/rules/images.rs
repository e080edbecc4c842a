//! Container image rules: build contexts, interpolated references, parsed
//! references, and rolling tags.
use vstd::prelude::*;

use crate::compose::{lookup, ComposeFile};
use crate::compose::spec::{Service, StringOrBuild};
use crate::config::Config;
use crate::containers::{image_parse, image_parse_ok, image_render};
use crate::security::{mk_alert, Alert, AlertLocation, AlertV, RuleID, RuleIdV, Severity};
use crate::text::{contains_seq, str_contains, str_eq};

verus! {

/// The context a `build` field names: the string form is the context
/// itself, the object form its `context` entry, defaulting to the current
/// directory when the entry is absent.
pub open spec fn build_context_of(b: StringOrBuild) -> Seq<char> {
    match b {
        StringOrBuild::Str(ref context) => context@,
        StringOrBuild::Build(ref b) => match b.context {
            Some(ref context) => context@,
            None => "."@,
        },
    }
}

/// Alert raised when a service builds its image, in string or object form:
/// the build context path is reported as Information.
pub open spec fn build_part_alerts(
    path: Seq<char>,
    m: Map<Seq<char>, int>,
    name: Seq<char>,
    svc: Service,
) -> Seq<AlertV> {
    match svc.build {
        Some(ref b) => seq![
            mk_alert(
                "Build context path: "@ + build_context_of(*b),
                Severity::Information,
                RuleIdV::Quibble("BUILD_CONTEXT"@),
                path,
                lookup(m, "services."@ + name + ".build"@),
            ),
        ],
        None => Seq::empty(),
    }
}

/// Alerts raised for a service's image reference: an interpolated reference
/// or a parsed one is reported as Information, and a rolling tag (latest,
/// main or master) additionally as Medium.
pub open spec fn image_part_alerts(
    path: Seq<char>,
    m: Map<Seq<char>, int>,
    name: Seq<char>,
    svc: Service,
) -> Seq<AlertV> {
    match svc.image {
        Some(ref image) => {
            let line = lookup(m, "services."@ + name + ".image"@);
            if contains_seq(image@, "${"@) {
                seq![
                    mk_alert(
                        "Container Image using Environment Variable: "@ + image@,
                        Severity::Information,
                        RuleIdV::Quibble("IMAGE_ENV_VAR"@),
                        path,
                        line,
                    ),
                ]
            } else if image_parse_ok(image@) {
                let c = image_parse(image@);
                seq![
                    mk_alert(
                        "Container Image: "@ + image_render(c),
                        Severity::Information,
                        RuleIdV::Quibble("IMAGE_TAG"@),
                        path,
                        line,
                    ),
                ] + if c.tag == "latest"@ || c.tag == "main"@ || c.tag == "master"@ {
                    seq![
                        mk_alert(
                            "Container using rolling release tag: `"@ + c.tag + "`"@,
                            Severity::Medium,
                            RuleIdV::Quibble("IMAGE_TAG_LATEST"@),
                            path,
                            line,
                        ),
                    ]
                } else {
                    Seq::empty()
                }
            } else {
                Seq::empty()
            }
        },
        None => Seq::empty(),
    }
}

/// Image alerts of one service: the build part, then the image part.
pub open spec fn images_svc_alerts(
    path: Seq<char>,
    m: Map<Seq<char>, int>,
    name: Seq<char>,
    svc: Service,
) -> Seq<AlertV> {
    build_part_alerts(path, m, name, svc) + image_part_alerts(path, m, name, svc)
}

/// Image alerts of the services, in order.
pub open spec fn images_alerts(
    path: Seq<char>,
    m: Map<Seq<char>, int>,
    svcs: Seq<(String, Service)>,
) -> Seq<AlertV>
    decreases svcs.len(),
{
    if svcs.len() == 0 {
        Seq::empty()
    } else {
        images_alerts(path, m, svcs.drop_last()) + images_svc_alerts(
            path,
            m,
            svcs.last().0@,
            svcs.last().1,
        )
    }
}

/// Container Images rule.
pub fn container_images(_config: &Config, compose_file: &ComposeFile) -> (alerts: Vec<Alert>)
    requires
        compose_file.mappings.wf(),
    ensures
        alerts.deep_view() == images_alerts(
            compose_file.path@,
            compose_file.mappings@,
            compose_file.compose.services@,
        ),
{
    let ghost pathv = compose_file.path@;
    let ghost m = compose_file.mappings@;
    let services = &compose_file.compose.services;
    let n = services.len();
    let mut alerts: Vec<Alert> = Vec::new();
    let mut i: usize = 0;
    proof {
        assert(services@.take(0) =~= Seq::<(String, Service)>::empty());
        assert(alerts.deep_view() =~= Seq::<AlertV>::empty());
    }
    while i < n
        invariant
            n == services@.len(),
            0 <= i <= n,
            compose_file.mappings.wf(),
            compose_file.mappings@ == m,
            compose_file.path@ == pathv,
            services == &compose_file.compose.services,
            alerts.deep_view() == images_alerts(pathv, m, services@.take(i as int)),
        decreases n - i,
    {
        proof {
            assert(services@.take(i + 1).drop_last() =~= services@.take(i as int));
            assert(services@.take(i + 1).last() == services@[i as int]);
        }
        let name = &services[i].0;
        let svc = &services[i].1;
        let ghost done = alerts.deep_view();
        if let Some(build_enum) = &svc.build {
            let mut key = "services.".to_owned();
            key.append(name.as_str());
            key.append(".build");
            let line = compose_file.mappings.get(key.as_str());
            let mut details = "Build context path: ".to_owned();
            match build_enum {
                StringOrBuild::Str(c) => details.append(c.as_str()),
                StringOrBuild::Build(b) => {
                    match &b.context {
                        Some(c) => details.append(c.as_str()),
                        None => details.append("."),
                    }
                },
            };
            let ghost before = alerts.deep_view();
            alerts.push(
                Alert {
                    details,
                    severity: Severity::Information,
                    id: RuleID::Quibble("BUILD_CONTEXT".to_owned()),
                    path: AlertLocation { path: compose_file.path.clone(), line },
                },
            );
            proof {
                assert(alerts.deep_view() =~= before.push(alerts@.last()@));
            }
        }
        proof {
            assert(alerts.deep_view() =~= done + build_part_alerts(pathv, m, name@, *svc));
        }
        let ghost done2 = alerts.deep_view();
        if let Some(image) = &svc.image {
            let mut key = "services.".to_owned();
            key.append(name.as_str());
            key.append(".image");
            let line = compose_file.mappings.get(key.as_str());
            if str_contains(image.as_str(), "${") {
                let mut details = "Container Image using Environment Variable: ".to_owned();
                details.append(image.as_str());
                let ghost before = alerts.deep_view();
                alerts.push(
                    Alert {
                        details,
                        severity: Severity::Information,
                        id: RuleID::Quibble("IMAGE_ENV_VAR".to_owned()),
                        path: AlertLocation { path: compose_file.path.clone(), line },
                    },
                );
                proof {
                    assert(alerts.deep_view() =~= before.push(alerts@.last()@));
                }
            } else if let Ok(container) = svc.parse_image() {
                let mut details = "Container Image: ".to_owned();
                details.append(container.instance.as_str());
                details.append("/");
                details.append(container.namespace.as_str());
                details.append("/");
                details.append(container.name.as_str());
                details.append(":");
                details.append(container.tag.as_str());
                proof {
                    assert(details@ =~= "Container Image: "@ + image_render(image_parse(image@)));
                }
                let line2 = match line {
                    Some(l) => Some(l),
                    None => None,
                };
                let ghost before = alerts.deep_view();
                alerts.push(
                    Alert {
                        details,
                        severity: Severity::Information,
                        id: RuleID::Quibble("IMAGE_TAG".to_owned()),
                        path: AlertLocation { path: compose_file.path.clone(), line: line2 },
                    },
                );
                proof {
                    assert(alerts.deep_view() =~= before.push(alerts@.last()@));
                }
                if str_eq(container.tag.as_str(), "latest") || str_eq(
                    container.tag.as_str(),
                    "main",
                ) || str_eq(container.tag.as_str(), "master") {
                    let mut details2 = "Container using rolling release tag: `".to_owned();
                    details2.append(container.tag.as_str());
                    details2.append("`");
                    let line3 = match line {
                        Some(l) => Some(l),
                        None => None,
                    };
                    let ghost before2 = alerts.deep_view();
                    alerts.push(
                        Alert {
                            details: details2,
                            severity: Severity::Medium,
                            id: RuleID::Quibble("IMAGE_TAG_LATEST".to_owned()),
                            path: AlertLocation {
                                path: compose_file.path.clone(),
                                line: line3,
                            },
                        },
                    );
                    proof {
                        assert(alerts.deep_view() =~= before2.push(alerts@.last()@));
                    }
                }
            }
        }
        proof {
            assert(alerts.deep_view() =~= done2 + image_part_alerts(pathv, m, name@, *svc));
            assert(alerts.deep_view() =~= images_alerts(pathv, m, services@.take(i + 1)));
        }
        i += 1;
    }
    proof {
        assert(services@.take(n as int) =~= services@);
    }
    alerts
}

} // verus!
