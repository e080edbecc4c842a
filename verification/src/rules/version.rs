//! Schema version rule.
use vstd::prelude::*;

use crate::compose::{lookup, ComposeFile};
use crate::config::Config;
use crate::security::{mk_alert, Alert, AlertLocation, AlertV, RuleID, RuleIdV, Severity};
use crate::text::str_eq;

verus! {

/// Alerts for the schema version rule: version 1 is Medium, the 2.x family
/// up to 2.4 and the 3.x family up to 3.5 are Low, anything else raises
/// nothing.
pub open spec fn docker_version_alerts(cf: &ComposeFile) -> Seq<AlertV> {
    match cf.compose.version {
        Some(ref v) => {
            let line = lookup(cf.mappings@, "version"@);
            if v@ == "1"@ {
                seq![
                    mk_alert(
                        "Compose v1"@,
                        Severity::Medium,
                        RuleIdV::Quibble("COMPOSE_V1"@),
                        cf.path@,
                        line,
                    ),
                ]
            } else if v@ == "2"@ || v@ == "2.0"@ || v@ == "2.1"@ || v@ == "2.2"@ || v@ == "2.3"@
                || v@ == "2.4"@ {
                seq![
                    mk_alert(
                        "Compose v2 used"@,
                        Severity::Low,
                        RuleIdV::Quibble("COMPOSE_V2"@),
                        cf.path@,
                        line,
                    ),
                ]
            } else if v@ == "3"@ || v@ == "3.0"@ || v@ == "3.1"@ || v@ == "3.2"@ || v@ == "3.3"@
                || v@ == "3.4"@ || v@ == "3.5"@ {
                seq![
                    mk_alert(
                        "Using old Compose v3 spec, consider upgrading"@,
                        Severity::Low,
                        RuleIdV::Quibble("COMPOSE_V3"@),
                        cf.path@,
                        line,
                    ),
                ]
            } else {
                Seq::empty()
            }
        },
        None => Seq::empty(),
    }
}

/// Check which compose spec version is being used.
pub fn docker_version(_config: &Config, compose_file: &ComposeFile) -> (alerts: Vec<Alert>)
    requires
        compose_file.mappings.wf(),
    ensures
        alerts.deep_view() == docker_version_alerts(compose_file),
{
    let mut alerts: Vec<Alert> = Vec::new();
    proof {
        assert(alerts.deep_view() =~= Seq::<AlertV>::empty());
    }
    if let Some(v) = &compose_file.compose.version {
        let line = compose_file.mappings.get("version");
        let hit: Option<(&str, Severity, &str)> = if str_eq(v.as_str(), "1") {
            Some(("Compose v1", Severity::Medium, "COMPOSE_V1"))
        } else if str_eq(v.as_str(), "2") || str_eq(v.as_str(), "2.0") || str_eq(v.as_str(), "2.1")
            || str_eq(v.as_str(), "2.2") || str_eq(v.as_str(), "2.3") || str_eq(
            v.as_str(),
            "2.4",
        ) {
            Some(("Compose v2 used", Severity::Low, "COMPOSE_V2"))
        } else if str_eq(v.as_str(), "3") || str_eq(v.as_str(), "3.0") || str_eq(v.as_str(), "3.1")
            || str_eq(v.as_str(), "3.2") || str_eq(v.as_str(), "3.3") || str_eq(v.as_str(), "3.4")
            || str_eq(v.as_str(), "3.5") {
            Some(("Using old Compose v3 spec, consider upgrading", Severity::Low, "COMPOSE_V3"))
        } else {
            None
        };
        if let Some((details, severity, code)) = hit {
            let ghost before = alerts.deep_view();
            alerts.push(
                Alert {
                    details: details.to_owned(),
                    severity,
                    id: RuleID::Quibble(code.to_owned()),
                    path: AlertLocation { path: compose_file.path.clone(), line },
                },
            );
            proof {
                assert(alerts.deep_view() =~= before.push(alerts@.last()@));
                assert(alerts.deep_view() =~= docker_version_alerts(compose_file));
            }
        }
    }
    alerts
}

} // verus!
