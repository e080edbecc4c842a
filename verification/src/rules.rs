//! The rule registry: an ordered collection of independent checks, each a
//! pure function from configuration and manifest to a list of alerts. The
//! registry concatenates every rule's findings and sorts them by severity,
//! most severe first.
pub mod all;
pub mod environment;
pub mod images;
pub mod registry;
pub mod socket;
pub mod version;

use vstd::prelude::*;

use crate::compose::ComposeFile;
use crate::config::Config;
use crate::rules::all::{
    kernel_alerts, kernel_parameters, privileged, privileged_alerts, security_opts,
    security_opts_alerts,
};
use crate::rules::environment::{environment_alerts, environment_variables};
use crate::rules::images::{container_images, images_alerts};
use crate::rules::registry::{docker_registry, registry_alerts};
use crate::rules::socket::{docker_socket, socket_alerts};
use crate::rules::version::{docker_version, docker_version_alerts};
use crate::security::{sev_rank, Alert, AlertV};

verus! {

/// The checks the registry knows, one per rule.
#[derive(Clone, Copy, Debug, PartialEq, Eq, Structural)]
pub enum RuleKind {
    DockerVersion,
    DockerSocket,
    DockerRegistry,
    ContainerImages,
    KernelParameters,
    SecurityOpts,
    Privileged,
    EnvironmentVariables,
}

/// What one rule reports on a manifest.
pub open spec fn eval_rule_spec(kind: RuleKind, config: Config, cf: &ComposeFile) -> Seq<
    AlertV,
> {
    match kind {
        RuleKind::DockerVersion => docker_version_alerts(cf),
        RuleKind::DockerSocket => socket_alerts(cf.path@, cf.mappings@, cf.compose.services@),
        RuleKind::DockerRegistry => registry_alerts(
            config.registries.deep_view(),
            cf.path@,
            cf.compose.services@,
        ),
        RuleKind::ContainerImages => images_alerts(
            cf.path@,
            cf.mappings@,
            cf.compose.services@,
        ),
        RuleKind::KernelParameters => kernel_alerts(cf.path@, cf.compose.services@),
        RuleKind::SecurityOpts => security_opts_alerts(
            cf.path@,
            cf.mappings@,
            cf.compose.services@,
        ),
        RuleKind::Privileged => privileged_alerts(cf.path@, cf.compose.services@),
        RuleKind::EnvironmentVariables => environment_alerts(
            cf.path@,
            cf.mappings@,
            cf.compose.services@,
        ),
    }
}

/// What a list of rules reports, concatenated in registration order.
pub open spec fn rules_alerts(kinds: Seq<RuleKind>, config: Config, cf: &ComposeFile) -> Seq<
    AlertV,
>
    decreases kinds.len(),
{
    if kinds.len() == 0 {
        Seq::empty()
    } else {
        rules_alerts(kinds.drop_last(), config, cf) + eval_rule_spec(kinds.last(), config, cf)
    }
}

/// The alerts of `s` whose severity has rank `k`, in their original order.
pub open spec fn alerts_with_rank(s: Seq<AlertV>, k: int) -> Seq<AlertV> {
    s.filter(|a: AlertV| sev_rank(a.severity) == k)
}

/// The first `k` rank classes of `s`, concatenated.
pub open spec fn sort_prefix(s: Seq<AlertV>, k: int) -> Seq<AlertV>
    decreases k,
{
    if k <= 0 {
        Seq::empty()
    } else {
        sort_prefix(s, k - 1) + alerts_with_rank(s, k - 1)
    }
}

/// `s` stably sorted by severity rank, most severe first: the concatenation
/// of its rank classes in rank order.
pub open spec fn sort_alerts(s: Seq<AlertV>) -> Seq<AlertV> {
    sort_prefix(s, 8)
}

/// The registration order of the full rule set.
pub open spec fn full_rule_set() -> Seq<RuleKind> {
    seq![
        RuleKind::DockerVersion,
        RuleKind::DockerSocket,
        RuleKind::DockerRegistry,
        RuleKind::ContainerImages,
        RuleKind::KernelParameters,
        RuleKind::SecurityOpts,
        RuleKind::Privileged,
        RuleKind::EnvironmentVariables,
    ]
}

/// Run one rule against a manifest.
pub fn evaluate(kind: RuleKind, config: &Config, compose_file: &ComposeFile) -> (alerts: Vec<
    Alert,
>)
    requires
        compose_file.mappings.wf(),
    ensures
        alerts.deep_view() == eval_rule_spec(kind, *config, compose_file),
{
    match kind {
        RuleKind::DockerVersion => docker_version(config, compose_file),
        RuleKind::DockerSocket => docker_socket(config, compose_file),
        RuleKind::DockerRegistry => docker_registry(config, compose_file),
        RuleKind::ContainerImages => container_images(config, compose_file),
        RuleKind::KernelParameters => kernel_parameters(config, compose_file),
        RuleKind::SecurityOpts => security_opts(config, compose_file),
        RuleKind::Privileged => privileged(config, compose_file),
        RuleKind::EnvironmentVariables => environment_variables(config, compose_file),
    }
}

/// Stable sort of alerts by severity rank, most severe first.
fn sort_by_severity(alerts: &Vec<Alert>) -> (r: Vec<Alert>)
    ensures
        r.deep_view() == sort_alerts(alerts.deep_view()),
{
    let ghost dv = alerts.deep_view();
    let n = alerts.len();
    let mut out: Vec<Alert> = Vec::new();
    let mut k: u8 = 0;
    proof {
        assert(out.deep_view() =~= sort_prefix(dv, 0));
    }
    while k < 8
        invariant
            n == alerts@.len(),
            dv == alerts.deep_view(),
            0 <= k <= 8,
            out.deep_view() == sort_prefix(dv, k as int),
        decreases 8 - k,
    {
        let mut i: usize = 0;
        proof {
            reveal(Seq::filter);
            assert(dv.take(0) =~= Seq::<AlertV>::empty());
            assert(alerts_with_rank(dv.take(0), k as int) =~= Seq::<AlertV>::empty());
            assert(out.deep_view() =~= sort_prefix(dv, k as int) + alerts_with_rank(
                dv.take(0),
                k as int,
            ));
        }
        while i < n
            invariant
                n == alerts@.len(),
                dv == alerts.deep_view(),
                0 <= i <= n,
                0 <= k < 8,
                out.deep_view() == sort_prefix(dv, k as int) + alerts_with_rank(
                    dv.take(i as int),
                    k as int,
                ),
            decreases n - i,
        {
            proof {
                reveal(Seq::filter);
                assert(dv.take(i + 1).drop_last() =~= dv.take(i as int));
                assert(dv.take(i + 1).last() == dv[i as int]);
                assert(dv[i as int] == alerts@[i as int]@);
            }
            let a = &alerts[i];
            if a.severity.rank() == k {
                let ghost before = out.deep_view();
                out.push(a.duplicate());
                proof {
                    assert(out.deep_view() =~= before.push(dv[i as int]));
                }
            }
            proof {
                reveal(Seq::filter);
                assert(out.deep_view() =~= sort_prefix(dv, k as int) + alerts_with_rank(
                    dv.take(i + 1),
                    k as int,
                ));
            }
            i += 1;
        }
        proof {
            assert(dv.take(n as int) =~= dv);
        }
        k += 1;
    }
    out
}

/// The registry: the configuration it was built with and the rules it will
/// run, in order.
pub struct Rules {
    config: Config,
    rules: Vec<RuleKind>,
}

impl Rules {
    /// The configuration the registry runs with.
    pub closed spec fn spec_config(&self) -> Config {
        self.config
    }

    /// The rules the registry runs, in order.
    pub closed spec fn spec_rules(&self) -> Seq<RuleKind> {
        self.rules@
    }

    /// A registry holding the full rule set, or none at all when the
    /// configuration disables rules.
    pub fn new(config: Config) -> (r: Rules)
        ensures
            r.spec_config() == config,
            r.spec_rules() == if config.disable_rules {
                Seq::<RuleKind>::empty()
            } else {
                full_rule_set()
            },
    {
        let mut rules = Rules { config, rules: Vec::new() };
        if !rules.config.disable_rules {
            rules.register(RuleKind::DockerVersion);
            rules.register(RuleKind::DockerSocket);
            rules.register(RuleKind::DockerRegistry);
            rules.register(RuleKind::ContainerImages);
            rules.register(RuleKind::KernelParameters);
            rules.register(RuleKind::SecurityOpts);
            rules.register(RuleKind::Privileged);
            rules.register(RuleKind::EnvironmentVariables);
            proof {
                assert(rules.rules@ =~= full_rule_set());
            }
        } else {
            proof {
                assert(rules.rules@ =~= Seq::<RuleKind>::empty());
            }
        }
        rules
    }

    /// Append one rule to the registry.
    pub fn register(&mut self, rule: RuleKind)
        ensures
            final(self).spec_config() == old(self).spec_config(),
            final(self).spec_rules() == old(self).spec_rules().push(rule),
    {
        self.rules.push(rule);
    }

    /// How many rules the registry will run.
    pub fn len(&self) -> (r: usize)
        ensures
            r == self.spec_rules().len(),
    {
        self.rules.len()
    }

    /// Run every rule over the manifest and sort the findings by severity,
    /// most severe first. Every rule is a total function, so no rule can
    /// abort the scan or drop another rule's findings.
    pub fn run(&self, compose_file: &ComposeFile) -> (r: Vec<Alert>)
        requires
            compose_file.mappings.wf(),
        ensures
            r.deep_view() == sort_alerts(
                rules_alerts(self.spec_rules(), self.spec_config(), compose_file),
            ),
    {
        let mut alerts: Vec<Alert> = Vec::new();
        let n = self.rules.len();
        let mut i: usize = 0;
        proof {
            assert(self.rules@.take(0) =~= Seq::<RuleKind>::empty());
            assert(alerts.deep_view() =~= rules_alerts(
                self.rules@.take(0),
                self.config,
                compose_file,
            ));
        }
        while i < n
            invariant
                n == self.rules@.len(),
                0 <= i <= n,
                compose_file.mappings.wf(),
                alerts.deep_view() == rules_alerts(
                    self.rules@.take(i as int),
                    self.config,
                    compose_file,
                ),
            decreases n - i,
        {
            proof {
                assert(self.rules@.take(i + 1).drop_last() =~= self.rules@.take(i as int));
                assert(self.rules@.take(i + 1).last() == self.rules@[i as int]);
            }
            let mut found = evaluate(self.rules[i], &self.config, compose_file);
            let ghost foundv = found.deep_view();
            let ghost before = alerts.deep_view();
            alerts.append(&mut found);
            proof {
                assert(alerts.deep_view() =~= before + foundv);
                assert(alerts.deep_view() =~= rules_alerts(
                    self.rules@.take(i + 1),
                    self.config,
                    compose_file,
                ));
            }
            i += 1;
        }
        proof {
            assert(self.rules@.take(n as int) =~= self.rules@);
        }
        sort_by_severity(&alerts)
    }
}

/// Every alert of a rank class carries that rank.
proof fn lemma_rank_class_members(s: Seq<AlertV>, k: int)
    ensures
        forall|t: int|
            0 <= t < alerts_with_rank(s, k).len() ==> sev_rank(
                #[trigger] alerts_with_rank(s, k)[t].severity,
            ) == k,
    decreases s.len(),
{
    reveal(Seq::filter);
    if s.len() > 0 {
        lemma_rank_class_members(s.drop_last(), k);
    }
}

/// Every alert in the first `k` rank classes has rank below `k`, and the
/// concatenation is sorted by rank.
proof fn lemma_sort_prefix_sorted(s: Seq<AlertV>, k: int)
    requires
        0 <= k,
    ensures
        forall|t: int|
            0 <= t < sort_prefix(s, k).len() ==> sev_rank(
                #[trigger] sort_prefix(s, k)[t].severity,
            ) < k,
        forall|t1: int, t2: int|
            0 <= t1 <= t2 < sort_prefix(s, k).len() ==> sev_rank(
                #[trigger] sort_prefix(s, k)[t1].severity,
            ) <= sev_rank(#[trigger] sort_prefix(s, k)[t2].severity),
    decreases k,
{
    if k > 0 {
        lemma_sort_prefix_sorted(s, k - 1);
        lemma_rank_class_members(s, k - 1);
        let pre = sort_prefix(s, k - 1);
        let cls = alerts_with_rank(s, k - 1);
        assert forall|t: int| 0 <= t < sort_prefix(s, k).len() implies sev_rank(
            #[trigger] sort_prefix(s, k)[t].severity,
        ) < k by {
            if t < pre.len() {
                assert(sort_prefix(s, k)[t] == pre[t]);
            } else {
                assert(sort_prefix(s, k)[t] == cls[t - pre.len()]);
            }
        }
        assert forall|t1: int, t2: int|
            0 <= t1 <= t2 < sort_prefix(s, k).len() implies sev_rank(
            #[trigger] sort_prefix(s, k)[t1].severity,
        ) <= sev_rank(#[trigger] sort_prefix(s, k)[t2].severity) by {
            if t1 < pre.len() {
                assert(sort_prefix(s, k)[t1] == pre[t1]);
            } else {
                assert(sort_prefix(s, k)[t1] == cls[t1 - pre.len()]);
            }
            if t2 < pre.len() {
                assert(sort_prefix(s, k)[t2] == pre[t2]);
            } else {
                assert(sort_prefix(s, k)[t2] == cls[t2 - pre.len()]);
            }
        }
    }
}

/// What the registry returns is sorted by severity rank, most severe
/// first: at smaller positions stand alerts of at most the rank of those at
/// larger positions.
pub proof fn lemma_sorted_by_severity(s: Seq<AlertV>, i: int, j: int)
    requires
        0 <= i <= j < sort_alerts(s).len(),
    ensures
        sev_rank(sort_alerts(s)[i].severity) <= sev_rank(sort_alerts(s)[j].severity),
{
    lemma_sort_prefix_sorted(s, 8);
}

/// Running the registry twice over the same manifest and configuration
/// yields the same findings: the result is a function of its inputs alone.
pub proof fn lemma_run_deterministic(
    r1: Seq<AlertV>,
    r2: Seq<AlertV>,
    kinds: Seq<RuleKind>,
    config: Config,
    cf: &ComposeFile,
)
    requires
        r1 == sort_alerts(rules_alerts(kinds, config, cf)),
        r2 == sort_alerts(rules_alerts(kinds, config, cf)),
    ensures
        r1 == r2,
{
}

} // verus!
