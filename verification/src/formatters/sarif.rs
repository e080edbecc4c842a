//! The structured interchange report: a tool descriptor, a rule catalog,
//! and one result per finding, with paths rewritten relative to a base
//! directory and 1-based line numbers.
use vstd::prelude::*;

use crate::security::{cvss_score, rule_id_render, sev_name, Alert, AlertV};
use crate::text::{lower, starts_with, str_eq, str_starts_with, str_to_lower};

verus! {

/// The report document: a format version and its runs.
#[derive(Debug, PartialEq)]
pub struct SarifFile {
    pub version: String,
    pub runs: Vec<Run>,
}

/// One run: the tool that ran, its results, and the artifacts involved.
#[derive(Debug, PartialEq)]
pub struct Run {
    pub tool: Tool,
    pub results: Vec<RunResult>,
    pub artifacts: Vec<Artifact>,
}

/// One finding in the report: which rule, what message, where.
#[derive(Debug, PartialEq)]
pub struct RunResult {
    pub rule_id: String,
    pub message: Message,
    pub locations: Vec<Location>,
}

#[derive(Debug, PartialEq)]
pub struct Location {
    pub physical_location: PhysicalLocation,
}

#[derive(Debug, PartialEq)]
pub struct PhysicalLocation {
    pub artifact_location: ArtifactLocation,
    pub region: Region,
}

#[derive(Debug, PartialEq)]
pub struct ArtifactLocation {
    pub uri: String,
    pub uri_base_id: String,
    pub index: u32,
}

/// A source region; only the 1-based start line is filled in.
#[derive(Debug, PartialEq)]
pub struct Region {
    pub start_line: usize,
    pub start_column: usize,
    pub end_line: usize,
    pub end_column: usize,
}

#[derive(Debug, PartialEq)]
pub struct Tool {
    pub driver: Driver,
}

/// The tool descriptor and its rule catalog.
#[derive(Debug, PartialEq)]
pub struct Driver {
    pub name: String,
    pub organization: String,
    pub semantic_version: String,
    pub rules: Vec<Rule>,
}

/// One catalog entry: identity, descriptions and severity properties of a
/// rule.
#[derive(Debug, PartialEq)]
pub struct Rule {
    pub id: String,
    pub name: String,
    pub short_description: Message,
    pub full_description: Message,
    pub help_uri: String,
    pub properties: Properties,
}

#[derive(Debug, PartialEq)]
pub struct Message {
    pub text: String,
}

#[derive(Debug, PartialEq)]
pub struct Properties {
    pub tags: Vec<String>,
    pub precision: String,
    pub severity: String,
    pub security_severity: String,
    pub kind: String,
    pub id: String,
}

#[derive(Debug, PartialEq)]
pub struct Artifact {
    pub location: ArtifactLocation,
}

/// `p` rewritten relative to `base` when `base` is a proper prefix of its
/// path components; otherwise `p` unchanged.
pub open spec fn rel_path(base: Seq<char>, p: Seq<char>) -> Seq<char> {
    if base.len() == 0 {
        p
    } else if p == base {
        Seq::empty()
    } else if starts_with(p, base + "/"@) {
        p.skip(base.len() + 1 as int)
    } else {
        p
    }
}

/// The 1-based line of a stored location: the stored 0-based line plus one,
/// or line 1 when no mapping was found.
pub open spec fn one_based(line: Option<int>) -> int {
    match line {
        Some(v) => if v == usize::MAX as int {
            v
        } else {
            v + 1
        },
        None => 1,
    }
}

/// Whether an alert whose rule renders as `id` occurs in `s`.
pub open spec fn id_seen(s: Seq<AlertV>, id: Seq<char>) -> bool {
    exists|j: int| 0 <= j < s.len() && rule_id_render(s[j].id) == id
}

/// The findings that first carry each distinct rule id, in order of first
/// appearance. The catalog holds one record per entry of this sequence, so
/// it is keyed by rule id.
pub open spec fn catalog_reps(s: Seq<AlertV>) -> Seq<AlertV>
    decreases s.len(),
{
    if s.len() == 0 {
        Seq::empty()
    } else if id_seen(s.drop_last(), rule_id_render(s.last().id)) {
        catalog_reps(s.drop_last())
    } else {
        catalog_reps(s.drop_last()).push(s.last())
    }
}

/// A rule id occurs among the findings exactly when it occurs among their
/// catalog representatives.
proof fn lemma_catalog_reps_ids(s: Seq<AlertV>)
    ensures
        forall|id: Seq<char>| id_seen(s, id) <==> id_seen(catalog_reps(s), id),
    decreases s.len(),
{
    if s.len() > 0 {
        let d = s.drop_last();
        let ra = rule_id_render(s.last().id);
        lemma_catalog_reps_ids(d);
        assert forall|id: Seq<char>| id_seen(s, id) implies id_seen(catalog_reps(s), id) by {
            let j = choose|j: int| 0 <= j < s.len() && rule_id_render(s[j].id) == id;
            if j < s.len() - 1 {
                assert(d[j] == s[j]);
                assert(id_seen(d, id));
                let t = choose|t: int|
                    0 <= t < catalog_reps(d).len() && rule_id_render(
                        catalog_reps(d)[t].id,
                    ) == id;
                if !id_seen(d, ra) {
                    assert(catalog_reps(s)[t] == catalog_reps(d)[t]);
                }
            } else {
                if id_seen(d, ra) {
                    let t = choose|t: int|
                        0 <= t < catalog_reps(d).len() && rule_id_render(
                            catalog_reps(d)[t].id,
                        ) == id;
                } else {
                    assert(catalog_reps(s).last() == s.last());
                }
            }
        }
        assert forall|id: Seq<char>| id_seen(catalog_reps(s), id) implies id_seen(s, id) by {
            let t = choose|t: int|
                0 <= t < catalog_reps(s).len() && rule_id_render(catalog_reps(s)[t].id) == id;
            if id_seen(d, ra) {
                assert(id_seen(d, id));
                let j = choose|j: int| 0 <= j < d.len() && rule_id_render(d[j].id) == id;
                assert(s[j] == d[j]);
            } else {
                if t < catalog_reps(s).len() - 1 {
                    assert(catalog_reps(d)[t] == catalog_reps(s)[t]);
                    assert(id_seen(d, id));
                    let j = choose|j: int| 0 <= j < d.len() && rule_id_render(d[j].id) == id;
                    assert(s[j] == d[j]);
                } else {
                    assert(catalog_reps(s)[t] == s.last());
                    assert(rule_id_render(s[s.len() - 1].id) == id);
                }
            }
        }
    }
}

/// The catalog entry that `build` writes for one finding.
pub open spec fn rule_matches(r: Rule, a: AlertV) -> bool {
    &&& r.id@ == rule_id_render(a.id)
    &&& r.name@ == a.details
    &&& r.short_description.text@ == a.details
    &&& r.full_description.text@ == a.details
    &&& r.help_uri@.len() == 0
    &&& r.properties.tags@.len() == 0
    &&& r.properties.precision@ == "high"@
    &&& r.properties.severity@ == lower(sev_name(a.severity))
    &&& r.properties.security_severity@ == cvss_score(a.severity)
    &&& r.properties.kind@.len() == 0
    &&& r.properties.id@ == rule_id_render(a.id)
}

/// The result entry that `build` writes for one finding.
pub open spec fn run_result_matches(rr: RunResult, a: AlertV, base: Seq<char>) -> bool {
    &&& rr.rule_id@ == rule_id_render(a.id)
    &&& rr.message.text@ == a.details
    &&& rr.locations@.len() == 1
    &&& rr.locations@[0].physical_location.artifact_location.uri@ == rel_path(
        base,
        a.path.path,
    )
    &&& rr.locations@[0].physical_location.artifact_location.uri_base_id@ == "%SRCROOT%"@
    &&& rr.locations@[0].physical_location.artifact_location.index == 0
    &&& rr.locations@[0].physical_location.region.start_line as int == one_based(a.path.line)
    &&& rr.locations@[0].physical_location.region.start_column == 0
    &&& rr.locations@[0].physical_location.region.end_line == 0
    &&& rr.locations@[0].physical_location.region.end_column == 0
}

/// `p` rewritten relative to `base`.
fn strip_path(base: &str, p: &str) -> (r: String)
    ensures
        r@ == rel_path(base@, p@),
{
    if base.is_empty() {
        return p.to_owned();
    }
    if str_eq(p, base) {
        return String::new();
    }
    let mut prefix = base.to_owned();
    prefix.append("/");
    let plen = prefix.unicode_len();
    proof {
        reveal_strlit("/");
        assert(plen == base@.len() + 1);
    }
    if str_starts_with(p, prefix.as_str()) {
        let n = p.unicode_len();
        let r = p.substring_char(plen, n).to_owned();
        proof {
            assert(r@ =~= p@.skip(base@.len() + 1 as int));
        }
        r
    } else {
        p.to_owned()
    }
}

/// Accumulates alerts and renders them as a structured report.
pub struct SarifBuilder {
    tool: Tool,
    base: String,
    alerts: Vec<Alert>,
}

impl SarifFile {
    /// Create a builder for a new report.
    pub fn new() -> (r: SarifBuilder)
        ensures
            r.spec_tool().driver.name@.len() == 0,
            r.spec_tool().driver.rules@.len() == 0,
            r.spec_base()@.len() == 0,
            r.spec_alerts().len() == 0,
    {
        SarifBuilder::new()
    }
}

impl SarifBuilder {
    /// The tool descriptor set so far.
    pub closed spec fn spec_tool(&self) -> Tool {
        self.tool
    }

    /// The base directory set so far.
    pub closed spec fn spec_base(&self) -> String {
        self.base
    }

    /// The findings added so far.
    pub closed spec fn spec_alerts(&self) -> Seq<AlertV> {
        self.alerts.deep_view()
    }

    /// An empty builder.
    pub fn new() -> (r: SarifBuilder)
        ensures
            r.spec_tool().driver.name@.len() == 0,
            r.spec_tool().driver.rules@.len() == 0,
            r.spec_base()@.len() == 0,
            r.spec_alerts().len() == 0,
    {
        SarifBuilder {
            tool: Tool {
                driver: Driver {
                    name: String::new(),
                    organization: String::new(),
                    semantic_version: String::new(),
                    rules: Vec::new(),
                },
            },
            base: String::new(),
            alerts: Vec::new(),
        }
    }

    /// Append findings to the report.
    pub fn add_results(&mut self, results: Vec<Alert>)
        ensures
            final(self).spec_alerts() == old(self).spec_alerts() + results.deep_view(),
            final(self).spec_tool() == old(self).spec_tool(),
            final(self).spec_base() == old(self).spec_base(),
    {
        let mut results = results;
        let ghost rv = results.deep_view();
        let ghost before = self.alerts.deep_view();
        self.alerts.append(&mut results);
        proof {
            assert(self.alerts.deep_view() =~= before + rv);
        }
    }

    /// Set the base directory that result paths are made relative to.
    pub fn base(&mut self, base: &str)
        ensures
            final(self).spec_base()@ == base@,
            final(self).spec_tool() == old(self).spec_tool(),
            final(self).spec_alerts() == old(self).spec_alerts(),
    {
        self.base = base.to_owned();
    }

    /// Set the tool descriptor.
    pub fn set_tool(&mut self, tool: String, version: String)
        ensures
            final(self).spec_tool().driver.name@ == tool@,
            final(self).spec_tool().driver.organization@ == "geekmasher"@,
            final(self).spec_tool().driver.semantic_version@ == version@,
            final(self).spec_tool().driver.rules@.len() == 0,
            final(self).spec_base() == old(self).spec_base(),
            final(self).spec_alerts() == old(self).spec_alerts(),
    {
        self.tool = Tool {
            driver: Driver {
                name: tool,
                organization: "geekmasher".to_owned(),
                semantic_version: version,
                rules: Vec::new(),
            },
        };
    }

    /// Render the report: one run carrying the tool descriptor, a rule
    /// catalog keyed by rule id (one record per distinct id, from the first
    /// finding that carries it), a result entry per finding, and no
    /// artifacts.
    pub fn build(&self) -> (r: SarifFile)
        ensures
            r.version@ == "2.1.0"@,
            r.runs@.len() == 1,
            r.runs@[0].tool.driver.name@ == self.spec_tool().driver.name@,
            r.runs@[0].tool.driver.organization@ == self.spec_tool().driver.organization@,
            r.runs@[0].tool.driver.semantic_version@
                == self.spec_tool().driver.semantic_version@,
            r.runs@[0].tool.driver.rules@.len() == catalog_reps(self.spec_alerts()).len(),
            forall|i: int|
                0 <= i < catalog_reps(self.spec_alerts()).len() ==> rule_matches(
                    #[trigger] r.runs@[0].tool.driver.rules@[i],
                    catalog_reps(self.spec_alerts())[i],
                ),
            r.runs@[0].results@.len() == self.spec_alerts().len(),
            forall|i: int|
                0 <= i < self.spec_alerts().len() ==> run_result_matches(
                    #[trigger] r.runs@[0].results@[i],
                    self.spec_alerts()[i],
                    self.spec_base()@,
                ),
            r.runs@[0].artifacts@.len() == 0,
    {
        let ghost adv = self.alerts.deep_view();
        let n = self.alerts.len();
        let mut rules: Vec<Rule> = Vec::new();
        let mut results: Vec<RunResult> = Vec::new();
        let mut i: usize = 0;
        proof {
            assert(adv.take(0) =~= Seq::<AlertV>::empty());
        }
        while i < n
            invariant
                n == self.alerts@.len(),
                adv == self.alerts.deep_view(),
                0 <= i <= n,
                rules@.len() == catalog_reps(adv.take(i as int)).len(),
                forall|t: int|
                    0 <= t < rules@.len() ==> rule_matches(
                        #[trigger] rules@[t],
                        catalog_reps(adv.take(i as int))[t],
                    ),
                results@.len() == i,
                forall|j: int|
                    0 <= j < i ==> run_result_matches(#[trigger] results@[j], adv[j], self.base@),
            decreases n - i,
        {
            proof {
                assert(adv.take(i + 1).drop_last() =~= adv.take(i as int));
                assert(adv.take(i + 1).last() == adv[i as int]);
                assert(adv[i as int] == self.alerts@[i as int]@);
            }
            let alert = &self.alerts[i];
            let id = alert.id.render();
            let rn = rules.len();
            let mut t: usize = 0;
            let mut present = false;
            while t < rn
                invariant
                    rn == rules@.len(),
                    0 <= t <= rn,
                    id@ == rule_id_render(adv[i as int].id),
                    forall|u: int|
                        0 <= u < rules@.len() ==> rule_matches(
                            #[trigger] rules@[u],
                            catalog_reps(adv.take(i as int))[u],
                        ),
                    rules@.len() == catalog_reps(adv.take(i as int)).len(),
                    present == exists|u: int| 0 <= u < t && rules@[u].id@ == id@,
                decreases rn - t,
            {
                if str_eq(rules[t].id.as_str(), id.as_str()) {
                    present = true;
                }
                t += 1;
            }
            proof {
                lemma_catalog_reps_ids(adv.take(i as int));
                let reps = catalog_reps(adv.take(i as int));
                if present {
                    let u = choose|u: int| 0 <= u < rules@.len() && rules@[u].id@ == id@;
                    assert(rule_id_render(reps[u].id) == id@);
                    assert(id_seen(reps, id@));
                    assert(id_seen(adv.take(i as int), id@));
                } else {
                    if id_seen(adv.take(i as int), id@) {
                        assert(id_seen(reps, id@));
                        let u = choose|u: int|
                            0 <= u < reps.len() && rule_id_render(reps[u].id) == id@;
                        assert(rules@[u].id@ == id@);
                    }
                }
                assert(present == id_seen(adv.take(i as int), rule_id_render(
                    adv.take(i + 1).last().id,
                )));
            }
            if !present {
                let sevname = alert.severity.name();
                let rule = Rule {
                    id: id.clone(),
                    name: alert.details.clone(),
                    short_description: Message { text: alert.details.clone() },
                    full_description: Message { text: alert.details.clone() },
                    help_uri: String::new(),
                    properties: Properties {
                        tags: Vec::new(),
                        precision: "high".to_owned(),
                        severity: str_to_lower(sevname.as_str()),
                        security_severity: alert.cvss(),
                        kind: String::new(),
                        id: id.clone(),
                    },
                };
                let ghost before = rules@;
                rules.push(rule);
                proof {
                    assert(rule_matches(rules@.last(), adv[i as int]));
                    assert(catalog_reps(adv.take(i + 1)) =~= catalog_reps(
                        adv.take(i as int),
                    ).push(adv[i as int]));
                    assert(forall|u: int|
                        0 <= u < before.len() ==> rules@[u] == #[trigger] before[u]);
                }
            } else {
                proof {
                    assert(catalog_reps(adv.take(i + 1)) =~= catalog_reps(adv.take(i as int)));
                }
            }
            let uri = strip_path(self.base.as_str(), alert.path.path.as_str());
            let start_line: usize = match alert.path.line {
                Some(l) => {
                    if l == usize::MAX {
                        l
                    } else {
                        l + 1
                    }
                },
                None => 1,
            };
            let result = RunResult {
                rule_id: id,
                message: Message { text: alert.details.clone() },
                locations: vec![
                    Location {
                        physical_location: PhysicalLocation {
                            artifact_location: ArtifactLocation {
                                uri,
                                uri_base_id: "%SRCROOT%".to_owned(),
                                index: 0,
                            },
                            region: Region {
                                start_line,
                                start_column: 0,
                                end_line: 0,
                                end_column: 0,
                            },
                        },
                    },
                ],
            };
            results.push(result);
            proof {
                assert(run_result_matches(results@[i as int], adv[i as int], self.base@));
            }
            i += 1;
        }
        proof {
            assert(adv.take(n as int) =~= adv);
        }
        let run = Run {
            tool: Tool {
                driver: Driver {
                    name: self.tool.driver.name.clone(),
                    organization: self.tool.driver.organization.clone(),
                    semantic_version: self.tool.driver.semantic_version.clone(),
                    rules,
                },
            },
            results,
            artifacts: Vec::new(),
        };
        let mut runs: Vec<Run> = Vec::new();
        runs.push(run);
        SarifFile { version: "2.1.0".to_owned(), runs }
    }
}

} // verus!
