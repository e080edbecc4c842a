//! Read-once configuration: allowed registries, minimum severity, and
//! per-rule overrides. The rule engine only ever reads it.
use vstd::prelude::*;

use crate::text::str_eq;

verus! {

/// Process-wide settings, passed by reference through every rule call.
pub struct Config {
    /// Registries that are allowed.
    pub registries: Vec<String>,
    /// Minimum severity to display.
    pub severity: String,
    /// Disable all rules.
    pub disable_rules: bool,
    /// Per-rule override entries.
    pub rules: Vec<(String, RuleConfig)>,
}

/// Override for one rule: enabled or not, and a severity name.
pub struct RuleConfig {
    pub enabled: Option<bool>,
    pub severity: Option<String>,
}

/// The built-in registry allow-list.
pub open spec fn default_registries_seq() -> Seq<Seq<char>> {
    seq!["docker.io"@, "ghcr.io"@, "mcr.microsoft.com"@, "gcr.io"@]
}

/// Whether `instance` is one of the allowed registries.
pub open spec fn registry_allowed(regs: Seq<Seq<char>>, instance: Seq<char>) -> bool {
    exists|i: int| 0 <= i < regs.len() && regs[i] == instance
}

/// Default minimum severity to display.
pub fn default_severity() -> (r: String)
    ensures
        r@ == "Medium"@,
{
    "Medium".to_owned()
}

/// Built-in allow-list of well-known public registries.
pub fn default_registries() -> (r: Vec<String>)
    ensures
        r.deep_view() == default_registries_seq(),
{
    let mut registries: Vec<String> = Vec::new();
    registries.push("docker.io".to_owned());
    registries.push("ghcr.io".to_owned());
    registries.push("mcr.microsoft.com".to_owned());
    registries.push("gcr.io".to_owned());
    proof {
        assert(registries.deep_view() =~= default_registries_seq());
    }
    registries
}

impl Default for Config {
    /// The configuration used when no file supplies one.
    fn default() -> (r: Config)
        ensures
            r.registries.deep_view() == default_registries_seq(),
            r.severity@ == "Medium"@,
            !r.disable_rules,
            r.rules@.len() == 0,
    {
        Config {
            registries: default_registries(),
            severity: default_severity(),
            disable_rules: false,
            rules: Vec::new(),
        }
    }
}

impl Config {
    /// Whether `instance` is in the registry allow-list.
    pub fn allows_registry(&self, instance: &str) -> (r: bool)
        ensures
            r == registry_allowed(self.registries.deep_view(), instance@),
    {
        let n = self.registries.len();
        let mut i: usize = 0;
        while i < n
            invariant
                n == self.registries@.len(),
                0 <= i <= n,
                forall|j: int| 0 <= j < i ==> self.registries.deep_view()[j] != instance@,
            decreases n - i,
        {
            if str_eq(self.registries[i].as_str(), instance) {
                proof {
                    assert(self.registries.deep_view()[i as int] == instance@);
                }
                return true;
            }
            proof {
                assert(self.registries.deep_view()[i as int] == self.registries@[i as int]@);
            }
            i += 1;
        }
        false
    }
}

} // verus!
