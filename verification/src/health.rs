//! Service-health aggregation: the fixed endpoint table, the keyed boolean
//! map that a batch check produces, and the classification of a primary
//! health probe's outcome.
//!
//! The outbound requests themselves are network I/O and belong to the shell:
//! it probes each endpoint (bounded by its own per-request timeout) and hands
//! this module one plain outcome per probe. Every reduction of those outcomes
//! — aggregation into the keyed map, the choice of success or error for the
//! primary check — is verified here.

use vstd::prelude::*;
use crate::AppError;

verus! {

/// The fixed table of local service endpoints, as (name, URL) pairs. The set
/// is known at build time and never mutated at runtime.
pub fn local_endpoints() -> (v: Vec<(String, String)>)
    ensures
        v@.len() == 4,
        v@[0].0@ == "api"@ && v@[0].1@ == "http://localhost:8080/healthz"@,
        v@[1].0@ == "research-mcp"@ && v@[1].1@ == "http://localhost:8081/health"@,
        v@[2].0@ == "knowledge-mcp"@ && v@[2].1@ == "http://localhost:8082/health"@,
        v@[3].0@ == "router-mcp"@ && v@[3].1@ == "http://localhost:8083/health"@,
{
    let mut v: Vec<(String, String)> = Vec::new();
    v.push((String::from_str("api"), String::from_str("http://localhost:8080/healthz")));
    v.push((String::from_str("research-mcp"), String::from_str("http://localhost:8081/health")));
    v.push((String::from_str("knowledge-mcp"), String::from_str("http://localhost:8082/health")));
    v.push((String::from_str("router-mcp"), String::from_str("http://localhost:8083/health")));
    v
}

/// The keyed map that a sequence of probe outcomes reduces to: one entry per
/// distinct name, a later outcome overwriting an earlier one under the same
/// name.
pub open spec fn health_map_of(s: Seq<(String, bool)>) -> Map<Seq<char>, bool>
    decreases s.len(),
{
    if s.len() == 0 {
        Map::empty()
    } else {
        health_map_of(s.drop_last()).insert(s.last().0@, s.last().1)
    }
}

/// The set of names that occur in a sequence of probe outcomes.
pub open spec fn probe_names(s: Seq<(String, bool)>) -> Set<Seq<char>> {
    Set::new(|k: Seq<char>| exists|i: int| 0 <= i < s.len() && s[i].0@ == k)
}

/// No two entries of the sequence share a name.
pub open spec fn unique_keys(s: Seq<(String, bool)>) -> bool {
    forall|i: int, j: int| 0 <= i < j < s.len() ==> s[i].0@ != s[j].0@
}

/// The domain of the reduced map is exactly the set of probed names, and the
/// map is finite.
pub proof fn lemma_health_map_dom(s: Seq<(String, bool)>)
    ensures
        health_map_of(s).dom() =~= probe_names(s),
        health_map_of(s).dom().finite(),
    decreases s.len(),
{
    if s.len() == 0 {
        assert forall|k: Seq<char>| !probe_names(s).contains(k) by {}
    } else {
        lemma_health_map_dom(s.drop_last());
        assert forall|k: Seq<char>| health_map_of(s).dom().contains(k)
            implies probe_names(s).contains(k) by {
            if k == s.last().0@ {
                assert(s[s.len() - 1].0@ == k);
            } else {
                let i = choose|i: int| 0 <= i < s.drop_last().len() && s.drop_last()[i].0@ == k;
                assert(s[i].0@ == k);
            }
        }
        assert forall|k: Seq<char>| probe_names(s).contains(k)
            implies health_map_of(s).dom().contains(k) by {
            let i = choose|i: int| 0 <= i < s.len() && s[i].0@ == k;
            if i < s.len() - 1 {
                assert(s.drop_last()[i].0@ == k);
                assert(probe_names(s.drop_last()).contains(k));
            }
        }
    }
}

/// Under unique names the reduced map has exactly one entry per probe.
pub proof fn lemma_health_map_len(s: Seq<(String, bool)>)
    requires
        unique_keys(s),
    ensures
        health_map_of(s).dom().len() == s.len(),
    decreases s.len(),
{
    lemma_health_map_dom(s);
    if s.len() > 0 {
        lemma_health_map_dom(s.drop_last());
        lemma_health_map_len(s.drop_last());
        let k = s.last().0@;
        assert(!probe_names(s.drop_last()).contains(k)) by {
            if probe_names(s.drop_last()).contains(k) {
                let i = choose|i: int|
                    0 <= i < s.drop_last().len() && s.drop_last()[i].0@ == k;
                assert(s[i].0@ == s[s.len() - 1].0@);
            }
        }
        vstd::set::axiom_set_insert_len(health_map_of(s.drop_last()).dom(), k);
    }
}

/// Under unique names each probe's outcome is the value stored under its
/// name.
pub proof fn lemma_health_map_index(s: Seq<(String, bool)>, i: int)
    requires
        unique_keys(s),
        0 <= i < s.len(),
    ensures
        health_map_of(s).dom().contains(s[i].0@),
        health_map_of(s)[s[i].0@] == s[i].1,
    decreases s.len(),
{
    if i == s.len() - 1 {
    } else {
        assert(s.drop_last()[i] == s[i]);
        lemma_health_map_index(s.drop_last(), i);
        assert(s[i].0@ != s.last().0@);
    }
}

/// Overwriting the entry at `i` with a same-named entry reduces to an insert
/// on the map.
pub proof fn lemma_health_map_update(s: Seq<(String, bool)>, i: int, e: (String, bool))
    requires
        unique_keys(s),
        0 <= i < s.len(),
        e.0@ == s[i].0@,
    ensures
        health_map_of(s.update(i, e)) =~= health_map_of(s).insert(e.0@, e.1),
    decreases s.len(),
{
    let t = s.update(i, e);
    if i == s.len() - 1 {
        assert(t.drop_last() =~= s.drop_last());
        assert(t.last() == e);
    } else {
        assert(t.drop_last() =~= s.drop_last().update(i, e));
        lemma_health_map_update(s.drop_last(), i, e);
        assert(t.last() == s.last());
        // the two inserted keys differ, so the inserts commute
        assert(s.last().0@ != e.0@);
        assert(health_map_of(t)
            =~= health_map_of(s.drop_last()).insert(e.0@, e.1).insert(s.last().0@, s.last().1));
    }
}

/// Aggregated health view: one boolean reachability outcome per service name,
/// keys unique. The view is the mathematical map from name to outcome.
pub struct ServiceHealthMap {
    entries: Vec<(String, bool)>,
}

impl ServiceHealthMap {
    /// The mathematical content of the map.
    pub closed spec fn view(&self) -> Map<Seq<char>, bool> {
        health_map_of(self.entries@)
    }

    /// Internal well-formedness: stored names are pairwise distinct.
    pub closed spec fn wf(&self) -> bool {
        unique_keys(self.entries@)
    }

    /// An empty map.
    pub fn new() -> (m: Self)
        ensures
            m.wf(),
            m@ == Map::<Seq<char>, bool>::empty(),
    {
        ServiceHealthMap { entries: Vec::new() }
    }

    /// Number of entries: one per recorded service name.
    pub fn len(&self) -> (n: usize)
        requires
            self.wf(),
        ensures
            n == self@.dom().len(),
    {
        proof {
            lemma_health_map_len(self.entries@);
        }
        self.entries.len()
    }

    /// Records an outcome under a name, overwriting any earlier outcome
    /// recorded under the same name.
    pub fn insert(&mut self, name: String, healthy: bool)
        requires
            old(self).wf(),
        ensures
            final(self).wf(),
            final(self)@ == old(self)@.insert(name@, healthy),
    {
        let n = self.entries.len();
        let mut i: usize = 0;
        while i < n
            invariant
                i <= n,
                n == self.entries@.len(),
                unique_keys(self.entries@),
                self.entries@ == old(self).entries@,
                forall|j: int| 0 <= j < i ==> self.entries@[j].0@ != name@,
            decreases n - i,
        {
            if self.entries[i].0 == name {
                proof {
                    lemma_health_map_update(self.entries@, i as int, (name, healthy));
                }
                self.entries.set(i, (name, healthy));
                proof {
                    assert forall|p: int, q: int|
                        0 <= p < q < self.entries@.len()
                        implies self.entries@[p].0@ != self.entries@[q].0@ by {
                        assert(old(self).entries@[p].0@ != old(self).entries@[q].0@);
                    }
                }
                return ;
            }
            i += 1;
        }
        proof {
            assert(self.entries@.push((name, healthy)).drop_last() =~= self.entries@);
        }
        self.entries.push((name, healthy));
    }

    /// The recorded (name, outcome) pairs, one per entry of the map.
    pub fn entries(&self) -> (v: Vec<(String, bool)>)
        requires
            self.wf(),
        ensures
            v@.len() == self@.dom().len(),
            forall|i: int| 0 <= i < v@.len()
                ==> self@.dom().contains(#[trigger] v@[i].0@) && self@[v@[i].0@] == v@[i].1,
    {
        let n = self.entries.len();
        let mut v: Vec<(String, bool)> = Vec::new();
        let mut i: usize = 0;
        while i < n
            invariant
                i <= n,
                n == self.entries@.len(),
                v@ == self.entries@.take(i as int),
            decreases n - i,
        {
            let name = self.entries[i].0.clone();
            let healthy = self.entries[i].1;
            v.push((name, healthy));
            proof {
                assert(v@ =~= self.entries@.take(i + 1));
            }
            i += 1;
        }
        proof {
            assert(v@ =~= self.entries@);
            lemma_health_map_len(self.entries@);
            assert forall|j: int| 0 <= j < v@.len()
                implies self@.dom().contains(#[trigger] v@[j].0@)
                    && self@[v@[j].0@] == v@[j].1 by {
                lemma_health_map_index(self.entries@, j);
            }
        }
        v
    }

    /// The outcome recorded under a name, if any.
    pub fn get(&self, name: &String) -> (r: Option<bool>)
        requires
            self.wf(),
        ensures
            r == if self@.dom().contains(name@) {
                Some(self@[name@])
            } else {
                None::<bool>
            },
    {
        proof {
            lemma_health_map_dom(self.entries@);
        }
        let n = self.entries.len();
        let mut i: usize = 0;
        while i < n
            invariant
                i <= n,
                n == self.entries@.len(),
                self.wf(),
                forall|j: int| 0 <= j < i ==> self.entries@[j].0@ != name@,
            decreases n - i,
        {
            if self.entries[i].0 == *name {
                proof {
                    lemma_health_map_index(self.entries@, i as int);
                }
                return Some(self.entries[i].1);
            }
            i += 1;
        }
        proof {
            lemma_health_map_dom(self.entries@);
            if self@.dom().contains(name@) {
                let j = choose|j: int|
                    0 <= j < self.entries@.len() && self.entries@[j].0@ == name@;
                assert(false);
            }
        }
        None
    }
}

/// Reduces one probe outcome per endpoint into the keyed health map. Attempts
/// nothing itself and never fails: a probe that timed out, was refused or
/// answered with a non-success status is handed in as `false`, and simply
/// becomes a `false` entry. Under a duplicated name the later outcome wins.
pub fn check_all(probes: Vec<(String, bool)>) -> (r: ServiceHealthMap)
    ensures
        r.wf(),
        r@ == health_map_of(probes@),
{
    let mut m = ServiceHealthMap::new();
    let n = probes.len();
    let mut i: usize = 0;
    while i < n
        invariant
            i <= n,
            n == probes@.len(),
            m.wf(),
            m@ == health_map_of(probes@.take(i as int)),
        decreases n - i,
    {
        let name = probes[i].0.clone();
        let healthy = probes[i].1;
        m.insert(name, healthy);
        proof {
            assert(probes@.take(i + 1).drop_last() =~= probes@.take(i as int));
            assert(probes@.take(i + 1).last() == probes@[i as int]);
        }
        i += 1;
    }
    proof {
        assert(probes@.take(n as int) =~= probes@);
    }
    m
}

/// Law: the aggregated map always has exactly one entry per probed name —
/// its domain is the set of names — however many probes failed; and with
/// pairwise-distinct names (as in the fixed endpoint table) its cardinality
/// equals the number of probes.
pub proof fn lemma_check_all_cardinality(probes: Seq<(String, bool)>)
    ensures
        health_map_of(probes).dom() =~= probe_names(probes),
        unique_keys(probes) ==> health_map_of(probes).dom().len() == probes.len(),
{
    lemma_health_map_dom(probes);
    if unique_keys(probes) {
        lemma_health_map_len(probes);
    }
}

/// Law: the four configured endpoint names are pairwise distinct.
pub proof fn lemma_default_endpoint_names_distinct()
    ensures
        "api"@ != "research-mcp"@,
        "api"@ != "knowledge-mcp"@,
        "api"@ != "router-mcp"@,
        "research-mcp"@ != "knowledge-mcp"@,
        "research-mcp"@ != "router-mcp"@,
        "knowledge-mcp"@ != "router-mcp"@,
{
    reveal_strlit("api");
    reveal_strlit("research-mcp");
    reveal_strlit("knowledge-mcp");
    reveal_strlit("router-mcp");
    assert("api"@.len() == 3);
    assert("research-mcp"@.len() == 12);
    assert("knowledge-mcp"@.len() == 13);
    assert("router-mcp"@.len() == 10);
}

/// Law: a batch of one probe per configured endpoint reduces to a map with
/// exactly four entries, whatever each probe returned.
pub proof fn lemma_default_batch_has_four_entries(s: Seq<(String, bool)>)
    requires
        s.len() == 4,
        s[0].0@ == "api"@,
        s[1].0@ == "research-mcp"@,
        s[2].0@ == "knowledge-mcp"@,
        s[3].0@ == "router-mcp"@,
    ensures
        health_map_of(s).dom().len() == 4,
{
    lemma_default_endpoint_names_distinct();
    assert(unique_keys(s));
    lemma_health_map_len(s);
}

/// Law: when every probe failed, every value of the aggregated map is
/// `false` — the batch check degrades, it never raises.
pub proof fn lemma_check_all_unreachable(probes: Seq<(String, bool)>)
    requires
        forall|i: int| 0 <= i < probes.len() ==> !probes[i].1,
    ensures
        forall|k: Seq<char>| health_map_of(probes).dom().contains(k)
            ==> !health_map_of(probes)[k],
    decreases probes.len(),
{
    if probes.len() > 0 {
        assert(forall|i: int|
            0 <= i < probes.drop_last().len() ==> !probes.drop_last()[i].1);
        lemma_check_all_unreachable(probes.drop_last());
        assert forall|k: Seq<char>| health_map_of(probes).dom().contains(k)
            implies !health_map_of(probes)[k] by {
            if k == probes.last().0@ {
                assert(!probes[probes.len() - 1].1);
            } else {
                assert(health_map_of(probes.drop_last()).dom().contains(k));
            }
        }
    }
}

/// The decimal digits of `n`, most significant first.
pub open spec fn spec_decimal(n: nat) -> Seq<char>
    decreases n,
{
    if n < 10 {
        spec_digit(n)
    } else {
        spec_decimal(n / 10) + spec_digit(n % 10)
    }
}

/// The character of one decimal digit.
pub open spec fn spec_digit(d: nat) -> Seq<char> {
    if d == 0 {
        "0"@
    } else if d == 1 {
        "1"@
    } else if d == 2 {
        "2"@
    } else if d == 3 {
        "3"@
    } else if d == 4 {
        "4"@
    } else if d == 5 {
        "5"@
    } else if d == 6 {
        "6"@
    } else if d == 7 {
        "7"@
    } else if d == 8 {
        "8"@
    } else {
        "9"@
    }
}

fn digit_str(d: u64) -> (r: &'static str)
    requires
        d < 10,
    ensures
        r@ == spec_digit(d as nat),
{
    if d == 0 {
        "0"
    } else if d == 1 {
        "1"
    } else if d == 2 {
        "2"
    } else if d == 3 {
        "3"
    } else if d == 4 {
        "4"
    } else if d == 5 {
        "5"
    } else if d == 6 {
        "6"
    } else if d == 7 {
        "7"
    } else if d == 8 {
        "8"
    } else {
        "9"
    }
}

/// Renders `n` in decimal.
pub fn decimal_string(n: u64) -> (r: String)
    ensures
        r@ == spec_decimal(n as nat),
    decreases n,
{
    if n < 10 {
        String::from_str(digit_str(n))
    } else {
        let prefix = decimal_string(n / 10);
        prefix.concat(digit_str(n % 10))
    }
}

/// The URL the primary health check targets, for a given configured base:
/// `{base}/healthz`, or the default when the base is empty.
pub open spec fn spec_health_url(base: Seq<char>) -> Seq<char> {
    if base.len() == 0 {
        "http://localhost:8080/healthz"@
    } else {
        base + "/healthz"@
    }
}

/// Builds the URL the primary health check targets from the configured base.
pub fn health_url(base: &String) -> (r: String)
    ensures
        r@ == spec_health_url(base@),
{
    if base.as_str().is_empty() {
        String::from_str("http://localhost:8080/healthz")
    } else {
        base.clone().concat("/healthz")
    }
}

/// Structured report of the primary backend: a status string and, optionally,
/// a per-sub-service status detail. Absence of the detail is valid and means
/// "no sub-service detail reported".
#[derive(Debug, Clone)]
pub struct HealthResponse {
    pub status: String,
    pub services: Option<Vec<(String, String)>>,
}

/// The outcome of one primary probe, as the shell observed it: the transport
/// failed; the transport succeeded with a non-success HTTP status; a success
/// status arrived but the body was not the expected structured shape; or a
/// well-formed report was received.
#[derive(Debug, Clone)]
pub enum PrimaryProbeEvent {
    ConnectFailed(String),
    BadStatus(u16),
    ParseFailed(String),
    Parsed(HealthResponse),
}

/// Classifies one primary probe's outcome. Succeeds exactly when a
/// well-formed report arrived — a successful transport with an unparseable
/// body is a failure, not a partial success — and returns that report
/// unchanged. A transport failure (including a non-success status) becomes
/// `ApiConnectionFailed`; an unparseable body becomes the distinct
/// `ResponseParseFailed`. One attempt per invocation; no retry.
pub fn check_primary(event: PrimaryProbeEvent) -> (r: Result<HealthResponse, AppError>)
    ensures
        r is Ok <==> event is Parsed,
        event matches PrimaryProbeEvent::Parsed(h)
            ==> r == Ok::<HealthResponse, AppError>(h),
        event matches PrimaryProbeEvent::ConnectFailed(cause)
            ==> r == Err::<HealthResponse, AppError>(AppError::ApiConnectionFailed(cause)),
        event matches PrimaryProbeEvent::ParseFailed(cause)
            ==> r == Err::<HealthResponse, AppError>(AppError::ResponseParseFailed(cause)),
        event matches PrimaryProbeEvent::BadStatus(code)
            ==> (r matches Err(e) && e matches AppError::ApiConnectionFailed(s)
                && s@ == "health check failed with HTTP status "@ + spec_decimal(code as nat)),
{
    match event {
        PrimaryProbeEvent::Parsed(h) => Ok(h),
        PrimaryProbeEvent::ConnectFailed(cause) => Err(AppError::ApiConnectionFailed(cause)),
        PrimaryProbeEvent::ParseFailed(cause) => Err(AppError::ResponseParseFailed(cause)),
        PrimaryProbeEvent::BadStatus(code) => {
            let msg = String::from_str("health check failed with HTTP status ").concat(
                decimal_string(code as u64).as_str(),
            );
            Err(AppError::ApiConnectionFailed(msg))
        },
    }
}

/// Law: a primary check that follows a write to the shared configuration
/// targets the URL derived from the written value — never from any value
/// stored before the write.
pub proof fn lemma_set_then_check_targets_new_url(
    cfg: crate::config::SharedRuntimeConfig,
    url: String,
)
    ensures
        spec_health_url(crate::config::spec_set_api_base_url(cfg, url).api_base_url@)
            == spec_health_url(url@),
{
}

} // verus!
