//! The runner selector: reserves a self-hosted runner from one of several
//! interchangeable coordination servers, contacted in a fresh uniformly
//! random order, and falls back to the vendor-hosted runner when no server
//! grants one or when an override says not to ask at all.
//!
//! The selection is a session: [`SelectorSession::begin`] generates and emits
//! the workload identifier and fixes the probe order; the caller then carries
//! each pending probe to its coordination server (the only part the library
//! cannot do itself) and reports what came back with
//! [`SelectorSession::record_outcome`]; [`SelectorSession::finish`] emits and
//! returns the decision once the session is done. The first grant ends the
//! probing: reservations are exclusive, so no further server is consulted.

use vstd::prelude::*;
use vstd::string::StringExecFns;

use rand::seq::SliceRandom;

use crate::errors::CiError;
use crate::identifier;
use crate::results::ResultSink;
use crate::results::result_line;
use crate::results::valid_result_name;
use crate::results::valid_result_value;

verus! {

/// How many coordination servers there are.
pub const SERVER_COUNT: usize = 3;

/// The fixed base address of coordination server `i`.
pub open spec fn spec_server_base_url(i: int) -> Seq<char> {
    if i == 0 {
        "https://ci0.servo.org"@
    } else if i == 1 {
        "https://ci1.servo.org"@
    } else {
        "https://ci2.servo.org"@
    }
}

/// The fixed base address of coordination server `i`.
pub fn server_base_url(i: usize) -> (r: &'static str)
    requires
        i < SERVER_COUNT,
    ensures
        r@ == spec_server_base_url(i as int),
{
    if i == 0 {
        "https://ci0.servo.org"
    } else if i == 1 {
        "https://ci1.servo.org"
    } else {
        "https://ci2.servo.org"
    }
}

/// What the selector needs to know to pick a runner.
#[derive(Debug, Clone)]
pub struct SelectionInput {
    pub github_repository: String,
    pub github_run_id: String,
    pub monitor_api_token: String,
    pub github_hosted_runner_label: String,
    pub self_hosted_image_name: String,
    pub force_github_hosted_runner: bool,
}

/// The selector's decision: the label to dispatch the job on, and whether it
/// names a reserved self-hosted runner.
#[derive(Debug, Clone)]
pub struct RunnerDecision {
    pub selected_runner_label: String,
    pub is_self_hosted: bool,
}

/// What one reservation probe of a coordination server came back with:
/// either a failure of any kind before a well-formed 2xx response (network,
/// timeout, non-2xx status), or the body of a 2xx response.
#[derive(Debug, Clone)]
pub enum AttemptOutcome {
    TransportFailure,
    Body(String),
}

/// Relies on `rand`'s `SliceRandom::shuffle` with `rand::rng()`: it permutes
/// the slice in place, uniformly over all permutations. The order is random,
/// so only the permutation itself is promised.
#[verifier::external_body]
fn shuffle_indices(v: &mut Vec<usize>)
    ensures
        final(v)@.to_multiset() == old(v)@.to_multiset(),
{
    v.as_mut_slice().shuffle(&mut rand::rng());
}

/// What a response body means, named for `serde_json`: `None` when the text
/// is not well-formed JSON, otherwise `Some` of whether the parsed value is
/// the JSON null.
pub uninterp spec fn json_null_verdict(s: Seq<char>) -> Option<bool>;

/// Relies on `serde_json::from_str::<Value>`: whether a text parses as JSON,
/// and whether the parsed value is the JSON null, depend on the text alone.
#[verifier::external_body]
fn classify_json_body(body: &str) -> (r: Option<bool>)
    ensures
        r == json_null_verdict(body@),
{
    match serde_json::from_str::<serde_json::Value>(body) {
        Ok(serde_json::Value::Null) => Some(true),
        Ok(_) => Some(false),
        Err(_) => None,
    }
}

/// A probe outcome grants a self-hosted runner exactly when the server
/// answered 2xx with a well-formed JSON body other than null: null means "no
/// runner currently available", every failure is recoverable for that server.
pub open spec fn outcome_grants(o: AttemptOutcome) -> bool {
    match o {
        AttemptOutcome::TransportFailure => false,
        AttemptOutcome::Body(s) => json_null_verdict(s@) == Some(false),
    }
}

/// Whether one probe outcome grants a self-hosted runner.
pub fn outcome_is_grant(o: &AttemptOutcome) -> (r: bool)
    ensures
        r == outcome_grants(*o),
{
    match o {
        AttemptOutcome::TransportFailure => false,
        AttemptOutcome::Body(s) => {
            match classify_json_body(s.as_str()) {
                Some(is_null) => !is_null,
                None => false,
            }
        },
    }
}

/// The label of a runner reserved for the workload `id`.
pub open spec fn reserved_label(id: Seq<char>) -> Seq<char> {
    "reserved-for:"@ + id
}

/// The reservation endpoint for one probe: the server's base address plus
/// the image to take and the request's correlation fields.
pub open spec fn probe_url(
    base: Seq<char>,
    image: Seq<char>,
    id: Seq<char>,
    repo: Seq<char>,
    run_id: Seq<char>,
) -> Seq<char> {
    base + "/profile/"@ + image + "/take?unique_id="@ + id + "&qualified_repo="@ + repo
        + "&run_id="@ + run_id
}

/// The text a boolean result is emitted as.
pub open spec fn spec_bool_text(b: bool) -> Seq<char> {
    if b {
        "true"@
    } else {
        "false"@
    }
}

/// One selection in progress.
pub struct SelectorSession {
    pub unique_id: String,
    pub github_repository: String,
    pub github_run_id: String,
    pub monitor_api_token: String,
    pub github_hosted_runner_label: String,
    pub self_hosted_image_name: String,
    /// The fresh random order in which the servers are consulted.
    pub order: Vec<usize>,
    /// How many probes have been carried out.
    pub attempted: usize,
    /// Whether a probe granted a self-hosted runner.
    pub granted: bool,
    /// Whether the overrides told the session to skip probing entirely.
    pub skipped: bool,
    /// The outcomes reported so far, in order.
    pub history: Ghost<Seq<AttemptOutcome>>,
}

impl SelectorSession {
    /// The session's structural invariant: the identifier is well formed, the
    /// probe order is a permutation of the server indices, and the counters
    /// agree with the recorded history.
    pub open spec fn wf(self) -> bool {
        &&& identifier::valid_identifier(self.unique_id@)
        &&& self.order@.to_multiset() == seq![0usize, 1usize, 2usize].to_multiset()
        &&& self.order@.len() == SERVER_COUNT
        &&& forall|i: int| 0 <= i < self.order@.len() ==> self.order@[i] < SERVER_COUNT
        &&& self.attempted <= self.order@.len()
        &&& self.attempted == self.history@.len()
        &&& (self.skipped ==> self.attempted == 0 && !self.granted)
        &&& (self.granted ==> self.attempted >= 1)
    }

    /// The recorded history explains the `granted` flag: a probe granted a
    /// runner exactly when it was the last one and ended the probing.
    pub open spec fn history_faithful(self) -> bool {
        forall|i: int|
            0 <= i < self.history@.len() ==> (outcome_grants(#[trigger] self.history@[i]) <==> (
            self.granted && i == self.history@.len() - 1))
    }

    /// No further probe is owed: the overrides skipped probing, a server
    /// granted a runner, or every server has been consulted.
    pub open spec fn done(self) -> bool {
        self.skipped || self.granted || self.attempted >= self.order@.len()
    }

    /// The label the finished session decides on.
    pub open spec fn spec_decision_label(self) -> Seq<char> {
        if self.granted {
            reserved_label(self.unique_id@)
        } else {
            self.github_hosted_runner_label@
        }
    }

    /// What `begin` promises: a fresh, faithful session carrying the input,
    /// with the generated identifier already emitted to the sink, and probing
    /// skipped exactly when an override asked for the vendor-hosted runner.
    pub open spec fn begin_post(
        self,
        input: SelectionInput,
        self_hosted_disabled: bool,
        old_sink: Seq<Seq<char>>,
        new_sink: Seq<Seq<char>>,
    ) -> bool {
        &&& self.wf()
        &&& self.history_faithful()
        &&& self.history@ == Seq::<AttemptOutcome>::empty()
        &&& self.attempted == 0
        &&& !self.granted
        &&& self.skipped == (self_hosted_disabled || input.force_github_hosted_runner)
        &&& self.github_repository@ == input.github_repository@
        &&& self.github_run_id@ == input.github_run_id@
        &&& self.monitor_api_token@ == input.monitor_api_token@
        &&& self.github_hosted_runner_label@ == input.github_hosted_runner_label@
        &&& self.self_hosted_image_name@ == input.self_hosted_image_name@
        &&& new_sink == old_sink.push(result_line("unique_id"@, self.unique_id@))
    }

    /// Starts a selection: generates the workload identifier, emits it at
    /// once (it must reach the sink even if selection later falls back), and
    /// fixes a fresh uniformly random probe order. When the operator override
    /// or the caller's force flag is set, the session begins already done, so
    /// no probe is ever pending: override checks never depend on the network.
    pub fn begin(input: SelectionInput, self_hosted_disabled: bool, sink: &mut ResultSink) -> (s:
        SelectorSession)
        ensures
            s.begin_post(input, self_hosted_disabled, old(sink)@, final(sink)@),
    {
        let unique_id = identifier::generate_identifier();
        proof {
            identifier::lemma_identifier_is_result_value(unique_id@);
            assert(valid_result_name("unique_id"@)) by {
                reveal_strlit("unique_id");
            }
        }
        let emitted = sink.emit_result("unique_id", unique_id.as_str());
        proof {
            assert(emitted is Ok);
        }
        let mut order: Vec<usize> = Vec::new();
        order.push(0);
        order.push(1);
        order.push(2);
        proof {
            assert(order@ =~= seq![0usize, 1usize, 2usize]);
        }
        shuffle_indices(&mut order);
        proof {
            broadcast use vstd::seq_lib::group_to_multiset_ensures;

            assert forall|i: int| 0 <= i < order@.len() implies order@[i] < SERVER_COUNT by {
                assert(order@.contains(order@[i]));
                assert(order@.to_multiset().count(order@[i]) > 0);
                assert(seq![0usize, 1usize, 2usize].contains(order@[i]));
            }
            assert(order@.len() == order@.to_multiset().len());
            assert(seq![0usize, 1usize, 2usize].len() == seq![0usize, 1usize,
                2usize,
            ].to_multiset().len());
        }
        let skipped = self_hosted_disabled || input.force_github_hosted_runner;
        let SelectionInput {
            github_repository,
            github_run_id,
            monitor_api_token,
            github_hosted_runner_label,
            self_hosted_image_name,
            force_github_hosted_runner: _,
        } = input;
        SelectorSession {
            unique_id,
            github_repository,
            github_run_id,
            monitor_api_token,
            github_hosted_runner_label,
            self_hosted_image_name,
            order,
            attempted: 0,
            granted: false,
            skipped,
            history: Ghost(Seq::empty()),
        }
    }

    /// The reservation endpoint the session asks the caller to probe next,
    /// or `None` exactly when the session is done and no probe may be made.
    pub fn pending_probe(&self) -> (r: Option<String>)
        requires
            self.wf(),
        ensures
            (r is Some) == !self.done(),
            r matches Some(url) ==> url@ == probe_url(
                spec_server_base_url(self.order@[self.attempted as int] as int),
                self.self_hosted_image_name@,
                self.unique_id@,
                self.github_repository@,
                self.github_run_id@,
            ),
    {
        if self.skipped || self.granted || self.attempted >= self.order.len() {
            return None;
        }
        let base = server_base_url(self.order[self.attempted]);
        let mut url = String::new();
        url.append(base);
        url.append("/profile/");
        url.append(self.self_hosted_image_name.as_str());
        url.append("/take?unique_id=");
        url.append(self.unique_id.as_str());
        url.append("&qualified_repo=");
        url.append(self.github_repository.as_str());
        url.append("&run_id=");
        url.append(self.github_run_id.as_str());
        proof {
            assert(url@ =~= probe_url(
                spec_server_base_url(self.order@[self.attempted as int] as int),
                self.self_hosted_image_name@,
                self.unique_id@,
                self.github_repository@,
                self.github_run_id@,
            ));
        }
        Some(url)
    }

    /// Records what the pending probe came back with. A grant ends the
    /// probing at once — reservations are exclusive, so the remaining
    /// servers are not consulted; every failure and the JSON null body are
    /// recoverable for that one server, and the session moves on to the next.
    pub fn record_outcome(&mut self, outcome: &AttemptOutcome)
        requires
            old(self).wf(),
            !old(self).done(),
        ensures
            final(self).wf(),
            old(self).history_faithful() ==> final(self).history_faithful(),
            final(self).history@ == old(self).history@.push(*outcome),
            final(self).granted == outcome_grants(*outcome),
            final(self).attempted == old(self).attempted + 1,
            final(self).skipped == old(self).skipped,
            final(self).order == old(self).order,
            final(self).unique_id == old(self).unique_id,
            final(self).github_repository == old(self).github_repository,
            final(self).github_run_id == old(self).github_run_id,
            final(self).monitor_api_token == old(self).monitor_api_token,
            final(self).github_hosted_runner_label == old(self).github_hosted_runner_label,
            final(self).self_hosted_image_name == old(self).self_hosted_image_name,
    {
        let grant = outcome_is_grant(outcome);
        self.granted = grant;
        self.attempted = self.attempted + 1;
        proof {
            self.history@ = self.history@.push(*outcome);
        }
    }

    /// What `finish` promises of a decision it returns.
    pub open spec fn finish_decision_post(
        self,
        d: RunnerDecision,
        old_sink: Seq<Seq<char>>,
        new_sink: Seq<Seq<char>>,
    ) -> bool {
        &&& d.is_self_hosted == self.granted
        &&& d.selected_runner_label@ == self.spec_decision_label()
        &&& new_sink == old_sink.push(
            result_line("selected_runner_label"@, self.spec_decision_label()),
        ).push(result_line("is_self_hosted"@, spec_bool_text(self.granted)))
    }

    /// Emits and returns the decision of a finished session: the reserved
    /// label when a server granted a runner, else the caller-supplied
    /// vendor-hosted label. Fails, writing nothing, exactly when the fallback
    /// is taken and the vendor-hosted label itself breaks the sink's format.
    pub fn finish(self, sink: &mut ResultSink) -> (r: Result<RunnerDecision, CiError>)
        requires
            self.wf(),
            self.done(),
        ensures
            (r is Ok) == (self.granted || valid_result_value(
                self.github_hosted_runner_label@,
            )),
            r matches Ok(d) ==> self.finish_decision_post(d, old(sink)@, final(sink)@),
            r is Err ==> final(sink)@ == old(sink)@ && r == Err::<RunnerDecision, CiError>(
                CiError::InvalidResult,
            ) && !self.granted,
    {
        proof {
            assert(valid_result_name("selected_runner_label"@)) by {
                reveal_strlit("selected_runner_label");
            }
            assert(valid_result_name("is_self_hosted"@)) by {
                reveal_strlit("is_self_hosted");
            }
            assert(valid_result_value("true"@)) by {
                reveal_strlit("true");
            }
            assert(valid_result_value("false"@)) by {
                reveal_strlit("false");
            }
        }
        let label: String;
        let flag_text: &'static str;
        if self.granted {
            let mut reserved = String::new();
            reserved.append("reserved-for:");
            reserved.append(self.unique_id.as_str());
            proof {
                assert(reserved@ =~= reserved_label(self.unique_id@));
                assert(valid_result_value(reserved@)) by {
                    reveal_strlit("reserved-for:");
                    assert forall|i: int| 0 <= i < reserved@.len() implies reserved@[i] != '\n' by {
                        if i >= "reserved-for:"@.len() {
                            assert(identifier::identifier_char(
                                self.unique_id@[i - "reserved-for:"@.len()],
                            ));
                        }
                    }
                    assert(reserved@[0] == 'r');
                }
            }
            label = reserved;
            flag_text = "true";
        } else {
            label = self.github_hosted_runner_label.clone();
            flag_text = "false";
        }
        let emitted_label = sink.emit_result("selected_runner_label", label.as_str());
        if let Err(e) = emitted_label {
            return Err(e);
        }
        let emitted_flag = sink.emit_result("is_self_hosted", flag_text);
        proof {
            assert(emitted_flag is Ok);
        }
        Ok(RunnerDecision { selected_runner_label: label, is_self_hosted: self.granted })
    }
}

/// The decision of a finished, faithfully recorded session is self-hosted
/// exactly when some probe's response granted a runner — and then the label
/// is the reservation tag carrying this run's identifier; otherwise the
/// label is the vendor-hosted fallback.
pub proof fn lemma_decision_characterisation(s: SelectorSession)
    requires
        s.wf(),
        s.done(),
        s.history_faithful(),
    ensures
        s.granted <==> exists|i: int|
            0 <= i < s.history@.len() && outcome_grants(#[trigger] s.history@[i]),
        s.granted ==> s.spec_decision_label() == reserved_label(s.unique_id@),
        !s.granted ==> s.spec_decision_label() == s.github_hosted_runner_label@,
{
    if s.granted {
        assert(outcome_grants(s.history@[s.history@.len() - 1]));
    }
}

/// When the operator override or the force flag skipped probing, the session
/// is done at once with an empty history: no probe is ever pending, and the
/// decision is the vendor-hosted fallback.
pub proof fn lemma_override_skips_network(s: SelectorSession)
    requires
        s.wf(),
        s.skipped,
    ensures
        s.done(),
        s.history@.len() == 0,
        !s.granted,
        s.spec_decision_label() == s.github_hosted_runner_label@,
{
}

/// Selection holds no hidden state: two finished sessions whose probes all
/// came back without a grant (for instance, against servers that always
/// answer null) decide on the same vendor-hosted fallback whenever their
/// fallback labels agree.
pub proof fn lemma_fallback_deterministic(s1: SelectorSession, s2: SelectorSession)
    requires
        s1.wf(),
        s2.wf(),
        s1.done(),
        s2.done(),
        s1.history_faithful(),
        s2.history_faithful(),
        s1.github_hosted_runner_label@ == s2.github_hosted_runner_label@,
    ensures
        (forall|i: int| 0 <= i < s1.history@.len() ==> !outcome_grants(#[trigger] s1.history@[i]))
            && (forall|i: int|
            0 <= i < s2.history@.len() ==> !outcome_grants(#[trigger] s2.history@[i])) ==> (
        !s1.granted && !s2.granted && s1.spec_decision_label() == s2.spec_decision_label()),
{
    if (forall|i: int| 0 <= i < s1.history@.len() ==> !outcome_grants(#[trigger] s1.history@[i]))
        && (forall|i: int|
        0 <= i < s2.history@.len() ==> !outcome_grants(#[trigger] s2.history@[i])) {
        if s1.granted {
            assert(outcome_grants(s1.history@[s1.history@.len() - 1]));
        }
        if s2.granted {
            assert(outcome_grants(s2.history@[s2.history@.len() - 1]));
        }
    }
}

/// The servers are consulted in a permutation of the fixed address set:
/// every server index occurs exactly once in the probe order.
pub proof fn lemma_probe_order_is_permutation(s: SelectorSession)
    requires
        s.wf(),
    ensures
        s.order@.to_multiset() == seq![0usize, 1usize, 2usize].to_multiset(),
        s.order@.len() == SERVER_COUNT,
{
}

} // verus!
