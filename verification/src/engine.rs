//! The target rule engine. A target is probed over HTTP by the caller;
//! the engine decides which fetches happen (exclusion and condition
//! gates), evaluates every keyword rule against the response, and
//! aggregates the per-target results in configuration order.

use vstd::prelude::*;

use crate::condition::{evaluate_condition, spec_condition_eval, Condition};
use crate::jsonq::{
    extract_scalar, extracted_of, json_parses, json_text_parses, JsonScalar, QueryOutcome,
};
use crate::rule::{
    parse_exp, match_literal, spec_exp_format, spec_exp_marker, spec_exp_ok, spec_exp_path,
    spec_exp_value, spec_literal_message,
};
use crate::text::{
    pairs_sorted_by_key, spec_strip_bom, spec_u64_string, str_eq, u64_to_string, StripBom,
};
use crate::timecheck::{process_time_value, spec_time_matched, spec_time_value_message, NowInfo};

verus! {

/// One probed endpoint: its keyword rules (name to rule expression, in a
/// fixed order), whether a bearer token is attached, whether the target is
/// excluded entirely, and an optional condition gate.
pub struct Target {
    pub name: String,
    pub url: String,
    pub auth: bool,
    pub keywords: Vec<(String, String)>,
    pub exclude: bool,
    pub condition: Option<Condition>,
}

impl Target {
    /// The ordered-map shape the configuration guarantees: keyword keys
    /// strictly increasing (hence unique), and likewise the condition's
    /// variable names.
    pub open spec fn wf(&self) -> bool {
        &&& pairs_sorted_by_key(self.keywords@)
        &&& match self.condition {
            Some(c) => c.wf(),
            None => true,
        }
    }
}

/// The verdict for one keyword: whether extraction found a value, whether
/// the value satisfied the rule, and a human-readable explanation.
pub struct MatchResult {
    pub keyword: String,
    pub found: bool,
    pub matched: bool,
    pub message: String,
}

/// The outcome for one target: the HTTP verdict and the keyword results.
/// `success` and `status` reflect the fetch alone, independent of whether
/// the individual keyword matches passed.
pub struct TargetResult {
    pub name: String,
    pub success: bool,
    pub status: u16,
    pub auth: bool,
    pub match_result: Vec<MatchResult>,
    pub message: String,
}

/// What the caller's HTTP fetch of a target produced: a network failure
/// with its error text, or a response with its status code and body.
pub enum FetchOutcome {
    Failure(String),
    Response(u16, String),
}

/// Whether a status code counts as success, as HTTP 2xx does.
pub open spec fn spec_is_success_status(status: u16) -> bool {
    200 <= status < 300
}

pub fn is_success_status(status: u16) -> (r: bool)
    ensures
        r == spec_is_success_status(status),
{
    200 <= status && status < 300
}

/// Whether a keyword evaluation produces an entry: only a well-formed
/// rule whose path extraction found a scalar does.
pub open spec fn spec_keyword_has_result(rule: Seq<char>, outcome: QueryOutcome) -> bool {
    spec_exp_ok(rule) && outcome is Found
}

/// Whether the extracted scalar satisfies the rule: a `"T"` marker asks
/// for the time-threshold check, any other marker for literal equality of
/// the scalar's canonical text with the rule's value.
pub open spec fn spec_keyword_matched(rule: Seq<char>, scalar: JsonScalar, now: NowInfo) -> bool {
    if spec_exp_marker(rule) == "T"@ {
        spec_time_matched(
            spec_exp_format(rule),
            spec_exp_value(rule),
            crate::jsonq::spec_scalar_text(scalar),
            now,
        )
    } else {
        crate::jsonq::spec_scalar_text(scalar) == spec_exp_value(rule)
    }
}

/// The explanation attached to a keyword verdict.
pub open spec fn spec_keyword_message(rule: Seq<char>, scalar: JsonScalar, now: NowInfo) -> Seq<
    char,
> {
    let text = crate::jsonq::spec_scalar_text(scalar);
    if spec_exp_marker(rule) == "T"@ {
        spec_time_value_message(spec_exp_format(rule), spec_exp_value(rule), text, now)
    } else {
        spec_literal_message(text, spec_exp_value(rule), text == spec_exp_value(rule))
    }
}

/// Evaluate one keyword rule against what its path query extracted. A
/// malformed rule, a missing node and a non-scalar node all yield no
/// entry; only extraction success produces one.
pub fn keyword_result(keyword: &str, rule: &str, outcome: QueryOutcome, now: &NowInfo) -> (r:
    Option<MatchResult>)
    requires
        now.wf(),
    ensures
        r is Some <==> spec_keyword_has_result(rule@, outcome),
        r is Some ==> r->0.keyword@ == keyword@,
        r is Some ==> r->0.found == true,
        r is Some ==> r->0.matched == spec_keyword_matched(rule@, outcome->Found_0, *now),
        r is Some ==> r->0.message@ == spec_keyword_message(rule@, outcome->Found_0, *now),
{
    let exp = match parse_exp(rule) {
        Ok(e) => e,
        Err(_) => {
            return None;
        },
    };
    let scalar = match outcome {
        QueryOutcome::Found(s) => s,
        _ => {
            return None;
        },
    };
    let text = crate::jsonq::scalar_text(&scalar);
    let time_based = str_eq(exp.marker.as_str(), "T");
    let (matched, message) = if time_based {
        process_time_value(&exp, text.as_str(), now)
    } else {
        match_literal(text.as_str(), exp.value.as_str())
    };
    Some(MatchResult { keyword: keyword.to_owned(), found: true, matched, message })
}

/// The message reported with a non-success response: the status code and
/// the body.
pub open spec fn spec_status_message(status: u16, body: Seq<char>) -> Seq<char> {
    spec_u64_string(status as nat) + " "@ + body
}

/// The message reported when a success response does not hold JSON.
pub open spec fn spec_invalid_body_message() -> Seq<char> {
    "response body is not valid JSON"@
}

/// Whether a keyword produces an entry over a body: its rule is well
/// formed and the extraction at the rule's path found a scalar.
pub open spec fn spec_entry_exists(clean: Seq<char>, rule: Seq<char>) -> bool {
    spec_exp_ok(rule) && extracted_of(clean, spec_exp_path(rule)) is Found
}

/// The indices of the keywords that produce entries over a body, in
/// configuration order.
pub open spec fn spec_selected_keywords(clean: Seq<char>, keywords: Seq<(String, String)>) -> Seq<
    int,
>
    decreases keywords.len(),
{
    if keywords.len() == 0 {
        Seq::empty()
    } else {
        let init = spec_selected_keywords(clean, keywords.drop_last());
        if spec_entry_exists(clean, keywords.last().1@) {
            init.push(keywords.len() - 1)
        } else {
            init
        }
    }
}

/// The entry one keyword owes over a body: its name, an extraction hit,
/// and exactly the verdict and message its rule gives the extracted
/// scalar.
pub open spec fn spec_entry_for(
    clean: Seq<char>,
    keyword: (String, String),
    now: NowInfo,
    entry: MatchResult,
) -> bool {
    match extracted_of(clean, spec_exp_path(keyword.1@)) {
        QueryOutcome::Found(s) => {
            &&& entry.keyword@ == keyword.0@
            &&& entry.found == true
            &&& entry.matched == spec_keyword_matched(keyword.1@, s, now)
            &&& entry.message@ == spec_keyword_message(keyword.1@, s, now)
        },
        _ => false,
    }
}

/// Everything a target's result owes to its fetch outcome: a network
/// failure or a non-success response is reported exactly, with no keyword
/// entries; a success response whose body is not JSON is marked and has
/// no entries; otherwise the entries are exactly one per keyword whose
/// rule is well formed and whose extraction found a scalar, in keyword
/// order, each carrying the verdict and message its own rule gives that
/// scalar.
pub open spec fn tr_matches(
    target: Target,
    outcome: FetchOutcome,
    now: NowInfo,
    tr: TargetResult,
) -> bool {
    &&& tr.name@ == target.name@
    &&& tr.auth == target.auth
    &&& match outcome {
        FetchOutcome::Failure(err) => {
            &&& tr.success == false
            &&& tr.status == 400
            &&& tr.match_result@.len() == 0
            &&& tr.message@ == err@
        },
        FetchOutcome::Response(status, body) => {
            &&& tr.status == status
            &&& tr.success == spec_is_success_status(status)
            &&& (!spec_is_success_status(status) ==> tr.match_result@.len() == 0 && tr.message@
                == spec_status_message(status, body@))
            &&& (spec_is_success_status(status) ==> {
                let clean = spec_strip_bom(body@);
                &&& (!json_parses(clean) ==> tr.match_result@.len() == 0 && tr.message@
                    == spec_invalid_body_message())
                &&& (json_parses(clean) ==> {
                    let sel = spec_selected_keywords(clean, target.keywords@);
                    &&& tr.message@ == Seq::<char>::empty()
                    &&& tr.match_result@.len() == sel.len()
                    &&& (forall|j: int|
                        0 <= j < sel.len() ==> spec_entry_for(
                            clean,
                            target.keywords@[sel[j]],
                            now,
                            #[trigger] tr.match_result@[j],
                        ))
                })
            })
        },
    }
}

/// Evaluate a target against the outcome of its fetch. A network failure
/// reports status 400 with the error text; a non-success response reports
/// its status and body; a success response has its body parsed as JSON
/// (tolerating a byte-order mark) and every keyword rule evaluated, in
/// order, against the document.
pub fn evaluate_target(target: &Target, outcome: FetchOutcome, now: &NowInfo) -> (r: TargetResult)
    requires
        now.wf(),
        target.wf(),
    ensures
        tr_matches(*target, outcome, *now, r),
{
    match outcome {
        FetchOutcome::Failure(err) => TargetResult {
            name: target.name.clone(),
            success: false,
            status: 400,
            auth: target.auth,
            match_result: Vec::new(),
            message: err,
        },
        FetchOutcome::Response(status, body) => {
            if !is_success_status(status) {
                let mut message = u64_to_string(status as u64);
                message.append(" ");
                message.append(body.as_str());
                proof {
                    assert(message@ =~= spec_status_message(status, body@));
                }
                TargetResult {
                    name: target.name.clone(),
                    success: false,
                    status,
                    auth: target.auth,
                    match_result: Vec::new(),
                    message,
                }
            } else {
                let clean = body.strip_bom();
                if !json_text_parses(clean.as_str()) {
                    let note = "response body is not valid JSON";
                    TargetResult {
                        name: target.name.clone(),
                        success: true,
                        status,
                        auth: target.auth,
                        match_result: Vec::new(),
                        message: note.to_owned(),
                    }
                } else {
                    {
                        let mut entries: Vec<MatchResult> = Vec::new();
                        let ghost mut origin: Seq<int> = Seq::empty();
                        let mut k: usize = 0;
                        proof {
                            assert(target.keywords@.subrange(0, 0) =~= Seq::<
                                (String, String),
                            >::empty());
                        }
                        while k < target.keywords.len()
                            invariant
                                now.wf(),
                                0 <= k <= target.keywords@.len(),
                                origin == spec_selected_keywords(
                                    clean@,
                                    target.keywords@.subrange(0, k as int),
                                ),
                                entries@.len() == origin.len(),
                                forall|j: int|
                                    0 <= j < origin.len() ==> 0 <= #[trigger] origin[j]
                                        < target.keywords@.len(),
                                forall|j: int|
                                    0 <= j < origin.len() ==> spec_entry_for(
                                        clean@,
                                        target.keywords@[origin[j]],
                                        *now,
                                        #[trigger] entries@[j],
                                    ),
                            decreases target.keywords@.len() - k,
                        {
                            let name = &target.keywords[k].0;
                            let rule = &target.keywords[k].1;
                            let outcome = {
                                let e = parse_exp(rule.as_str());
                                match e {
                                    Ok(exp) => extract_scalar(
                                        clean.as_str(),
                                        exp.json_path.as_str(),
                                    ),
                                    Err(_) => QueryOutcome::Missing,
                                }
                            };
                            let ghost osnap = outcome;
                            let ghost pre = entries@;
                            let ghost pre_origin = origin;
                            proof {
                                let prefix1 = target.keywords@.subrange(0, k + 1);
                                assert(prefix1.drop_last() =~= target.keywords@.subrange(
                                    0,
                                    k as int,
                                ));
                                assert(prefix1.last() == target.keywords@[k as int]);
                            }
                            match keyword_result(name.as_str(), rule.as_str(), outcome, now) {
                                Some(entry) => {
                                    proof {
                                        let kw = target.keywords@[k as int];
                                        assert(spec_exp_ok(kw.1@));
                                        assert(osnap == extracted_of(
                                            clean@,
                                            spec_exp_path(kw.1@),
                                        ));
                                        assert(spec_entry_exists(clean@, kw.1@));
                                        assert(spec_entry_for(clean@, kw, *now, entry));
                                    }
                                    entries.push(entry);
                                    proof {
                                        origin = origin.push(k as int);
                                        assert(entries@[pre.len() as int] == entry);
                                        assert(origin == spec_selected_keywords(
                                            clean@,
                                            target.keywords@.subrange(0, k + 1),
                                        ));
                                        assert forall|j: int|
                                            0 <= j < pre_origin.len() implies spec_entry_for(
                                            clean@,
                                            target.keywords@[origin[j]],
                                            *now,
                                            #[trigger] entries@[j],
                                        ) by {
                                            assert(entries@[j] == pre[j]);
                                            assert(origin[j] == pre_origin[j]);
                                            assert(spec_entry_for(
                                                clean@,
                                                target.keywords@[pre_origin[j]],
                                                *now,
                                                pre[j],
                                            ));
                                        }
                                    }
                                },
                                None => {
                                    proof {
                                        let kw = target.keywords@[k as int];
                                        assert(!spec_entry_exists(clean@, kw.1@));
                                        assert(origin == spec_selected_keywords(
                                            clean@,
                                            target.keywords@.subrange(0, k + 1),
                                        ));
                                    }
                                },
                            }
                            k = k + 1;
                        }
                        let ghost snap = entries@;
                        let result = TargetResult {
                            name: target.name.clone(),
                            success: true,
                            status,
                            auth: target.auth,
                            match_result: entries,
                            message: String::new(),
                        };
                        proof {
                            assert(target.keywords@.subrange(
                                0,
                                target.keywords@.len() as int,
                            ) =~= target.keywords@);
                            assert(result.match_result@ == snap);
                        }
                        result
                    }
                }
            }
        },
    }
}

/// What the driver must do next: probe a condition url, fetch a target
/// (optionally with the bearer token), or stop.
pub enum EngineAction {
    FetchCondition { url: String },
    FetchTarget { url: String, auth: bool },
    Finished,
}

/// The per-tick state machine over a target list. The caller performs the
/// fetches the engine asks for and hands back the outcomes; the engine
/// decides which targets run (exclusion, condition gates) and aggregates
/// their results in configuration order.
pub struct Engine {
    pub targets: Vec<Target>,
    pub pos: usize,
    pub awaiting_gate: bool,
    pub results: Vec<TargetResult>,
    pub origins: Ghost<Seq<int>>,
    pub gated: Ghost<Seq<int>>,
}

impl Engine {
    /// Every recorded result originates from a distinct, non-excluded
    /// target before the cursor, in configuration order, and carries that
    /// target's name.
    pub open spec fn results_inv(&self) -> bool {
        &&& self.origins@.len() == self.results@.len()
        &&& (forall|j: int|
            0 <= j < self.origins@.len() ==> 0 <= #[trigger] self.origins@[j]
                < self.targets@.len())
        &&& (forall|j: int|
            0 <= j < self.origins@.len() ==> #[trigger] self.origins@[j] < self.pos as int)
        &&& (forall|j: int|
            0 <= j < self.origins@.len() ==> !self.targets@[#[trigger] self.origins@[j]].exclude)
        &&& (forall|j: int|
            0 <= j < self.origins@.len() ==> (#[trigger] self.results@[j]).name@ == self.targets@[
                self.origins@[j]].name@)
        &&& (forall|j1: int, j2: int|
            0 <= j1 < j2 < self.origins@.len() ==> #[trigger] self.origins@[j1]
                < #[trigger] self.origins@[j2])
    }

    /// Every target behind the cursor is accounted for: it was excluded,
    /// it contributed a result, or its condition probe turned it away
    /// (and only a target with a condition can be turned away).
    pub open spec fn coverage_inv(&self) -> bool {
        &&& (forall|i: int|
            0 <= i < self.pos as int ==> (#[trigger] self.targets@[i]).exclude
                || self.origins@.contains(i) || self.gated@.contains(i))
        &&& (forall|j: int|
            0 <= j < self.gated@.len() ==> 0 <= #[trigger] self.gated@[j] < self.targets@.len()
                && self.targets@[self.gated@[j]].condition is Some)
    }

    /// Every configured target keeps its ordered-map shape.
    pub open spec fn targets_wf(&self) -> bool {
        forall|i: int| 0 <= i < self.targets@.len() ==> (#[trigger] self.targets@[i]).wf()
    }

    /// The cursor never rests on an excluded target, a pending gate only
    /// exists for a target that has a condition, and the recorded results
    /// satisfy [`Engine::results_inv`].
    pub open spec fn wf(&self) -> bool {
        &&& self.pos <= self.targets@.len()
        &&& (self.pos < self.targets@.len() ==> !self.targets@[self.pos as int].exclude)
        &&& (self.awaiting_gate ==> self.pos < self.targets@.len() && self.targets@[
            self.pos as int].condition is Some)
        &&& self.results_inv()
        &&& self.coverage_inv()
        &&& self.targets_wf()
    }

    /// Move the cursor past excluded targets and mark whether the target
    /// it rests on still needs its gate decided.
    fn settle_position(&mut self)
        requires
            old(self).pos <= old(self).targets@.len(),
            old(self).results_inv(),
            old(self).coverage_inv(),
            old(self).targets_wf(),
        ensures
            final(self).targets == old(self).targets,
            final(self).results == old(self).results,
            final(self).origins == old(self).origins,
            final(self).wf(),
            final(self).pos >= old(self).pos,
            forall|i: int|
                old(self).pos <= i < final(self).pos ==> final(self).targets@[i].exclude,
    {
        while self.pos < self.targets.len() && self.targets[self.pos].exclude
            invariant
                self.pos <= self.targets@.len(),
                self.targets == old(self).targets,
                self.results == old(self).results,
                self.origins == old(self).origins,
                self.awaiting_gate == old(self).awaiting_gate,
                self.results_inv(),
                self.coverage_inv(),
                self.gated == old(self).gated,
                self.pos >= old(self).pos,
                forall|i: int| old(self).pos <= i < self.pos ==> self.targets@[i].exclude,
            decreases self.targets@.len() - self.pos,
        {
            self.pos = self.pos + 1;
        }
        let here = self.pos < self.targets.len();
        self.awaiting_gate = here && self.targets[self.pos].condition.is_some();
    }

    /// Start a tick over the configured targets, which carry the ordered
    /// maps the configuration loader yields.
    pub fn new(targets: Vec<Target>) -> (r: Engine)
        requires
            forall|i: int| 0 <= i < targets@.len() ==> (#[trigger] targets@[i]).wf(),
        ensures
            r.wf(),
            r.targets == targets,
            r.results@.len() == 0,
            forall|i: int| 0 <= i < r.pos ==> r.targets@[i].exclude,
    {
        let mut e = Engine {
            targets,
            pos: 0,
            awaiting_gate: false,
            results: Vec::new(),
            origins: Ghost(Seq::empty()),
            gated: Ghost(Seq::empty()),
        };
        e.settle_position();
        e
    }

    /// The action owed in the current state.
    pub open spec fn spec_action_ok(&self, r: EngineAction) -> bool {
        if self.pos == self.targets@.len() {
            r is Finished
        } else {
            let t = self.targets@[self.pos as int];
            if self.awaiting_gate {
                match (t.condition, r) {
                    (Some(c), EngineAction::FetchCondition { url }) => url@ == c.url@,
                    _ => false,
                }
            } else {
                match r {
                    EngineAction::FetchTarget { url, auth } => url@ == t.url@ && auth == t.auth,
                    _ => false,
                }
            }
        }
    }

    /// What the driver must do next.
    pub fn next_action(&self) -> (r: EngineAction)
        requires
            self.wf(),
        ensures
            self.spec_action_ok(r),
    {
        if self.pos >= self.targets.len() {
            return EngineAction::Finished;
        }
        if self.awaiting_gate {
            match &self.targets[self.pos].condition {
                Some(c) => EngineAction::FetchCondition { url: c.url.clone() },
                None => {
                    proof {
                        assert(false);
                    }
                    EngineAction::Finished
                },
            }
        } else {
            EngineAction::FetchTarget {
                url: self.targets[self.pos].url.clone(),
                auth: self.targets[self.pos].auth,
            }
        }
    }

    /// Decide the current target's gate from the body fetched off its
    /// condition url. A closed gate — including a failed fetch, which
    /// always closes it — skips the target: the results are left exactly
    /// as they were, so a gated-out target never appears among them. An
    /// open gate clears the target for its own fetch.
    pub fn provide_condition_body(&mut self, body: Option<&str>) -> (gate: bool)
        requires
            old(self).wf(),
            old(self).awaiting_gate,
        ensures
            final(self).wf(),
            final(self).targets == old(self).targets,
            final(self).results == old(self).results,
            body is None ==> gate == false,
            gate ==> final(self).pos == old(self).pos && !final(self).awaiting_gate,
            gate == match old(self).targets@[old(self).pos as int].condition {
                Some(c) => match body {
                    Some(t) => spec_condition_eval(c, t@),
                    None => false,
                },
                None => false,
            },
            !gate ==> final(self).pos > old(self).pos && (forall|i: int|
                old(self).pos < i < final(self).pos ==> final(self).targets@[i].exclude),
    {
        let gate = match &self.targets[self.pos].condition {
            Some(c) => evaluate_condition(c, body),
            None => {
                proof {
                    assert(false);
                }
                false
            },
        };
        if gate {
            self.awaiting_gate = false;
        } else {
            let n = self.targets.len();
            proof {
                assert(self.pos < n);
                let before = self.gated@;
                self.gated@ = self.gated@.push(self.pos as int);
                assert(self.gated@[before.len() as int] == self.pos as int);
                assert(self.gated@.contains(self.pos as int));
                assert forall|x: int| before.contains(x) implies self.gated@.contains(x) by {
                    let k = choose|k: int| 0 <= k < before.len() && before[k] == x;
                    assert(self.gated@[k] == x);
                }
            }
            self.pos = self.pos + 1;
            self.settle_position();
        }
        gate
    }

    /// Record the evaluation of the current target's fetch outcome and
    /// move on. Exactly one result is appended, it satisfies
    /// [`tr_matches`] for the current target, and every earlier result is
    /// untouched.
    pub fn provide_response(&mut self, outcome: FetchOutcome, now: &NowInfo)
        requires
            old(self).wf(),
            old(self).pos < old(self).targets@.len(),
            !old(self).awaiting_gate,
            now.wf(),
        ensures
            final(self).wf(),
            final(self).targets == old(self).targets,
            final(self).results@.len() == old(self).results@.len() + 1,
            forall|j: int|
                0 <= j < old(self).results@.len() ==> final(self).results@[j] == old(
                    self,
                ).results@[j],
            tr_matches(
                old(self).targets@[old(self).pos as int],
                outcome,
                *now,
                final(self).results@.last(),
            ),
            final(self).pos > old(self).pos,
    {
        let tr = evaluate_target(&self.targets[self.pos], outcome, now);
        self.results.push(tr);
        proof {
            let before = self.origins@;
            self.origins@ = self.origins@.push(self.pos as int);
            assert(self.origins@[before.len() as int] == self.pos as int);
            assert(self.origins@.contains(self.pos as int));
            assert forall|x: int| before.contains(x) implies self.origins@.contains(x) by {
                let k = choose|k: int| 0 <= k < before.len() && before[k] == x;
                assert(self.origins@[k] == x);
            }
        }
        let n = self.targets.len();
        proof {
            assert(self.pos < n);
        }
        self.pos = self.pos + 1;
        self.settle_position();
    }
}

/// Law: an excluded target never appears among the results. Every entry
/// originates from a distinct non-excluded target, in configuration
/// order, and carries that target's name; a gated-out target likewise
/// never contributes, since `provide_condition_body` leaves the results
/// untouched whenever its condition evaluates false.
pub proof fn lemma_excluded_never_reported(e: &Engine, j: int)
    requires
        e.wf(),
        0 <= j < e.results@.len(),
    ensures
        0 <= e.origins@[j] < e.targets@.len(),
        !e.targets@[e.origins@[j]].exclude,
        e.results@[j].name@ == e.targets@[e.origins@[j]].name@,
{
}

/// Law: every target the cursor has passed is accounted for exactly
/// once: it was excluded from the run, its condition probe turned it
/// away, or it contributed a result. When `next_action` reports
/// `Finished` the cursor has passed every target, so together with
/// [`lemma_at_most_one_result_per_target`] every non-excluded,
/// non-turned-away target has produced exactly one result.
pub proof fn lemma_every_target_accounted(e: &Engine, i: int)
    requires
        e.wf(),
        0 <= i < e.pos as int,
    ensures
        e.targets@[i].exclude || e.origins@.contains(i) || e.gated@.contains(i),
        e.gated@.contains(i) ==> e.targets@[i].condition is Some,
{
    if e.gated@.contains(i) {
        let k = choose|k: int| 0 <= k < e.gated@.len() && e.gated@[k] == i;
        assert(e.targets@[e.gated@[k]].condition is Some);
    }
}

/// Law: no target contributes two results: distinct entries originate
/// from distinct targets.
pub proof fn lemma_at_most_one_result_per_target(e: &Engine, j1: int, j2: int)
    requires
        e.wf(),
        0 <= j1 < j2 < e.results@.len(),
    ensures
        e.origins@[j1] != e.origins@[j2],
{
}

/// Law: keyword evaluation is a function of its inputs. Two match results
/// that satisfy [`keyword_result`]'s contract for the same rule, the same
/// extracted scalar and the same clock snapshot agree on every field.
pub proof fn lemma_keyword_result_deterministic(
    rule: Seq<char>,
    scalar: JsonScalar,
    now: NowInfo,
    k: Seq<char>,
    r1: MatchResult,
    r2: MatchResult,
)
    requires
        r1.keyword@ == k,
        r2.keyword@ == k,
        r1.found == true,
        r2.found == true,
        r1.matched == spec_keyword_matched(rule, scalar, now),
        r2.matched == spec_keyword_matched(rule, scalar, now),
        r1.message@ == spec_keyword_message(rule, scalar, now),
        r2.message@ == spec_keyword_message(rule, scalar, now),
    ensures
        r1.keyword@ == r2.keyword@,
        r1.found == r2.found,
        r1.matched == r2.matched,
        r1.message@ == r2.message@,
{
}

} // verus!
