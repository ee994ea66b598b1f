//! The length rules of a design request: which fields are checked, against
//! which maximum, and how the violations found are reported.

use crate::request::{
    DesignRequest, DesignRequestView, Interface, InterfaceView, ModelConfig, ModelConfigView,
    Orchestration, OrchestrationView, Prompt, PromptView, Purpose, PurposeView, Testing,
    TestingView, Tools, ToolsView,
};
use crate::text::{contains, lemma_contains_in_concat, lemma_contains_self};
use vstd::prelude::*;
use vstd::string::*;

verus! {

/// One field that broke its rule.
#[derive(Debug, Clone, Copy)]
pub struct Violation {
    pub field: &'static str,
    pub reason: &'static str,
}

pub struct ViolationView {
    pub field: Seq<char>,
    pub reason: Seq<char>,
}

impl View for Violation {
    type V = ViolationView;

    open spec fn view(&self) -> ViolationView {
        ViolationView { field: self.field@, reason: self.reason@ }
    }
}

/// The views of a list of violations, in order.
pub open spec fn violation_views(found: Seq<Violation>) -> Seq<ViolationView> {
    found.map_values(|v: Violation| v@)
}

/// One rule applied to one field: its name, the length it has, the most it may have.
pub struct FieldCheck {
    pub name: Seq<char>,
    pub length: nat,
    pub max: nat,
}

/// The rule of a text field: its length is counted in characters.
pub open spec fn text_check(name: Seq<char>, text: Seq<char>, max: nat) -> FieldCheck {
    FieldCheck { name, length: text.len(), max }
}

/// The rule of a list field: its length is its number of items.
pub open spec fn count_check(name: Seq<char>, items: Seq<Seq<char>>, max: nat) -> FieldCheck {
    FieldCheck { name, length: items.len(), max }
}

/// The violation that one check gives rise to, if any.
pub open spec fn flagged(check: FieldCheck) -> Seq<ViolationView> {
    if check.length > check.max {
        seq![ViolationView { field: check.name, reason: "invalid"@ }]
    } else {
        Seq::empty()
    }
}

/// The violations of a list of checks: one for each check that fails, in the
/// order of the checks.
pub open spec fn violations_of(checks: Seq<FieldCheck>) -> Seq<ViolationView>
    decreases checks.len(),
{
    if checks.len() == 0 {
        Seq::empty()
    } else {
        violations_of(checks.drop_last()) + flagged(checks.last())
    }
}

/// Every check of the list holds.
pub open spec fn all_within(checks: Seq<FieldCheck>) -> bool {
    forall|i: int| 0 <= i < checks.len() ==> (#[trigger] checks[i]).length <= checks[i].max
}

/// How one violation reads in a message.
pub open spec fn entry_text(violation: ViolationView) -> Seq<char> {
    violation.field + ": "@ + violation.reason
}

/// The message for a list of violations: their entries, joined by `"; "`.
pub open spec fn violations_message(found: Seq<ViolationView>) -> Seq<char>
    decreases found.len(),
{
    if found.len() == 0 {
        Seq::empty()
    } else if found.len() == 1 {
        entry_text(found[0])
    } else {
        violations_message(found.drop_last()) + "; "@ + entry_text(found.last())
    }
}

/// What can be checked against rules of its own: it lists the violations of
/// its fields, all of them, in the order of the fields.
pub trait Validate {
    /// The violations that the value has.
    spec fn violations(&self) -> Seq<ViolationView>;

    /// Finds the violations of the value.
    fn validate(&self) -> (found: Vec<Violation>)
        ensures
            violation_views(found@) == self.violations(),
    ;
}

impl PurposeView {
    pub open spec fn checks(self) -> Seq<FieldCheck> {
        seq![
            text_check("use_case"@, self.use_case, 500),
            text_check("user_needs"@, self.user_needs, 2000),
            text_check("success_criteria"@, self.success_criteria, 2000),
            text_check("constraints"@, self.constraints, 2000),
        ]
    }
}

impl PromptView {
    pub open spec fn checks(self) -> Seq<FieldCheck> {
        seq![
            text_check("goals"@, self.goals, 2000),
            text_check("role"@, self.role, 500),
            text_check("instructions"@, self.instructions, 10000),
            text_check("guardrails"@, self.guardrails, 5000),
        ]
    }
}

impl ModelConfigView {
    pub open spec fn checks(self) -> Seq<FieldCheck> {
        seq![
            text_check("base_model"@, self.base_model, 100),
            text_check("parameters"@, self.parameters, 500),
            text_check("context_window"@, self.context_window, 100),
            text_check("cost_latency_tradeoff"@, self.cost_latency_tradeoff, 500),
        ]
    }
}

impl ToolsView {
    pub open spec fn checks(self) -> Seq<FieldCheck> {
        seq![
            count_check("apis"@, self.apis, 50),
            count_check("mcp_servers"@, self.mcp_servers, 20),
            text_check("custom_functions"@, self.custom_functions, 5000),
        ]
    }
}

impl OrchestrationView {
    pub open spec fn checks(self) -> Seq<FieldCheck> {
        seq![
            text_check("workflow"@, self.workflow, 200),
            text_check("triggers"@, self.triggers, 1000),
            text_check("error_handling"@, self.error_handling, 1000),
        ]
    }
}

impl InterfaceView {
    pub open spec fn checks(self) -> Seq<FieldCheck> {
        seq![
            text_check("platform"@, self.platform, 100),
            text_check("interaction_mode"@, self.interaction_mode, 200),
            text_check("api_endpoint"@, self.api_endpoint, 500),
        ]
    }
}

impl TestingView {
    pub open spec fn checks(self) -> Seq<FieldCheck> {
        seq![
            count_check("unit_tests"@, self.unit_tests, 100),
            text_check("quality_metrics"@, self.quality_metrics, 1000),
            text_check("evals"@, self.evals, 2000),
        ]
    }
}

impl DesignRequestView {
    /// The checks of every section, in the order of the sections. The memory
    /// section has none.
    pub open spec fn checks(self) -> Seq<FieldCheck> {
        self.purpose.checks() + self.prompt.checks() + self.model.checks() + self.tools.checks()
            + self.orchestration.checks() + self.interface.checks() + self.testing.checks()
    }

    /// Every field of the request is within its limit.
    pub open spec fn within_limits(self) -> bool {
        all_within(self.checks())
    }

    /// The violations of the request, in the order of its fields.
    pub open spec fn violations(self) -> Seq<ViolationView> {
        violations_of(self.checks())
    }
}

/// Adding a check at the end adds its violation, if any, at the end.
pub proof fn lemma_violations_push(checks: Seq<FieldCheck>, check: FieldCheck)
    ensures
        violations_of(checks.push(check)) == violations_of(checks) + flagged(check),
{
    assert(checks.push(check).drop_last() =~= checks);
}

/// The violations of two lists of checks in a row are those of the first, then
/// those of the second.
pub proof fn lemma_violations_concat(first: Seq<FieldCheck>, second: Seq<FieldCheck>)
    ensures
        violations_of(first + second) == violations_of(first) + violations_of(second),
    decreases second.len(),
{
    if second.len() == 0 {
        assert(first + second =~= first);
        assert(violations_of(first) + violations_of(second) =~= violations_of(first));
    } else {
        lemma_violations_concat(first, second.drop_last());
        assert((first + second).drop_last() =~= first + second.drop_last());
        assert((first + second).last() == second.last());
        assert(violations_of(first) + violations_of(second.drop_last()) + flagged(second.last())
            =~= violations_of(first) + (violations_of(second.drop_last()) + flagged(
            second.last(),
        )));
    }
}

/// A list of checks has no violation exactly when every check holds.
pub proof fn lemma_no_violation_iff_all_within(checks: Seq<FieldCheck>)
    ensures
        violations_of(checks).len() == 0 <==> all_within(checks),
    decreases checks.len(),
{
    if checks.len() > 0 {
        let front = checks.drop_last();
        lemma_no_violation_iff_all_within(front);
        if all_within(checks) {
            assert forall|i: int| 0 <= i < front.len() implies (#[trigger] front[i]).length
                <= front[i].max by {
                assert(front[i] == checks[i]);
            }
            assert(checks[checks.len() - 1].length <= checks[checks.len() - 1].max);
        }
        if violations_of(checks).len() == 0 {
            assert forall|i: int| 0 <= i < checks.len() implies (#[trigger] checks[i]).length
                <= checks[i].max by {
                if i < front.len() {
                    assert(front[i] == checks[i]);
                }
            }
        }
    }
}

/// A check that fails leaves a violation that carries its field's name.
pub proof fn lemma_failed_check_is_flagged(checks: Seq<FieldCheck>, i: int) -> (j: int)
    requires
        0 <= i < checks.len(),
        checks[i].length > checks[i].max,
    ensures
        0 <= j < violations_of(checks).len(),
        violations_of(checks)[j].field == checks[i].name,
    decreases checks.len(),
{
    let front = checks.drop_last();
    if i == checks.len() - 1 {
        violations_of(front).len() as int
    } else {
        assert(front[i] == checks[i]);
        lemma_failed_check_is_flagged(front, i)
    }
}

/// The message names the field of each violation it was made from.
pub proof fn lemma_message_names_violation(found: Seq<ViolationView>, j: int)
    requires
        0 <= j < found.len(),
    ensures
        contains(violations_message(found), found[j].field),
    decreases found.len(),
{
    let empty = Seq::<char>::empty();
    if found.len() == 1 {
        let v = found[0];
        lemma_contains_self(v.field);
        lemma_contains_in_concat(empty, v.field, ": "@ + v.reason, v.field);
        assert(empty + v.field + (": "@ + v.reason) =~= entry_text(v));
    } else {
        let front = found.drop_last();
        let v = found.last();
        if j == found.len() - 1 {
            lemma_contains_self(v.field);
            lemma_contains_in_concat(
                violations_message(front) + "; "@,
                v.field,
                ": "@ + v.reason,
                v.field,
            );
            assert(violations_message(front) + "; "@ + v.field + (": "@ + v.reason)
                =~= violations_message(found));
        } else {
            lemma_message_names_violation(front, j);
            assert(front[j] == found[j]);
            lemma_contains_in_concat(
                empty,
                violations_message(front),
                "; "@ + entry_text(v),
                found[j].field,
            );
            assert(empty + violations_message(front) + ("; "@ + entry_text(v))
                =~= violations_message(found));
        }
    }
}

/// Whenever a field of a request is over its limit, the request has a
/// violation, and the message made of its violations holds that field's name.
pub proof fn lemma_message_names_exceeding_field(request: DesignRequestView, i: int)
    requires
        0 <= i < request.checks().len(),
        request.checks()[i].length > request.checks()[i].max,
    ensures
        !request.within_limits(),
        request.violations().len() > 0,
        contains(violations_message(request.violations()), request.checks()[i].name),
{
    let j = lemma_failed_check_is_flagged(request.checks(), i);
    lemma_message_names_violation(request.violations(), j);
}

/// Whether a text is within a maximum number of characters.
///
/// Calls `validator::ValidateLength::validate_length` on a `String` with only
/// the maximum set. That method counts the characters of the text and answers
/// `false` exactly when the count is above the maximum.
#[verifier::external_body]
fn text_within(text: &String, max: u64) -> (ok: bool)
    ensures
        ok == (text@.len() <= max),
{
    validator::ValidateLength::validate_length(text, None, Some(max), None)
}

/// Whether a list is within a maximum number of items.
///
/// Calls `validator::ValidateLength::validate_length` on a `Vec` with only the
/// maximum set. That method takes the list's `len()` and answers `false`
/// exactly when it is above the maximum.
#[verifier::external_body]
fn items_within(items: &Vec<String>, max: u64) -> (ok: bool)
    ensures
        ok == (items@.len() <= max),
{
    validator::ValidateLength::validate_length(items, None, Some(max), None)
}

/// Records the outcome of one check at the end of `found`.
fn record(
    found: &mut Vec<Violation>,
    Ghost(done): Ghost<Seq<FieldCheck>>,
    Ghost(check): Ghost<FieldCheck>,
    name: &'static str,
    ok: bool,
) -> (next: Ghost<Seq<FieldCheck>>)
    requires
        violation_views(old(found)@) == violations_of(done),
        check.name == name@,
        ok == (check.length <= check.max),
    ensures
        next@ == done.push(check),
        violation_views(final(found)@) == violations_of(next@),
{
    proof {
        lemma_violations_push(done, check);
    }
    if !ok {
        found.push(Violation { field: name, reason: "invalid" });
    }
    assert(violation_views(found@) =~= violation_views(old(found)@) + flagged(check));
    Ghost(done.push(check))
}

/// Checks one text field and records the outcome.
fn check_text(
    found: &mut Vec<Violation>,
    Ghost(done): Ghost<Seq<FieldCheck>>,
    name: &'static str,
    text: &String,
    max: u64,
) -> (next: Ghost<Seq<FieldCheck>>)
    requires
        violation_views(old(found)@) == violations_of(done),
    ensures
        next@ == done.push(text_check(name@, text@, max as nat)),
        violation_views(final(found)@) == violations_of(next@),
{
    let ok = text_within(text, max);
    record(found, Ghost(done), Ghost(text_check(name@, text@, max as nat)), name, ok)
}

/// Checks one list field and records the outcome.
fn check_count(
    found: &mut Vec<Violation>,
    Ghost(done): Ghost<Seq<FieldCheck>>,
    name: &'static str,
    items: &Vec<String>,
    max: u64,
) -> (next: Ghost<Seq<FieldCheck>>)
    requires
        violation_views(old(found)@) == violations_of(done),
    ensures
        next@ == done.push(count_check(name@, items.deep_view(), max as nat)),
        violation_views(final(found)@) == violations_of(next@),
{
    let ok = items_within(items, max);
    record(found, Ghost(done), Ghost(count_check(name@, items.deep_view(), max as nat)), name, ok)
}

/// An empty list of violations, for an empty list of checks.
fn nothing_found() -> (start: (Vec<Violation>, Ghost<Seq<FieldCheck>>))
    ensures
        start.1@ == Seq::<FieldCheck>::empty(),
        violation_views(start.0@) == violations_of(start.1@),
{
    let found: Vec<Violation> = Vec::new();
    assert(violation_views(found@) =~= violations_of(Seq::<FieldCheck>::empty()));
    (found, Ghost(Seq::empty()))
}

/// Moves the violations of a further section to the end of `found`.
fn absorb(
    found: &mut Vec<Violation>,
    more: Vec<Violation>,
    Ghost(done): Ghost<Seq<FieldCheck>>,
    Ghost(further): Ghost<Seq<FieldCheck>>,
)
    requires
        violation_views(old(found)@) == violations_of(done),
        violation_views(more@) == violations_of(further),
    ensures
        violation_views(final(found)@) == violations_of(done + further),
{
    let mut more = more;
    found.append(&mut more);
    proof {
        lemma_violations_concat(done, further);
        assert(violation_views(found@) =~= violation_views(old(found)@) + violations_of(further));
    }
}

impl Validate for Purpose {
    open spec fn violations(&self) -> Seq<ViolationView> {
        violations_of(self@.checks())
    }

    /// The violations of this section, in the order of its fields.
    fn validate(&self) -> (found: Vec<Violation>) {
        let (mut found, done) = nothing_found();
        let done = check_text(&mut found, done, "use_case", &self.use_case, 500);
        let done = check_text(&mut found, done, "user_needs", &self.user_needs, 2000);
        let done = check_text(&mut found, done, "success_criteria", &self.success_criteria, 2000);
        let done = check_text(&mut found, done, "constraints", &self.constraints, 2000);
        assert(done@ =~= self@.checks());
        found
    }
}

impl Validate for Prompt {
    open spec fn violations(&self) -> Seq<ViolationView> {
        violations_of(self@.checks())
    }

    /// The violations of this section, in the order of its fields.
    fn validate(&self) -> (found: Vec<Violation>) {
        let (mut found, done) = nothing_found();
        let done = check_text(&mut found, done, "goals", &self.goals, 2000);
        let done = check_text(&mut found, done, "role", &self.role, 500);
        let done = check_text(&mut found, done, "instructions", &self.instructions, 10000);
        let done = check_text(&mut found, done, "guardrails", &self.guardrails, 5000);
        assert(done@ =~= self@.checks());
        found
    }
}

impl Validate for ModelConfig {
    open spec fn violations(&self) -> Seq<ViolationView> {
        violations_of(self@.checks())
    }

    /// The violations of this section, in the order of its fields.
    fn validate(&self) -> (found: Vec<Violation>) {
        let (mut found, done) = nothing_found();
        let done = check_text(&mut found, done, "base_model", &self.base_model, 100);
        let done = check_text(&mut found, done, "parameters", &self.parameters, 500);
        let done = check_text(&mut found, done, "context_window", &self.context_window, 100);
        let done = check_text(
            &mut found,
            done,
            "cost_latency_tradeoff",
            &self.cost_latency_tradeoff,
            500,
        );
        assert(done@ =~= self@.checks());
        found
    }
}

impl Validate for Tools {
    open spec fn violations(&self) -> Seq<ViolationView> {
        violations_of(self@.checks())
    }

    /// The violations of this section, in the order of its fields.
    fn validate(&self) -> (found: Vec<Violation>) {
        let (mut found, done) = nothing_found();
        let done = check_count(&mut found, done, "apis", &self.apis, 50);
        let done = check_count(&mut found, done, "mcp_servers", &self.mcp_servers, 20);
        let done = check_text(&mut found, done, "custom_functions", &self.custom_functions, 5000);
        assert(done@ =~= self@.checks());
        found
    }
}

impl Validate for Orchestration {
    open spec fn violations(&self) -> Seq<ViolationView> {
        violations_of(self@.checks())
    }

    /// The violations of this section, in the order of its fields.
    fn validate(&self) -> (found: Vec<Violation>) {
        let (mut found, done) = nothing_found();
        let done = check_text(&mut found, done, "workflow", &self.workflow, 200);
        let done = check_text(&mut found, done, "triggers", &self.triggers, 1000);
        let done = check_text(&mut found, done, "error_handling", &self.error_handling, 1000);
        assert(done@ =~= self@.checks());
        found
    }
}

impl Validate for Interface {
    open spec fn violations(&self) -> Seq<ViolationView> {
        violations_of(self@.checks())
    }

    /// The violations of this section, in the order of its fields.
    fn validate(&self) -> (found: Vec<Violation>) {
        let (mut found, done) = nothing_found();
        let done = check_text(&mut found, done, "platform", &self.platform, 100);
        let done = check_text(&mut found, done, "interaction_mode", &self.interaction_mode, 200);
        let done = check_text(&mut found, done, "api_endpoint", &self.api_endpoint, 500);
        assert(done@ =~= self@.checks());
        found
    }
}

impl Validate for Testing {
    open spec fn violations(&self) -> Seq<ViolationView> {
        violations_of(self@.checks())
    }

    /// The violations of this section, in the order of its fields.
    fn validate(&self) -> (found: Vec<Violation>) {
        let (mut found, done) = nothing_found();
        let done = check_count(&mut found, done, "unit_tests", &self.unit_tests, 100);
        let done = check_text(&mut found, done, "quality_metrics", &self.quality_metrics, 1000);
        let done = check_text(&mut found, done, "evals", &self.evals, 2000);
        assert(done@ =~= self@.checks());
        found
    }
}

impl Validate for DesignRequest {
    open spec fn violations(&self) -> Seq<ViolationView> {
        self@.violations()
    }

    /// The violations of the whole request: those of each section, in the
    /// order of the sections. Every field is checked; none is skipped because
    /// an earlier one failed.
    fn validate(&self) -> (found: Vec<Violation>) {
        let mut found = self.purpose.validate();
        let ghost done = self@.purpose.checks();
        absorb(&mut found, self.prompt.validate(), Ghost(done), Ghost(self@.prompt.checks()));
        let ghost done = done + self@.prompt.checks();
        absorb(&mut found, self.model.validate(), Ghost(done), Ghost(self@.model.checks()));
        let ghost done = done + self@.model.checks();
        absorb(&mut found, self.tools.validate(), Ghost(done), Ghost(self@.tools.checks()));
        let ghost done = done + self@.tools.checks();
        absorb(
            &mut found,
            self.orchestration.validate(),
            Ghost(done),
            Ghost(self@.orchestration.checks()),
        );
        let ghost done = done + self@.orchestration.checks();
        absorb(&mut found, self.interface.validate(), Ghost(done), Ghost(self@.interface.checks()));
        let ghost done = done + self@.interface.checks();
        absorb(&mut found, self.testing.validate(), Ghost(done), Ghost(self@.testing.checks()));
        found
    }
}

/// The message that reports a list of violations: each as its field, `": "`
/// and its reason, with `"; "` between two of them.
pub fn join_violations(found: &Vec<Violation>) -> (message: String)
    ensures
        message@ == violations_message(violation_views(found@)),
{
    let mut message = String::new();
    let ghost all = violation_views(found@);
    let mut i: usize = 0;
    while i < found.len()
        invariant
            i <= found.len(),
            all == violation_views(found@),
            message@ == violations_message(all.take(i as int)),
        decreases found.len() - i,
    {
        let ghost before = message@;
        if i > 0 {
            message.append("; ");
        }
        message.append(found[i].field);
        message.append(": ");
        message.append(found[i].reason);
        proof {
            let upto = all.take(i + 1);
            assert(upto.drop_last() =~= all.take(i as int));
            assert(upto.last() == found@[i as int]@);
            if i > 0 {
                assert(message@ =~= before + "; "@ + entry_text(upto.last()));
            } else {
                assert(message@ =~= entry_text(upto[0]));
            }
        }
        i += 1;
    }
    assert(all.take(i as int) =~= all);
    message
}

/// Checks a value against its rules.
///
/// Succeeds exactly when the value has no violation. Otherwise the error is
/// the message made of all its violations, in their order.
pub fn validation_outcome<T: Validate>(value: &T) -> (outcome: Result<(), String>)
    ensures
        outcome.is_ok() <==> value.violations().len() == 0,
        outcome matches Err(message) ==> message@ == violations_message(value.violations()),
{
    let found = value.validate();
    assert(violation_views(found@).len() == found@.len());
    if found.len() == 0 {
        Ok(())
    } else {
        Err(join_violations(&found))
    }
}

/// Checks a request against its length rules.
///
/// Succeeds exactly when every field is within its limit. Otherwise the error
/// is the message made of all the violations, in the order of the fields.
pub fn validate_design_request(request: &DesignRequest) -> (outcome: Result<(), String>)
    ensures
        outcome.is_ok() <==> request@.within_limits(),
        outcome matches Err(message) ==> message@ == violations_message(request@.violations()),
{
    proof {
        lemma_no_violation_iff_all_within(request@.checks());
    }
    validation_outcome(request)
}

} // verus!
