//! The design document: the markdown text that a design request is rendered to.

use crate::request::{
    DesignRequest, DesignRequestView, Interface, InterfaceView, Memory, MemoryView, ModelConfig,
    ModelConfigView, Orchestration, OrchestrationView, Prompt, PromptView, Purpose, PurposeView,
    Testing, TestingView, Tools, ToolsView,
};
use crate::text::{
    contains, lemma_contains_after, lemma_contains_before, lemma_contains_in_concat,
    lemma_contains_self, lemma_starts_with_prefix, starts_with,
};
use vstd::prelude::*;
use vstd::string::*;

verus! {

/// The text that `{:?}` formatting gives for a list of strings.
pub uninterp spec fn debug_list_text(items: Seq<Seq<char>>) -> Seq<char>;

/// The first line of a document: the fixed title, then the use case.
pub open spec fn title_line(use_case: Seq<char>) -> Seq<char> {
    "# System Design Specification: "@ + use_case
}

/// The heading line of a section.
pub open spec fn heading(title: Seq<char>) -> Seq<char> {
    "## "@ + title + "\n"@
}

/// One labelled bullet line.
pub open spec fn bullet(label: Seq<char>, value: Seq<char>) -> Seq<char> {
    "- **"@ + label + ":** "@ + value + "\n"@
}

/// A boolean as it is written in a document.
pub open spec fn flag_text(flag: bool) -> Seq<char> {
    if flag {
        "true"@
    } else {
        "false"@
    }
}

/// The fixed last lines of every document.
pub open spec fn footer() -> Seq<char> {
    "---\n*Generated by System Designer Agent*"@
}

impl PurposeView {
    pub open spec fn section_text(self) -> Seq<char> {
        heading("1. Purpose & Scope"@) + bullet("Use Case"@, self.use_case) + bullet(
            "User Needs"@,
            self.user_needs,
        ) + bullet("Success Criteria"@, self.success_criteria) + bullet(
            "Constraints"@,
            self.constraints,
        ) + "\n"@
    }
}

impl PromptView {
    pub open spec fn section_text(self) -> Seq<char> {
        heading("2. System Prompt Design"@) + bullet("Primary Goals"@, self.goals) + bullet(
            "Role & Persona"@,
            self.role,
        ) + bullet("Instructions"@, self.instructions) + bullet("Guardrails"@, self.guardrails)
            + "\n"@
    }
}

impl ModelConfigView {
    pub open spec fn section_text(self) -> Seq<char> {
        heading("3. Model Selection"@) + bullet("Base Model"@, self.base_model) + bullet(
            "Parameters"@,
            self.parameters,
        ) + bullet("Context Window"@, self.context_window) + bullet(
            "Tradeoffs"@,
            self.cost_latency_tradeoff,
        ) + "\n"@
    }
}

impl ToolsView {
    /// The section, given the texts that stand for its two lists.
    pub open spec fn section_text(self, apis_text: Seq<char>, mcp_servers_text: Seq<char>) -> Seq<
        char,
    > {
        heading("4. Tools & Integrations"@) + bullet("External APIs"@, apis_text) + bullet(
            "MCP Servers"@,
            mcp_servers_text,
        ) + bullet("Custom Functions"@, self.custom_functions) + "\n"@
    }
}

impl MemoryView {
    pub open spec fn section_text(self) -> Seq<char> {
        heading("5. Memory Systems"@) + bullet("Episodic Memory"@, flag_text(self.episodic))
            + bullet("Working Memory"@, flag_text(self.working_memory)) + bullet(
            "Vector Database"@,
            self.vector_db,
        ) + bullet("SQL/Structured DB"@, self.sql_db) + "\n"@
    }
}

impl OrchestrationView {
    pub open spec fn section_text(self) -> Seq<char> {
        heading("6. Orchestration"@) + bullet("Workflow Pattern"@, self.workflow) + bullet(
            "System Triggers"@,
            self.triggers,
        ) + bullet("Error Handling"@, self.error_handling) + "\n"@
    }
}

impl InterfaceView {
    pub open spec fn section_text(self) -> Seq<char> {
        heading("7. User Interface"@) + bullet("Platform"@, self.platform) + bullet(
            "Interaction Mode"@,
            self.interaction_mode,
        ) + bullet("API Strategy"@, self.api_endpoint) + "\n"@
    }
}

impl TestingView {
    /// The section, given the text that stands for its list.
    pub open spec fn section_text(self, unit_tests_text: Seq<char>) -> Seq<char> {
        heading("8. Testing & Evals"@) + bullet("Unit Tests"@, unit_tests_text) + bullet(
            "Quality Metrics"@,
            self.quality_metrics,
        ) + bullet("Evaluation Strategy"@, self.evals) + "\n"@
    }
}

/// What stands in a document before its memory section.
pub open spec fn before_memory(
    request: DesignRequestView,
    apis_text: Seq<char>,
    mcp_servers_text: Seq<char>,
) -> Seq<char> {
    title_line(request.purpose.use_case) + "\n\n"@ + request.purpose.section_text()
        + request.prompt.section_text() + request.model.section_text()
        + request.tools.section_text(apis_text, mcp_servers_text)
}

/// What stands in a document after its memory section.
pub open spec fn after_memory(request: DesignRequestView, unit_tests_text: Seq<char>) -> Seq<char> {
    request.orchestration.section_text() + request.interface.section_text()
        + request.testing.section_text(unit_tests_text) + footer()
}

/// The document of a request, given the texts that stand for its three lists:
/// the title line, an empty line, the eight sections in their fixed order,
/// each followed by an empty line, and the footer.
pub open spec fn document_text(
    request: DesignRequestView,
    apis_text: Seq<char>,
    mcp_servers_text: Seq<char>,
    unit_tests_text: Seq<char>,
) -> Seq<char> {
    before_memory(request, apis_text, mcp_servers_text) + request.memory.section_text()
        + after_memory(request, unit_tests_text)
}

/// The document of a request, each list written as `{:?}` formatting writes it.
pub open spec fn rendered(request: DesignRequestView) -> Seq<char> {
    document_text(
        request,
        debug_list_text(request.tools.apis),
        debug_list_text(request.tools.mcp_servers),
        debug_list_text(request.testing.unit_tests),
    )
}

/// Every document begins with the title line of its request's use case.
pub proof fn lemma_document_begins_with_title(
    request: DesignRequestView,
    apis_text: Seq<char>,
    mcp_servers_text: Seq<char>,
    unit_tests_text: Seq<char>,
)
    ensures
        starts_with(
            document_text(request, apis_text, mcp_servers_text, unit_tests_text),
            title_line(request.purpose.use_case),
        ),
        contains(
            document_text(request, apis_text, mcp_servers_text, unit_tests_text),
            title_line(request.purpose.use_case),
        ),
{
    let title = title_line(request.purpose.use_case);
    let rest = "\n\n"@ + request.purpose.section_text() + request.prompt.section_text()
        + request.model.section_text() + request.tools.section_text(apis_text, mcp_servers_text)
        + request.memory.section_text() + after_memory(request, unit_tests_text);
    lemma_starts_with_prefix(title, rest);
    assert(title + rest =~= document_text(request, apis_text, mcp_servers_text, unit_tests_text));
}

/// A bullet holds its label, the separator and its value in one piece.
pub proof fn lemma_bullet_holds_pair(label: Seq<char>, value: Seq<char>)
    ensures
        contains(bullet(label, value), label + ":** "@ + value),
{
    let pair = label + ":** "@ + value;
    lemma_contains_self(pair);
    lemma_contains_in_concat("- **"@, pair, "\n"@, pair);
    assert("- **"@ + pair + "\n"@ =~= bullet(label, value));
}

/// The memory section holds each of its flags as a word, right after the
/// flag's label.
pub proof fn lemma_memory_section_flags(memory: MemoryView)
    ensures
        contains(
            memory.section_text(),
            "Episodic Memory"@ + ":** "@ + flag_text(memory.episodic),
        ),
        contains(
            memory.section_text(),
            "Working Memory"@ + ":** "@ + flag_text(memory.working_memory),
        ),
{
    let top = heading("5. Memory Systems"@);
    let episodic = bullet("Episodic Memory"@, flag_text(memory.episodic));
    let working = bullet("Working Memory"@, flag_text(memory.working_memory));
    let vector = bullet("Vector Database"@, memory.vector_db);
    let sql = bullet("SQL/Structured DB"@, memory.sql_db);

    let first = "Episodic Memory"@ + ":** "@ + flag_text(memory.episodic);
    lemma_bullet_holds_pair("Episodic Memory"@, flag_text(memory.episodic));
    lemma_contains_after(top, episodic, first);
    lemma_contains_before(top + episodic, working, first);
    lemma_contains_before(top + episodic + working, vector, first);
    lemma_contains_before(top + episodic + working + vector, sql, first);
    lemma_contains_before(top + episodic + working + vector + sql, "\n"@, first);

    let second = "Working Memory"@ + ":** "@ + flag_text(memory.working_memory);
    lemma_bullet_holds_pair("Working Memory"@, flag_text(memory.working_memory));
    lemma_contains_after(top + episodic, working, second);
    lemma_contains_before(top + episodic + working, vector, second);
    lemma_contains_before(top + episodic + working + vector, sql, second);
    lemma_contains_before(top + episodic + working + vector + sql, "\n"@, second);
}

/// Both flags of the memory section are written out as words, whatever their
/// value: each stands in the document right after its label.
pub proof fn lemma_memory_flags_written(
    request: DesignRequestView,
    apis_text: Seq<char>,
    mcp_servers_text: Seq<char>,
    unit_tests_text: Seq<char>,
)
    ensures
        contains(
            document_text(request, apis_text, mcp_servers_text, unit_tests_text),
            "Episodic Memory"@ + ":** "@ + flag_text(request.memory.episodic),
        ),
        contains(
            document_text(request, apis_text, mcp_servers_text, unit_tests_text),
            "Working Memory"@ + ":** "@ + flag_text(request.memory.working_memory),
        ),
{
    let memory = request.memory;
    let first = "Episodic Memory"@ + ":** "@ + flag_text(memory.episodic);
    let second = "Working Memory"@ + ":** "@ + flag_text(memory.working_memory);
    lemma_memory_section_flags(memory);
    let before = before_memory(request, apis_text, mcp_servers_text);
    let after = after_memory(request, unit_tests_text);
    lemma_contains_after(before, memory.section_text(), first);
    lemma_contains_before(before + memory.section_text(), after, first);
    lemma_contains_after(before, memory.section_text(), second);
    lemma_contains_before(before + memory.section_text(), after, second);
}

/// A flag that is off is written as the word `false`: the document of a
/// request whose episodic flag is off holds `Episodic Memory:** false`, and
/// likewise for the working-memory flag.
pub proof fn lemma_false_is_written_literally(
    request: DesignRequestView,
    apis_text: Seq<char>,
    mcp_servers_text: Seq<char>,
    unit_tests_text: Seq<char>,
)
    ensures
        !request.memory.episodic ==> contains(
            document_text(request, apis_text, mcp_servers_text, unit_tests_text),
            "Episodic Memory:** false"@,
        ),
        !request.memory.working_memory ==> contains(
            document_text(request, apis_text, mcp_servers_text, unit_tests_text),
            "Working Memory:** false"@,
        ),
{
    lemma_memory_flags_written(request, apis_text, mcp_servers_text, unit_tests_text);
    reveal_strlit("Episodic Memory");
    reveal_strlit("Working Memory");
    reveal_strlit(":** ");
    reveal_strlit("false");
    reveal_strlit("Episodic Memory:** false");
    reveal_strlit("Working Memory:** false");
    assert("Episodic Memory"@ + ":** "@ + "false"@ =~= "Episodic Memory:** false"@);
    assert("Working Memory"@ + ":** "@ + "false"@ =~= "Working Memory:** false"@);
}

/// Rendering depends on nothing but the request: two requests with the same
/// content have the same document.
pub proof fn lemma_rendering_is_deterministic(first: DesignRequest, second: DesignRequest)
    requires
        first@ == second@,
    ensures
        rendered(first@) == rendered(second@),
{
}

/// A list of strings as `{:?}` formatting writes it.
///
/// Calls the `Debug` formatting of `Vec<String>` from `std`. The text it gives
/// depends on the items alone; the contract gives that text a name and says
/// nothing else of it.
#[verifier::external_body]
fn list_literal(items: &Vec<String>) -> (text: String)
    ensures
        text@ == debug_list_text(items.deep_view()),
{
    format!("{:?}", items)
}

/// The word for a boolean.
pub fn flag_word(flag: bool) -> (word: &'static str)
    ensures
        word@ == flag_text(flag),
{
    if flag {
        "true"
    } else {
        "false"
    }
}

fn push_heading(out: &mut String, title: &str)
    ensures
        final(out)@ == old(out)@ + heading(title@),
{
    out.append("## ");
    out.append(title);
    out.append("\n");
    assert(out@ =~= old(out)@ + heading(title@));
}

fn push_bullet(out: &mut String, label: &str, value: &str)
    ensures
        final(out)@ == old(out)@ + bullet(label@, value@),
{
    out.append("- **");
    out.append(label);
    out.append(":** ");
    out.append(value);
    out.append("\n");
    assert(out@ =~= old(out)@ + bullet(label@, value@));
}

impl Purpose {
    /// Writes this section at the end of `out`.
    pub fn render_into(&self, out: &mut String)
        ensures
            final(out)@ == old(out)@ + self@.section_text(),
    {
        push_heading(out, "1. Purpose & Scope");
        push_bullet(out, "Use Case", self.use_case.as_str());
        push_bullet(out, "User Needs", self.user_needs.as_str());
        push_bullet(out, "Success Criteria", self.success_criteria.as_str());
        push_bullet(out, "Constraints", self.constraints.as_str());
        out.append("\n");
        assert(out@ =~= old(out)@ + self@.section_text());
    }
}

impl Prompt {
    /// Writes this section at the end of `out`.
    pub fn render_into(&self, out: &mut String)
        ensures
            final(out)@ == old(out)@ + self@.section_text(),
    {
        push_heading(out, "2. System Prompt Design");
        push_bullet(out, "Primary Goals", self.goals.as_str());
        push_bullet(out, "Role & Persona", self.role.as_str());
        push_bullet(out, "Instructions", self.instructions.as_str());
        push_bullet(out, "Guardrails", self.guardrails.as_str());
        out.append("\n");
        assert(out@ =~= old(out)@ + self@.section_text());
    }
}

impl ModelConfig {
    /// Writes this section at the end of `out`.
    pub fn render_into(&self, out: &mut String)
        ensures
            final(out)@ == old(out)@ + self@.section_text(),
    {
        push_heading(out, "3. Model Selection");
        push_bullet(out, "Base Model", self.base_model.as_str());
        push_bullet(out, "Parameters", self.parameters.as_str());
        push_bullet(out, "Context Window", self.context_window.as_str());
        push_bullet(out, "Tradeoffs", self.cost_latency_tradeoff.as_str());
        out.append("\n");
        assert(out@ =~= old(out)@ + self@.section_text());
    }
}

impl Tools {
    /// Writes this section at the end of `out`, with the given texts for its
    /// two lists.
    pub fn render_into(&self, out: &mut String, apis_text: &str, mcp_servers_text: &str)
        ensures
            final(out)@ == old(out)@ + self@.section_text(apis_text@, mcp_servers_text@),
    {
        push_heading(out, "4. Tools & Integrations");
        push_bullet(out, "External APIs", apis_text);
        push_bullet(out, "MCP Servers", mcp_servers_text);
        push_bullet(out, "Custom Functions", self.custom_functions.as_str());
        out.append("\n");
        assert(out@ =~= old(out)@ + self@.section_text(apis_text@, mcp_servers_text@));
    }
}

impl Memory {
    /// Writes this section at the end of `out`.
    pub fn render_into(&self, out: &mut String)
        ensures
            final(out)@ == old(out)@ + self@.section_text(),
    {
        push_heading(out, "5. Memory Systems");
        push_bullet(out, "Episodic Memory", flag_word(self.episodic));
        push_bullet(out, "Working Memory", flag_word(self.working_memory));
        push_bullet(out, "Vector Database", self.vector_db.as_str());
        push_bullet(out, "SQL/Structured DB", self.sql_db.as_str());
        out.append("\n");
        assert(out@ =~= old(out)@ + self@.section_text());
    }
}

impl Orchestration {
    /// Writes this section at the end of `out`.
    pub fn render_into(&self, out: &mut String)
        ensures
            final(out)@ == old(out)@ + self@.section_text(),
    {
        push_heading(out, "6. Orchestration");
        push_bullet(out, "Workflow Pattern", self.workflow.as_str());
        push_bullet(out, "System Triggers", self.triggers.as_str());
        push_bullet(out, "Error Handling", self.error_handling.as_str());
        out.append("\n");
        assert(out@ =~= old(out)@ + self@.section_text());
    }
}

impl Interface {
    /// Writes this section at the end of `out`.
    pub fn render_into(&self, out: &mut String)
        ensures
            final(out)@ == old(out)@ + self@.section_text(),
    {
        push_heading(out, "7. User Interface");
        push_bullet(out, "Platform", self.platform.as_str());
        push_bullet(out, "Interaction Mode", self.interaction_mode.as_str());
        push_bullet(out, "API Strategy", self.api_endpoint.as_str());
        out.append("\n");
        assert(out@ =~= old(out)@ + self@.section_text());
    }
}

impl Testing {
    /// Writes this section at the end of `out`, with the given text for its
    /// list.
    pub fn render_into(&self, out: &mut String, unit_tests_text: &str)
        ensures
            final(out)@ == old(out)@ + self@.section_text(unit_tests_text@),
    {
        push_heading(out, "8. Testing & Evals");
        push_bullet(out, "Unit Tests", unit_tests_text);
        push_bullet(out, "Quality Metrics", self.quality_metrics.as_str());
        push_bullet(out, "Evaluation Strategy", self.evals.as_str());
        out.append("\n");
        assert(out@ =~= old(out)@ + self@.section_text(unit_tests_text@));
    }
}

/// Renders a request, with the given texts standing for its three lists.
///
/// Total: every request has a document, whether or not it is within its
/// limits. Empty texts and flags that are off are written out like any other
/// value.
pub fn render_document(
    payload: &DesignRequest,
    apis_text: &str,
    mcp_servers_text: &str,
    unit_tests_text: &str,
) -> (markdown: String)
    ensures
        markdown@ == document_text(payload@, apis_text@, mcp_servers_text@, unit_tests_text@),
{
    let mut out = String::new();
    out.append("# System Design Specification: ");
    out.append(payload.purpose.use_case.as_str());
    out.append("\n\n");
    payload.purpose.render_into(&mut out);
    payload.prompt.render_into(&mut out);
    payload.model.render_into(&mut out);
    payload.tools.render_into(&mut out, apis_text, mcp_servers_text);
    payload.memory.render_into(&mut out);
    payload.orchestration.render_into(&mut out);
    payload.interface.render_into(&mut out);
    payload.testing.render_into(&mut out, unit_tests_text);
    out.append("---\n*Generated by System Designer Agent*");
    assert(out@ =~= document_text(payload@, apis_text@, mcp_servers_text@, unit_tests_text@));
    out
}

/// Renders a request to its design document.
///
/// The three lists are written as `{:?}` formatting writes them; everything
/// else is laid out by [`render_document`]. The result begins with the title
/// line that holds the request's use case.
pub fn core_generate_design(payload: &DesignRequest) -> (markdown: String)
    ensures
        markdown@ == rendered(payload@),
        starts_with(markdown@, title_line(payload@.purpose.use_case)),
        contains(markdown@, title_line(payload@.purpose.use_case)),
{
    let apis_text = list_literal(&payload.tools.apis);
    let mcp_servers_text = list_literal(&payload.tools.mcp_servers);
    let unit_tests_text = list_literal(&payload.testing.unit_tests);
    proof {
        lemma_document_begins_with_title(
            payload@,
            apis_text@,
            mcp_servers_text@,
            unit_tests_text@,
        );
    }
    render_document(
        payload,
        apis_text.as_str(),
        mcp_servers_text.as_str(),
        unit_tests_text.as_str(),
    )
}

} // verus!
