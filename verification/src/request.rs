//! The design request: eight sections that together describe an agent design,
//! and the mathematical view of each.

use vstd::prelude::*;

verus! {

/// Why the agent exists and what bounds it.
#[derive(Debug, Clone)]
pub struct Purpose {
    pub use_case: String,
    pub user_needs: String,
    pub success_criteria: String,
    pub constraints: String,
}

/// How the agent is prompted.
#[derive(Debug, Clone)]
pub struct Prompt {
    pub goals: String,
    pub role: String,
    pub instructions: String,
    pub guardrails: String,
}

/// Which model runs the agent, and how.
#[derive(Debug, Clone)]
pub struct ModelConfig {
    pub base_model: String,
    pub parameters: String,
    pub context_window: String,
    pub cost_latency_tradeoff: String,
}

/// What the agent can call.
#[derive(Debug, Clone)]
pub struct Tools {
    pub apis: Vec<String>,
    pub mcp_servers: Vec<String>,
    pub custom_functions: String,
}

/// What the agent remembers. No field of this section has a limit.
#[derive(Debug, Clone)]
pub struct Memory {
    pub episodic: bool,
    pub working_memory: bool,
    pub vector_db: String,
    pub sql_db: String,
}

/// How the agent's steps are driven.
#[derive(Debug, Clone)]
pub struct Orchestration {
    pub workflow: String,
    pub triggers: String,
    pub error_handling: String,
}

/// How users reach the agent.
#[derive(Debug, Clone)]
pub struct Interface {
    pub platform: String,
    pub interaction_mode: String,
    pub api_endpoint: String,
}

/// How the agent is tested.
#[derive(Debug, Clone)]
pub struct Testing {
    pub unit_tests: Vec<String>,
    pub quality_metrics: String,
    pub evals: String,
}

/// A complete description of an agent design.
#[derive(Debug, Clone)]
pub struct DesignRequest {
    pub purpose: Purpose,
    pub prompt: Prompt,
    pub model: ModelConfig,
    pub tools: Tools,
    pub memory: Memory,
    pub orchestration: Orchestration,
    pub interface: Interface,
    pub testing: Testing,
}

pub struct PurposeView {
    pub use_case: Seq<char>,
    pub user_needs: Seq<char>,
    pub success_criteria: Seq<char>,
    pub constraints: Seq<char>,
}

pub struct PromptView {
    pub goals: Seq<char>,
    pub role: Seq<char>,
    pub instructions: Seq<char>,
    pub guardrails: Seq<char>,
}

pub struct ModelConfigView {
    pub base_model: Seq<char>,
    pub parameters: Seq<char>,
    pub context_window: Seq<char>,
    pub cost_latency_tradeoff: Seq<char>,
}

pub struct ToolsView {
    pub apis: Seq<Seq<char>>,
    pub mcp_servers: Seq<Seq<char>>,
    pub custom_functions: Seq<char>,
}

pub struct MemoryView {
    pub episodic: bool,
    pub working_memory: bool,
    pub vector_db: Seq<char>,
    pub sql_db: Seq<char>,
}

pub struct OrchestrationView {
    pub workflow: Seq<char>,
    pub triggers: Seq<char>,
    pub error_handling: Seq<char>,
}

pub struct InterfaceView {
    pub platform: Seq<char>,
    pub interaction_mode: Seq<char>,
    pub api_endpoint: Seq<char>,
}

pub struct TestingView {
    pub unit_tests: Seq<Seq<char>>,
    pub quality_metrics: Seq<char>,
    pub evals: Seq<char>,
}

pub struct DesignRequestView {
    pub purpose: PurposeView,
    pub prompt: PromptView,
    pub model: ModelConfigView,
    pub tools: ToolsView,
    pub memory: MemoryView,
    pub orchestration: OrchestrationView,
    pub interface: InterfaceView,
    pub testing: TestingView,
}

impl View for Purpose {
    type V = PurposeView;

    open spec fn view(&self) -> PurposeView {
        PurposeView {
            use_case: self.use_case@,
            user_needs: self.user_needs@,
            success_criteria: self.success_criteria@,
            constraints: self.constraints@,
        }
    }
}

impl View for Prompt {
    type V = PromptView;

    open spec fn view(&self) -> PromptView {
        PromptView {
            goals: self.goals@,
            role: self.role@,
            instructions: self.instructions@,
            guardrails: self.guardrails@,
        }
    }
}

impl View for ModelConfig {
    type V = ModelConfigView;

    open spec fn view(&self) -> ModelConfigView {
        ModelConfigView {
            base_model: self.base_model@,
            parameters: self.parameters@,
            context_window: self.context_window@,
            cost_latency_tradeoff: self.cost_latency_tradeoff@,
        }
    }
}

impl View for Tools {
    type V = ToolsView;

    open spec fn view(&self) -> ToolsView {
        ToolsView {
            apis: self.apis.deep_view(),
            mcp_servers: self.mcp_servers.deep_view(),
            custom_functions: self.custom_functions@,
        }
    }
}

impl View for Memory {
    type V = MemoryView;

    open spec fn view(&self) -> MemoryView {
        MemoryView {
            episodic: self.episodic,
            working_memory: self.working_memory,
            vector_db: self.vector_db@,
            sql_db: self.sql_db@,
        }
    }
}

impl View for Orchestration {
    type V = OrchestrationView;

    open spec fn view(&self) -> OrchestrationView {
        OrchestrationView {
            workflow: self.workflow@,
            triggers: self.triggers@,
            error_handling: self.error_handling@,
        }
    }
}

impl View for Interface {
    type V = InterfaceView;

    open spec fn view(&self) -> InterfaceView {
        InterfaceView {
            platform: self.platform@,
            interaction_mode: self.interaction_mode@,
            api_endpoint: self.api_endpoint@,
        }
    }
}

impl View for Testing {
    type V = TestingView;

    open spec fn view(&self) -> TestingView {
        TestingView {
            unit_tests: self.unit_tests.deep_view(),
            quality_metrics: self.quality_metrics@,
            evals: self.evals@,
        }
    }
}

impl View for DesignRequest {
    type V = DesignRequestView;

    open spec fn view(&self) -> DesignRequestView {
        DesignRequestView {
            purpose: self.purpose@,
            prompt: self.prompt@,
            model: self.model@,
            tools: self.tools@,
            memory: self.memory@,
            orchestration: self.orchestration@,
            interface: self.interface@,
            testing: self.testing@,
        }
    }
}

} // verus!
