//! The data model: tool-providing server configurations, inferred tools,
//! session state, requests, responses, errors, and tool categories.

use vstd::prelude::*;

use crate::text::{contains_seq, lower_of};

verus! {

/// Configuration for one tool-providing server connection.
#[derive(Clone, Debug)]
pub struct McpServer {
    pub name: String,
    pub command: String,
    pub args: Vec<String>,
    pub env: Option<Vec<(String, String)>>,
}

#[verifier::ext_equal]
pub ghost struct McpServerView {
    pub name: Seq<char>,
    pub command: Seq<char>,
    pub args: Seq<Seq<char>>,
    pub env: Option<Seq<(Seq<char>, Seq<char>)>>,
}

impl View for McpServer {
    type V = McpServerView;

    open spec fn view(&self) -> McpServerView {
        McpServerView {
            name: self.name@,
            command: self.command@,
            args: self.args.deep_view(),
            env: self.env.deep_view(),
        }
    }
}

impl DeepView for McpServer {
    type V = McpServerView;

    open spec fn deep_view(&self) -> McpServerView {
        self.view()
    }
}

/// The complete configuration: every declared server, in a fixed order.
#[derive(Clone, Debug)]
pub struct McpConfig {
    pub mcp_servers: Vec<McpServer>,
}

#[verifier::ext_equal]
pub ghost struct McpConfigView {
    pub mcp_servers: Seq<McpServerView>,
}

impl View for McpConfig {
    type V = McpConfigView;

    open spec fn view(&self) -> McpConfigView {
        McpConfigView { mcp_servers: self.mcp_servers.deep_view() }
    }
}

impl DeepView for McpConfig {
    type V = McpConfigView;

    open spec fn deep_view(&self) -> McpConfigView {
        self.view()
    }
}

/// One abstract tool a server is inferred to expose. The qualified name is
/// `<server>.<local-name>`; the optional schema is carried through, never
/// read.
#[derive(Clone, Debug)]
pub struct Tool {
    pub name: String,
    pub description: String,
    pub server: String,
    pub schema: Option<String>,
}

#[verifier::ext_equal]
pub ghost struct ToolView {
    pub name: Seq<char>,
    pub description: Seq<char>,
    pub server: Seq<char>,
    pub schema: Option<Seq<char>>,
}

impl View for Tool {
    type V = ToolView;

    open spec fn view(&self) -> ToolView {
        ToolView {
            name: self.name@,
            description: self.description@,
            server: self.server@,
            schema: self.schema.deep_view(),
        }
    }
}

impl DeepView for Tool {
    type V = ToolView;

    open spec fn deep_view(&self) -> ToolView {
        self.view()
    }
}

impl Tool {
    /// A field-for-field copy, with its view pinned down.
    pub fn duplicate(&self) -> (r: Tool)
        ensures
            r@ == self@,
    {
        let schema = match &self.schema {
            Some(s) => Some(s.clone()),
            None => None,
        };
        let r = Tool {
            name: self.name.clone(),
            description: self.description.clone(),
            server: self.server.clone(),
            schema,
        };
        proof {
            assert(r@ =~= self@);
        }
        r
    }
}

/// Copies a tool list, element for element.
pub fn duplicate_tools(tools: &Vec<Tool>) -> (r: Vec<Tool>)
    ensures
        r.deep_view() == tools.deep_view(),
{
    let mut out: Vec<Tool> = Vec::new();
    let mut i: usize = 0;
    while i < tools.len()
        invariant
            i <= tools@.len(),
            out@.len() == i,
            forall|k: int| 0 <= k < i ==> out@[k]@ == tools@[k]@,
        decreases tools@.len() - i,
    {
        out.push(tools[i].duplicate());
        i += 1;
    }
    proof {
        assert(out.deep_view() =~~= tools.deep_view());
    }
    out
}

/// Session context for context-aware composition; every field is optional
/// and defaults to "unknown".
#[derive(Clone, Debug)]
pub struct SessionState {
    pub tool_call_count: Option<u32>,
    pub original_task: Option<String>,
    pub has_plan: Option<bool>,
    pub last_action: Option<String>,
    pub current_step: Option<String>,
}

#[verifier::ext_equal]
pub ghost struct SessionStateView {
    pub tool_call_count: Option<u32>,
    pub original_task: Option<Seq<char>>,
    pub has_plan: Option<bool>,
    pub last_action: Option<Seq<char>>,
    pub current_step: Option<Seq<char>>,
}

impl SessionStateView {
    /// The all-unset session state.
    pub open spec fn unset() -> SessionStateView {
        SessionStateView {
            tool_call_count: None,
            original_task: None,
            has_plan: None,
            last_action: None,
            current_step: None,
        }
    }
}

impl View for SessionState {
    type V = SessionStateView;

    open spec fn view(&self) -> SessionStateView {
        SessionStateView {
            tool_call_count: self.tool_call_count,
            original_task: self.original_task.deep_view(),
            has_plan: self.has_plan,
            last_action: self.last_action.deep_view(),
            current_step: self.current_step.deep_view(),
        }
    }
}

impl DeepView for SessionState {
    type V = SessionStateView;

    open spec fn deep_view(&self) -> SessionStateView {
        self.view()
    }
}

impl SessionState {
    /// A field-for-field copy, with its view pinned down.
    pub fn duplicate(&self) -> (r: SessionState)
        ensures
            r@ == self@,
    {
        let r = SessionState {
            tool_call_count: self.tool_call_count,
            original_task: match &self.original_task {
                Some(s) => Some(s.clone()),
                None => None,
            },
            has_plan: self.has_plan,
            last_action: match &self.last_action {
                Some(s) => Some(s.clone()),
                None => None,
            },
            current_step: match &self.current_step {
                Some(s) => Some(s.clone()),
                None => None,
            },
        };
        proof {
            assert(r@ =~= self@);
        }
        r
    }
}

impl Default for SessionState {
    /// The all-unset session state.
    fn default() -> (r: Self)
        ensures
            r@ == SessionStateView::unset(),
    {
        let r = SessionState {
            tool_call_count: None,
            original_task: None,
            has_plan: None,
            last_action: None,
            current_step: None,
        };
        proof {
            assert(r@ =~= SessionStateView::unset());
        }
        r
    }
}

/// Task complexity assessment.
#[derive(Clone, Copy, Debug, PartialEq, Eq, Structural)]
pub enum TaskComplexity {
    Auto,
    Simple,
    Complex,
}

impl Default for TaskComplexity {
    fn default() -> (r: Self)
        ensures
            r == TaskComplexity::Auto,
    {
        TaskComplexity::Auto
    }
}

/// A request for prompt composition.
#[derive(Clone, Debug)]
pub struct PromptRequest {
    pub user_prompt: String,
    pub mcp_config: McpConfig,
    pub session_state: Option<SessionState>,
    pub domain_hints: Option<Vec<String>>,
    pub behavior_hints: Option<Vec<String>>,
    pub task_complexity: Option<TaskComplexity>,
}

#[verifier::ext_equal]
pub ghost struct PromptRequestView {
    pub user_prompt: Seq<char>,
    pub mcp_config: McpConfigView,
    pub session_state: Option<SessionStateView>,
    pub domain_hints: Option<Seq<Seq<char>>>,
    pub behavior_hints: Option<Seq<Seq<char>>>,
    pub task_complexity: Option<TaskComplexity>,
}

impl View for PromptRequest {
    type V = PromptRequestView;

    open spec fn view(&self) -> PromptRequestView {
        PromptRequestView {
            user_prompt: self.user_prompt@,
            mcp_config: self.mcp_config@,
            session_state: self.session_state.deep_view(),
            domain_hints: self.domain_hints.deep_view(),
            behavior_hints: self.behavior_hints.deep_view(),
            task_complexity: self.task_complexity,
        }
    }
}

/// The composed system prompt with metadata about what was applied.
#[derive(Clone, Debug)]
pub struct PromptResponse {
    pub system_prompt: String,
    pub applied_modules: Vec<String>,
    pub recognized_tools: Vec<String>,
    pub complexity_assessment: TaskComplexity,
}

#[verifier::ext_equal]
pub ghost struct PromptResponseView {
    pub system_prompt: Seq<char>,
    pub applied_modules: Seq<Seq<char>>,
    pub recognized_tools: Seq<Seq<char>>,
    pub complexity_assessment: TaskComplexity,
}

impl View for PromptResponse {
    type V = PromptResponseView;

    open spec fn view(&self) -> PromptResponseView {
        PromptResponseView {
            system_prompt: self.system_prompt@,
            applied_modules: self.applied_modules.deep_view(),
            recognized_tools: self.recognized_tools.deep_view(),
            complexity_assessment: self.complexity_assessment,
        }
    }
}

/// Error conditions of composition and inference. Each variant carries a
/// human-readable message.
#[derive(Clone, Debug)]
pub enum PromptError {
    McpConnectionFailed(String),
    ToolDiscoveryFailed(String),
    ModuleLoadingFailed(String),
    SerializationError(String),
    HttpError(String),
    ConfigError(String),
}

#[verifier::ext_equal]
pub ghost enum PromptErrorView {
    McpConnectionFailed(Seq<char>),
    ToolDiscoveryFailed(Seq<char>),
    ModuleLoadingFailed(Seq<char>),
    SerializationError(Seq<char>),
    HttpError(Seq<char>),
    ConfigError(Seq<char>),
}

impl View for PromptError {
    type V = PromptErrorView;

    open spec fn view(&self) -> PromptErrorView {
        match self {
            PromptError::McpConnectionFailed(m) => PromptErrorView::McpConnectionFailed(m@),
            PromptError::ToolDiscoveryFailed(m) => PromptErrorView::ToolDiscoveryFailed(m@),
            PromptError::ModuleLoadingFailed(m) => PromptErrorView::ModuleLoadingFailed(m@),
            PromptError::SerializationError(m) => PromptErrorView::SerializationError(m@),
            PromptError::HttpError(m) => PromptErrorView::HttpError(m@),
            PromptError::ConfigError(m) => PromptErrorView::ConfigError(m@),
        }
    }
}

impl PromptError {
    /// The message this error carries.
    pub fn message(&self) -> (r: &String)
        ensures
            self@ matches PromptErrorView::McpConnectionFailed(m) ==> r@ == m,
            self@ matches PromptErrorView::ToolDiscoveryFailed(m) ==> r@ == m,
            self@ matches PromptErrorView::ModuleLoadingFailed(m) ==> r@ == m,
            self@ matches PromptErrorView::SerializationError(m) ==> r@ == m,
            self@ matches PromptErrorView::HttpError(m) ==> r@ == m,
            self@ matches PromptErrorView::ConfigError(m) ==> r@ == m,
    {
        match self {
            PromptError::McpConnectionFailed(m) => m,
            PromptError::ToolDiscoveryFailed(m) => m,
            PromptError::ModuleLoadingFailed(m) => m,
            PromptError::SerializationError(m) => m,
            PromptError::HttpError(m) => m,
            PromptError::ConfigError(m) => m,
        }
    }
}

/// Categories of tools, used to pick guidance sections.
#[derive(Clone, Debug, PartialEq, Eq, Structural)]
pub enum ToolCategory {
    FileSystem,
    WebApi,
    DataAnalysis,
    SystemAdmin,
    Custom,
}

/// The category a tool resolves to, from its lowercased name and
/// description: file-system markers in the name win, then web, data, and
/// system markers in the description, in that order.
pub open spec fn category_of(t: ToolView) -> ToolCategory {
    let name = lower_of(t.name);
    let desc = lower_of(t.description);
    if contains_seq(name, "file"@) || contains_seq(name, "directory"@) || contains_seq(
        name,
        "read"@,
    ) || contains_seq(name, "write"@) {
        ToolCategory::FileSystem
    } else if contains_seq(desc, "http"@) || contains_seq(desc, "api"@) || contains_seq(
        desc,
        "web"@,
    ) {
        ToolCategory::WebApi
    } else if contains_seq(desc, "data"@) || contains_seq(desc, "csv"@) || contains_seq(
        desc,
        "analysis"@,
    ) {
        ToolCategory::DataAnalysis
    } else if contains_seq(desc, "system"@) || contains_seq(desc, "process"@) || contains_seq(
        desc,
        "command"@,
    ) {
        ToolCategory::SystemAdmin
    } else {
        ToolCategory::Custom
    }
}

impl ToolCategory {
    /// Categorizes a tool based on its name and description.
    pub fn from_tool(tool: &Tool) -> (r: Self)
        ensures
            r == category_of(tool@),
    {
        let name_lower = crate::text::to_lowercase_str(tool.name.as_str());
        let desc_lower = crate::text::to_lowercase_str(tool.description.as_str());
        let name = name_lower.as_str();
        let desc = desc_lower.as_str();
        if crate::text::contains_str(name, "file") || crate::text::contains_str(name, "directory")
            || crate::text::contains_str(name, "read") || crate::text::contains_str(
            name,
            "write",
        ) {
            ToolCategory::FileSystem
        } else if crate::text::contains_str(desc, "http") || crate::text::contains_str(desc, "api")
            || crate::text::contains_str(desc, "web") {
            ToolCategory::WebApi
        } else if crate::text::contains_str(desc, "data") || crate::text::contains_str(desc, "csv")
            || crate::text::contains_str(desc, "analysis") {
            ToolCategory::DataAnalysis
        } else if crate::text::contains_str(desc, "system") || crate::text::contains_str(
            desc,
            "process",
        ) || crate::text::contains_str(desc, "command") {
            ToolCategory::SystemAdmin
        } else {
            ToolCategory::Custom
        }
    }
}

} // verus!
