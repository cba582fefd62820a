//! Guidance sections ("modules"): the closed set of built-in sections,
//! each with its applicability rule and its rendered content, the generic
//! pass-through sections for caller-named hints, and the selector that
//! decides which sections one request gets.

use vstd::prelude::*;

use crate::loader::{extract_spec, load_err_msg, lookup, GuidanceStoreView, PromptLoader};
use crate::text::{contains_seq, contains_str, dec_str, lower_of, str_eq, u64_to_string, upper_of};
use crate::types::{
    category_of, PromptError, PromptErrorView, SessionState, SessionStateView, Tool, ToolCategory,
    ToolView,
};

verus! {

/// The lowercased text mentions a programming keyword.
pub open spec fn mentions_programming(lower: Seq<char>) -> bool {
    ||| contains_seq(lower, "code"@)
    ||| contains_seq(lower, "function"@)
    ||| contains_seq(lower, "class"@)
    ||| contains_seq(lower, "refactor"@)
    ||| contains_seq(lower, "implement"@)
    ||| contains_seq(lower, "debug"@)
    ||| contains_seq(lower, "fix"@)
    ||| contains_seq(lower, "python"@)
    ||| contains_seq(lower, "rust"@)
    ||| contains_seq(lower, "javascript"@)
    ||| contains_seq(lower, "api"@)
}

/// The lowercased text mentions a data-analysis keyword.
pub open spec fn mentions_analysis(lower: Seq<char>) -> bool {
    ||| contains_seq(lower, "analyze"@)
    ||| contains_seq(lower, "analysis"@)
    ||| contains_seq(lower, "data"@)
    ||| contains_seq(lower, "csv"@)
    ||| contains_seq(lower, "trends"@)
    ||| contains_seq(lower, "statistics"@)
    ||| contains_seq(lower, "report"@)
    ||| contains_seq(lower, "insights"@)
    ||| contains_seq(lower, "metrics"@)
    ||| contains_seq(lower, "dashboard"@)
}

/// The lowercased text mentions an infrastructure keyword.
pub open spec fn mentions_system(lower: Seq<char>) -> bool {
    ||| contains_seq(lower, "server"@)
    ||| contains_seq(lower, "deployment"@)
    ||| contains_seq(lower, "infrastructure"@)
    ||| contains_seq(lower, "configuration"@)
    ||| contains_seq(lower, "security"@)
    ||| contains_seq(lower, "backup"@)
    ||| contains_seq(lower, "monitor"@)
    ||| contains_seq(lower, "admin"@)
    ||| contains_seq(lower, "service"@)
}

/// The lowercased text mentions a scale or action keyword that marks a
/// complex task.
pub open spec fn has_complex_indicator(lower: Seq<char>) -> bool {
    ||| contains_seq(lower, "refactor"@)
    ||| contains_seq(lower, "implement"@)
    ||| contains_seq(lower, "create a"@)
    ||| contains_seq(lower, "build"@)
    ||| contains_seq(lower, "develop"@)
    ||| contains_seq(lower, "comprehensive"@)
    ||| contains_seq(lower, "analysis"@)
    ||| contains_seq(lower, "strategy"@)
    ||| contains_seq(lower, "plan"@)
    ||| contains_seq(lower, "design"@)
    ||| contains_seq(lower, "multiple"@)
    ||| contains_seq(lower, "all"@)
    ||| contains_seq(lower, "entire"@)
    ||| contains_seq(lower, "complete"@)
    ||| contains_seq(lower, "full"@)
}

/// A task counts as complex when its text carries a scale keyword or
/// exceeds one hundred characters.
pub open spec fn is_complex_spec(prompt: Seq<char>) -> bool {
    has_complex_indicator(lower_of(prompt)) || prompt.len() > 100
}

/// Detects whether a task is complex from the user's request text alone.
pub fn is_complex_task(user_prompt: &str) -> (r: bool)
    ensures
        r == is_complex_spec(user_prompt@),
{
    let lower_owned = crate::text::to_lowercase_str(user_prompt);
    let lower = lower_owned.as_str();
    contains_str(lower, "refactor") || contains_str(lower, "implement") || contains_str(
        lower,
        "create a",
    ) || contains_str(lower, "build") || contains_str(lower, "develop") || contains_str(
        lower,
        "comprehensive",
    ) || contains_str(lower, "analysis") || contains_str(lower, "strategy") || contains_str(
        lower,
        "plan",
    ) || contains_str(lower, "design") || contains_str(lower, "multiple") || contains_str(
        lower,
        "all",
    ) || contains_str(lower, "entire") || contains_str(lower, "complete") || contains_str(
        lower,
        "full",
    ) || user_prompt.unicode_len() > 100
}

/// Some tool in the list resolves to the given category.
pub open spec fn has_category(tools: Seq<ToolView>, c: ToolCategory) -> bool {
    exists|i: int| 0 <= i < tools.len() && category_of(tools[i]) == c
}

/// Whether some tool in the list resolves to the given category.
fn tools_have_category(tools: &[Tool], c: &ToolCategory) -> (r: bool)
    ensures
        r == has_category(tools.deep_view(), *c),
{
    let n = tools.len();
    let mut i: usize = 0;
    while i < n
        invariant
            n == tools@.len(),
            i <= n,
            forall|k: int| 0 <= k < i ==> category_of(tools.deep_view()[k]) != *c,
        decreases n - i,
    {
        let cat = ToolCategory::from_tool(&tools[i]);
        if cat == *c {
            proof {
                assert(tools.deep_view()[i as int] == tools@[i as int]@);
                assert(category_of(tools.deep_view()[i as int]) == *c);
            }
            return true;
        }
        i += 1;
    }
    false
}

/// The tool-usage section applies whenever any tool is available.
pub open spec fn applies_tool_usage(tools: Seq<ToolView>) -> bool {
    tools.len() != 0
}

/// The filesystem section applies when a file-system tool is available.
pub open spec fn applies_filesystem(tools: Seq<ToolView>) -> bool {
    has_category(tools, ToolCategory::FileSystem)
}

/// The programming section applies when a file-system tool is available
/// and the text mentions a programming keyword.
pub open spec fn applies_programming(tools: Seq<ToolView>, prompt: Seq<char>) -> bool {
    has_category(tools, ToolCategory::FileSystem) && mentions_programming(lower_of(prompt))
}

/// The analysis section applies when the text mentions a data-analysis
/// keyword or a data-analysis tool is available.
pub open spec fn applies_analysis(tools: Seq<ToolView>, prompt: Seq<char>) -> bool {
    mentions_analysis(lower_of(prompt)) || has_category(tools, ToolCategory::DataAnalysis)
}

/// The system section applies when the text mentions an infrastructure
/// keyword or a system-administration tool is available.
pub open spec fn applies_system(tools: Seq<ToolView>, prompt: Seq<char>) -> bool {
    mentions_system(lower_of(prompt)) || has_category(tools, ToolCategory::SystemAdmin)
}

/// The task-planning section applies when no plan is recorded yet and
/// the task is complex.
pub open spec fn applies_task_planning(prompt: Seq<char>, session: SessionStateView) -> bool {
    (match session.has_plan {
        Some(b) => !b,
        None => true,
    }) && is_complex_spec(prompt)
}

/// The progress-monitoring section applies from the sixth recorded tool
/// call on.
pub open spec fn applies_progress_monitoring(session: SessionStateView) -> bool {
    match session.tool_call_count {
        Some(c) => c >= 6,
        None => false,
    }
}

/// Whether the lowercased text mentions a programming keyword.
fn check_programming(lower: &str) -> (r: bool)
    ensures
        r == mentions_programming(lower@),
{
    contains_str(lower, "code") || contains_str(lower, "function") || contains_str(lower, "class")
        || contains_str(lower, "refactor") || contains_str(lower, "implement") || contains_str(
        lower,
        "debug",
    ) || contains_str(lower, "fix") || contains_str(lower, "python") || contains_str(lower, "rust")
        || contains_str(lower, "javascript") || contains_str(lower, "api")
}

/// Whether the lowercased text mentions a data-analysis keyword.
fn check_analysis(lower: &str) -> (r: bool)
    ensures
        r == mentions_analysis(lower@),
{
    contains_str(lower, "analyze") || contains_str(lower, "analysis") || contains_str(
        lower,
        "data",
    ) || contains_str(lower, "csv") || contains_str(lower, "trends") || contains_str(
        lower,
        "statistics",
    ) || contains_str(lower, "report") || contains_str(lower, "insights") || contains_str(
        lower,
        "metrics",
    ) || contains_str(lower, "dashboard")
}

/// Whether the lowercased text mentions an infrastructure keyword.
fn check_system(lower: &str) -> (r: bool)
    ensures
        r == mentions_system(lower@),
{
    contains_str(lower, "server") || contains_str(lower, "deployment") || contains_str(
        lower,
        "infrastructure",
    ) || contains_str(lower, "configuration") || contains_str(lower, "security") || contains_str(
        lower,
        "backup",
    ) || contains_str(lower, "monitor") || contains_str(lower, "admin") || contains_str(
        lower,
        "service",
    )
}

/// One listing line of the tool-usage section.
pub open spec fn tool_line(t: ToolView) -> Seq<char> {
    "- "@ + t.name + ": "@ + t.description + "\n"@
}

/// The tool listing of the tool-usage section, one line per tool.
pub open spec fn tool_lines(tools: Seq<ToolView>) -> Seq<char>
    decreases tools.len(),
{
    if tools.len() == 0 {
        Seq::empty()
    } else {
        tool_line(tools[0]).add(tool_lines(tools.drop_first()))
    }
}

proof fn lemma_tool_lines_push(tools: Seq<ToolView>, t: ToolView)
    ensures
        tool_lines(tools.push(t)) =~= tool_lines(tools).add(tool_line(t)),
    decreases tools.len(),
{
    if tools.len() == 0 {
        assert(tools.push(t)[0] == t);
        assert(tools.push(t).drop_first() =~= Seq::<ToolView>::empty());
        assert(tool_lines(tools.push(t).drop_first()) == tool_lines(Seq::<ToolView>::empty()));
        assert(tool_lines(Seq::<ToolView>::empty()) == Seq::<char>::empty());
        assert(tool_lines(tools.push(t)) == tool_line(t).add(Seq::<char>::empty()));
        assert(tool_lines(tools) == Seq::<char>::empty());
    } else {
        lemma_tool_lines_push(tools.drop_first(), t);
        assert(tools.push(t)[0] == tools[0]);
        assert(tools.push(t).drop_first() =~= tools.drop_first().push(t));
        assert(tool_lines(tools.push(t)) == tool_line(tools[0]).add(
            tool_lines(tools.drop_first().push(t)),
        ));
        assert(tool_lines(tools) == tool_line(tools[0]).add(tool_lines(tools.drop_first())));
    }
}

/// What the tool-usage section renders: nothing without tools, otherwise
/// the tool listing followed by the general tool-usage guidance; fails
/// when that guidance is missing from the store.
pub open spec fn tool_usage_content(tools: Seq<ToolView>, store: GuidanceStoreView) -> Option<
    Seq<char>,
> {
    if tools.len() == 0 {
        Some(Seq::empty())
    } else {
        match lookup(store.entries, "behaviors"@, "tools"@) {
            Some(text) => Some(
                "You have access to the following tools:\n"@ + tool_lines(tools) + "\n"@
                    + extract_spec(text),
            ),
            None => None,
        }
    }
}

/// What the filesystem section renders: nothing without a file-system
/// tool, otherwise the filesystem guidance under its banner.
pub open spec fn filesystem_content(tools: Seq<ToolView>, store: GuidanceStoreView) -> Option<
    Seq<char>,
> {
    if !applies_filesystem(tools) {
        Some(Seq::empty())
    } else {
        match lookup(store.entries, "domains"@, "filesystem"@) {
            Some(text) => Some("\nFILE SYSTEM GUIDANCE:\n"@ + extract_spec(text)),
            None => None,
        }
    }
}

/// What the task-planning section renders: nothing once a plan is
/// recorded, otherwise the planning guidance under its banner.
pub open spec fn task_planning_content(session: SessionStateView, store: GuidanceStoreView)
    -> Option<Seq<char>> {
    if (match session.has_plan {
        Some(b) => b,
        None => false,
    }) {
        Some(Seq::empty())
    } else {
        match lookup(store.entries, "behaviors"@, "planning"@) {
            Some(text) => Some("\nCOMPLEX TASK PLANNING:\n"@ + extract_spec(text)),
            None => None,
        }
    }
}

/// What the progress-monitoring section renders: the original task, the
/// number of tool calls so far, and the progress guidance.
pub open spec fn progress_content(session: SessionStateView, store: GuidanceStoreView) -> Option<
    Seq<char>,
> {
    match lookup(store.entries, "behaviors"@, "progress"@) {
        Some(text) => Some(
            "\nPROGRESS MONITORING:\nYour original task was: \""@ + (match session.original_task {
                Some(t) => t,
                None => "the current task"@,
            }) + "\"\n\nYou've executed "@ + dec_str(
                (match session.tool_call_count {
                    Some(c) => c,
                    None => 0,
                }) as int,
            ) + " tool calls so far.\n\n"@ + extract_spec(text),
        ),
        None => None,
    }
}

/// What the programming section renders.
pub open spec fn programming_content(store: GuidanceStoreView) -> Option<Seq<char>> {
    match lookup(store.entries, "domains"@, "programming"@) {
        Some(text) => Some("\nPROGRAMMING BEST PRACTICES:\n"@ + extract_spec(text)),
        None => None,
    }
}

/// What the analysis section renders.
pub open spec fn analysis_content(store: GuidanceStoreView) -> Option<Seq<char>> {
    match lookup(store.entries, "domains"@, "analysis"@) {
        Some(text) => Some("\nDATA ANALYSIS METHODOLOGY:\n"@ + extract_spec(text)),
        None => None,
    }
}

/// What the system section renders.
pub open spec fn system_content(store: GuidanceStoreView) -> Option<Seq<char>> {
    match lookup(store.entries, "domains"@, "system"@) {
        Some(text) => Some("\nSYSTEM ADMINISTRATION GUIDANCE:\n"@ + extract_spec(text)),
        None => None,
    }
}

/// What a generic pass-through section renders for a caller-named entry
/// of a category: the block under an uppercased banner when it exists,
/// and silently nothing when it does not.
pub open spec fn generic_content(category: Seq<char>, name: Seq<char>, store: GuidanceStoreView)
    -> Seq<char> {
    match lookup(store.entries, category, name) {
        Some(text) => "\n"@ + upper_of(name) + ":\n"@ + extract_spec(text),
        None => Seq::empty(),
    }
}

/// Basic tool usage guidance module.
pub struct ToolUsageModule;

impl ToolUsageModule {
    /// This module's applied-section name.
    pub fn name(&self) -> (r: &'static str)
        ensures
            r@ == "tool_usage"@,
    {
        "tool_usage"
    }

    /// Renders the tool listing and the general tool-usage guidance.
    pub fn generate_content(
        &self,
        tools: &[Tool],
        _session_state: &SessionState,
        loader: &PromptLoader,
    ) -> (r: Result<String, PromptError>)
        ensures
            match tool_usage_content(tools.deep_view(), loader@.store) {
                Some(c) => r matches Ok(s) && s@ == c,
                None => r matches Err(e) && e@ == PromptErrorView::ModuleLoadingFailed(
                    load_err_msg("behaviors"@, "tools"@),
                ),
            },
    {
        if tools.len() == 0 {
            return Ok(String::new());
        }
        let ghost dv = tools.deep_view();
        let mut content = String::from_str("You have access to the following tools:\n");
        let mut i: usize = 0;
        proof {
            assert(dv.take(0) =~= Seq::<ToolView>::empty());
            assert(content@ =~= "You have access to the following tools:\n"@ + tool_lines(
                dv.take(0),
            ));
        }
        while i < tools.len()
            invariant
                dv == tools.deep_view(),
                i <= tools@.len(),
                content@ == "You have access to the following tools:\n"@ + tool_lines(
                    dv.take(i as int),
                ),
            decreases tools@.len() - i,
        {
            let t = &tools[i];
            content.append("- ");
            content.append(t.name.as_str());
            content.append(": ");
            content.append(t.description.as_str());
            content.append("\n");
            proof {
                assert(dv[i as int] == tools@[i as int]@);
                lemma_tool_lines_push(dv.take(i as int), dv[i as int]);
                assert(dv.take(i as int).push(dv[i as int]) =~= dv.take(i + 1));
                assert(content@ =~= "You have access to the following tools:\n"@ + tool_lines(
                    dv.take(i + 1),
                ));
            }
            i += 1;
        }
        proof {
            assert(dv.take(tools@.len() as int) =~= dv);
        }
        let tool_guidance = match loader.load_behavior("tools") {
            Ok(g) => g,
            Err(e) => {
                return Err(e);
            },
        };
        let extracted = loader.extract_guidance(tool_guidance.as_str());
        content.append("\n");
        content.append(extracted.as_str());
        Ok(content)
    }

    /// This module applies whenever any tool is available.
    pub fn applies_to(
        &self,
        tools: &[Tool],
        _user_prompt: &str,
        _session_state: &SessionState,
    ) -> (r: bool)
        ensures
            r == applies_tool_usage(tools.deep_view()),
    {
        tools.len() != 0
    }
}

/// File system operations guidance module.
pub struct FilesystemModule;

impl FilesystemModule {
    /// This module's applied-section name.
    pub fn name(&self) -> (r: &'static str)
        ensures
            r@ == "filesystem"@,
    {
        "filesystem"
    }

    /// Renders the filesystem guidance when a file-system tool is
    /// available.
    pub fn generate_content(
        &self,
        tools: &[Tool],
        _session_state: &SessionState,
        loader: &PromptLoader,
    ) -> (r: Result<String, PromptError>)
        ensures
            match filesystem_content(tools.deep_view(), loader@.store) {
                Some(c) => r matches Ok(s) && s@ == c,
                None => r matches Err(e) && e@ == PromptErrorView::ModuleLoadingFailed(
                    load_err_msg("domains"@, "filesystem"@),
                ),
            },
    {
        let has_filesystem_tools = tools_have_category(tools, &ToolCategory::FileSystem);
        if !has_filesystem_tools {
            return Ok(String::new());
        }
        let filesystem_text = match loader.load_domain("filesystem") {
            Ok(g) => g,
            Err(e) => {
                return Err(e);
            },
        };
        let guidance = loader.extract_guidance(filesystem_text.as_str());
        let mut content = String::from_str("\nFILE SYSTEM GUIDANCE:\n");
        content.append(guidance.as_str());
        Ok(content)
    }

    /// This module applies when a file-system tool is available.
    pub fn applies_to(
        &self,
        tools: &[Tool],
        _user_prompt: &str,
        _session_state: &SessionState,
    ) -> (r: bool)
        ensures
            r == applies_filesystem(tools.deep_view()),
    {
        tools_have_category(tools, &ToolCategory::FileSystem)
    }
}

/// Task planning guidance for complex tasks.
pub struct TaskPlanningModule;

impl TaskPlanningModule {
    /// This module's applied-section name.
    pub fn name(&self) -> (r: &'static str)
        ensures
            r@ == "task_planning"@,
    {
        "task_planning"
    }

    /// Renders the planning guidance while no plan is recorded.
    pub fn generate_content(
        &self,
        _tools: &[Tool],
        session_state: &SessionState,
        loader: &PromptLoader,
    ) -> (r: Result<String, PromptError>)
        ensures
            match task_planning_content(session_state@, loader@.store) {
                Some(c) => r matches Ok(s) && s@ == c,
                None => r matches Err(e) && e@ == PromptErrorView::ModuleLoadingFailed(
                    load_err_msg("behaviors"@, "planning"@),
                ),
            },
    {
        let has_plan = match session_state.has_plan {
            Some(b) => b,
            None => false,
        };
        if has_plan {
            return Ok(String::new());
        }
        let planning_text = match loader.load_behavior("planning") {
            Ok(g) => g,
            Err(e) => {
                return Err(e);
            },
        };
        let guidance = loader.extract_guidance(planning_text.as_str());
        let mut content = String::from_str("\nCOMPLEX TASK PLANNING:\n");
        content.append(guidance.as_str());
        Ok(content)
    }

    /// This module applies when no plan is recorded and the task is
    /// complex.
    pub fn applies_to(
        &self,
        _tools: &[Tool],
        user_prompt: &str,
        session_state: &SessionState,
    ) -> (r: bool)
        ensures
            r == applies_task_planning(user_prompt@, session_state@),
    {
        let has_plan = match session_state.has_plan {
            Some(b) => b,
            None => false,
        };
        !has_plan && is_complex_task(user_prompt)
    }
}

/// Progress monitoring for ongoing work.
pub struct ProgressMonitoringModule;

impl ProgressMonitoringModule {
    /// This module's applied-section name.
    pub fn name(&self) -> (r: &'static str)
        ensures
            r@ == "progress_monitoring"@,
    {
        "progress_monitoring"
    }

    /// Renders the original task, the tool-call count, and the progress
    /// guidance.
    pub fn generate_content(
        &self,
        _tools: &[Tool],
        session_state: &SessionState,
        loader: &PromptLoader,
    ) -> (r: Result<String, PromptError>)
        ensures
            match progress_content(session_state@, loader@.store) {
                Some(c) => r matches Ok(s) && s@ == c,
                None => r matches Err(e) && e@ == PromptErrorView::ModuleLoadingFailed(
                    load_err_msg("behaviors"@, "progress"@),
                ),
            },
    {
        let tool_count: u32 = match session_state.tool_call_count {
            Some(c) => c,
            None => 0,
        };
        let progress_text = match loader.load_behavior("progress") {
            Ok(g) => g,
            Err(e) => {
                return Err(e);
            },
        };
        let guidance = loader.extract_guidance(progress_text.as_str());
        let mut content = String::from_str("\nPROGRESS MONITORING:\nYour original task was: \"");
        match &session_state.original_task {
            Some(t) => content.append(t.as_str()),
            None => content.append("the current task"),
        };
        content.append("\"\n\nYou've executed ");
        let count_text = u64_to_string(tool_count as u64);
        content.append(count_text.as_str());
        content.append(" tool calls so far.\n\n");
        content.append(guidance.as_str());
        Ok(content)
    }

    /// This module applies from the sixth recorded tool call on.
    pub fn applies_to(
        &self,
        _tools: &[Tool],
        _user_prompt: &str,
        session_state: &SessionState,
    ) -> (r: bool)
        ensures
            r == applies_progress_monitoring(session_state@),
    {
        let count: u32 = match session_state.tool_call_count {
            Some(c) => c,
            None => 0,
        };
        count >= 6
    }
}

/// Programming best practices module.
pub struct ProgrammingModule;

impl ProgrammingModule {
    /// This module's applied-section name.
    pub fn name(&self) -> (r: &'static str)
        ensures
            r@ == "programming"@,
    {
        "programming"
    }

    /// Renders the programming guidance.
    pub fn generate_content(
        &self,
        _tools: &[Tool],
        _session_state: &SessionState,
        loader: &PromptLoader,
    ) -> (r: Result<String, PromptError>)
        ensures
            match programming_content(loader@.store) {
                Some(c) => r matches Ok(s) && s@ == c,
                None => r matches Err(e) && e@ == PromptErrorView::ModuleLoadingFailed(
                    load_err_msg("domains"@, "programming"@),
                ),
            },
    {
        let text = match loader.load_domain("programming") {
            Ok(g) => g,
            Err(e) => {
                return Err(e);
            },
        };
        let guidance = loader.extract_guidance(text.as_str());
        let mut content = String::from_str("\nPROGRAMMING BEST PRACTICES:\n");
        content.append(guidance.as_str());
        Ok(content)
    }

    /// This module applies when a file-system tool is available and the
    /// text mentions a programming keyword.
    pub fn applies_to(
        &self,
        tools: &[Tool],
        user_prompt: &str,
        _session_state: &SessionState,
    ) -> (r: bool)
        ensures
            r == applies_programming(tools.deep_view(), user_prompt@),
    {
        let has_file_tools = tools_have_category(tools, &ToolCategory::FileSystem);
        let lower = crate::text::to_lowercase_str(user_prompt);
        let mentions = check_programming(lower.as_str());
        has_file_tools && mentions
    }
}

/// Data analysis module.
pub struct AnalysisModule;

impl AnalysisModule {
    /// This module's applied-section name.
    pub fn name(&self) -> (r: &'static str)
        ensures
            r@ == "analysis"@,
    {
        "analysis"
    }

    /// Renders the data-analysis guidance.
    pub fn generate_content(
        &self,
        _tools: &[Tool],
        _session_state: &SessionState,
        loader: &PromptLoader,
    ) -> (r: Result<String, PromptError>)
        ensures
            match analysis_content(loader@.store) {
                Some(c) => r matches Ok(s) && s@ == c,
                None => r matches Err(e) && e@ == PromptErrorView::ModuleLoadingFailed(
                    load_err_msg("domains"@, "analysis"@),
                ),
            },
    {
        let text = match loader.load_domain("analysis") {
            Ok(g) => g,
            Err(e) => {
                return Err(e);
            },
        };
        let guidance = loader.extract_guidance(text.as_str());
        let mut content = String::from_str("\nDATA ANALYSIS METHODOLOGY:\n");
        content.append(guidance.as_str());
        Ok(content)
    }

    /// This module applies when the text mentions a data-analysis
    /// keyword or a data-analysis tool is available.
    pub fn applies_to(
        &self,
        tools: &[Tool],
        user_prompt: &str,
        _session_state: &SessionState,
    ) -> (r: bool)
        ensures
            r == applies_analysis(tools.deep_view(), user_prompt@),
    {
        let lower = crate::text::to_lowercase_str(user_prompt);
        let mentions = check_analysis(lower.as_str());
        let has_data_tools = tools_have_category(tools, &ToolCategory::DataAnalysis);
        mentions || has_data_tools
    }
}

/// System administration module.
pub struct SystemModule;

impl SystemModule {
    /// This module's applied-section name.
    pub fn name(&self) -> (r: &'static str)
        ensures
            r@ == "system"@,
    {
        "system"
    }

    /// Renders the system-administration guidance.
    pub fn generate_content(
        &self,
        _tools: &[Tool],
        _session_state: &SessionState,
        loader: &PromptLoader,
    ) -> (r: Result<String, PromptError>)
        ensures
            match system_content(loader@.store) {
                Some(c) => r matches Ok(s) && s@ == c,
                None => r matches Err(e) && e@ == PromptErrorView::ModuleLoadingFailed(
                    load_err_msg("domains"@, "system"@),
                ),
            },
    {
        let text = match loader.load_domain("system") {
            Ok(g) => g,
            Err(e) => {
                return Err(e);
            },
        };
        let guidance = loader.extract_guidance(text.as_str());
        let mut content = String::from_str("\nSYSTEM ADMINISTRATION GUIDANCE:\n");
        content.append(guidance.as_str());
        Ok(content)
    }

    /// This module applies when the text mentions an infrastructure
    /// keyword or a system-administration tool is available.
    pub fn applies_to(
        &self,
        tools: &[Tool],
        user_prompt: &str,
        _session_state: &SessionState,
    ) -> (r: bool)
        ensures
            r == applies_system(tools.deep_view(), user_prompt@),
    {
        let lower = crate::text::to_lowercase_str(user_prompt);
        let mentions = check_system(lower.as_str());
        let has_system_tools = tools_have_category(tools, &ToolCategory::SystemAdmin);
        mentions || has_system_tools
    }
}

/// Generic domain module that renders a caller-named domain entry.
pub struct GenericDomainModule {
    domain_name: String,
}

impl GenericDomainModule {
    /// A pass-through section for the named domain entry.
    pub fn new(domain_name: String) -> (r: Self)
        ensures
            r@ == domain_name@,
    {
        Self { domain_name }
    }

    /// This module's applied-section name: the domain name itself.
    pub fn name(&self) -> (r: &str)
        ensures
            r@ == self@,
    {
        self.domain_name.as_str()
    }

    /// Renders the named domain entry, or nothing when it is missing.
    pub fn generate_content(
        &self,
        _tools: &[Tool],
        _session_state: &SessionState,
        loader: &PromptLoader,
    ) -> (r: Result<String, PromptError>)
        ensures
            r matches Ok(s) && s@ == generic_content("domains"@, self@, loader@.store),
    {
        match loader.load_domain(self.domain_name.as_str()) {
            Ok(text) => {
                let guidance = loader.extract_guidance(text.as_str());
                let upper = crate::text::to_uppercase_str(self.domain_name.as_str());
                let mut content = String::from_str("\n");
                content.append(upper.as_str());
                content.append(":\n");
                content.append(guidance.as_str());
                Ok(content)
            },
            Err(_) => Ok(String::new()),
        }
    }

    /// A hinted module always applies.
    pub fn applies_to(
        &self,
        _tools: &[Tool],
        _user_prompt: &str,
        _session_state: &SessionState,
    ) -> (r: bool)
        ensures
            r,
    {
        true
    }
}

impl View for GenericDomainModule {
    type V = Seq<char>;

    closed spec fn view(&self) -> Seq<char> {
        self.domain_name@
    }
}

/// Generic behavior module that renders a caller-named behavior entry.
pub struct GenericBehaviorModule {
    behavior_name: String,
}

impl GenericBehaviorModule {
    /// A pass-through section for the named behavior entry.
    pub fn new(behavior_name: String) -> (r: Self)
        ensures
            r@ == behavior_name@,
    {
        Self { behavior_name }
    }

    /// This module's applied-section name: the behavior name itself.
    pub fn name(&self) -> (r: &str)
        ensures
            r@ == self@,
    {
        self.behavior_name.as_str()
    }

    /// Renders the named behavior entry, or nothing when it is missing.
    pub fn generate_content(
        &self,
        _tools: &[Tool],
        _session_state: &SessionState,
        loader: &PromptLoader,
    ) -> (r: Result<String, PromptError>)
        ensures
            r matches Ok(s) && s@ == generic_content("behaviors"@, self@, loader@.store),
    {
        match loader.load_behavior(self.behavior_name.as_str()) {
            Ok(text) => {
                let guidance = loader.extract_guidance(text.as_str());
                let upper = crate::text::to_uppercase_str(self.behavior_name.as_str());
                let mut content = String::from_str("\n");
                content.append(upper.as_str());
                content.append(":\n");
                content.append(guidance.as_str());
                Ok(content)
            },
            Err(_) => Ok(String::new()),
        }
    }

    /// A hinted module always applies.
    pub fn applies_to(
        &self,
        _tools: &[Tool],
        _user_prompt: &str,
        _session_state: &SessionState,
    ) -> (r: bool)
        ensures
            r,
    {
        true
    }
}

impl View for GenericBehaviorModule {
    type V = Seq<char>;

    closed spec fn view(&self) -> Seq<char> {
        self.behavior_name@
    }
}

/// One selected guidance section: a member of the closed set of built-in
/// sections, or a generic pass-through for a caller-named one.
pub enum SelectedModule {
    ToolUsage,
    Filesystem,
    Programming,
    Analysis,
    System,
    TaskPlanning,
    ProgressMonitoring,
    GenericDomain(GenericDomainModule),
    GenericBehavior(GenericBehaviorModule),
}

#[verifier::ext_equal]
pub ghost enum SelectedModuleView {
    ToolUsage,
    Filesystem,
    Programming,
    Analysis,
    System,
    TaskPlanning,
    ProgressMonitoring,
    GenericDomain(Seq<char>),
    GenericBehavior(Seq<char>),
}

impl View for SelectedModule {
    type V = SelectedModuleView;

    open spec fn view(&self) -> SelectedModuleView {
        match self {
            SelectedModule::ToolUsage => SelectedModuleView::ToolUsage,
            SelectedModule::Filesystem => SelectedModuleView::Filesystem,
            SelectedModule::Programming => SelectedModuleView::Programming,
            SelectedModule::Analysis => SelectedModuleView::Analysis,
            SelectedModule::System => SelectedModuleView::System,
            SelectedModule::TaskPlanning => SelectedModuleView::TaskPlanning,
            SelectedModule::ProgressMonitoring => SelectedModuleView::ProgressMonitoring,
            SelectedModule::GenericDomain(m) => SelectedModuleView::GenericDomain(m@),
            SelectedModule::GenericBehavior(m) => SelectedModuleView::GenericBehavior(m@),
        }
    }
}

impl DeepView for SelectedModule {
    type V = SelectedModuleView;

    open spec fn deep_view(&self) -> SelectedModuleView {
        self.view()
    }
}

/// The applied-section name of a selected module.
pub open spec fn module_name(m: SelectedModuleView) -> Seq<char> {
    match m {
        SelectedModuleView::ToolUsage => "tool_usage"@,
        SelectedModuleView::Filesystem => "filesystem"@,
        SelectedModuleView::Programming => "programming"@,
        SelectedModuleView::Analysis => "analysis"@,
        SelectedModuleView::System => "system"@,
        SelectedModuleView::TaskPlanning => "task_planning"@,
        SelectedModuleView::ProgressMonitoring => "progress_monitoring"@,
        SelectedModuleView::GenericDomain(n) => n,
        SelectedModuleView::GenericBehavior(n) => n,
    }
}

/// What a selected module renders, or `None` where its guidance block is
/// missing and the render fails.
pub open spec fn module_content(
    m: SelectedModuleView,
    tools: Seq<ToolView>,
    session: SessionStateView,
    store: GuidanceStoreView,
) -> Option<Seq<char>> {
    match m {
        SelectedModuleView::ToolUsage => tool_usage_content(tools, store),
        SelectedModuleView::Filesystem => filesystem_content(tools, store),
        SelectedModuleView::Programming => programming_content(store),
        SelectedModuleView::Analysis => analysis_content(store),
        SelectedModuleView::System => system_content(store),
        SelectedModuleView::TaskPlanning => task_planning_content(session, store),
        SelectedModuleView::ProgressMonitoring => progress_content(session, store),
        SelectedModuleView::GenericDomain(n) => Some(generic_content("domains"@, n, store)),
        SelectedModuleView::GenericBehavior(n) => Some(generic_content("behaviors"@, n, store)),
    }
}

impl SelectedModule {
    /// This module's applied-section name.
    pub fn name(&self) -> (r: &str)
        ensures
            r@ == module_name(self@),
    {
        match self {
            SelectedModule::ToolUsage => "tool_usage",
            SelectedModule::Filesystem => "filesystem",
            SelectedModule::Programming => "programming",
            SelectedModule::Analysis => "analysis",
            SelectedModule::System => "system",
            SelectedModule::TaskPlanning => "task_planning",
            SelectedModule::ProgressMonitoring => "progress_monitoring",
            SelectedModule::GenericDomain(m) => m.name(),
            SelectedModule::GenericBehavior(m) => m.name(),
        }
    }

    /// Renders this module's content against the guidance store.
    pub fn generate_content(
        &self,
        tools: &[Tool],
        session_state: &SessionState,
        loader: &PromptLoader,
    ) -> (r: Result<String, PromptError>)
        ensures
            match module_content(self@, tools.deep_view(), session_state@, loader@.store) {
                Some(c) => r matches Ok(s) && s@ == c,
                None => r is Err,
            },
    {
        match self {
            SelectedModule::ToolUsage => ToolUsageModule.generate_content(
                tools,
                session_state,
                loader,
            ),
            SelectedModule::Filesystem => FilesystemModule.generate_content(
                tools,
                session_state,
                loader,
            ),
            SelectedModule::Programming => ProgrammingModule.generate_content(
                tools,
                session_state,
                loader,
            ),
            SelectedModule::Analysis => AnalysisModule.generate_content(
                tools,
                session_state,
                loader,
            ),
            SelectedModule::System => SystemModule.generate_content(tools, session_state, loader),
            SelectedModule::TaskPlanning => TaskPlanningModule.generate_content(
                tools,
                session_state,
                loader,
            ),
            SelectedModule::ProgressMonitoring => ProgressMonitoringModule.generate_content(
                tools,
                session_state,
                loader,
            ),
            SelectedModule::GenericDomain(m) => m.generate_content(tools, session_state, loader),
            SelectedModule::GenericBehavior(m) => m.generate_content(tools, session_state, loader),
        }
    }
}

/// The module a domain hint names: a built-in section where the name is
/// recognized, a generic pass-through otherwise.
pub open spec fn map_domain_hint(h: Seq<char>) -> SelectedModuleView {
    if h == "filesystem"@ {
        SelectedModuleView::Filesystem
    } else if h == "programming"@ {
        SelectedModuleView::Programming
    } else if h == "analysis"@ {
        SelectedModuleView::Analysis
    } else if h == "system"@ {
        SelectedModuleView::System
    } else {
        SelectedModuleView::GenericDomain(h)
    }
}

/// The module a behavior hint names: a built-in section where the name
/// is recognized, a generic pass-through otherwise.
pub open spec fn map_behavior_hint(h: Seq<char>) -> SelectedModuleView {
    if h == "planning"@ {
        SelectedModuleView::TaskPlanning
    } else if h == "progress"@ {
        SelectedModuleView::ProgressMonitoring
    } else {
        SelectedModuleView::GenericBehavior(h)
    }
}

/// The auto-detected domain sections, in their fixed precedence order.
pub open spec fn auto_domains(tools: Seq<ToolView>, prompt: Seq<char>) -> Seq<SelectedModuleView> {
    (if applies_filesystem(tools) {
        seq![SelectedModuleView::Filesystem]
    } else {
        Seq::empty()
    }).add(
        if applies_programming(tools, prompt) {
            seq![SelectedModuleView::Programming]
        } else {
            Seq::empty()
        },
    ).add(
        if applies_analysis(tools, prompt) {
            seq![SelectedModuleView::Analysis]
        } else {
            Seq::empty()
        },
    ).add(
        if applies_system(tools, prompt) {
            seq![SelectedModuleView::System]
        } else {
            Seq::empty()
        },
    )
}

/// The auto-detected behavior sections, in their fixed precedence order.
pub open spec fn auto_behaviors(prompt: Seq<char>, session: SessionStateView) -> Seq<
    SelectedModuleView,
> {
    (if applies_task_planning(prompt, session) {
        seq![SelectedModuleView::TaskPlanning]
    } else {
        Seq::empty()
    }).add(
        if applies_progress_monitoring(session) {
            seq![SelectedModuleView::ProgressMonitoring]
        } else {
            Seq::empty()
        },
    )
}

/// The domain sections of one request: the hint list mapped in order
/// when hints are given, the auto-detected sections otherwise.
pub open spec fn domain_part(
    tools: Seq<ToolView>,
    prompt: Seq<char>,
    domain_hints: Option<Seq<Seq<char>>>,
) -> Seq<SelectedModuleView> {
    match domain_hints {
        Some(hs) => Seq::new(hs.len(), |i: int| map_domain_hint(hs[i])),
        None => auto_domains(tools, prompt),
    }
}

/// The behavior sections of one request: the hint list mapped in order
/// when hints are given, the auto-detected sections otherwise.
pub open spec fn behavior_part(
    prompt: Seq<char>,
    session: SessionStateView,
    behavior_hints: Option<Seq<Seq<char>>>,
) -> Seq<SelectedModuleView> {
    match behavior_hints {
        Some(hs) => Seq::new(hs.len(), |i: int| map_behavior_hint(hs[i])),
        None => auto_behaviors(prompt, session),
    }
}

/// All sections of one request, in application order: the tool-usage
/// section whenever tools are available, then the domain sections, then
/// the behavior sections.
pub open spec fn select_spec(
    tools: Seq<ToolView>,
    prompt: Seq<char>,
    session: SessionStateView,
    domain_hints: Option<Seq<Seq<char>>>,
    behavior_hints: Option<Seq<Seq<char>>>,
) -> Seq<SelectedModuleView> {
    (if tools.len() != 0 {
        seq![SelectedModuleView::ToolUsage]
    } else {
        Seq::empty()
    }).add(domain_part(tools, prompt, domain_hints)).add(
        behavior_part(prompt, session, behavior_hints),
    )
}

/// The tool-usage section leads: for every non-empty tool list, the
/// first selected entry is the tool-usage section, whatever the text,
/// the session state, and the hints.
pub proof fn lemma_tool_usage_first(
    tools: Seq<ToolView>,
    prompt: Seq<char>,
    session: SessionStateView,
    domain_hints: Option<Seq<Seq<char>>>,
    behavior_hints: Option<Seq<Seq<char>>>,
)
    requires
        tools.len() != 0,
    ensures
        select_spec(tools, prompt, session, domain_hints, behavior_hints).len() >= 1,
        select_spec(tools, prompt, session, domain_hints, behavior_hints)[0]
            == SelectedModuleView::ToolUsage,
{
}

/// Hint lists fully determine selection: when both hint lists are
/// supplied, the selected modules are the same for any two user texts
/// and any two session states, so no auto-detection predicate can have
/// influenced them.
pub proof fn lemma_hints_determine_selection(
    tools: Seq<ToolView>,
    prompt1: Seq<char>,
    prompt2: Seq<char>,
    session1: SessionStateView,
    session2: SessionStateView,
    domain_hints: Seq<Seq<char>>,
    behavior_hints: Seq<Seq<char>>,
)
    ensures
        select_spec(tools, prompt1, session1, Some(domain_hints), Some(behavior_hints))
            == select_spec(tools, prompt2, session2, Some(domain_hints), Some(behavior_hints)),
{
    assert(select_spec(tools, prompt1, session1, Some(domain_hints), Some(behavior_hints)) =~= select_spec(
        tools,
        prompt2,
        session2,
        Some(domain_hints),
        Some(behavior_hints),
    ));
}

/// Module selector that determines which modules to apply.
pub struct ModuleSelector;

impl ModuleSelector {
    /// Selects the guidance sections for one request, in application
    /// order, exactly as `select_spec` describes.
    #[verifier::rlimit(100)]
    pub fn select_modules(
        tools: &[Tool],
        user_prompt: &str,
        session_state: &SessionState,
        domain_hints: Option<&[String]>,
        behavior_hints: Option<&[String]>,
    ) -> (r: Vec<SelectedModule>)
        ensures
            r.deep_view() == select_spec(
                tools.deep_view(),
                user_prompt@,
                session_state@,
                match domain_hints {
                    Some(h) => Some(h.deep_view()),
                    None => None,
                },
                match behavior_hints {
                    Some(h) => Some(h.deep_view()),
                    None => None,
                },
            ),
    {
        let ghost tdv = tools.deep_view();
        let ghost pv = user_prompt@;
        let ghost sv = session_state@;
        let mut modules: Vec<SelectedModule> = Vec::new();
        if tools.len() != 0 {
            modules.push(SelectedModule::ToolUsage);
        }
        let ghost head: Seq<SelectedModuleView> = if tdv.len() != 0 {
            seq![SelectedModuleView::ToolUsage]
        } else {
            Seq::empty()
        };
        proof {
            assert(modules.deep_view() =~= head);
        }
        match domain_hints {
            Some(domains) => {
                let ghost hs = domains.deep_view();
                let n = domains.len();
                let mut i: usize = 0;
                while i < n
                    invariant
                        n == domains@.len(),
                        hs == domains.deep_view(),
                        i <= n,
                        modules.deep_view() =~= head.add(
                            Seq::new(i as nat, |k: int| map_domain_hint(hs[k])),
                        ),
                    decreases n - i,
                {
                    let ghost before = modules.deep_view();
                    let d = &domains[i];
                    let ds = d.as_str();
                    if str_eq(ds, "filesystem") {
                        modules.push(SelectedModule::Filesystem);
                    } else if str_eq(ds, "programming") {
                        modules.push(SelectedModule::Programming);
                    } else if str_eq(ds, "analysis") {
                        modules.push(SelectedModule::Analysis);
                    } else if str_eq(ds, "system") {
                        modules.push(SelectedModule::System);
                    } else {
                        modules.push(
                            SelectedModule::GenericDomain(GenericDomainModule::new(d.clone())),
                        );
                    }
                    proof {
                        assert(hs[i as int] == domains@[i as int]@);
                        assert(modules.deep_view() =~= before.push(map_domain_hint(hs[i as int])));
                        assert(Seq::new((i + 1) as nat, |k: int| map_domain_hint(hs[k])) =~= Seq::new(
                            i as nat,
                            |k: int| map_domain_hint(hs[k]),
                        ).push(map_domain_hint(hs[i as int])));
                    }
                    i += 1;
                }
                proof {
                    assert(modules.deep_view() =~= head.add(
                        domain_part(tdv, pv, Some(domains.deep_view())),
                    ));
                }
            },
            None => {
                let ghost d1: Seq<SelectedModuleView> = if applies_filesystem(tdv) {
                    seq![SelectedModuleView::Filesystem]
                } else {
                    Seq::empty()
                };
                let ghost d2: Seq<SelectedModuleView> = if applies_programming(tdv, pv) {
                    seq![SelectedModuleView::Programming]
                } else {
                    Seq::empty()
                };
                let ghost d3: Seq<SelectedModuleView> = if applies_analysis(tdv, pv) {
                    seq![SelectedModuleView::Analysis]
                } else {
                    Seq::empty()
                };
                let ghost d4: Seq<SelectedModuleView> = if applies_system(tdv, pv) {
                    seq![SelectedModuleView::System]
                } else {
                    Seq::empty()
                };
                let filesystem_module = FilesystemModule;
                if filesystem_module.applies_to(tools, user_prompt, session_state) {
                    modules.push(SelectedModule::Filesystem);
                }
                proof {
                    assert(modules.deep_view() =~= head.add(d1));
                }
                let programming_module = ProgrammingModule;
                if programming_module.applies_to(tools, user_prompt, session_state) {
                    modules.push(SelectedModule::Programming);
                }
                proof {
                    assert(modules.deep_view() =~= head.add(d1).add(d2));
                }
                let analysis_module = AnalysisModule;
                if analysis_module.applies_to(tools, user_prompt, session_state) {
                    modules.push(SelectedModule::Analysis);
                }
                proof {
                    assert(modules.deep_view() =~= head.add(d1).add(d2).add(d3));
                }
                let system_module = SystemModule;
                if system_module.applies_to(tools, user_prompt, session_state) {
                    modules.push(SelectedModule::System);
                }
                proof {
                    assert(modules.deep_view() =~= head.add(d1).add(d2).add(d3).add(d4));
                    assert(auto_domains(tdv, pv) =~= d1.add(d2).add(d3).add(d4));
                    assert(modules.deep_view() =~= head.add(auto_domains(tdv, pv)));
                }
            },
        }
        let ghost mid = modules.deep_view();
        match behavior_hints {
            Some(behaviors) => {
                let ghost hs = behaviors.deep_view();
                let n = behaviors.len();
                let mut i: usize = 0;
                while i < n
                    invariant
                        n == behaviors@.len(),
                        hs == behaviors.deep_view(),
                        i <= n,
                        modules.deep_view() =~= mid.add(
                            Seq::new(i as nat, |k: int| map_behavior_hint(hs[k])),
                        ),
                    decreases n - i,
                {
                    let ghost before = modules.deep_view();
                    let b = &behaviors[i];
                    let bs = b.as_str();
                    if str_eq(bs, "planning") {
                        modules.push(SelectedModule::TaskPlanning);
                    } else if str_eq(bs, "progress") {
                        modules.push(SelectedModule::ProgressMonitoring);
                    } else {
                        modules.push(
                            SelectedModule::GenericBehavior(GenericBehaviorModule::new(b.clone())),
                        );
                    }
                    proof {
                        assert(hs[i as int] == behaviors@[i as int]@);
                        assert(modules.deep_view() =~= before.push(
                            map_behavior_hint(hs[i as int]),
                        ));
                        assert(Seq::new((i + 1) as nat, |k: int| map_behavior_hint(hs[k]))
                            =~= Seq::new(i as nat, |k: int| map_behavior_hint(hs[k])).push(
                            map_behavior_hint(hs[i as int]),
                        ));
                    }
                    i += 1;
                }
                proof {
                    assert(modules.deep_view() =~= mid.add(
                        behavior_part(pv, sv, Some(behaviors.deep_view())),
                    ));
                }
            },
            None => {
                let ghost b1: Seq<SelectedModuleView> = if applies_task_planning(pv, sv) {
                    seq![SelectedModuleView::TaskPlanning]
                } else {
                    Seq::empty()
                };
                let ghost b2: Seq<SelectedModuleView> = if applies_progress_monitoring(sv) {
                    seq![SelectedModuleView::ProgressMonitoring]
                } else {
                    Seq::empty()
                };
                let planning_module = TaskPlanningModule;
                if planning_module.applies_to(tools, user_prompt, session_state) {
                    modules.push(SelectedModule::TaskPlanning);
                }
                proof {
                    assert(modules.deep_view() =~= mid.add(b1));
                }
                let progress_module = ProgressMonitoringModule;
                if progress_module.applies_to(tools, user_prompt, session_state) {
                    modules.push(SelectedModule::ProgressMonitoring);
                }
                proof {
                    assert(modules.deep_view() =~= mid.add(b1).add(b2));
                    assert(auto_behaviors(pv, sv) =~= b1.add(b2));
                    assert(modules.deep_view() =~= mid.add(auto_behaviors(pv, sv)));
                }
            },
        }
        proof {
            assert(modules.deep_view() =~~= select_spec(
                tdv,
                pv,
                sv,
                match domain_hints {
                    Some(h) => Some(h.deep_view()),
                    None => None,
                },
                match behavior_hints {
                    Some(h) => Some(h.deep_view()),
                    None => None,
                },
            ));
        }
        modules
    }
}

} // verus!
