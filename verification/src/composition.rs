//! The composition orchestrator: validates the guidance store, assesses
//! complexity, resolves session state, selects guidance sections, renders
//! them in order, appends per-server tool instructions, and packages the
//! result with its metadata.

use vstd::prelude::*;

use crate::loader::{
    extract_spec, lookup, store_valid, GuidanceStore, GuidanceStoreView, PromptLoader,
    PromptLoaderView,
};
use crate::modules::{
    module_content, module_name, select_spec, ModuleSelector, SelectedModule, SelectedModuleView,
};
use crate::text::{contains_seq, contains_str, dec_str, lower_of, u64_to_string};
use crate::types::{
    McpServerView, PromptError, PromptErrorView, PromptRequest, PromptRequestView, PromptResponse,
    PromptResponseView, SessionState, SessionStateView, TaskComplexity, Tool, ToolView,
};

verus! {

/// The lowercased text carries a scale or action keyword that marks a
/// complex request.
pub open spec fn has_scale_keyword(lower: Seq<char>) -> bool {
    ||| contains_seq(lower, "refactor"@)
    ||| contains_seq(lower, "implement"@)
    ||| contains_seq(lower, "create"@)
    ||| contains_seq(lower, "build"@)
    ||| contains_seq(lower, "develop"@)
    ||| contains_seq(lower, "comprehensive"@)
    ||| contains_seq(lower, "analysis"@)
    ||| contains_seq(lower, "strategy"@)
    ||| contains_seq(lower, "plan"@)
    ||| contains_seq(lower, "design"@)
    ||| contains_seq(lower, "multiple"@)
    ||| contains_seq(lower, "all"@)
    ||| contains_seq(lower, "entire"@)
    ||| contains_seq(lower, "complete"@)
    ||| contains_seq(lower, "full"@)
    ||| contains_seq(lower, "system"@)
}

/// The complexity a request resolves to: the caller's override echoed
/// verbatim when one is given; otherwise `Complex` exactly when the text
/// carries a scale keyword, exceeds one hundred characters, or more than
/// two servers are declared, and `Simple` otherwise.
pub open spec fn assess_spec(request: PromptRequestView) -> TaskComplexity {
    match request.task_complexity {
        Some(c) => c,
        None => {
            if has_scale_keyword(lower_of(request.user_prompt)) || request.user_prompt.len() > 100
                || request.mcp_config.mcp_servers.len() > 2 {
                TaskComplexity::Complex
            } else {
                TaskComplexity::Simple
            }
        },
    }
}

/// Assesses task complexity from the request's text, configuration, and
/// optional override.
pub fn assess_task_complexity(request: &PromptRequest) -> (r: TaskComplexity)
    ensures
        r == assess_spec(request@),
{
    match &request.task_complexity {
        Some(complexity) => *complexity,
        None => {
            let lower_owned = crate::text::to_lowercase_str(request.user_prompt.as_str());
            let lower = lower_owned.as_str();
            let has_complex_keywords = contains_str(lower, "refactor") || contains_str(
                lower,
                "implement",
            ) || contains_str(lower, "create") || contains_str(lower, "build") || contains_str(
                lower,
                "develop",
            ) || contains_str(lower, "comprehensive") || contains_str(lower, "analysis")
                || contains_str(lower, "strategy") || contains_str(lower, "plan") || contains_str(
                lower,
                "design",
            ) || contains_str(lower, "multiple") || contains_str(lower, "all") || contains_str(
                lower,
                "entire",
            ) || contains_str(lower, "complete") || contains_str(lower, "full") || contains_str(
                lower,
                "system",
            );
            let is_long = request.user_prompt.as_str().unicode_len() > 100;
            let has_multiple_servers = request.mcp_config.mcp_servers.len() > 2;
            if has_complex_keywords || is_long || has_multiple_servers {
                TaskComplexity::Complex
            } else {
                TaskComplexity::Simple
            }
        },
    }
}

/// The section text after rendering the given modules onto what has been
/// assembled so far: empty renders are skipped, non-empty ones joined
/// with a single newline, and a failed render contributes nothing.
pub open spec fn sections_text_rec(
    mods: Seq<SelectedModuleView>,
    tools: Seq<ToolView>,
    session: SessionStateView,
    store: GuidanceStoreView,
    acc: Seq<char>,
) -> Seq<char>
    decreases mods.len(),
{
    if mods.len() == 0 {
        acc
    } else {
        let c = match module_content(mods[0], tools, session, store) {
            Some(c) => c,
            None => Seq::empty(),
        };
        let acc2 = if c.len() == 0 {
            acc
        } else if acc.len() == 0 {
            c
        } else {
            acc + "\n"@ + c
        };
        sections_text_rec(mods.drop_first(), tools, session, store, acc2)
    }
}

/// The tool-instruction text and the recorded server names after
/// processing the given servers: a server with instructions in the store
/// gets them extracted and appended after a blank-line separator, and is
/// recorded exactly when the extraction is non-empty.
pub open spec fn tool_instructions_rec(
    servers: Seq<McpServerView>,
    store: GuidanceStoreView,
    acc_text: Seq<char>,
    acc_names: Seq<Seq<char>>,
) -> (Seq<char>, Seq<Seq<char>>)
    decreases servers.len(),
{
    if servers.len() == 0 {
        (acc_text, acc_names)
    } else {
        let name = servers[0].name;
        match lookup(store.entries, "tools"@, name) {
            None => tool_instructions_rec(servers.drop_first(), store, acc_text, acc_names),
            Some(text) => {
                let sep = if acc_text.len() == 0 {
                    acc_text
                } else {
                    acc_text + "\n\n"@
                };
                let guidance = extract_spec(text);
                if guidance.len() == 0 {
                    tool_instructions_rec(servers.drop_first(), store, sep, acc_names)
                } else {
                    tool_instructions_rec(
                        servers.drop_first(),
                        store,
                        sep + guidance,
                        acc_names.push(name),
                    )
                }
            },
        }
    }
}

/// The error a composition over an unusable store fails with.
pub open spec fn invalid_store_err(loader: PromptLoaderView) -> PromptErrorView {
    if !loader.store.root_present {
        PromptErrorView::ConfigError("Prompts directory does not exist: "@ + loader.prompts_dir)
    } else if !loader.store.domains_present {
        PromptErrorView::ConfigError(
            "Domains directory does not exist: "@ + loader.prompts_dir + "/domains"@,
        )
    } else {
        PromptErrorView::ConfigError(
            "Behaviors directory does not exist: "@ + loader.prompts_dir + "/behaviors"@,
        )
    }
}

/// What one composition returns: a configuration error exactly when the
/// store is unusable, and otherwise the assembled text, the applied
/// section and tool entries, the recognized server names, and the
/// resolved complexity.
pub open spec fn compose_spec(
    loader: PromptLoaderView,
    request: PromptRequestView,
    tools: Seq<ToolView>,
) -> Result<PromptResponseView, PromptErrorView> {
    if !store_valid(loader.store) {
        Err(invalid_store_err(loader))
    } else {
        let complexity = assess_spec(request);
        let session = match request.session_state {
            Some(s) => s,
            None => SessionStateView::unset(),
        };
        let mods = select_spec(
            tools,
            request.user_prompt,
            session,
            request.domain_hints,
            request.behavior_hints,
        );
        let sections = sections_text_rec(mods, tools, session, loader.store, Seq::empty());
        let instr = tool_instructions_rec(
            request.mcp_config.mcp_servers,
            loader.store,
            Seq::empty(),
            Seq::empty(),
        );
        let combined = if instr.0.len() == 0 {
            sections
        } else if sections.len() == 0 {
            instr.0
        } else {
            sections + "\n\n"@ + instr.0
        };
        let text = if combined.len() == 0 && tools.len() != 0 {
            "You have access to "@ + dec_str(tools.len() as int)
                + " tools. Use them appropriately to complete the user's request."@
        } else {
            combined
        };
        let applied = Seq::new(mods.len(), |i: int| module_name(mods[i])).add(
            Seq::new(instr.1.len(), |i: int| "tool:"@ + instr.1[i]),
        );
        Ok(
            PromptResponseView {
                system_prompt: text,
                applied_modules: applied,
                recognized_tools: Seq::new(tools.len(), |i: int| tools[i].name),
                complexity_assessment: complexity,
            },
        )
    }
}

/// Main prompt composition service.
pub struct PromptComposer {
    loader: PromptLoader,
}

#[verifier::ext_equal]
pub ghost struct PromptComposerView {
    pub loader: PromptLoaderView,
}

impl View for PromptComposer {
    type V = PromptComposerView;

    closed spec fn view(&self) -> PromptComposerView {
        PromptComposerView { loader: self.loader@ }
    }
}

impl PromptComposer {
    /// A composer over the conventional prompts directory, with no store
    /// snapshot yet: composition fails with a configuration error until
    /// one is supplied.
    pub fn new() -> (r: Self)
        ensures
            r@.loader.prompts_dir == "prompts"@,
            r@.loader.store == GuidanceStoreView::absent(),
    {
        PromptComposer { loader: PromptLoader::new(None) }
    }

    /// A composer over a custom prompts directory, with no store
    /// snapshot yet.
    pub fn with_prompts_dir(prompts_dir: String) -> (r: Self)
        ensures
            r@.loader.prompts_dir == prompts_dir@,
            r@.loader.store == GuidanceStoreView::absent(),
    {
        PromptComposer { loader: PromptLoader::new(Some(prompts_dir)) }
    }

    /// A composer over a snapshot of the guidance store's contents.
    pub fn with_store(prompts_dir: Option<String>, store: GuidanceStore) -> (r: Self)
        ensures
            r@.loader.prompts_dir == match prompts_dir {
                Some(d) => d@,
                None => "prompts"@,
            },
            r@.loader.store == store@,
    {
        PromptComposer { loader: PromptLoader::with_store(prompts_dir, store) }
    }

    /// Renders the tool-specific instructions of each configured server,
    /// in configuration order, and records which servers contributed
    /// non-empty guidance, exactly as `tool_instructions_rec` describes.
    fn generate_tool_instructions(&self, request: &PromptRequest) -> (r: (String, Vec<String>))
        ensures
            ({
                let instr = tool_instructions_rec(
                    request@.mcp_config.mcp_servers,
                    self@.loader.store,
                    Seq::empty(),
                    Seq::empty(),
                );
                r.0@ == instr.0 && r.1.deep_view() == instr.1
            }),
    {
        let ghost store = self@.loader.store;
        let mut tool_content = String::new();
        let mut included_tools: Vec<String> = Vec::new();
        let ghost servers = request@.mcp_config.mcp_servers;
        let m = request.mcp_config.mcp_servers.len();
        let mut j: usize = 0;
        proof {
            assert(servers.skip(0) =~= servers);
            assert(included_tools.deep_view() =~= Seq::<Seq<char>>::empty());
        }
        while j < m
            invariant
                m == request.mcp_config.mcp_servers@.len(),
                servers == request@.mcp_config.mcp_servers,
                j <= m,
                store == self@.loader.store,
                tool_instructions_rec(
                    servers.skip(j as int),
                    store,
                    tool_content@,
                    included_tools.deep_view(),
                ) == tool_instructions_rec(servers, store, Seq::empty(), Seq::empty()),
            decreases m - j,
        {
            let server = &request.mcp_config.mcp_servers[j];
            proof {
                assert(servers.skip(j as int)[0] == servers[j as int]);
                assert(servers.skip(j as int).drop_first() =~= servers.skip(j + 1));
                assert(servers[j as int] == request.mcp_config.mcp_servers@[j as int]@);
            }
            let ghost text_before = tool_content@;
            let ghost names_before = included_tools.deep_view();
            if self.loader.has_tool_prompt(server.name.as_str()) {
                match self.loader.load_tool(server.name.as_str()) {
                    Ok(instructions) => {
                        if !tool_content.as_str().is_empty() {
                            tool_content.append("\n\n");
                        }
                        let ghost sep = if text_before.len() == 0 {
                            text_before
                        } else {
                            text_before + "\n\n"@
                        };
                        proof {
                            assert(tool_content@ =~= sep);
                        }
                        let guidance = self.loader.extract_guidance(instructions.as_str());
                        if !guidance.as_str().is_empty() {
                            tool_content.append(guidance.as_str());
                            included_tools.push(server.name.clone());
                            proof {
                                assert(tool_content@ =~= sep + guidance@);
                                assert(included_tools.deep_view() =~= names_before.push(
                                    servers[j as int].name,
                                ));
                            }
                        }
                    },
                    Err(_) => {},
                }
            }
            j += 1;
        }
        proof {
            assert(servers.skip(m as int).len() == 0);
        }
        (tool_content, included_tools)
    }

    /// Assembles the final prompt content: the selected sections'
    /// renders joined in order, the per-server tool instructions after
    /// them, and the generic fallback line when tools exist but nothing
    /// rendered; also hands back the recorded tool-instruction servers.
    fn generate_prompt_content(
        &self,
        request: &PromptRequest,
        tools: &[Tool],
        modules: &Vec<SelectedModule>,
        session_state: &SessionState,
    ) -> (r: (String, Vec<String>))
        ensures
            ({
                let sections = sections_text_rec(
                    modules.deep_view(),
                    tools.deep_view(),
                    session_state@,
                    self@.loader.store,
                    Seq::empty(),
                );
                let instr = tool_instructions_rec(
                    request@.mcp_config.mcp_servers,
                    self@.loader.store,
                    Seq::empty(),
                    Seq::empty(),
                );
                let combined = if instr.0.len() == 0 {
                    sections
                } else if sections.len() == 0 {
                    instr.0
                } else {
                    sections + "\n\n"@ + instr.0
                };
                let text = if combined.len() == 0 && tools.deep_view().len() != 0 {
                    "You have access to "@ + dec_str(tools.deep_view().len() as int)
                        + " tools. Use them appropriately to complete the user's request."@
                } else {
                    combined
                };
                r.0@ == text && r.1.deep_view() == instr.1
            }),
    {
        let ghost tdv = tools.deep_view();
        let ghost store = self@.loader.store;
        let ghost sv = session_state@;
        let ghost mdv = modules.deep_view();
        let mut content = String::new();
        let n = modules.len();
        let mut i: usize = 0;
        proof {
            assert(mdv.skip(0) =~= mdv);
        }
        while i < n
            invariant
                n == modules@.len(),
                mdv == modules.deep_view(),
                tdv == tools.deep_view(),
                i <= n,
                sv == session_state@,
                store == self@.loader.store,
                sections_text_rec(mdv.skip(i as int), tdv, sv, store, content@)
                    == sections_text_rec(mdv, tdv, sv, store, Seq::empty()),
            decreases n - i,
        {
            proof {
                assert(mdv.skip(i as int)[0] == mdv[i as int]);
                assert(mdv.skip(i as int).drop_first() =~= mdv.skip(i + 1));
                assert(mdv[i as int] == modules@[i as int]@);
            }
            let ghost acc_before = content@;
            let ghost c_spec: Seq<char> = match module_content(mdv[i as int], tdv, sv, store) {
                Some(c) => c,
                None => Seq::empty(),
            };
            let module_text = match modules[i].generate_content(tools, &session_state, &self.loader)
                {
                Ok(s) => s,
                Err(_) => String::new(),
            };
            proof {
                assert(module_text@ == c_spec);
            }
            if !module_text.as_str().is_empty() {
                if !content.as_str().is_empty() {
                    content.append("\n");
                } else {
                    proof {
                        assert(acc_before.len() == 0);
                    }
                }
                content.append(module_text.as_str());
            }
            proof {
                let acc2 = if c_spec.len() == 0 {
                    acc_before
                } else if acc_before.len() == 0 {
                    c_spec
                } else {
                    acc_before + "\n"@ + c_spec
                };
                assert(content@ =~= acc2);
            }
            i += 1;
        }
        proof {
            assert(mdv.skip(n as int).len() == 0);
        }
        let (tool_content, included_tools) = self.generate_tool_instructions(request);
        if !tool_content.as_str().is_empty() {
            if !content.as_str().is_empty() {
                content.append("\n\n");
            }
            content.append(tool_content.as_str());
        }
        if content.as_str().is_empty() && tools.len() != 0 {
            let mut fallback = String::from_str("You have access to ");
            let count_text = u64_to_string(tools.len() as u64);
            fallback.append(count_text.as_str());
            fallback.append(" tools. Use them appropriately to complete the user's request.");
            content = fallback;
        }
        (content, included_tools)
    }

    /// Composes a system prompt for one request against the given tool
    /// list, exactly as `compose_spec` describes; fails only when the
    /// guidance store is structurally unusable.
    pub fn compose(&self, request: &PromptRequest, tools: &[Tool]) -> (r: Result<
        PromptResponse,
        PromptError,
    >)
        ensures
            match compose_spec(self@.loader, request@, tools.deep_view()) {
                Ok(v) => r matches Ok(resp) && resp@ == v,
                Err(e) => r matches Err(pe) && pe@ == e,
            },
    {
        match self.loader.validate_prompts_dir() {
            Err(e) => {
                return Err(e);
            },
            Ok(_) => {},
        }
        let ghost tdv = tools.deep_view();
        let ghost store = self@.loader.store;
        let complexity = assess_task_complexity(request);
        let session_state = match &request.session_state {
            Some(s) => s.duplicate(),
            None => SessionState::default(),
        };
        let ghost sv = session_state@;
        let domain_hints: Option<&[String]> = match &request.domain_hints {
            Some(v) => Some(v.as_slice()),
            None => None,
        };
        let behavior_hints: Option<&[String]> = match &request.behavior_hints {
            Some(v) => Some(v.as_slice()),
            None => None,
        };
        let modules = ModuleSelector::select_modules(
            tools,
            request.user_prompt.as_str(),
            &session_state,
            domain_hints,
            behavior_hints,
        );
        let ghost mdv = modules.deep_view();
        proof {
            assert(mdv == select_spec(
                tdv,
                request@.user_prompt,
                sv,
                request@.domain_hints,
                request@.behavior_hints,
            ));
        }
        let (content, included_tools) = self.generate_prompt_content(
            request,
            tools,
            &modules,
            &session_state,
        );
        let ghost instr = tool_instructions_rec(
            request@.mcp_config.mcp_servers,
            store,
            Seq::empty(),
            Seq::empty(),
        );
        let n = modules.len();
        let mut applied_modules: Vec<String> = Vec::new();
        let mut i: usize = 0;
        while i < n
            invariant
                n == modules@.len(),
                mdv == modules.deep_view(),
                i <= n,
                applied_modules.deep_view() =~= Seq::new(
                    i as nat,
                    |k: int| module_name(mdv[k]),
                ),
            decreases n - i,
        {
            let ghost before = applied_modules.deep_view();
            applied_modules.push(String::from_str(modules[i].name()));
            proof {
                assert(mdv[i as int] == modules@[i as int]@);
                assert(applied_modules.deep_view() =~= before.push(module_name(mdv[i as int])));
                assert(Seq::new((i + 1) as nat, |k: int| module_name(mdv[k])) =~= Seq::new(
                    i as nat,
                    |k: int| module_name(mdv[k]),
                ).push(module_name(mdv[i as int])));
            }
            i += 1;
        }
        let ghost applied_head = applied_modules.deep_view();
        let p = included_tools.len();
        let ghost names = included_tools.deep_view();
        let mut i: usize = 0;
        while i < p
            invariant
                p == included_tools@.len(),
                names == included_tools.deep_view(),
                i <= p,
                applied_modules.deep_view() =~= applied_head.add(
                    Seq::new(i as nat, |k: int| "tool:"@ + names[k]),
                ),
            decreases p - i,
        {
            let ghost before = applied_modules.deep_view();
            let mut entry = String::from_str("tool:");
            entry.append(included_tools[i].as_str());
            applied_modules.push(entry);
            proof {
                assert(names[i as int] == included_tools@[i as int]@);
                assert(applied_modules.deep_view() =~= before.push("tool:"@ + names[i as int]));
                assert(Seq::new((i + 1) as nat, |k: int| "tool:"@ + names[k]) =~= Seq::new(
                    i as nat,
                    |k: int| "tool:"@ + names[k],
                ).push("tool:"@ + names[i as int]));
            }
            i += 1;
        }
        let mut recognized_tools: Vec<String> = Vec::new();
        let q = tools.len();
        let mut i: usize = 0;
        while i < q
            invariant
                q == tools@.len(),
                tdv == tools.deep_view(),
                i <= q,
                recognized_tools.deep_view() =~= Seq::new(i as nat, |k: int| tdv[k].name),
            decreases q - i,
        {
            let ghost before = recognized_tools.deep_view();
            recognized_tools.push(tools[i].name.clone());
            proof {
                assert(tdv[i as int] == tools@[i as int]@);
                assert(recognized_tools.deep_view() =~= before.push(tdv[i as int].name));
                assert(Seq::new((i + 1) as nat, |k: int| tdv[k].name) =~= Seq::new(
                    i as nat,
                    |k: int| tdv[k].name,
                ).push(tdv[i as int].name));
            }
            i += 1;
        }
        let response = PromptResponse {
            system_prompt: content,
            applied_modules,
            recognized_tools,
            complexity_assessment: complexity,
        };
        proof {
            let spec_result = compose_spec(self@.loader, request@, tools.deep_view());
            assert(response@ =~~= spec_result->Ok_0);
        }
        Ok(response)
    }

    /// Lists the available domain guidance names.
    pub fn list_domains(&self) -> (r: Result<Vec<String>, PromptError>)
        ensures
            self@.loader.store.domains_present ==> (r matches Ok(v) && v.deep_view()
                == crate::loader::names_in(self@.loader.store.entries, "domains"@)),
            !self@.loader.store.domains_present ==> r is Err,
    {
        self.loader.list_domains()
    }

    /// Lists the available behavior guidance names.
    pub fn list_behaviors(&self) -> (r: Result<Vec<String>, PromptError>)
        ensures
            self@.loader.store.behaviors_present ==> (r matches Ok(v) && v.deep_view()
                == crate::loader::names_in(self@.loader.store.entries, "behaviors"@)),
            !self@.loader.store.behaviors_present ==> r is Err,
    {
        self.loader.list_behaviors()
    }

    /// Lists the server names that have tool-specific instructions.
    pub fn list_tools(&self) -> (r: Result<Vec<String>, PromptError>)
        ensures
            self@.loader.store.tools_present ==> (r matches Ok(v) && v.deep_view()
                == crate::loader::names_in(self@.loader.store.entries, "tools"@)),
            !self@.loader.store.tools_present ==> r is Err,
    {
        self.loader.list_tools()
    }
}

impl Default for PromptComposer {
    /// A composer over the conventional prompts directory with no store
    /// snapshot.
    fn default() -> (r: Self)
        ensures
            r@.loader.prompts_dir == "prompts"@,
            r@.loader.store == GuidanceStoreView::absent(),
    {
        Self::new()
    }
}

} // verus!
