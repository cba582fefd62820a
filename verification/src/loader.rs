//! The guidance store and prompt loader: an in-memory snapshot of the
//! named guidance texts, grouped by category, together with the
//! extraction step that turns a markdown block into plain guidance text.
//!
//! Reading the backing files from disk is an external concern; the loader
//! works over the snapshot a caller hands it and is verified against it.

use vstd::prelude::*;

use crate::text::{
    has_prefix, join_nl, lines_of, lines_spec, starts_with_str, str_eq, trim_spec, trim_str,
};
use crate::types::{PromptError, PromptErrorView};

verus! {

/// One named block of guidance text, addressed by category and name.
#[derive(Clone, Debug)]
pub struct PromptEntry {
    pub category: String,
    pub name: String,
    pub text: String,
}

#[verifier::ext_equal]
pub ghost struct PromptEntryView {
    pub category: Seq<char>,
    pub name: Seq<char>,
    pub text: Seq<char>,
}

impl View for PromptEntry {
    type V = PromptEntryView;

    open spec fn view(&self) -> PromptEntryView {
        PromptEntryView { category: self.category@, name: self.name@, text: self.text@ }
    }
}

impl DeepView for PromptEntry {
    type V = PromptEntryView;

    open spec fn deep_view(&self) -> PromptEntryView {
        self.view()
    }
}

/// A snapshot of the guidance store: which category directories exist and
/// every text block they hold, in a fixed order.
#[derive(Clone, Debug)]
pub struct GuidanceStore {
    pub root_present: bool,
    pub domains_present: bool,
    pub behaviors_present: bool,
    pub tools_present: bool,
    pub entries: Vec<PromptEntry>,
}

#[verifier::ext_equal]
pub ghost struct GuidanceStoreView {
    pub root_present: bool,
    pub domains_present: bool,
    pub behaviors_present: bool,
    pub tools_present: bool,
    pub entries: Seq<PromptEntryView>,
}

impl GuidanceStoreView {
    /// The snapshot of a store whose root was never found: no categories,
    /// no entries.
    pub open spec fn absent() -> GuidanceStoreView {
        GuidanceStoreView {
            root_present: false,
            domains_present: false,
            behaviors_present: false,
            tools_present: false,
            entries: Seq::empty(),
        }
    }
}

impl View for GuidanceStore {
    type V = GuidanceStoreView;

    open spec fn view(&self) -> GuidanceStoreView {
        GuidanceStoreView {
            root_present: self.root_present,
            domains_present: self.domains_present,
            behaviors_present: self.behaviors_present,
            tools_present: self.tools_present,
            entries: self.entries.deep_view(),
        }
    }
}

impl GuidanceStore {
    /// A store whose root was never found.
    pub fn empty() -> (r: GuidanceStore)
        ensures
            r@ == GuidanceStoreView::absent(),
    {
        let r = GuidanceStore {
            root_present: false,
            domains_present: false,
            behaviors_present: false,
            tools_present: false,
            entries: Vec::new(),
        };
        proof {
            assert(r@ =~= GuidanceStoreView::absent());
        }
        r
    }
}

/// The text of the first entry with the given category and name, if any.
pub open spec fn lookup(
    entries: Seq<PromptEntryView>,
    category: Seq<char>,
    name: Seq<char>,
) -> Option<Seq<char>>
    decreases entries.len(),
{
    if entries.len() == 0 {
        None
    } else if entries[0].category == category && entries[0].name == name {
        Some(entries[0].text)
    } else {
        lookup(entries.drop_first(), category, name)
    }
}

/// The names of the entries of the given category, in store order.
pub open spec fn names_in(entries: Seq<PromptEntryView>, category: Seq<char>) -> Seq<Seq<char>>
    decreases entries.len(),
{
    if entries.len() == 0 {
        Seq::empty()
    } else if entries[0].category == category {
        seq![entries[0].name].add(names_in(entries.drop_first(), category))
    } else {
        names_in(entries.drop_first(), category)
    }
}

/// Whether the store has a directory for the given category.
pub open spec fn category_present(store: GuidanceStoreView, category: Seq<char>) -> bool {
    if category == "domains"@ {
        store.domains_present
    } else if category == "behaviors"@ {
        store.behaviors_present
    } else if category == "tools"@ {
        store.tools_present
    } else {
        false
    }
}

/// The store is structurally usable: its root and both required
/// categories exist.
pub open spec fn store_valid(store: GuidanceStoreView) -> bool {
    store.root_present && store.domains_present && store.behaviors_present
}

/// The message of the error raised when a named block cannot be loaded.
pub open spec fn load_err_msg(category: Seq<char>, name: Seq<char>) -> Seq<char> {
    "Failed to load prompt file "@ + category + "/"@ + name + ".md"@
}

/// The message of the error raised when a category cannot be listed.
pub open spec fn list_err_msg(category: Seq<char>) -> Seq<char> {
    "Failed to read "@ + category + " directory"@
}

/// A line that begins a markdown section or bullet, which switches the
/// extractor into content mode.
pub open spec fn starts_content(l: Seq<char>) -> bool {
    has_prefix(l, "## "@) || has_prefix(l, "- "@) || has_prefix(l, "### "@)
}

/// A heading turned into plain text: sub-sub-headings lose their marker,
/// sub-headings become a label with a trailing colon, anything else is
/// kept as it is.
pub open spec fn transform_line(l: Seq<char>) -> Seq<char> {
    if has_prefix(l, "### "@) {
        l.skip(4)
    } else if has_prefix(l, "## "@) {
        l.skip(3) + ":"@
    } else {
        l
    }
}

/// The lines the extractor keeps, given whether it is already in content
/// mode: title lines are dropped, everything from the first section
/// header or bullet on is kept, transformed.
pub open spec fn extract_lines(lines: Seq<Seq<char>>, in_content: bool) -> Seq<Seq<char>>
    decreases lines.len(),
{
    if lines.len() == 0 {
        Seq::empty()
    } else {
        let l = lines[0];
        if has_prefix(l, "# "@) {
            extract_lines(lines.drop_first(), in_content)
        } else if in_content || starts_content(l) {
            seq![transform_line(l)].add(extract_lines(lines.drop_first(), true))
        } else {
            extract_lines(lines.drop_first(), false)
        }
    }
}

/// What `extract_guidance` produces for a markdown block: the kept lines,
/// joined with newlines and trimmed.
pub open spec fn extract_spec(s: Seq<char>) -> Seq<char> {
    trim_spec(join_nl(extract_lines(lines_spec(s), false)))
}

/// Loads prompt content from an in-memory guidance store snapshot.
#[derive(Clone, Debug)]
pub struct PromptLoader {
    prompts_dir: String,
    store: GuidanceStore,
}

#[verifier::ext_equal]
pub ghost struct PromptLoaderView {
    pub prompts_dir: Seq<char>,
    pub store: GuidanceStoreView,
}

impl View for PromptLoader {
    type V = PromptLoaderView;

    closed spec fn view(&self) -> PromptLoaderView {
        PromptLoaderView { prompts_dir: self.prompts_dir@, store: self.store@ }
    }
}

impl PromptLoader {
    /// A loader for the given prompts directory (or the conventional
    /// default) that has not been handed any store snapshot: every load
    /// fails until one is supplied.
    pub fn new(prompts_dir: Option<String>) -> (r: Self)
        ensures
            r@.prompts_dir == match prompts_dir {
                Some(d) => d@,
                None => "prompts"@,
            },
            r@.store == GuidanceStoreView::absent(),
    {
        let dir = match prompts_dir {
            Some(d) => d,
            None => String::from_str("prompts"),
        };
        PromptLoader { prompts_dir: dir, store: GuidanceStore::empty() }
    }

    /// A loader over a snapshot of the store's contents.
    pub fn with_store(prompts_dir: Option<String>, store: GuidanceStore) -> (r: Self)
        ensures
            r@.prompts_dir == match prompts_dir {
                Some(d) => d@,
                None => "prompts"@,
            },
            r@.store == store@,
    {
        let dir = match prompts_dir {
            Some(d) => d,
            None => String::from_str("prompts"),
        };
        PromptLoader { prompts_dir: dir, store }
    }

    /// Loads the named block of the given category, exactly when the
    /// snapshot holds one.
    pub fn load_prompt(&self, category: &str, name: &str) -> (r: Result<String, PromptError>)
        ensures
            match lookup(self@.store.entries, category@, name@) {
                Some(t) => r matches Ok(s) && s@ == t,
                None => r matches Err(e) && e@ == PromptErrorView::ModuleLoadingFailed(
                    load_err_msg(category@, name@),
                ),
            },
    {
        let n = self.store.entries.len();
        let mut i: usize = 0;
        proof {
            assert(self@.store.entries.skip(0) =~= self@.store.entries);
        }
        while i < n
            invariant
                n == self.store.entries@.len(),
                i <= n,
                lookup(self@.store.entries, category@, name@) == lookup(
                    self@.store.entries.skip(i as int),
                    category@,
                    name@,
                ),
            decreases n - i,
        {
            let entry = &self.store.entries[i];
            proof {
                assert(self@.store.entries.skip(i as int)[0] == self@.store.entries[i as int]);
                assert(self@.store.entries.skip(i as int).drop_first() =~= self@.store.entries.skip(
                    i + 1,
                ));
            }
            if str_eq(entry.category.as_str(), category) && str_eq(entry.name.as_str(), name) {
                return Ok(entry.text.clone());
            }
            i += 1;
        }
        proof {
            assert(self@.store.entries.skip(n as int).len() == 0);
        }
        let mut msg = String::from_str("Failed to load prompt file ");
        msg.append(category);
        msg.append("/");
        msg.append(name);
        msg.append(".md");
        Err(PromptError::ModuleLoadingFailed(msg))
    }

    /// Loads domain-specific guidance.
    pub fn load_domain(&self, domain: &str) -> (r: Result<String, PromptError>)
        ensures
            match lookup(self@.store.entries, "domains"@, domain@) {
                Some(t) => r matches Ok(s) && s@ == t,
                None => r matches Err(e) && e@ == PromptErrorView::ModuleLoadingFailed(
                    load_err_msg("domains"@, domain@),
                ),
            },
    {
        self.load_prompt("domains", domain)
    }

    /// Loads behavioral pattern guidance.
    pub fn load_behavior(&self, behavior: &str) -> (r: Result<String, PromptError>)
        ensures
            match lookup(self@.store.entries, "behaviors"@, behavior@) {
                Some(t) => r matches Ok(s) && s@ == t,
                None => r matches Err(e) && e@ == PromptErrorView::ModuleLoadingFailed(
                    load_err_msg("behaviors"@, behavior@),
                ),
            },
    {
        self.load_prompt("behaviors", behavior)
    }

    /// Loads tool-specific instructions for a server.
    pub fn load_tool(&self, name: &str) -> (r: Result<String, PromptError>)
        ensures
            match lookup(self@.store.entries, "tools"@, name@) {
                Some(t) => r matches Ok(s) && s@ == t,
                None => r matches Err(e) && e@ == PromptErrorView::ModuleLoadingFailed(
                    load_err_msg("tools"@, name@),
                ),
            },
    {
        self.load_prompt("tools", name)
    }

    /// Whether tool-specific instructions exist for a server.
    pub fn has_tool_prompt(&self, name: &str) -> (r: bool)
        ensures
            r == (lookup(self@.store.entries, "tools"@, name@) is Some),
    {
        let n = self.store.entries.len();
        let mut i: usize = 0;
        proof {
            assert(self@.store.entries.skip(0) =~= self@.store.entries);
        }
        while i < n
            invariant
                n == self.store.entries@.len(),
                i <= n,
                lookup(self@.store.entries, "tools"@, name@) == lookup(
                    self@.store.entries.skip(i as int),
                    "tools"@,
                    name@,
                ),
            decreases n - i,
        {
            let entry = &self.store.entries[i];
            proof {
                assert(self@.store.entries.skip(i as int)[0] == self@.store.entries[i as int]);
                assert(self@.store.entries.skip(i as int).drop_first() =~= self@.store.entries.skip(
                    i + 1,
                ));
            }
            if str_eq(entry.category.as_str(), "tools") && str_eq(entry.name.as_str(), name) {
                return true;
            }
            i += 1;
        }
        proof {
            assert(self@.store.entries.skip(n as int).len() == 0);
        }
        false
    }

    /// Extracts the main content from markdown: drops title headers,
    /// collects everything from the first section header or bullet on,
    /// flattens headings to plain text, and trims the result.
    pub fn extract_guidance(&self, markdown_content: &str) -> (r: String)
        ensures
            r@ == extract_spec(markdown_content@),
    {
        let lines = lines_of(markdown_content);
        let ghost all: Seq<Seq<char>> = lines.deep_view();
        let mut kept: Vec<String> = Vec::new();
        let mut in_content = false;
        let mut i: usize = 0;
        proof {
            reveal_strlit("# ");
            reveal_strlit("## ");
            reveal_strlit("### ");
            reveal_strlit("- ");
            assert(all.skip(0) =~= all);
        }
        while i < lines.len()
            invariant
                all == lines.deep_view(),
                i <= lines@.len(),
                "# "@.len() == 2,
                "## "@.len() == 3,
                "### "@.len() == 4,
                extract_lines(all, false) =~= kept.deep_view().add(
                    extract_lines(all.skip(i as int), in_content),
                ),
            decreases lines@.len() - i,
        {
            let line = &lines[i];
            let s = line.as_str();
            let ghost l = all[i as int];
            proof {
                assert(all.skip(i as int)[0] == l);
                assert(all.skip(i as int).drop_first() =~= all.skip(i + 1));
            }
            if starts_with_str(s, "# ") {
                // title headers are skipped entirely
            } else if starts_with_str(s, "### ") {
                in_content = true;
                let len = s.unicode_len();
                let t = s.substring_char(4, len);
                let ghost kdv = kept.deep_view();
                kept.push(String::from_str(t));
                proof {
                    assert(t@ =~= transform_line(l));
                    assert(kept.deep_view() =~= kdv.push(transform_line(l)));
                }
            } else if starts_with_str(s, "## ") {
                in_content = true;
                let len = s.unicode_len();
                let mut t = String::from_str(s.substring_char(3, len));
                t.append(":");
                let ghost kdv = kept.deep_view();
                kept.push(t);
                proof {
                    assert(l.skip(3) =~= l.subrange(3, l.len() as int));
                    assert(kept.deep_view()[kdv.len() as int] =~= transform_line(l));
                    assert(kept.deep_view() =~= kdv.push(transform_line(l)));
                }
            } else if in_content || starts_with_str(s, "- ") {
                in_content = true;
                let ghost kdv = kept.deep_view();
                kept.push(line.clone());
                proof {
                    assert(transform_line(l) == l);
                    assert(kept.deep_view() =~= kdv.push(l));
                }
            } else {
                // before any content marker: dropped
            }
            i += 1;
        }
        proof {
            assert(all.skip(lines@.len() as int).len() == 0);
            assert(extract_lines(all, false) =~= kept.deep_view());
        }
        let mut content = String::new();
        let mut k: usize = 0;
        proof {
            reveal_strlit("\n");
            assert("\n"@ =~= seq!['\n']);
            assert(kept.deep_view().take(0) =~= Seq::<Seq<char>>::empty());
        }
        while k < kept.len()
            invariant
                k <= kept@.len(),
                "\n"@ =~= seq!['\n'],
                content@ == join_nl(kept.deep_view().take(k as int)),
            decreases kept@.len() - k,
        {
            if k > 0 {
                content.append("\n");
            }
            content.append(kept[k].as_str());
            proof {
                let dv = kept.deep_view();
                assert(dv.take(k as int).push(dv[k as int]) =~= dv.take(k + 1));
                if k > 0 {
                    crate::text::lemma_join_nl_push(dv.take(k as int), dv[k as int]);
                } else {
                    assert(dv.take(1)[0] == dv[0]);
                    assert(join_nl(dv.take(1)) == dv[0]);
                    assert(content@ =~= dv[0]);
                }
            }
            k += 1;
        }
        proof {
            assert(kept.deep_view().take(kept@.len() as int) =~= kept.deep_view());
        }
        trim_str(content.as_str())
    }

    /// Lists the names of the entries of one category, in store order,
    /// exactly when the store has that category.
    fn list_category(&self, category: &str) -> (r: Result<Vec<String>, PromptError>)
        ensures
            category_present(self@.store, category@) ==> (r matches Ok(v) && v.deep_view()
                == names_in(self@.store.entries, category@)),
            !category_present(self@.store, category@) ==> (r matches Err(e) && e@
                == PromptErrorView::ModuleLoadingFailed(list_err_msg(category@))),
    {
        let present = if str_eq(category, "domains") {
            self.store.domains_present
        } else if str_eq(category, "behaviors") {
            self.store.behaviors_present
        } else if str_eq(category, "tools") {
            self.store.tools_present
        } else {
            false
        };
        if !present {
            let mut msg = String::from_str("Failed to read ");
            msg.append(category);
            msg.append(" directory");
            return Err(PromptError::ModuleLoadingFailed(msg));
        }
        let n = self.store.entries.len();
        let mut out: Vec<String> = Vec::new();
        let mut i: usize = 0;
        proof {
            assert(self@.store.entries.skip(0) =~= self@.store.entries);
        }
        while i < n
            invariant
                n == self.store.entries@.len(),
                i <= n,
                names_in(self@.store.entries, category@) =~= out.deep_view().add(
                    names_in(self@.store.entries.skip(i as int), category@),
                ),
            decreases n - i,
        {
            let entry = &self.store.entries[i];
            proof {
                assert(self@.store.entries.skip(i as int)[0] == self@.store.entries[i as int]);
                assert(self@.store.entries.skip(i as int).drop_first() =~= self@.store.entries.skip(
                    i + 1,
                ));
            }
            if str_eq(entry.category.as_str(), category) {
                out.push(entry.name.clone());
                proof {
                    assert(out.deep_view() =~= out.deep_view().drop_last().push(entry.name@));
                }
            }
            i += 1;
        }
        proof {
            assert(self@.store.entries.skip(n as int).len() == 0);
            assert(out.deep_view() =~= names_in(self@.store.entries, category@));
        }
        Ok(out)
    }

    /// Lists the available domain guidance names.
    pub fn list_domains(&self) -> (r: Result<Vec<String>, PromptError>)
        ensures
            self@.store.domains_present ==> (r matches Ok(v) && v.deep_view() == names_in(
                self@.store.entries,
                "domains"@,
            )),
            !self@.store.domains_present ==> (r matches Err(e) && e@
                == PromptErrorView::ModuleLoadingFailed(list_err_msg("domains"@))),
    {
        proof {
            reveal_strlit("domains");
            reveal_strlit("behaviors");
            reveal_strlit("tools");
            assert("domains"@.len() == 7);
            assert("behaviors"@.len() == 9);
            assert("tools"@.len() == 5);
        }
        self.list_category("domains")
    }

    /// Lists the available behavior guidance names.
    pub fn list_behaviors(&self) -> (r: Result<Vec<String>, PromptError>)
        ensures
            self@.store.behaviors_present ==> (r matches Ok(v) && v.deep_view() == names_in(
                self@.store.entries,
                "behaviors"@,
            )),
            !self@.store.behaviors_present ==> (r matches Err(e) && e@
                == PromptErrorView::ModuleLoadingFailed(list_err_msg("behaviors"@))),
    {
        proof {
            reveal_strlit("domains");
            reveal_strlit("behaviors");
            reveal_strlit("tools");
            assert("domains"@.len() == 7);
            assert("behaviors"@.len() == 9);
            assert("tools"@.len() == 5);
        }
        self.list_category("behaviors")
    }

    /// Lists the server names that have tool-specific instructions.
    pub fn list_tools(&self) -> (r: Result<Vec<String>, PromptError>)
        ensures
            self@.store.tools_present ==> (r matches Ok(v) && v.deep_view() == names_in(
                self@.store.entries,
                "tools"@,
            )),
            !self@.store.tools_present ==> (r matches Err(e) && e@
                == PromptErrorView::ModuleLoadingFailed(list_err_msg("tools"@))),
    {
        proof {
            reveal_strlit("domains");
            reveal_strlit("behaviors");
            reveal_strlit("tools");
            assert("domains"@.len() == 7);
            assert("behaviors"@.len() == 9);
            assert("tools"@.len() == 5);
        }
        self.list_category("tools")
    }

    /// Checks that the store's root and its two required categories
    /// exist; composition must not start otherwise.
    pub fn validate_prompts_dir(&self) -> (r: Result<(), PromptError>)
        ensures
            r is Ok <==> store_valid(self@.store),
            !self@.store.root_present ==> (r matches Err(e) && e@
                == PromptErrorView::ConfigError(
                "Prompts directory does not exist: "@ + self@.prompts_dir,
            )),
            self@.store.root_present && !self@.store.domains_present ==> (r matches Err(e) && e@
                == PromptErrorView::ConfigError(
                "Domains directory does not exist: "@ + self@.prompts_dir + "/domains"@,
            )),
            self@.store.root_present && self@.store.domains_present
                && !self@.store.behaviors_present ==> (r matches Err(e) && e@
                == PromptErrorView::ConfigError(
                "Behaviors directory does not exist: "@ + self@.prompts_dir + "/behaviors"@,
            )),
    {
        if !self.store.root_present {
            let mut msg = String::from_str("Prompts directory does not exist: ");
            msg.append(self.prompts_dir.as_str());
            return Err(PromptError::ConfigError(msg));
        }
        if !self.store.domains_present {
            let mut msg = String::from_str("Domains directory does not exist: ");
            msg.append(self.prompts_dir.as_str());
            msg.append("/domains");
            return Err(PromptError::ConfigError(msg));
        }
        if !self.store.behaviors_present {
            let mut msg = String::from_str("Behaviors directory does not exist: ");
            msg.append(self.prompts_dir.as_str());
            msg.append("/behaviors");
            return Err(PromptError::ConfigError(msg));
        }
        Ok(())
    }
}

} // verus!
