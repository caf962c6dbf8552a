//! The tools that the agent may use, and the registry that holds them by name.

use vstd::prelude::*;
use vstd::pervasive::VecAdditionalExecFns;
use crate::types::{FunctionDefinition, Tool, ToolView, tool_views};

pub mod executor;
pub mod fs;
pub mod shell;

pub use executor::ToolExecutor;
pub use fs::FileSystemTool;
pub use shell::ShellTool;

verus! {

/// The error reported for arguments that are not JSON.
pub open spec fn parse_error_text() -> Seq<char> {
    "Failed to parse arguments"@
}

/// What every tool tells of itself: its name and its definition.
pub trait ToolImplementation {
    spec fn spec_name(&self) -> Seq<char>;

    spec fn spec_definition(&self) -> ToolView;

    /// The definition that the model is shown.
    fn definition(&self) -> (t: Tool)
        ensures
            t@ == self.spec_definition(),
    ;

    /// The name under which the tool is registered.
    fn name(&self) -> (n: &str)
        ensures
            n@ == self.spec_name(),
    ;
}

/// A tool whose work the embedding application does; the library knows its definition.
#[derive(Debug)]
pub struct CustomTool {
    definition: Tool,
}

impl View for CustomTool {
    type V = ToolView;

    closed spec fn view(&self) -> ToolView {
        self.definition@
    }
}

impl CustomTool {
    /// A tool known by its definition.
    pub fn new(definition: Tool) -> (t: CustomTool)
        ensures
            t@ == definition@,
    {
        CustomTool { definition }
    }
}

impl ToolImplementation for CustomTool {
    open spec fn spec_name(&self) -> Seq<char> {
        self@.name
    }

    open spec fn spec_definition(&self) -> ToolView {
        self@
    }

    fn definition(&self) -> (t: Tool) {
        Tool {
            tool_type: self.definition.tool_type.clone(),
            function: FunctionDefinition {
                name: self.definition.function.name.clone(),
                description: self.definition.function.description.clone(),
                parameters: self.definition.function.parameters.clone(),
            },
        }
    }

    fn name(&self) -> (n: &str) {
        self.definition.function.name.as_str()
    }
}

/// Any tool that a registry may hold.
#[derive(Debug)]
pub enum AnyTool {
    FileSystem(FileSystemTool),
    Shell(ShellTool),
    Custom(CustomTool),
}

impl ToolImplementation for AnyTool {
    open spec fn spec_name(&self) -> Seq<char> {
        match self {
            AnyTool::FileSystem(t) => t.spec_name(),
            AnyTool::Shell(t) => t.spec_name(),
            AnyTool::Custom(t) => t.spec_name(),
        }
    }

    open spec fn spec_definition(&self) -> ToolView {
        match self {
            AnyTool::FileSystem(t) => t.spec_definition(),
            AnyTool::Shell(t) => t.spec_definition(),
            AnyTool::Custom(t) => t.spec_definition(),
        }
    }

    fn definition(&self) -> (t: Tool) {
        match self {
            AnyTool::FileSystem(t) => t.definition(),
            AnyTool::Shell(t) => t.definition(),
            AnyTool::Custom(t) => t.definition(),
        }
    }

    fn name(&self) -> (n: &str) {
        match self {
            AnyTool::FileSystem(t) => t.name(),
            AnyTool::Shell(t) => t.name(),
            AnyTool::Custom(t) => t.name(),
        }
    }
}

/// The name of a tool.
pub open spec fn tool_name(t: AnyTool) -> Seq<char> {
    t.spec_name()
}

/// No two tools share a name.
pub open spec fn names_unique(tools: Seq<AnyTool>) -> bool {
    forall|i: int, j: int|
        0 <= i < tools.len() && 0 <= j < tools.len() && i != j ==> tool_name(tools[i])
            != tool_name(tools[j])
}

/// Whether some tool is named `name`.
pub open spec fn has_name(tools: Seq<AnyTool>, name: Seq<char>) -> bool {
    exists|i: int| 0 <= i < tools.len() && tool_name(tools[i]) == name
}

/// The position of the tool named `name`, if there is one.
pub open spec fn position_of(tools: Seq<AnyTool>, name: Seq<char>) -> Option<int> {
    if has_name(tools, name) {
        Some(choose|i: int| 0 <= i < tools.len() && tool_name(tools[i]) == name)
    } else {
        None
    }
}

/// The tools after registering `tool`: it takes the place of a tool of the
/// same name, or comes last.
pub open spec fn registered(tools: Seq<AnyTool>, tool: AnyTool) -> Seq<AnyTool> {
    match position_of(tools, tool_name(tool)) {
        Some(i) => tools.update(i, tool),
        None => tools.push(tool),
    }
}

/// The default tools: the file system tool, then the shell tool with the
/// default allow-list, both working in `working_dir`.
pub open spec fn is_default_toolset(tools: Seq<AnyTool>, working_dir: Seq<char>) -> bool {
    &&& tools.len() == 2
    &&& tools[0] matches AnyTool::FileSystem(t) && t@ == working_dir
    &&& tools[1] matches AnyTool::Shell(t) && t@ == (shell::ShellToolView {
        working_dir,
        allowed: shell::default_allowed(),
    })
}

/// The available tools, each under its own name.
#[derive(Debug)]
pub struct ToolRegistry {
    tools: Vec<AnyTool>,
}

impl View for ToolRegistry {
    type V = Seq<AnyTool>;

    closed spec fn view(&self) -> Seq<AnyTool> {
        self.tools@
    }
}

impl ToolRegistry {
    #[verifier::type_invariant]
    closed spec fn unique(self) -> bool {
        names_unique(self.tools@)
    }

    /// An empty registry.
    pub fn new() -> (r: ToolRegistry)
        ensures
            r@ == Seq::<AnyTool>::empty(),
    {
        ToolRegistry { tools: Vec::new() }
    }

    /// A registry with the file system tool and the shell tool, both working
    /// in `working_dir`.
    pub fn with_defaults(working_dir: &str) -> (r: ToolRegistry)
        ensures
            is_default_toolset(r@, working_dir@),
    {
        let mut r = ToolRegistry::new();
        let fs = AnyTool::FileSystem(FileSystemTool::new(String::from_str(working_dir)));
        r.register(fs);
        assert(r@ =~= seq![fs]);
        let shell = AnyTool::Shell(ShellTool::new(String::from_str(working_dir)));
        assert(tool_name(shell) != tool_name(fs)) by {
            reveal_strlit("fs");
            reveal_strlit("shell");
            assert(tool_name(shell) == "shell"@);
            assert(tool_name(fs) == "fs"@);
            assert("fs"@.len() != "shell"@.len());
        }
        r.register(shell);
        assert(r@ =~= seq![fs, shell]);
        r
    }

    /// The tools, in the order they were first registered.
    pub fn tools(&self) -> (ts: &[AnyTool])
        ensures
            ts@ == self@,
            names_unique(self@),
    {
        proof {
            use_type_invariant(self);
        }
        self.tools.as_slice()
    }

    /// Registers `tool` under its name, in place of any tool of that name.
    pub fn register(&mut self, tool: AnyTool)
        ensures
            final(self)@ == registered(old(self)@, tool),
            names_unique(final(self)@),
    {
        proof {
            use_type_invariant(&*self);
        }
        let name = String::from_str(tool.name());
        let mut tools: Vec<AnyTool> = Vec::new();
        std::mem::swap(&mut tools, &mut self.tools);
        let n = tools.len();
        let mut i: usize = 0;
        while i < n
            invariant
                n == tools@.len(),
                tools@ == old(self)@,
                names_unique(tools@),
                i <= n,
                name@ == tool_name(tool),
                forall|j: int| 0 <= j < i ==> tool_name(tools@[j]) != name@,
            decreases n - i,
        {
            let other = tools[i].name();
            if text_equal(other, name.as_str()) {
                proof {
                    let k = choose|k: int| 0 <= k < tools@.len() && tool_name(tools@[k]) == name@;
                    assert(k == i);
                }
                tools.set(i, tool);
                assert(names_unique(tools@));
                self.tools = tools;
                return;
            }
            i = i + 1;
        }
        assert(!has_name(old(self)@, name@));
        tools.push(tool);
        assert(names_unique(tools@));
        self.tools = tools;
    }

    /// The tool named `name`, if there is one.
    pub fn get(&self, name: &str) -> (r: Option<&AnyTool>)
        ensures
            r is Some == has_name(self@, name@),
            r matches Some(t) ==> *t == self@[position_of(self@, name@)->0],
            r matches Some(t) ==> tool_name(*t) == name@,
    {
        proof {
            use_type_invariant(self);
        }
        let n = self.tools.len();
        let mut i: usize = 0;
        while i < n
            invariant
                n == self.tools@.len(),
                i <= n,
                names_unique(self.tools@),
                forall|j: int| 0 <= j < i ==> tool_name(self.tools@[j]) != name@,
            decreases n - i,
        {
            if text_equal(self.tools[i].name(), name) {
                proof {
                    let k = choose|k: int|
                        0 <= k < self.tools@.len() && tool_name(self.tools@[k]) == name@;
                    assert(k == i);
                }
                return Some(&self.tools[i]);
            }
            i = i + 1;
        }
        None
    }

    /// The definitions of all tools.
    pub fn definitions(&self) -> (ds: Vec<Tool>)
        ensures
            tool_views(ds@) == self@.map_values(|t: AnyTool| t.spec_definition()),
    {
        let mut ds: Vec<Tool> = Vec::new();
        let n = self.tools.len();
        let mut i: usize = 0;
        while i < n
            invariant
                n == self.tools@.len(),
                i <= n,
                tool_views(ds@) =~= self@.map_values(|t: AnyTool| t.spec_definition()).take(
                    i as int,
                ),
            decreases n - i,
        {
            let d = self.tools[i].definition();
            ds.push(d);
            assert(tool_views(ds@) =~= tool_views(ds@.drop_last()).push(d@));
            assert(self@.map_values(|t: AnyTool| t.spec_definition()).take(i + 1)
                =~= self@.map_values(|t: AnyTool| t.spec_definition()).take(i as int).push(d@));
            i = i + 1;
        }
        assert(self@.map_values(|t: AnyTool| t.spec_definition()).take(n as int)
            =~= self@.map_values(|t: AnyTool| t.spec_definition()));
        ds
    }

    /// The names of all tools.
    pub fn names(&self) -> (ns: Vec<String>)
        ensures
            crate::text::views(ns@) == self@.map_values(|t: AnyTool| tool_name(t)),
    {
        let mut ns: Vec<String> = Vec::new();
        let n = self.tools.len();
        let mut i: usize = 0;
        while i < n
            invariant
                n == self.tools@.len(),
                i <= n,
                crate::text::views(ns@) =~= self@.map_values(|t: AnyTool| tool_name(t)).take(
                    i as int,
                ),
            decreases n - i,
        {
            let nm = String::from_str(self.tools[i].name());
            ns.push(nm);
            assert(crate::text::views(ns@) =~= crate::text::views(ns@.drop_last()).push(nm@));
            assert(self@.map_values(|t: AnyTool| tool_name(t)).take(i + 1) =~= self@.map_values(
                |t: AnyTool| tool_name(t),
            ).take(i as int).push(nm@));
            i = i + 1;
        }
        assert(self@.map_values(|t: AnyTool| tool_name(t)).take(n as int) =~= self@.map_values(
            |t: AnyTool| tool_name(t),
        ));
        ns
    }

    /// Whether a tool is named `name`.
    pub fn has(&self, name: &str) -> (b: bool)
        ensures
            b == has_name(self@, name@),
    {
        self.get(name).is_some()
    }
}

/// Whether two texts are equal.
pub fn text_equal(a: &str, b: &str) -> (r: bool)
    ensures
        r == (a@ == b@),
{
    let a = String::from_str(a);
    let b = String::from_str(b);
    a == b
}


// ----- laws of the registry -----

proof fn lemma_position_unique(tools: Seq<AnyTool>, name: Seq<char>, i: int)
    requires
        names_unique(tools),
        0 <= i < tools.len(),
        tool_name(tools[i]) == name,
    ensures
        position_of(tools, name) == Some(i),
{
}

/// After registering a tool, looking up its name finds exactly that tool,
/// and the names stay unique.
pub proof fn lemma_register_then_get(tools: Seq<AnyTool>, tool: AnyTool)
    requires
        names_unique(tools),
    ensures
        names_unique(registered(tools, tool)),
        has_name(registered(tools, tool), tool_name(tool)),
        registered(tools, tool)[position_of(registered(tools, tool), tool_name(tool))->0] == tool,
{
    let after = registered(tools, tool);
    let i = match position_of(tools, tool_name(tool)) {
        Some(i) => i,
        None => tools.len() as int,
    };
    assert(after[i] == tool);
    assert(names_unique(after));
    lemma_position_unique(after, tool_name(tool), i);
}

/// Registering a tool leaves the tools of every other name where and as they were.
pub proof fn lemma_register_keeps_others(tools: Seq<AnyTool>, tool: AnyTool, name: Seq<char>)
    requires
        names_unique(tools),
        name != tool_name(tool),
    ensures
        has_name(registered(tools, tool), name) == has_name(tools, name),
        has_name(tools, name) ==> position_of(registered(tools, tool), name) == position_of(
            tools,
            name,
        ),
        has_name(tools, name) ==> registered(tools, tool)[position_of(tools, name)->0]
            == tools[position_of(tools, name)->0],
{
    let after = registered(tools, tool);
    lemma_register_then_get(tools, tool);
    if has_name(tools, name) {
        let i = position_of(tools, name)->0;
        assert(after[i] == tools[i]);
        lemma_position_unique(after, name, i);
    }
    if has_name(after, name) {
        let j = choose|j: int| 0 <= j < after.len() && tool_name(after[j]) == name;
        assert(tool_name(tools[j]) == name);
    }
}

/// Registering a name that is already taken replaces its tool and keeps the
/// number of tools; a new name adds one tool.
pub proof fn lemma_register_count(tools: Seq<AnyTool>, tool: AnyTool)
    ensures
        has_name(tools, tool_name(tool)) ==> registered(tools, tool).len() == tools.len(),
        !has_name(tools, tool_name(tool)) ==> registered(tools, tool).len() == tools.len() + 1,
{
}

/// The tools after registering each of `ts` in turn, starting from `tools`.
pub open spec fn registered_all(tools: Seq<AnyTool>, ts: Seq<AnyTool>) -> Seq<AnyTool>
    decreases ts.len(),
{
    if ts.len() == 0 {
        tools
    } else {
        registered(registered_all(tools, ts.drop_last()), ts.last())
    }
}

/// Registering tools one after another into an empty registry: a name is
/// present exactly when some registration used it, names stay unique, and
/// the tool found under a name is the one registered last under it.
pub proof fn lemma_registrations(ts: Seq<AnyTool>, name: Seq<char>)
    ensures
        names_unique(registered_all(Seq::empty(), ts)),
        has_name(registered_all(Seq::empty(), ts), name) <==> exists|i: int|
            0 <= i < ts.len() && tool_name(ts[i]) == name,
        has_name(registered_all(Seq::empty(), ts), name) ==> exists|j: int|
            0 <= j < ts.len() && tool_name(ts[j]) == name && registered_all(Seq::empty(), ts)[position_of(
                registered_all(Seq::empty(), ts),
                name,
            )->0] == ts[j] && forall|k: int| j < k < ts.len() ==> tool_name(#[trigger] ts[k]) != name,
    decreases ts.len(),
{
    if ts.len() > 0 {
        let prev = registered_all(Seq::empty(), ts.drop_last());
        let t = ts.last();
        let last = ts.len() - 1;
        lemma_registrations(ts.drop_last(), name);
        lemma_register_then_get(prev, t);
        assert forall|i: int| 0 <= i < ts.drop_last().len() implies ts.drop_last()[i] == ts[i] by {}
        if tool_name(t) == name {
            assert(tool_name(ts[last]) == name);
        } else {
            lemma_register_keeps_others(prev, t, name);
            if has_name(prev, name) {
                let j = choose|j: int|
                    0 <= j < ts.drop_last().len() && tool_name(ts.drop_last()[j]) == name
                        && prev[position_of(prev, name)->0] == ts.drop_last()[j] && forall|k: int|
                        j < k < ts.drop_last().len() ==> tool_name(#[trigger] ts.drop_last()[k])
                            != name;
                assert(ts[j] == ts.drop_last()[j]);
                assert forall|k: int| j < k < ts.len() implies tool_name(#[trigger] ts[k]) != name by {
                    if k < last {
                        assert(ts.drop_last()[k] == ts[k]);
                    }
                }
            }
            if exists|i: int| 0 <= i < ts.len() && tool_name(ts[i]) == name {
                let i = choose|i: int| 0 <= i < ts.len() && tool_name(ts[i]) == name;
                assert(i < last);
                assert(ts.drop_last()[i] == ts[i]);
            }
        }
    }
}

} // verus!
