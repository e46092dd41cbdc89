use vstd::prelude::*;
use vstd::string::StringExecFns;
use crate::greet::{greet, greeting};
use crate::scope::FsScope;

verus! {

/// A capability that the application registers before it starts.
#[derive(PartialEq, Eq, Structural, Clone, Copy, Debug)]
pub enum Capability {
    /// Management of the filesystem scope.
    FsScope,
    /// Opening files and URLs with the system's default handler.
    Opener,
}

/// An operation that the user interface may invoke by name.
#[derive(PartialEq, Eq, Structural, Clone, Copy, Debug)]
pub enum Command {
    Greet,
}

/// Why the application could not reach its running state.
#[derive(PartialEq, Eq, Structural, Clone, Copy, Debug)]
pub enum SetupError {
    /// Two registered commands answer to the same name.
    DuplicateCommand,
    /// The filesystem scope capability was not registered.
    FsScopeUnavailable,
}

/// The name under which a command is invoked.
pub open spec fn command_name(c: Command) -> Seq<char> {
    match c {
        Command::Greet => "greet"@,
    }
}

/// The directory, relative to the application data root, that the running
/// application may reach.
pub open spec fn app_data_dir() -> Seq<char> {
    "tauri-todo/data"@
}

/// No name is shared by two of the commands.
pub open spec fn names_unique(cs: Seq<Command>) -> bool {
    forall|i: int, j: int|
        0 <= i < cs.len() && 0 <= j < cs.len() && i != j ==> command_name(cs[i]) != command_name(
            cs[j],
        )
}

/// Whether one of the commands answers to `name`.
pub open spec fn has_command(cs: Seq<Command>, name: Seq<char>) -> bool {
    exists|i: int| 0 <= i < cs.len() && command_name(cs[i]) == name
}

/// What invoking `name` with `arg` answers, where `cs` are the registered
/// commands: the command's result, or nothing for an unknown name.
pub open spec fn invocation(cs: Seq<Command>, name: Seq<char>, arg: Seq<char>) -> Option<
    Seq<char>,
> {
    if has_command(cs, name) {
        Some(greeting(arg))
    } else {
        None
    }
}

impl Command {
    /// The name under which this command is invoked.
    pub fn name(&self) -> (r: String)
        ensures
            r@ == command_name(*self),
    {
        match self {
            Command::Greet => String::from_str("greet"),
        }
    }

    /// Runs this command on its argument.
    pub fn run(&self, arg: &str) -> (r: String)
        ensures
            r@ == greeting(arg@),
    {
        match self {
            Command::Greet => greet(arg),
        }
    }
}

/// The application while it is assembled: the capabilities and the commands
/// registered so far, in order.
pub struct Builder {
    pub plugins: Vec<Capability>,
    pub commands: Vec<Command>,
}

impl Builder {
    /// A builder with nothing registered.
    pub fn new() -> (r: Builder)
        ensures
            r.plugins@ == Seq::<Capability>::empty(),
            r.commands@ == Seq::<Command>::empty(),
    {
        Builder { plugins: Vec::new(), commands: Vec::new() }
    }

    /// Registers a capability after those already registered.
    pub fn plugin(self, c: Capability) -> (r: Builder)
        ensures
            r.plugins@ == self.plugins@.push(c),
            r.commands@ == self.commands@,
    {
        let mut b = self;
        b.plugins.push(c);
        b
    }

    /// Makes `cs` the commands that the user interface may invoke.
    pub fn invoke_handler(self, cs: Vec<Command>) -> (r: Builder)
        ensures
            r.plugins@ == self.plugins@,
            r.commands@ == cs@,
    {
        Builder { plugins: self.plugins, commands: cs }
    }

    /// Runs the setup step. The commands must answer to distinct names and the
    /// filesystem scope capability must be registered; the scope then permits
    /// the application data directory, without its subdirectories, and nothing
    /// else.
    pub fn setup(self) -> (r: Result<App, SetupError>)
        ensures
            !names_unique(self.commands@) ==> r == Err::<App, SetupError>(
                SetupError::DuplicateCommand,
            ),
            names_unique(self.commands@) && !self.plugins@.contains(Capability::FsScope) ==> r
                == Err::<App, SetupError>(SetupError::FsScopeUnavailable),
            r is Ok <==> names_unique(self.commands@) && self.plugins@.contains(
                Capability::FsScope,
            ),
            r matches Ok(app) ==> {
                &&& app.wf()
                &&& app.spec_scope()@ == set![(app_data_dir(), false)]
                &&& app.spec_commands() == self.commands@
                &&& app.spec_plugins() == self.plugins@
            },
    {
        if !unique_names(&self.commands) {
            return Err(SetupError::DuplicateCommand);
        }
        if !registered(&self.plugins, Capability::FsScope) {
            return Err(SetupError::FsScopeUnavailable);
        }
        let mut scope = FsScope::new();
        scope.allow_directory("tauri-todo/data", false);
        assert(scope@ =~= set![(app_data_dir(), false)]);
        Ok(App { plugins: self.plugins, commands: self.commands, scope })
    }
}

/// Whether `c` is among the registered capabilities.
fn registered(ps: &Vec<Capability>, c: Capability) -> (r: bool)
    ensures
        r == ps@.contains(c),
{
    let n = ps.len();
    let mut i: usize = 0;
    while i < n
        invariant
            n == ps@.len(),
            0 <= i <= n,
            forall|j: int| 0 <= j < i ==> ps@[j] != c,
        decreases n - i,
    {
        if ps[i] == c {
            return true;
        }
        i = i + 1;
    }
    false
}

/// Whether the commands answer to distinct names.
fn unique_names(cs: &Vec<Command>) -> (r: bool)
    ensures
        r == names_unique(cs@),
{
    let n = cs.len();
    let mut i: usize = 0;
    while i < n
        invariant
            n == cs@.len(),
            0 <= i <= n,
            forall|a: int, b: int|
                0 <= a < i && 0 <= b < n && a != b ==> command_name(cs@[a]) != command_name(
                    cs@[b],
                ),
        decreases n - i,
    {
        let ni = cs[i].name();
        let mut j: usize = 0;
        while j < n
            invariant
                n == cs@.len(),
                0 <= i < n,
                0 <= j <= n,
                ni@ == command_name(cs@[i as int]),
                forall|b: int|
                    0 <= b < j && b != i ==> command_name(cs@[i as int]) != command_name(cs@[b]),
            decreases n - j,
        {
            if j != i && cs[j].name() == ni {
                return false;
            }
            j = j + 1;
        }
        i = i + 1;
    }
    true
}

/// The application in its running state: setup has succeeded and the
/// filesystem scope is fixed.
pub struct App {
    plugins: Vec<Capability>,
    commands: Vec<Command>,
    scope: FsScope,
}

impl App {
    /// The filesystem scope is well formed.
    pub closed spec fn wf(&self) -> bool {
        self.scope.wf()
    }

    /// The filesystem scope.
    pub closed spec fn spec_scope(&self) -> FsScope {
        self.scope
    }

    /// The capabilities registered, in order.
    pub closed spec fn spec_plugins(&self) -> Seq<Capability> {
        self.plugins@
    }

    /// The commands that may be invoked.
    pub closed spec fn spec_commands(&self) -> Seq<Command> {
        self.commands@
    }

    /// The filesystem scope, for reading.
    pub fn fs_scope(&self) -> (r: &FsScope)
        requires
            self.wf(),
        ensures
            *r == self.spec_scope(),
            r.wf(),
    {
        &self.scope
    }

    /// Dispatches an invocation of the command named `name` with `arg`.
    pub fn invoke(&self, name: &str, arg: &str) -> (r: Option<String>)
        ensures
            r matches Some(s) ==> invocation(self.spec_commands(), name@, arg@) == Some(s@),
            r is None ==> invocation(self.spec_commands(), name@, arg@) is None,
    {
        let wanted = String::from_str(name);
        let n = self.commands.len();
        let mut i: usize = 0;
        while i < n
            invariant
                n == self.commands@.len(),
                0 <= i <= n,
                wanted@ == name@,
                forall|j: int| 0 <= j < i ==> command_name(self.commands@[j]) != name@,
            decreases n - i,
        {
            if self.commands[i].name() == wanted {
                return Some(self.commands[i].run(arg));
            }
            i = i + 1;
        }
        None
    }
}

} // verus!
