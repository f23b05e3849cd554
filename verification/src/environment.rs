//! What the compiler works with: instruction blocks, values, scopes and the
//! preferred destination of an expression.

use vstd::prelude::*;

verus! {

/// The view of an [`McFunction`]: its name and the commands emitted so far,
/// each followed by a line feed.
pub struct McFunctionView {
    pub name: Seq<char>,
    pub text: Seq<char>,
}

impl McFunctionView {
    /// The block with one more command at its end.
    pub open spec fn push(self, cmd: Seq<char>) -> McFunctionView {
        McFunctionView { name: self.name, text: self.text + cmd + "\n"@ }
    }
}

/// A named block of commands. Commands can only be added at the end.
#[derive(Debug)]
pub struct McFunction {
    text: String,
    pub name: String,
}

impl View for McFunction {
    type V = McFunctionView;

    closed spec fn view(&self) -> McFunctionView {
        McFunctionView { name: self.name@, text: self.text@ }
    }
}

impl McFunction {
    /// An empty block with the given name.
    pub fn new(name: &str) -> (f: McFunction)
        ensures
            f@ == (McFunctionView { name: name@, text: Seq::empty() }),
    {
        McFunction { text: String::new(), name: name.to_owned() }
    }

    /// Adds one command, and the line feed that ends it.
    pub fn push_cmd(&mut self, cmd: &str)
        ensures
            final(self)@ == old(self)@.push(cmd@),
    {
        self.text.append(cmd);
        self.text.append("\n");
    }

    /// The commands emitted so far.
    pub fn to_string(&self) -> (s: String)
        ensures
            s@ == self@.text,
    {
        self.text.clone()
    }

    /// The name of the block.
    pub fn name(&self) -> (s: &String)
        ensures
            s@ == self@.name,
    {
        &self.name
    }
}

/// The view of a [`Value`].
pub enum ValueView {
    Int(i32),
    IntReference { scoreboard: Seq<char>, player: Seq<char> },
    Undefined,
    UndefinedReference { scoreboard: Seq<char>, player: Seq<char> },
    FunctionReference(Seq<char>),
}

/// What an expression compiles to: a constant that is known now, or a named
/// slot that holds the value when the commands run.
#[derive(Debug, PartialEq)]
pub enum Value {
    Int(i32),
    IntReference { scoreboard: String, player: String },
    Undefined,
    UndefinedReference { scoreboard: String, player: String },
    FunctionReference(String),
}

impl View for Value {
    type V = ValueView;

    open spec fn view(&self) -> ValueView {
        match self {
            Value::Int(v) => ValueView::Int(*v),
            Value::IntReference { scoreboard, player } => ValueView::IntReference {
                scoreboard: scoreboard@,
                player: player@,
            },
            Value::Undefined => ValueView::Undefined,
            Value::UndefinedReference { scoreboard, player } => ValueView::UndefinedReference {
                scoreboard: scoreboard@,
                player: player@,
            },
            Value::FunctionReference(name) => ValueView::FunctionReference(name@),
        }
    }
}

impl ValueView {
    /// The name of the type of a value.
    pub open spec fn name(self) -> Seq<char> {
        match self {
            ValueView::Int(_) | ValueView::IntReference { .. } => "int"@,
            ValueView::Undefined | ValueView::UndefinedReference { .. } => "undefined"@,
            ValueView::FunctionReference(_) => "function"@,
        }
    }

    /// Whether the value is a named slot that holds an integer.
    pub open spec fn is_slot(self) -> bool {
        self is IntReference
    }
}

impl Clone for Value {
    fn clone(&self) -> (v: Value)
        ensures
            v@ == self@,
    {
        match self {
            Value::Int(v) => Value::Int(*v),
            Value::IntReference { scoreboard, player } => Value::IntReference {
                scoreboard: scoreboard.clone(),
                player: player.clone(),
            },
            Value::Undefined => Value::Undefined,
            Value::UndefinedReference { scoreboard, player } => Value::UndefinedReference {
                scoreboard: scoreboard.clone(),
                player: player.clone(),
            },
            Value::FunctionReference(name) => Value::FunctionReference(name.clone()),
        }
    }
}

impl Value {
    /// The name of the type of the value.
    pub fn name(&self) -> (s: &'static str)
        ensures
            s@ == self@.name(),
    {
        match self {
            Value::Int(_) | Value::IntReference { .. } => "int",
            Value::Undefined | Value::UndefinedReference { .. } => "undefined",
            Value::FunctionReference(_) => "function",
        }
    }

    /// Whether two values are the same: the same variant with the same
    /// contents.
    pub fn same_as(&self, other: &Value) -> (b: bool)
        ensures
            b == (self@ == other@),
    {
        match (self, other) {
            (Value::Int(a), Value::Int(b)) => *a == *b,
            (
                Value::IntReference { scoreboard: board_a, player: player_a },
                Value::IntReference { scoreboard: board_b, player: player_b },
            ) => *board_a == *board_b && *player_a == *player_b,
            (Value::Undefined, Value::Undefined) => true,
            (
                Value::UndefinedReference { scoreboard: board_a, player: player_a },
                Value::UndefinedReference { scoreboard: board_b, player: player_b },
            ) => *board_a == *board_b && *player_a == *player_b,
            (Value::FunctionReference(a), Value::FunctionReference(b)) => *a == *b,
            _ => false,
        }
    }
}

/// The view of a [`Scope`]: the block being written and the names declared
/// so far, in the order of their declaration.
pub struct ScopeView {
    pub function: McFunctionView,
    pub symbols: Seq<Seq<char>>,
}

impl ScopeView {
    /// Whether `name` is declared in this scope. Enclosing scopes are not
    /// searched.
    pub open spec fn declares(self, name: Seq<char>) -> bool {
        self.symbols.contains(name)
    }

    /// The scope with `name` declared; unchanged where it already is.
    pub open spec fn declare(self, name: Seq<char>) -> ScopeView {
        if self.declares(name) {
            self
        } else {
            ScopeView { function: self.function, symbols: self.symbols.push(name) }
        }
    }

    /// The scope with one more command in its block.
    pub open spec fn emit(self, cmd: Seq<char>) -> ScopeView {
        ScopeView { function: self.function.push(cmd), symbols: self.symbols }
    }

    /// No name is declared twice.
    pub open spec fn wf(self) -> bool {
        self.symbols.no_duplicates()
    }
}

/// The names of one block: the block that is being written, the names
/// declared in it, and the scope around it.
pub struct Scope<'a> {
    pub function: McFunction,
    pub symbol_table: Vec<String>,
    pub parent: Option<&'a Scope<'a>>,
}

impl<'a> View for Scope<'a> {
    type V = ScopeView;

    open spec fn view(&self) -> ScopeView {
        ScopeView {
            function: self.function@,
            symbols: Seq::new(self.symbol_table@.len(), |i: int| self.symbol_table@[i]@),
        }
    }
}

impl<'a> Scope<'a> {
    /// A scope without names for the given block.
    pub fn new(function: McFunction, parent: Option<&'a Scope<'a>>) -> (s: Scope<'a>)
        ensures
            s@ == (ScopeView { function: function@, symbols: Seq::empty() }),
            s@.wf(),
            s.parent == parent,
    {
        let s = Scope { function, symbol_table: Vec::new(), parent };
        assert(s@.symbols =~= Seq::empty());
        s
    }

    /// Whether `name` is declared in this scope.
    pub fn declares(&self, name: &String) -> (b: bool)
        ensures
            b == self@.declares(name@),
    {
        let mut i: usize = 0;
        while i < self.symbol_table.len()
            invariant
                i <= self.symbol_table@.len(),
                forall|j: int| 0 <= j < i ==> self@.symbols[j] != name@,
            decreases self.symbol_table@.len() - i,
        {
            if self.symbol_table[i] == *name {
                assert(self@.symbols[i as int] == name@);
                return true;
            }
            i += 1;
        }
        false
    }

    /// Declares `name` in this scope; nothing changes where it already is.
    pub fn declare(&mut self, name: &String)
        requires
            old(self)@.wf(),
        ensures
            final(self)@ == old(self)@.declare(name@),
            final(self)@.wf(),
            final(self)@.declares(name@),
            final(self).parent == old(self).parent,
    {
        if !self.declares(name) {
            self.symbol_table.push(name.clone());
            assert(self@.symbols =~= old(self)@.symbols.push(name@));
            assert(self@.symbols[old(self)@.symbols.len() as int] == name@);
        }
    }

    /// Adds one command to the block of this scope.
    pub fn emit(&mut self, cmd: &str)
        ensures
            final(self)@ == old(self)@.emit(cmd@),
            final(self).parent == old(self).parent,
    {
        self.function.push_cmd(cmd);
    }
}

/// What is handed down while an expression is compiled: the slot that the
/// result should be written to, if the caller has one in mind.
#[derive(Debug)]
pub struct Context {
    pub macro_target: Option<Value>,
}

impl View for Context {
    type V = Option<ValueView>;

    open spec fn view(&self) -> Option<ValueView> {
        match self.macro_target {
            Some(v) => Some(v@),
            None => None,
        }
    }
}

/// A preferred destination is always a slot.
pub open spec fn target_wf(target: Option<ValueView>) -> bool {
    match target {
        Some(v) => v.is_slot(),
        None => true,
    }
}

impl Clone for Context {
    fn clone(&self) -> (c: Context)
        ensures
            c@ == self@,
    {
        match &self.macro_target {
            Some(v) => Context { macro_target: Some(v.clone()) },
            None => Context { macro_target: None },
        }
    }
}

} // verus!
