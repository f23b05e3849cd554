//! The syntax tree that the parser builds and the compiler reads.
//!
//! The tree is plain owned data: each node owns its children and carries the
//! span of the source text it was read from.

use vstd::prelude::*;
use crate::cursor::{Cursor, CursorView};

verus! {

/// A name, as written in the source.
pub type Identifier = String;

/// The statements of a block, in order.
pub type Codeblock = Vec<Expression>;

/// The name of a type, as written in the source.
#[derive(Debug, Clone)]
pub struct Type {
    pub name: Identifier,
}

/// The view of a [`Type`].
pub struct TypeView {
    pub name: Seq<char>,
}

impl View for Type {
    type V = TypeView;

    open spec fn view(&self) -> TypeView {
        TypeView { name: self.name@ }
    }
}

/// A parameter of a function declaration.
#[derive(Debug, Clone)]
pub struct Parameter {
    pub name: Identifier,
    pub type_: Type,
}

/// The view of a [`Parameter`].
pub struct ParameterView {
    pub name: Seq<char>,
    pub type_: TypeView,
}

impl View for Parameter {
    type V = ParameterView;

    open spec fn view(&self) -> ParameterView {
        ParameterView { name: self.name@, type_: self.type_@ }
    }
}

/// An argument of a function call.
#[derive(Debug)]
pub struct Argument {
    pub expression: Expression,
}

/// The view of an [`Argument`].
pub struct ArgumentView {
    pub expression: ExpressionView,
}

/// A node of the syntax tree.
#[derive(Debug)]
pub enum Expression {
    FunctionDeclaration {
        name: Identifier,
        parameters: Vec<Parameter>,
        return_type: Option<Type>,
        body: Codeblock,
        cursor: Cursor,
    },
    FunctionCall { name: Identifier, arguments: Vec<Argument>, cursor: Cursor },
    VariableDeclaration {
        name: Identifier,
        variable_type: Option<Type>,
        value: Option<Box<Expression>>,
        cursor: Cursor,
    },
    VariableAssign { name: Identifier, value: Box<Expression>, cursor: Cursor },
    RawCode { string: String, cursor: Cursor },
    Addition { left: Box<Expression>, right: Box<Expression>, cursor: Cursor },
    Subtraction { left: Box<Expression>, right: Box<Expression>, cursor: Cursor },
    Multiplication { left: Box<Expression>, right: Box<Expression>, cursor: Cursor },
    Division { left: Box<Expression>, right: Box<Expression>, cursor: Cursor },
    String(String, Cursor),
    Integer(i64, Cursor),
    VariableAccess(Identifier, Cursor),
}

/// The view of an [`Expression`]: the same tree over character sequences.
pub enum ExpressionView {
    FunctionDeclaration {
        name: Seq<char>,
        parameters: Seq<ParameterView>,
        return_type: Option<TypeView>,
        body: Seq<ExpressionView>,
        cursor: CursorView,
    },
    FunctionCall { name: Seq<char>, arguments: Seq<ArgumentView>, cursor: CursorView },
    VariableDeclaration {
        name: Seq<char>,
        variable_type: Option<TypeView>,
        value: Option<Box<ExpressionView>>,
        cursor: CursorView,
    },
    VariableAssign { name: Seq<char>, value: Box<ExpressionView>, cursor: CursorView },
    RawCode { string: Seq<char>, cursor: CursorView },
    Addition { left: Box<ExpressionView>, right: Box<ExpressionView>, cursor: CursorView },
    Subtraction { left: Box<ExpressionView>, right: Box<ExpressionView>, cursor: CursorView },
    Multiplication { left: Box<ExpressionView>, right: Box<ExpressionView>, cursor: CursorView },
    Division { left: Box<ExpressionView>, right: Box<ExpressionView>, cursor: CursorView },
    String(Seq<char>, CursorView),
    Integer(i64, CursorView),
    VariableAccess(Seq<char>, CursorView),
}

/// The view of an optional type annotation.
pub open spec fn type_view(t: Option<Type>) -> Option<TypeView> {
    match t {
        Some(t) => Some(t@),
        None => None,
    }
}

/// The views of the parameters of a declaration, in order.
pub open spec fn parameter_views(parameters: Seq<Parameter>) -> Seq<ParameterView> {
    Seq::new(parameters.len(), |i: int| parameters[i]@)
}

/// The views of the first `n` statements of a block.
pub open spec fn leading_views(block: &Vec<Expression>, n: nat) -> Seq<ExpressionView>
    decreases block, n,
{
    if n == 0 || n > block@.len() {
        Seq::empty()
    } else {
        leading_views(block, (n - 1) as nat).push(block@[n - 1]@)
    }
}

/// The views of the first `n` arguments of a call.
pub open spec fn leading_argument_views(arguments: &Vec<Argument>, n: nat) -> Seq<ArgumentView>
    decreases arguments, n,
{
    if n == 0 || n > arguments@.len() {
        Seq::empty()
    } else {
        leading_argument_views(arguments, (n - 1) as nat).push(
            ArgumentView { expression: arguments@[n - 1].expression@ },
        )
    }
}

impl View for Expression {
    type V = ExpressionView;

    open spec fn view(&self) -> ExpressionView
        decreases self,
    {
        match self {
            Expression::FunctionDeclaration { name, parameters, return_type, body, cursor } =>
                ExpressionView::FunctionDeclaration {
                    name: name@,
                    parameters: parameter_views(parameters@),
                    return_type: type_view(*return_type),
                    body: leading_views(body, body@.len()),
                    cursor: cursor@,
                },
            Expression::FunctionCall { name, arguments, cursor } => ExpressionView::FunctionCall {
                name: name@,
                arguments: leading_argument_views(arguments, arguments@.len()),
                cursor: cursor@,
            },
            Expression::VariableDeclaration { name, variable_type, value, cursor } =>
                ExpressionView::VariableDeclaration {
                    name: name@,
                    variable_type: type_view(*variable_type),
                    value: match value {
                        Some(v) => Some(Box::new((**v)@)),
                        None => None,
                    },
                    cursor: cursor@,
                },
            Expression::VariableAssign { name, value, cursor } => ExpressionView::VariableAssign {
                name: name@,
                value: Box::new((**value)@),
                cursor: cursor@,
            },
            Expression::RawCode { string, cursor } => ExpressionView::RawCode {
                string: string@,
                cursor: cursor@,
            },
            Expression::Addition { left, right, cursor } => ExpressionView::Addition {
                left: Box::new((**left)@),
                right: Box::new((**right)@),
                cursor: cursor@,
            },
            Expression::Subtraction { left, right, cursor } => ExpressionView::Subtraction {
                left: Box::new((**left)@),
                right: Box::new((**right)@),
                cursor: cursor@,
            },
            Expression::Multiplication { left, right, cursor } => ExpressionView::Multiplication {
                left: Box::new((**left)@),
                right: Box::new((**right)@),
                cursor: cursor@,
            },
            Expression::Division { left, right, cursor } => ExpressionView::Division {
                left: Box::new((**left)@),
                right: Box::new((**right)@),
                cursor: cursor@,
            },
            Expression::String(s, cursor) => ExpressionView::String(s@, cursor@),
            Expression::Integer(v, cursor) => ExpressionView::Integer(*v, cursor@),
            Expression::VariableAccess(name, cursor) => ExpressionView::VariableAccess(
                name@,
                cursor@,
            ),
        }
    }
}

impl View for Argument {
    type V = ArgumentView;

    open spec fn view(&self) -> ArgumentView {
        ArgumentView { expression: self.expression@ }
    }
}

/// The views of a sequence of statements, in order.
pub open spec fn block_view(block: Seq<Expression>) -> Seq<ExpressionView> {
    Seq::new(block.len(), |i: int| block[i]@)
}

/// The views of the first `n` statements are the first `n` views.
pub proof fn lemma_leading_views(block: &Vec<Expression>, n: nat)
    requires
        n <= block@.len(),
    ensures
        leading_views(block, n) == block_view(block@).subrange(0, n as int),
    decreases n,
{
    let target = block_view(block@).subrange(0, n as int);
    assert(target.len() == n);
    if n > 0 {
        lemma_leading_views(block, (n - 1) as nat);
        let shorter = leading_views(block, (n - 1) as nat);
        assert(shorter.len() == n - 1);
        assert(leading_views(block, n) == shorter.push(block@[n - 1]@));
    } else {
        assert(leading_views(block, n).len() == 0);
    }
    assert(leading_views(block, n) =~= block_view(block@).subrange(0, n as int));
}

/// The views of the first `n` arguments are the first `n` views.
pub proof fn lemma_leading_argument_views(arguments: &Vec<Argument>, n: nat)
    requires
        n <= arguments@.len(),
    ensures
        leading_argument_views(arguments, n) == argument_views(arguments@).subrange(0, n as int),
    decreases n,
{
    let target = argument_views(arguments@).subrange(0, n as int);
    assert(target.len() == n);
    if n > 0 {
        lemma_leading_argument_views(arguments, (n - 1) as nat);
        let shorter = leading_argument_views(arguments, (n - 1) as nat);
        assert(shorter.len() == n - 1);
        assert(leading_argument_views(arguments, n) == shorter.push(
            ArgumentView { expression: arguments@[n - 1].expression@ },
        ));
    } else {
        assert(leading_argument_views(arguments, n).len() == 0);
    }
    assert(leading_argument_views(arguments, n) =~= argument_views(arguments@).subrange(
        0,
        n as int,
    ));
}

/// The views of the arguments of a call, in order.
pub open spec fn argument_views(arguments: Seq<Argument>) -> Seq<ArgumentView> {
    Seq::new(arguments.len(), |i: int| arguments[i]@)
}

/// The view of a function declaration holds the views of its statements, and
/// the view of a call the views of its arguments.
pub proof fn lemma_body_view(e: Expression)
    ensures
        e matches Expression::FunctionDeclaration { body, .. } ==> e@ matches ExpressionView::FunctionDeclaration { body: viewed, .. } && viewed == block_view(body@),
        e matches Expression::FunctionCall { arguments, .. } ==> e@ matches ExpressionView::FunctionCall { arguments: viewed, .. } && viewed == argument_views(arguments@),
{
    match e {
        Expression::FunctionDeclaration { name, parameters, return_type, body, cursor } => {
            lemma_leading_views(&body, body@.len());
            assert(block_view(body@).subrange(0, body@.len() as int) =~= block_view(body@));
        },
        Expression::FunctionCall { name, arguments, cursor } => {
            lemma_leading_argument_views(&arguments, arguments@.len());
            assert(argument_views(arguments@).subrange(0, arguments@.len() as int)
                =~= argument_views(arguments@));
        },
        _ => {},
    }
}

impl ExpressionView {
    /// The span that a diagnostic about this node points at.
    pub open spec fn cursor(self) -> CursorView {
        match self {
            ExpressionView::FunctionDeclaration { cursor, .. } => cursor,
            ExpressionView::FunctionCall { cursor, .. } => cursor,
            ExpressionView::VariableDeclaration { cursor, .. } => cursor,
            ExpressionView::VariableAssign { cursor, .. } => cursor,
            ExpressionView::RawCode { cursor, .. } => cursor,
            ExpressionView::Addition { cursor, .. } => cursor,
            ExpressionView::Subtraction { cursor, .. } => cursor,
            ExpressionView::Multiplication { cursor, .. } => cursor,
            ExpressionView::Division { cursor, .. } => cursor,
            ExpressionView::String(_, cursor) => cursor,
            ExpressionView::Integer(_, cursor) => cursor,
            ExpressionView::VariableAccess(_, cursor) => cursor,
        }
    }
}

impl Clone for Argument {
    fn clone(&self) -> (a: Argument)
        ensures
            a@ == self@,
    {
        Argument { expression: self.expression.duplicate() }
    }
}

impl Clone for Expression {
    fn clone(&self) -> (e: Expression)
        ensures
            e@ == self@,
    {
        self.duplicate()
    }
}

/// A copy of a type annotation.
fn duplicate_type(t: &Option<Type>) -> (c: Option<Type>)
    ensures
        type_view(c) == type_view(*t),
{
    match t {
        Some(t) => Some(Type { name: t.name.clone() }),
        None => None,
    }
}

/// A copy of the parameters of a declaration.
fn duplicate_parameters(parameters: &Vec<Parameter>) -> (copy: Vec<Parameter>)
    ensures
        parameter_views(copy@) == parameter_views(parameters@),
{
    let mut copy: Vec<Parameter> = Vec::new();
    let mut i: usize = 0;
    while i < parameters.len()
        invariant
            i <= parameters.len(),
            copy@.len() == i,
            forall|j: int| 0 <= j < i ==> copy@[j]@ == parameters@[j]@,
        decreases parameters.len() - i,
    {
        let p = &parameters[i];
        copy.push(Parameter { name: p.name.clone(), type_: Type { name: p.type_.name.clone() } });
        i += 1;
    }
    assert(parameter_views(copy@) =~= parameter_views(parameters@));
    copy
}

/// A copy of the statements of a block.
fn duplicate_block(block: &Vec<Expression>) -> (copy: Vec<Expression>)
    ensures
        block_view(copy@) == block_view(block@),
    decreases block,
{
    let mut copy: Vec<Expression> = Vec::new();
    let mut k: usize = 0;
    while k < block.len()
        invariant
            k <= block.len(),
            copy@.len() == k,
            forall|j: int| 0 <= j < k ==> copy@[j]@ == block@[j]@,
        decreases block.len() - k,
    {
        copy.push(block[k].duplicate());
        k += 1;
    }
    assert(block_view(copy@) =~= block_view(block@));
    copy
}

/// A copy of the arguments of a call.
fn duplicate_arguments(arguments: &Vec<Argument>) -> (copy: Vec<Argument>)
    ensures
        argument_views(copy@) == argument_views(arguments@),
    decreases arguments,
{
    let mut copy: Vec<Argument> = Vec::new();
    let mut k: usize = 0;
    while k < arguments.len()
        invariant
            k <= arguments.len(),
            copy@.len() == k,
            forall|j: int| 0 <= j < k ==> copy@[j]@ == arguments@[j]@,
        decreases arguments.len() - k,
    {
        copy.push(Argument { expression: arguments[k].expression.duplicate() });
        k += 1;
    }
    assert(argument_views(copy@) =~= argument_views(arguments@));
    copy
}

impl Expression {
    /// A copy of the node and of everything below it.
    pub fn duplicate(&self) -> (e: Expression)
        ensures
            e@ == self@,
        decreases self,
    {
        proof {
            lemma_body_view(*self);
        }
        match self {
            Expression::FunctionDeclaration { name, parameters, return_type, body, cursor } => {
                let copy = Expression::FunctionDeclaration {
                    name: name.clone(),
                    parameters: duplicate_parameters(parameters),
                    return_type: duplicate_type(return_type),
                    body: duplicate_block(body),
                    cursor: cursor.clone(),
                };
                proof {
                    lemma_body_view(copy);
                }
                copy
            },
            Expression::FunctionCall { name, arguments, cursor } => {
                let copy = Expression::FunctionCall {
                    name: name.clone(),
                    arguments: duplicate_arguments(arguments),
                    cursor: cursor.clone(),
                };
                proof {
                    lemma_body_view(copy);
                }
                copy
            },
            Expression::VariableDeclaration { name, variable_type, value, cursor } =>
                Expression::VariableDeclaration {
                    name: name.clone(),
                    variable_type: duplicate_type(variable_type),
                    value: match value {
                        Some(v) => Some(Box::new(v.duplicate())),
                        None => None,
                    },
                    cursor: cursor.clone(),
                },
            Expression::VariableAssign { name, value, cursor } => Expression::VariableAssign {
                name: name.clone(),
                value: Box::new(value.duplicate()),
                cursor: cursor.clone(),
            },
            Expression::RawCode { string, cursor } => Expression::RawCode {
                string: string.clone(),
                cursor: cursor.clone(),
            },
            Expression::Addition { left, right, cursor } => Expression::Addition {
                left: Box::new(left.duplicate()),
                right: Box::new(right.duplicate()),
                cursor: cursor.clone(),
            },
            Expression::Subtraction { left, right, cursor } => Expression::Subtraction {
                left: Box::new(left.duplicate()),
                right: Box::new(right.duplicate()),
                cursor: cursor.clone(),
            },
            Expression::Multiplication { left, right, cursor } => Expression::Multiplication {
                left: Box::new(left.duplicate()),
                right: Box::new(right.duplicate()),
                cursor: cursor.clone(),
            },
            Expression::Division { left, right, cursor } => Expression::Division {
                left: Box::new(left.duplicate()),
                right: Box::new(right.duplicate()),
                cursor: cursor.clone(),
            },
            Expression::String(s, cursor) => Expression::String(s.clone(), cursor.clone()),
            Expression::Integer(v, cursor) => Expression::Integer(*v, cursor.clone()),
            Expression::VariableAccess(name, cursor) => Expression::VariableAccess(
                name.clone(),
                cursor.clone(),
            ),
        }
    }

    /// The span that a diagnostic about this node points at.
    pub fn get_cursor(&self) -> (c: &Cursor)
        ensures
            c@ == self@.cursor(),
    {
        match self {
            Expression::FunctionDeclaration { cursor, .. } => cursor,
            Expression::FunctionCall { cursor, .. } => cursor,
            Expression::VariableDeclaration { cursor, .. } => cursor,
            Expression::VariableAssign { cursor, .. } => cursor,
            Expression::RawCode { cursor, .. } => cursor,
            Expression::Addition { cursor, .. } => cursor,
            Expression::Subtraction { cursor, .. } => cursor,
            Expression::Multiplication { cursor, .. } => cursor,
            Expression::Division { cursor, .. } => cursor,
            Expression::String(_, cursor) => cursor,
            Expression::Integer(_, cursor) => cursor,
            Expression::VariableAccess(_, cursor) => cursor,
        }
    }
}

} // verus!
