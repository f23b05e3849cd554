//! The code generator: from the syntax tree to blocks of scoreboard commands.
//!
//! Every expression compiles to a [`Value`]: a constant that is known now, or
//! a slot that holds the result when the commands run. What is emitted, what
//! is returned and which diagnostic ends a compilation are given by
//! [`expression_spec`] and the functions around it; the executable functions
//! are proved to compute exactly that.

use vstd::prelude::*;
use crate::ast::{block_view, Expression, ExpressionView, Type};
use crate::commands::{
    add_command,
    add_command_text,
    close_command,
    close_command_text,
    constant_slot,
    constant_slot_text,
    open_command,
    open_command_text,
    operation_command,
    operation_command_text,
    remove_command,
    remove_command_text,
    scratch_slot,
    scratch_slot_text,
    set_command,
    set_command_text,
    slot_name,
    slot_name_text,
};
use crate::cursor::{Cursor, CursorView};
use crate::details::{
    integer_bounds_exceeded,
    integer_bounds_exceeded_text,
    member_redeclaration,
    member_redeclaration_text,
    type_mismatch,
    type_mismatch_text,
    unknown_member,
    unknown_member_text,
};
use crate::environment::{
    target_wf,
    Context,
    McFunction,
    McFunctionView,
    Scope,
    ScopeView,
    Value,
    ValueView,
};
use crate::message::{Message, MessageType, MessageView};

verus! {

/// Whether an integer is a 32-bit signed value.
pub open spec fn fits_i32(v: int) -> bool {
    i32::MIN <= v <= i32::MAX
}

/// Division that rounds toward zero; zero where the divisor is zero.
pub open spec fn quotient(left: int, right: int) -> int {
    if right == 0 {
        0
    } else if left >= 0 && right > 0 {
        left / right
    } else if left < 0 && right < 0 {
        (-left) / (-right)
    } else if left >= 0 {
        -(left / (-right))
    } else {
        -((-left) / right)
    }
}

/// The quotient is no larger in magnitude than the dividend, and dividing by
/// one or by minus one keeps the magnitude.
pub proof fn lemma_quotient_bounds(left: int, right: int)
    requires
        right != 0,
    ensures
        left >= 0 ==> -left <= quotient(left, right) <= left,
        left < 0 ==> left <= quotient(left, right) <= -left,
        right == -1 ==> quotient(left, right) == -left,
        right == 1 ==> quotient(left, right) == left,
        (right < -1 || right > 1) && left != 0 ==> -left != quotient(left, right),
{
    let a = if left < 0 {
        -left
    } else {
        left
    };
    let b = if right < 0 {
        -right
    } else {
        right
    };
    assert(0 <= a / b <= a) by (nonlinear_arith)
        requires
            a >= 0,
            b > 0,
    ;
    assert(b == 1 ==> a / b == a) by (nonlinear_arith)
        requires
            a >= 0,
            b > 0,
    ;
    assert(b > 1 && a > 0 ==> a / b < a) by (nonlinear_arith)
        requires
            a >= 0,
            b > 0,
    ;
}

/// The four arithmetic operations of the language.
#[derive(Debug, Clone, Copy, PartialEq, Eq, Structural)]
pub enum MathOp {
    Addition,
    Subtraction,
    Multiplication,
    Division,
}

impl MathOp {
    /// The symbol of the operation.
    pub open spec fn symbol_spec(self) -> char {
        match self {
            MathOp::Addition => '+',
            MathOp::Subtraction => '-',
            MathOp::Multiplication => '*',
            MathOp::Division => '/',
        }
    }

    /// The operator that applies the operation to a slot in place.
    pub open spec fn operator_text(self) -> Seq<char> {
        match self {
            MathOp::Addition => "+="@,
            MathOp::Subtraction => "-="@,
            MathOp::Multiplication => "*="@,
            MathOp::Division => "/="@,
        }
    }

    /// The result of the operation on unbounded integers.
    pub open spec fn apply(self, left: int, right: int) -> int {
        match self {
            MathOp::Addition => left + right,
            MathOp::Subtraction => left - right,
            MathOp::Multiplication => left * right,
            MathOp::Division => quotient(left, right),
        }
    }

    /// Whether the operation can be carried out now on two 32-bit values:
    /// the divisor is not zero and the result is a 32-bit value again.
    pub open spec fn defined(self, left: int, right: int) -> bool {
        &&& self == MathOp::Division ==> right != 0
        &&& fits_i32(self.apply(left, right))
    }

    /// The symbol of the operation.
    pub fn symbol(&self) -> (c: char)
        ensures
            c == self.symbol_spec(),
    {
        match self {
            MathOp::Addition => '+',
            MathOp::Subtraction => '-',
            MathOp::Multiplication => '*',
            MathOp::Division => '/',
        }
    }

    /// The operator that applies the operation to a slot in place.
    pub fn operator(&self) -> (s: &'static str)
        ensures
            s@ == self.operator_text(),
    {
        match self {
            MathOp::Addition => "+=",
            MathOp::Subtraction => "-=",
            MathOp::Multiplication => "*=",
            MathOp::Division => "/=",
        }
    }

    /// Whether [`MathOp::execute`] may be called on the two values.
    pub fn can_execute(&self, left: i32, right: i32) -> (b: bool)
        ensures
            b == self.defined(left as int, right as int),
    {
        let l = left as i64;
        let r = right as i64;
        match self {
            MathOp::Addition => {
                let v = l + r;
                -2147483648 <= v && v <= 2147483647
            },
            MathOp::Subtraction => {
                let v = l - r;
                -2147483648 <= v && v <= 2147483647
            },
            MathOp::Multiplication => {
                assert(-4611686018427387904 <= l * r <= 4611686018427387904) by (nonlinear_arith)
                    requires
                        -2147483648 <= l <= 2147483647,
                        -2147483648 <= r <= 2147483647,
                ;
                let v = l * r;
                -2147483648 <= v && v <= 2147483647
            },
            MathOp::Division => {
                if right == 0 {
                    false
                } else {
                    proof {
                        lemma_quotient_bounds(left as int, right as int);
                    }
                    !(left == i32::MIN && right == -1)
                }
            },
        }
    }

    /// Carries the operation out on two constants.
    pub fn execute(&self, left: i32, right: i32) -> (v: i32)
        requires
            self.defined(left as int, right as int),
        ensures
            v == self.apply(left as int, right as int),
    {
        match self {
            MathOp::Addition => left + right,
            MathOp::Subtraction => left - right,
            MathOp::Multiplication => left * right,
            MathOp::Division => {
                let l = left as i64;
                let r = right as i64;
                let a: u64 = if l < 0 {
                    (-l) as u64
                } else {
                    l as u64
                };
                let b: u64 = if r < 0 {
                    (-r) as u64
                } else {
                    r as u64
                };
                let q: u64 = a / b;
                proof {
                    lemma_quotient_bounds(left as int, right as int);
                }
                if (l < 0) == (r < 0) {
                    q as i32
                } else {
                    (-(q as i64)) as i32
                }
            },
        }
    }
}


/// A diagnostic of the given kind.
pub open spec fn diagnostic(message_type: MessageType, details: Seq<char>, cursor: CursorView)
    -> MessageView {
    MessageView { message_type, details, cursor }
}

/// Where a compilation stands: what the expression yielded or the diagnostic
/// that ended it, the scope it left behind, and the blocks finished so far.
pub struct Compilation {
    pub result: Result<ValueView, MessageView>,
    pub scope: ScopeView,
    pub functions: Seq<McFunctionView>,
}

/// An integer literal: a constant where it is a 32-bit value, else a
/// diagnostic.
pub open spec fn integer_spec(value: i64, cursor: CursorView) -> Result<ValueView, MessageView> {
    if fits_i32(value as int) {
        Ok(ValueView::Int(value as i32))
    } else {
        Err(
            diagnostic(
                MessageType::IntegerBoundsExceeded,
                integer_bounds_exceeded_text(32),
                cursor,
            ),
        )
    }
}

/// The use of a variable: its slot where the name is declared in this scope,
/// else a diagnostic.
pub open spec fn access_spec(scope: ScopeView, name: Seq<char>, cursor: CursorView) -> Result<
    ValueView,
    MessageView,
> {
    if scope.declares(name) {
        Ok(ValueView::IntReference { scoreboard: scope.function.name, player: slot_name(name) })
    } else {
        Err(
            diagnostic(
                MessageType::UnknownMember,
                unknown_member_text("Variable"@, name),
                cursor,
            ),
        )
    }
}

/// The slot that a result is written to: the preferred destination where
/// there is one, else the scratch slot of the current block. The pair is
/// slot name, then block name.
pub open spec fn destination(scope: ScopeView, target: Option<ValueView>) -> (
    Seq<char>,
    Seq<char>,
) {
    match target {
        Some(ValueView::IntReference { scoreboard, player }) => (player, scoreboard),
        _ => (scratch_slot(), scope.function.name),
    }
}

/// Brings the value of one slot into another; nothing is emitted where the
/// two are the same slot.
pub open spec fn moved(
    scope: ScopeView,
    player: Seq<char>,
    scoreboard: Seq<char>,
    from_player: Seq<char>,
    from_scoreboard: Seq<char>,
) -> ScopeView {
    if from_player == player && from_scoreboard == scoreboard {
        scope
    } else {
        scope.emit(operation_command(player, scoreboard, "="@, from_player, from_scoreboard))
    }
}

/// Applies an operation with a constant right operand to a slot in place.
/// Sums and differences have commands of their own; products and quotients
/// first write the constant to a slot named after it.
pub open spec fn apply_constant_spec(
    scope: ScopeView,
    op: MathOp,
    player: Seq<char>,
    scoreboard: Seq<char>,
    value: i32,
) -> ScopeView {
    match op {
        MathOp::Addition => scope.emit(add_command(player, scoreboard, value as int)),
        MathOp::Subtraction => scope.emit(remove_command(player, scoreboard, value as int)),
        _ => scope.emit(
            set_command(constant_slot(value as int), scope.function.name, value as int),
        ).emit(
            operation_command(
                player,
                scoreboard,
                op.operator_text(),
                constant_slot(value as int),
                scope.function.name,
            ),
        ),
    }
}

/// The rule table of binary arithmetic, on the values of the two operands.
///
/// Two constants are folded and nothing is emitted. In every other case the
/// result is the destination slot, reported in the current block.
pub open spec fn combine_spec(
    scope: ScopeView,
    target: Option<ValueView>,
    op: MathOp,
    left: ValueView,
    right: ValueView,
) -> (ValueView, ScopeView) {
    let (player, scoreboard) = destination(scope, target);
    let out = ValueView::IntReference { scoreboard: scope.function.name, player };
    match (left, right) {
        (ValueView::Int(a), ValueView::Int(b)) => (
            ValueView::Int(op.apply(a as int, b as int) as i32),
            scope,
        ),
        (ValueView::IntReference { scoreboard: ls, player: lp }, ValueView::Int(b)) => (
            out,
            apply_constant_spec(moved(scope, player, scoreboard, lp, ls), op, player, scoreboard, b),
        ),
        (ValueView::Int(a), ValueView::IntReference { scoreboard: rs, player: rp }) => (
            out,
            scope.emit(set_command(player, scoreboard, a as int)).emit(
                operation_command(player, scoreboard, op.operator_text(), rp, rs),
            ),
        ),
        (
            ValueView::IntReference { scoreboard: ls, player: lp },
            ValueView::IntReference { scoreboard: rs, player: rp },
        ) => (
            out,
            moved(scope, player, scoreboard, lp, ls).emit(
                operation_command(player, scoreboard, op.operator_text(), rp, rs),
            ),
        ),
        _ => (ValueView::Undefined, scope),
    }
}

/// Whether two operand values can be combined without leaving the 32-bit
/// range: true of every pair but two constants whose folding is not defined.
pub open spec fn foldable(op: MathOp, left: ValueView, right: ValueView) -> bool {
    match (left, right) {
        (ValueView::Int(a), ValueView::Int(b)) => op.defined(a as int, b as int),
        _ => true,
    }
}

/// Binds a declared name to the value of its initializer. Where the
/// initializer already wrote to the variable's own slot nothing is emitted;
/// a constant is written, another slot is copied; any other value is a type
/// mismatch.
pub open spec fn bind_spec(
    scope: ScopeView,
    cursor: CursorView,
    name: Seq<char>,
    player: Seq<char>,
    scoreboard: Seq<char>,
    value: ValueView,
) -> (Result<ValueView, MessageView>, ScopeView) {
    let reference = ValueView::IntReference { scoreboard, player };
    if value == reference {
        (Ok(reference), scope.declare(name))
    } else {
        match value {
            ValueView::Int(v) => (
                Ok(reference),
                scope.emit(set_command(player, scoreboard, v as int)).declare(name),
            ),
            ValueView::IntReference { scoreboard: other_scoreboard, player: other_player } => (
                Ok(reference),
                scope.emit(
                    operation_command(player, scoreboard, "="@, other_player, other_scoreboard),
                ).declare(name),
            ),
            _ => (
                Err(
                    diagnostic(
                        MessageType::TypeMismatch,
                        type_mismatch_text("int"@, "unknown"@),
                        cursor,
                    ),
                ),
                scope,
            ),
        }
    }
}

/// The operation and the two operands of a binary arithmetic node.
pub open spec fn operation_of(e: ExpressionView) -> Option<(MathOp, ExpressionView, ExpressionView)> {
    match e {
        ExpressionView::Addition { left, right, .. } => Some((MathOp::Addition, *left, *right)),
        ExpressionView::Subtraction { left, right, .. } => Some(
            (MathOp::Subtraction, *left, *right),
        ),
        ExpressionView::Multiplication { left, right, .. } => Some(
            (MathOp::Multiplication, *left, *right),
        ),
        ExpressionView::Division { left, right, .. } => Some((MathOp::Division, *left, *right)),
        _ => None,
    }
}

/// The binary arithmetic node of an operation and two operands.
pub open spec fn operation_node(
    op: MathOp,
    left: ExpressionView,
    right: ExpressionView,
    cursor: CursorView,
) -> ExpressionView {
    match op {
        MathOp::Addition => ExpressionView::Addition {
            left: Box::new(left),
            right: Box::new(right),
            cursor,
        },
        MathOp::Subtraction => ExpressionView::Subtraction {
            left: Box::new(left),
            right: Box::new(right),
            cursor,
        },
        MathOp::Multiplication => ExpressionView::Multiplication {
            left: Box::new(left),
            right: Box::new(right),
            cursor,
        },
        MathOp::Division => ExpressionView::Division {
            left: Box::new(left),
            right: Box::new(right),
            cursor,
        },
    }
}

/// What compiling one expression does: the value or diagnostic it yields,
/// the commands it adds to the block of `scope`, the names it declares, and
/// the blocks it finishes.
///
/// - An integer literal is a constant, or a diagnostic where it is no 32-bit
///   value.
/// - The use of a variable is its slot, or a diagnostic where the name is not
///   declared in this scope.
/// - A declaration fails where the name is declared already. Without an
///   initializer it declares the name and yields a slot without a value. With
///   one, the initializer is compiled with the variable's own slot as
///   preferred destination and then bound by [`bind_spec`].
/// - Binary arithmetic compiles the left operand with the preferred
///   destination of the whole, the right operand with none, and combines the
///   two by [`combine_spec`].
/// - A function declaration is compiled by [`function_spec`].
/// - Calls, assignments, raw code and string literals compile to nothing:
///   they yield `Undefined` and emit nothing.
pub open spec fn expression_spec(
    scope: ScopeView,
    functions: Seq<McFunctionView>,
    target: Option<ValueView>,
    e: ExpressionView,
) -> Compilation
    decreases e, 0nat,
{
    match e {
        ExpressionView::Integer(value, cursor) => Compilation {
            result: integer_spec(value, cursor),
            scope,
            functions,
        },
        ExpressionView::VariableAccess(name, cursor) => Compilation {
            result: access_spec(scope, name, cursor),
            scope,
            functions,
        },
        ExpressionView::VariableDeclaration { name, variable_type, value, cursor } => {
            let player = slot_name(name);
            let scoreboard = scope.function.name;
            if scope.declares(name) {
                Compilation {
                    result: Err(
                        diagnostic(
                            MessageType::MemberRedeclaration,
                            member_redeclaration_text("Variable"@, name),
                            cursor,
                        ),
                    ),
                    scope,
                    functions,
                }
            } else {
                match value {
                    None => Compilation {
                        result: Ok(ValueView::UndefinedReference { scoreboard, player }),
                        scope: scope.declare(name),
                        functions,
                    },
                    Some(initializer) => {
                        let inner = expression_spec(
                            scope,
                            functions,
                            Some(ValueView::IntReference { scoreboard, player }),
                            *initializer,
                        );
                        match inner.result {
                            Err(_) => inner,
                            Ok(v) => {
                                let (result, bound) = bind_spec(
                                    inner.scope,
                                    cursor,
                                    name,
                                    player,
                                    scoreboard,
                                    v,
                                );
                                Compilation { result, scope: bound, functions: inner.functions }
                            },
                        }
                    },
                }
            }
        },
        ExpressionView::FunctionDeclaration { name, body, .. } => {
            let (result, finished) = function_spec(functions, target, name, body);
            Compilation { result, scope, functions: finished }
        },
        ExpressionView::Addition { .. }
        | ExpressionView::Subtraction { .. }
        | ExpressionView::Multiplication { .. }
        | ExpressionView::Division { .. } => {
            let (op, left, right) = operation_of(e)->0;
            let first = expression_spec(scope, functions, target, left);
            match first.result {
                Err(_) => first,
                Ok(l) => {
                    let second = expression_spec(first.scope, first.functions, None, right);
                    match second.result {
                        Err(_) => second,
                        Ok(r) => {
                            let (value, written) = combine_spec(second.scope, target, op, l, r);
                            Compilation {
                                result: Ok(value),
                                scope: written,
                                functions: second.functions,
                            }
                        },
                    }
                },
            }
        },
        _ => Compilation { result: Ok(ValueView::Undefined), scope, functions },
    }
}

/// What compiling the statements of a block from the `i`-th on does: each in
/// turn, until the first diagnostic.
pub open spec fn block_spec(
    scope: ScopeView,
    functions: Seq<McFunctionView>,
    target: Option<ValueView>,
    body: Seq<ExpressionView>,
    i: nat,
) -> Compilation
    decreases body, body.len() - i,
{
    if i >= body.len() {
        Compilation { result: Ok(ValueView::Undefined), scope, functions }
    } else {
        let step = expression_spec(scope, functions, target, body[i as int]);
        match step.result {
            Err(_) => step,
            Ok(_) => block_spec(step.scope, step.functions, target, body, i + 1),
        }
    }
}

/// The scope in which the body of the block `name` starts: no names, and
/// the command that opens the block.
pub open spec fn opened(name: Seq<char>) -> ScopeView {
    ScopeView {
        function: (McFunctionView { name, text: Seq::empty() }).push(open_command(name)),
        symbols: Seq::empty(),
    }
}

/// What compiling a function declaration does: a new block that holds the
/// opening command, the commands of the body and the closing command is
/// added behind the blocks finished so far, and the declaration yields a
/// reference to the function. A diagnostic from the body ends it; the block
/// is then not added.
pub open spec fn function_spec(
    functions: Seq<McFunctionView>,
    target: Option<ValueView>,
    name: Seq<char>,
    body: Seq<ExpressionView>,
) -> (Result<ValueView, MessageView>, Seq<McFunctionView>)
    decreases body, body.len() + 1,
{
    let done = block_spec(opened(name), functions, target, body, 0);
    match done.result {
        Err(m) => (Err(m), done.functions),
        Ok(_) => (
            Ok(ValueView::FunctionReference(name)),
            done.functions.push(done.scope.function.push(close_command(name))),
        ),
    }
}

/// What compiling a whole program does: the program is the body of a
/// function named `main`; the result is every finished block, `main` last,
/// or the first diagnostic.
pub open spec fn program_spec(ast: Seq<ExpressionView>) -> Result<
    Seq<McFunctionView>,
    MessageView,
> {
    let (result, functions) = function_spec(Seq::empty(), None, "main"@, ast);
    match result {
        Ok(_) => Ok(functions),
        Err(m) => Err(m),
    }
}

/// What can be said of an expression before it is compiled.
#[derive(Debug, Clone, Copy, PartialEq, Eq)]
pub enum Shape {
    /// Only literals and arithmetic, with this value.
    Constant(i32),
    /// Only literals and arithmetic, but a literal is no 32-bit value:
    /// compiling it ends with a diagnostic.
    Overflow,
    /// An integer that lives in a slot.
    Slot,
    /// No integer.
    Other,
}

/// The shape of an expression.
pub open spec fn shape_of(e: ExpressionView) -> Shape
    decreases e,
{
    match e {
        ExpressionView::Integer(value, _) => if fits_i32(value as int) {
            Shape::Constant(value as i32)
        } else {
            Shape::Overflow
        },
        ExpressionView::VariableAccess(..) => Shape::Slot,
        ExpressionView::VariableDeclaration { value, .. } => if value is Some {
            Shape::Slot
        } else {
            Shape::Other
        },
        ExpressionView::Addition { .. }
        | ExpressionView::Subtraction { .. }
        | ExpressionView::Multiplication { .. }
        | ExpressionView::Division { .. } => {
            let (op, left, right) = operation_of(e)->0;
            combined_shape(op, shape_of(left), shape_of(right))
        },
        _ => Shape::Other,
    }
}

/// The shape of binary arithmetic on operands of the given shapes.
pub open spec fn combined_shape(op: MathOp, left: Shape, right: Shape) -> Shape {
    match (left, right) {
        (Shape::Other, _) => Shape::Other,
        (_, Shape::Other) => Shape::Other,
        (Shape::Overflow, _) => Shape::Overflow,
        (Shape::Constant(_), Shape::Overflow) => Shape::Overflow,
        (Shape::Constant(a), Shape::Constant(b)) => if op.defined(a as int, b as int) {
            Shape::Constant(op.apply(a as int, b as int) as i32)
        } else {
            Shape::Other
        },
        _ => Shape::Slot,
    }
}

/// Whether the operands of binary arithmetic can be combined: both are
/// integers, and two constants can be folded.
pub open spec fn combinable(op: MathOp, left: Shape, right: Shape) -> bool {
    &&& !(left is Other)
    &&& !(right is Other)
    &&& match (left, right) {
        (Shape::Constant(a), Shape::Constant(b)) => op.defined(a as int, b as int),
        _ => true,
    }
}

/// Whether the compiler can compile the expression: it is made of
/// declarations, integer literals, uses of variables, function declarations
/// and binary arithmetic on integers, and no constant folding in it leaves
/// the 32-bit range or divides by zero.
pub open spec fn supported(e: ExpressionView) -> bool
    decreases e,
{
    match e {
        ExpressionView::Integer(..) => true,
        ExpressionView::VariableAccess(..) => true,
        ExpressionView::VariableDeclaration { value, .. } => match value {
            Some(initializer) => supported(*initializer),
            None => true,
        },
        ExpressionView::FunctionDeclaration { body, .. } => forall|i: int|
            0 <= i < body.len() ==> supported(#[trigger] body[i]),
        ExpressionView::Addition { .. }
        | ExpressionView::Subtraction { .. }
        | ExpressionView::Multiplication { .. }
        | ExpressionView::Division { .. } => {
            let (op, left, right) = operation_of(e)->0;
            &&& supported(left)
            &&& supported(right)
            &&& combinable(op, shape_of(left), shape_of(right))
        },
        _ => false,
    }
}

/// Whether every statement of a block is supported.
pub open spec fn all_supported(body: Seq<ExpressionView>) -> bool {
    forall|i: int| 0 <= i < body.len() ==> supported(#[trigger] body[i])
}

/// Whether a value is what the shape of its expression announces.
pub open spec fn agrees(value: ValueView, shape: Shape) -> bool {
    match shape {
        Shape::Constant(v) => value == ValueView::Int(v),
        Shape::Overflow => false,
        Shape::Slot => value is IntReference,
        Shape::Other => !(value is Int) && !(value is IntReference),
    }
}


/// Whether an expression is made of integer literals and arithmetic alone.
pub open spec fn is_constant(e: ExpressionView) -> bool
    decreases e,
{
    match e {
        ExpressionView::Integer(..) => true,
        ExpressionView::Addition { .. }
        | ExpressionView::Subtraction { .. }
        | ExpressionView::Multiplication { .. }
        | ExpressionView::Division { .. } => {
            let (_op, left, right) = operation_of(e)->0;
            is_constant(left) && is_constant(right)
        },
        _ => false,
    }
}

/// A successfully compiled, supported expression yields what its shape
/// announces: the folded constant, or a slot.
pub proof fn lemma_shape_agrees(
    scope: ScopeView,
    functions: Seq<McFunctionView>,
    target: Option<ValueView>,
    e: ExpressionView,
)
    requires
        supported(e),
    ensures
        expression_spec(scope, functions, target, e).result matches Ok(v) ==> agrees(
            v,
            shape_of(e),
        ),
    decreases e,
{
    match operation_of(e) {
        Some((op, left, right)) => {
            lemma_shape_agrees(scope, functions, target, left);
            let first = expression_spec(scope, functions, target, left);
            if first.result is Ok {
                lemma_shape_agrees(first.scope, first.functions, None, right);
            }
        },
        None => {
            match e {
                ExpressionView::VariableDeclaration { name, variable_type, value, cursor } => {
                    match value {
                        Some(initializer) => {
                            let player = slot_name(name);
                            let scoreboard = scope.function.name;
                            let inner = expression_spec(
                                scope,
                                functions,
                                Some(ValueView::IntReference { scoreboard, player }),
                                *initializer,
                            );
                            if inner.result is Ok {
                                let bound = bind_spec(
                                    inner.scope,
                                    cursor,
                                    name,
                                    player,
                                    scoreboard,
                                    inner.result->Ok_0,
                                );
                                assert(bound.0 matches Ok(v) ==> v is IntReference);
                            }
                        },
                        None => {},
                    }
                },
                ExpressionView::FunctionDeclaration { name, body, .. } => {
                    let declared = function_spec(functions, target, name, body);
                    assert(declared.0 matches Ok(v) ==> v is FunctionReference);
                },
                _ => {},
            }
        },
    }
}

/// Compiling an expression that is made of integer literals and arithmetic
/// alone emits no command, declares no name and finishes no block: all
/// folding happens at compile time. Where it succeeds it yields a constant.
pub proof fn lemma_constant_emits_nothing(
    scope: ScopeView,
    functions: Seq<McFunctionView>,
    target: Option<ValueView>,
    e: ExpressionView,
)
    requires
        is_constant(e),
    ensures
        expression_spec(scope, functions, target, e).scope == scope,
        expression_spec(scope, functions, target, e).functions == functions,
        expression_spec(scope, functions, target, e).result matches Ok(v) ==> v is Int,
    decreases e,
{
    match operation_of(e) {
        Some((op, left, right)) => {
            lemma_constant_emits_nothing(scope, functions, target, left);
            lemma_constant_emits_nothing(scope, functions, None, right);
        },
        None => {},
    }
}

/// Binary arithmetic on two constant operands never emits a command: neither
/// the scratch slot nor the slot of a constant is written.
pub proof fn lemma_constant_operands_fold(
    scope: ScopeView,
    functions: Seq<McFunctionView>,
    target: Option<ValueView>,
    op: MathOp,
    left: ExpressionView,
    right: ExpressionView,
    cursor: CursorView,
)
    requires
        is_constant(left),
        is_constant(right),
    ensures
        expression_spec(scope, functions, target, operation_node(op, left, right, cursor)).scope
            == scope,
        expression_spec(
            scope,
            functions,
            target,
            operation_node(op, left, right, cursor),
        ).functions == functions,
{
    lemma_constant_emits_nothing(scope, functions, target, operation_node(op, left, right, cursor));
}

/// Declaring a name that the scope already holds fails with the
/// redeclaration diagnostic at the span of the later declaration, and
/// changes nothing.
pub proof fn lemma_redeclaration_fails(
    scope: ScopeView,
    functions: Seq<McFunctionView>,
    target: Option<ValueView>,
    e: ExpressionView,
)
    requires
        e is VariableDeclaration,
        scope.declares(e->VariableDeclaration_name),
    ensures
        expression_spec(scope, functions, target, e) == (Compilation {
            result: Err(
                diagnostic(
                    MessageType::MemberRedeclaration,
                    member_redeclaration_text("Variable"@, e->VariableDeclaration_name),
                    e.cursor(),
                ),
            ),
            scope,
            functions,
        }),
{
}

/// A declaration that succeeds declares its name: the name can be used
/// from then on, and cannot be declared again.
pub proof fn lemma_declaration_declares(
    scope: ScopeView,
    functions: Seq<McFunctionView>,
    target: Option<ValueView>,
    e: ExpressionView,
)
    requires
        e is VariableDeclaration,
        expression_spec(scope, functions, target, e).result is Ok,
    ensures
        expression_spec(scope, functions, target, e).scope.declares(e->VariableDeclaration_name),
{
    match e {
        ExpressionView::VariableDeclaration { name, variable_type, value, cursor } => {
            match value {
                Some(initializer) => {
                    let player = slot_name(name);
                    let scoreboard = scope.function.name;
                    let inner = expression_spec(
                        scope,
                        functions,
                        Some(ValueView::IntReference { scoreboard, player }),
                        *initializer,
                    );
                    let bound = bind_spec(
                        inner.scope,
                        cursor,
                        name,
                        player,
                        scoreboard,
                        inner.result->Ok_0,
                    );
                    assert(bound.0 is Ok ==> bound.1.declares(name)) by {
                        lemma_declare_declares(inner.scope, name);
                        lemma_declare_declares(
                            inner.scope.emit(
                                set_command(player, scoreboard, inner.result->Ok_0->Int_0 as int),
                            ),
                            name,
                        );
                        if inner.result->Ok_0 is IntReference {
                            lemma_declare_declares(
                                inner.scope.emit(
                                    operation_command(
                                        player,
                                        scoreboard,
                                        "="@,
                                        inner.result->Ok_0->IntReference_player,
                                        inner.result->Ok_0->IntReference_scoreboard,
                                    ),
                                ),
                                name,
                            );
                        }
                    }
                },
                None => {
                    lemma_declare_declares(scope, name);
                },
            }
        },
        _ => {},
    }
}

/// A scope holds a name once the name is declared in it.
pub proof fn lemma_declare_declares(scope: ScopeView, name: Seq<char>)
    ensures
        scope.declare(name).declares(name),
{
    if !scope.declares(name) {
        let longer = scope.symbols.push(name);
        assert(longer[scope.symbols.len() as int] == name);
    }
}

/// Using a name that the scope does not hold fails with the unknown-member
/// diagnostic, and changes nothing. Enclosing scopes are not searched.
pub proof fn lemma_undeclared_use_fails(
    scope: ScopeView,
    functions: Seq<McFunctionView>,
    target: Option<ValueView>,
    name: Seq<char>,
    cursor: CursorView,
)
    requires
        !scope.declares(name),
    ensures
        expression_spec(scope, functions, target, ExpressionView::VariableAccess(name, cursor))
            == (Compilation {
            result: Err(
                diagnostic(
                    MessageType::UnknownMember,
                    unknown_member_text("Variable"@, name),
                    cursor,
                ),
            ),
            scope,
            functions,
        }),
{
}

/// An integer literal compiles to a constant exactly where it is a 32-bit
/// signed value; any other literal fails with the bounds diagnostic.
pub proof fn lemma_literal_bounds(value: i64, cursor: CursorView)
    ensures
        integer_spec(value, cursor) is Ok <==> -2147483648 <= value <= 2147483647,
        integer_spec(value, cursor) matches Ok(v) ==> v == ValueView::Int(value as i32),
        integer_spec(value, cursor) matches Err(m) ==> m.message_type
            == MessageType::IntegerBoundsExceeded && m.cursor == cursor,
{
}

/// Whether `longer` starts with `shorter`.
pub open spec fn starts_with<T>(longer: Seq<T>, shorter: Seq<T>) -> bool {
    shorter.len() <= longer.len() && longer.subrange(0, shorter.len() as int) == shorter
}

/// Whether a compilation only added to what was there before it: commands
/// at the end of the block, names at the end of the scope, blocks at the
/// end of the finished ones.
pub open spec fn grown(scope: ScopeView, functions: Seq<McFunctionView>, c: Compilation) -> bool {
    &&& c.scope.function.name == scope.function.name
    &&& starts_with(c.scope.function.text, scope.function.text)
    &&& starts_with(c.scope.symbols, scope.symbols)
    &&& starts_with(c.functions, functions)
}

/// Every sequence starts with itself.
pub proof fn lemma_starts_with_itself<T>(s: Seq<T>)
    ensures
        starts_with(s, s),
{
    assert(s.subrange(0, s.len() as int) =~= s);
}

/// A sequence with more at its end starts with what it was.
pub proof fn lemma_starts_with_longer<T>(longest: Seq<T>, longer: Seq<T>, shorter: Seq<T>)
    requires
        starts_with(longest, longer),
        starts_with(longer, shorter),
    ensures
        starts_with(longest, shorter),
{
    assert(longest.subrange(0, shorter.len() as int) =~= longer.subrange(
        0,
        shorter.len() as int,
    ));
}

/// Emitting a command only adds to the block.
pub proof fn lemma_emit_grows(scope: ScopeView, cmd: Seq<char>)
    ensures
        scope.emit(cmd).function.name == scope.function.name,
        scope.emit(cmd).symbols == scope.symbols,
        starts_with(scope.emit(cmd).function.text, scope.function.text),
{
    assert(scope.emit(cmd).function.text.subrange(0, scope.function.text.len() as int)
        =~= scope.function.text);
}

/// Declaring a name only adds to the names.
pub proof fn lemma_declare_grows(scope: ScopeView, name: Seq<char>)
    ensures
        scope.declare(name).function == scope.function,
        starts_with(scope.declare(name).symbols, scope.symbols),
{
    assert(scope.declare(name).symbols.subrange(0, scope.symbols.len() as int) =~= scope.symbols);
}

/// Combining two operands only adds commands to the block.
pub proof fn lemma_combine_grows(
    scope: ScopeView,
    target: Option<ValueView>,
    op: MathOp,
    left: ValueView,
    right: ValueView,
)
    ensures
        combine_spec(scope, target, op, left, right).1.function.name == scope.function.name,
        combine_spec(scope, target, op, left, right).1.symbols == scope.symbols,
        starts_with(combine_spec(scope, target, op, left, right).1.function.text, scope.function.text),
{
    let (player, scoreboard) = destination(scope, target);
    lemma_starts_with_itself(scope.function.text);
    match (left, right) {
        (ValueView::IntReference { scoreboard: ls, player: lp }, ValueView::Int(b)) => {
            let copied = moved(scope, player, scoreboard, lp, ls);
            lemma_emit_grows(scope, operation_command(player, scoreboard, "="@, lp, ls));
            let first = match op {
                MathOp::Addition => add_command(player, scoreboard, b as int),
                MathOp::Subtraction => remove_command(player, scoreboard, b as int),
                _ => set_command(constant_slot(b as int), copied.function.name, b as int),
            };
            lemma_emit_grows(copied, first);
            lemma_starts_with_longer(
                copied.emit(first).function.text,
                copied.function.text,
                scope.function.text,
            );
            let second = operation_command(
                player,
                scoreboard,
                op.operator_text(),
                constant_slot(b as int),
                copied.function.name,
            );
            lemma_emit_grows(copied.emit(first), second);
            lemma_starts_with_longer(
                copied.emit(first).emit(second).function.text,
                copied.emit(first).function.text,
                scope.function.text,
            );
        },
        (ValueView::Int(a), ValueView::IntReference { scoreboard: rs, player: rp }) => {
            let first = set_command(player, scoreboard, a as int);
            let second = operation_command(player, scoreboard, op.operator_text(), rp, rs);
            lemma_emit_grows(scope, first);
            lemma_emit_grows(scope.emit(first), second);
            lemma_starts_with_longer(
                scope.emit(first).emit(second).function.text,
                scope.emit(first).function.text,
                scope.function.text,
            );
        },
        (
            ValueView::IntReference { scoreboard: ls, player: lp },
            ValueView::IntReference { scoreboard: rs, player: rp },
        ) => {
            let copied = moved(scope, player, scoreboard, lp, ls);
            lemma_emit_grows(scope, operation_command(player, scoreboard, "="@, lp, ls));
            let second = operation_command(player, scoreboard, op.operator_text(), rp, rs);
            lemma_emit_grows(copied, second);
            lemma_starts_with_longer(
                copied.emit(second).function.text,
                copied.function.text,
                scope.function.text,
            );
        },
        _ => {},
    }
}

/// Binding a declared name only adds to the block and to the names.
pub proof fn lemma_bind_grows(
    scope: ScopeView,
    cursor: CursorView,
    name: Seq<char>,
    player: Seq<char>,
    scoreboard: Seq<char>,
    value: ValueView,
)
    ensures
        bind_spec(scope, cursor, name, player, scoreboard, value).1.function.name
            == scope.function.name,
        starts_with(
            bind_spec(scope, cursor, name, player, scoreboard, value).1.function.text,
            scope.function.text,
        ),
        starts_with(
            bind_spec(scope, cursor, name, player, scoreboard, value).1.symbols,
            scope.symbols,
        ),
{
    lemma_starts_with_itself(scope.function.text);
    lemma_starts_with_itself(scope.symbols);
    lemma_declare_grows(scope, name);
    match value {
        ValueView::Int(v) => {
            let cmd = set_command(player, scoreboard, v as int);
            lemma_emit_grows(scope, cmd);
            lemma_declare_grows(scope.emit(cmd), name);
        },
        ValueView::IntReference { scoreboard: other_scoreboard, player: other_player } => {
            let cmd = operation_command(player, scoreboard, "="@, other_player, other_scoreboard);
            lemma_emit_grows(scope, cmd);
            lemma_declare_grows(scope.emit(cmd), name);
        },
        _ => {},
    }
}

/// Compiling an expression only adds: the commands emitted so far stay
/// where they are and others follow them, the names declared so far stay
/// declared, and the blocks finished so far stay as they are.
pub proof fn lemma_expression_grows(
    scope: ScopeView,
    functions: Seq<McFunctionView>,
    target: Option<ValueView>,
    e: ExpressionView,
)
    ensures
        grown(scope, functions, expression_spec(scope, functions, target, e)),
    decreases e, 0nat,
{
    lemma_starts_with_itself(scope.function.text);
    lemma_starts_with_itself(scope.symbols);
    lemma_starts_with_itself(functions);
    match operation_of(e) {
        Some((op, left, right)) => {
            lemma_expression_grows(scope, functions, target, left);
            let first = expression_spec(scope, functions, target, left);
            if first.result is Ok {
                lemma_expression_grows(first.scope, first.functions, None, right);
                let second = expression_spec(first.scope, first.functions, None, right);
                lemma_starts_with_longer(
                    second.scope.function.text,
                    first.scope.function.text,
                    scope.function.text,
                );
                lemma_starts_with_longer(second.scope.symbols, first.scope.symbols, scope.symbols);
                lemma_starts_with_longer(second.functions, first.functions, functions);
                if second.result is Ok {
                    lemma_combine_grows(
                        second.scope,
                        target,
                        op,
                        first.result->Ok_0,
                        second.result->Ok_0,
                    );
                    let written = combine_spec(
                        second.scope,
                        target,
                        op,
                        first.result->Ok_0,
                        second.result->Ok_0,
                    ).1;
                    lemma_starts_with_longer(
                        written.function.text,
                        second.scope.function.text,
                        scope.function.text,
                    );
                }
            }
        },
        None => {
            match e {
                ExpressionView::VariableDeclaration { name, variable_type, value, cursor } => {
                    lemma_declare_grows(scope, name);
                    match value {
                        Some(initializer) => {
                            let player = slot_name(name);
                            let scoreboard = scope.function.name;
                            let reference = Some(ValueView::IntReference { scoreboard, player });
                            lemma_expression_grows(scope, functions, reference, *initializer);
                            let inner = expression_spec(scope, functions, reference, *initializer);
                            if inner.result is Ok {
                                lemma_bind_grows(
                                    inner.scope,
                                    cursor,
                                    name,
                                    player,
                                    scoreboard,
                                    inner.result->Ok_0,
                                );
                                let bound = bind_spec(
                                    inner.scope,
                                    cursor,
                                    name,
                                    player,
                                    scoreboard,
                                    inner.result->Ok_0,
                                ).1;
                                lemma_starts_with_longer(
                                    bound.function.text,
                                    inner.scope.function.text,
                                    scope.function.text,
                                );
                                lemma_starts_with_longer(
                                    bound.symbols,
                                    inner.scope.symbols,
                                    scope.symbols,
                                );
                            }
                        },
                        None => {},
                    }
                },
                ExpressionView::FunctionDeclaration { name, body, .. } => {
                    lemma_function_grows(functions, target, name, body);
                },
                _ => {},
            }
        },
    }
}

/// Compiling the statements of a block only adds.
pub proof fn lemma_block_grows(
    scope: ScopeView,
    functions: Seq<McFunctionView>,
    target: Option<ValueView>,
    body: Seq<ExpressionView>,
    i: nat,
)
    ensures
        grown(scope, functions, block_spec(scope, functions, target, body, i)),
    decreases body, body.len() - i,
{
    lemma_starts_with_itself(scope.function.text);
    lemma_starts_with_itself(scope.symbols);
    lemma_starts_with_itself(functions);
    if i < body.len() {
        lemma_expression_grows(scope, functions, target, body[i as int]);
        let step = expression_spec(scope, functions, target, body[i as int]);
        if step.result is Ok {
            lemma_block_grows(step.scope, step.functions, target, body, i + 1);
            let rest = block_spec(step.scope, step.functions, target, body, i + 1);
            lemma_starts_with_longer(
                rest.scope.function.text,
                step.scope.function.text,
                scope.function.text,
            );
            lemma_starts_with_longer(rest.scope.symbols, step.scope.symbols, scope.symbols);
            lemma_starts_with_longer(rest.functions, step.functions, functions);
        }
    }
}

/// Compiling a function declaration leaves the blocks finished so far as
/// they are; the new block comes behind them.
pub proof fn lemma_function_grows(
    functions: Seq<McFunctionView>,
    target: Option<ValueView>,
    name: Seq<char>,
    body: Seq<ExpressionView>,
)
    ensures
        starts_with(function_spec(functions, target, name, body).1, functions),
    decreases body, body.len() + 1,
{
    lemma_block_grows(opened(name), functions, target, body, 0);
    let done = block_spec(opened(name), functions, target, body, 0);
    if done.result is Ok {
        let block = done.scope.function.push(close_command(name));
        assert(done.functions.push(block).subrange(0, done.functions.len() as int)
            =~= done.functions);
        lemma_starts_with_longer(done.functions.push(block), done.functions, functions);
    }
}

/// Whether `longer` ends with `shorter`.
pub open spec fn ends_with<T>(longer: Seq<T>, shorter: Seq<T>) -> bool {
    shorter.len() <= longer.len() && longer.subrange(
        longer.len() - shorter.len(),
        longer.len() as int,
    ) == shorter
}

/// A program that compiles gives at least one block. The last block is
/// `main`; its first command opens it and its last command closes it.
pub proof fn lemma_main_comes_last(ast: Seq<ExpressionView>)
    ensures
        program_spec(ast) matches Ok(blocks) ==> {
            &&& blocks.len() >= 1
            &&& blocks.last().name == "main"@
            &&& starts_with(blocks.last().text, open_command("main"@) + "\n"@)
            &&& ends_with(blocks.last().text, close_command("main"@) + "\n"@)
        },
{
    let name = "main"@;
    let functions = Seq::<McFunctionView>::empty();
    lemma_block_grows(opened(name), functions, None, ast, 0);
    let done = block_spec(opened(name), functions, None, ast, 0);
    if done.result is Ok {
        let block = done.scope.function.push(close_command(name));
        let head = open_command(name) + "\n"@;
        let tail = close_command(name) + "\n"@;
        assert(opened(name).function.text =~= head);
        assert(block.text =~= done.scope.function.text + tail);
        assert(block.text.subrange(0, head.len() as int) =~= done.scope.function.text.subrange(
            0,
            head.len() as int,
        ));
        assert(block.text.subrange(block.text.len() - tail.len(), block.text.len() as int)
            =~= tail);
        assert(program_spec(ast) == Ok::<Seq<McFunctionView>, MessageView>(
            done.functions.push(block),
        ));
    }
}

/// Compiling does not depend on anything but the program: equal programs
/// compile to equal blocks, or fail with equal diagnostics.
pub proof fn lemma_compile_deterministic(first: Seq<ExpressionView>, second: Seq<ExpressionView>)
    requires
        first == second,
    ensures
        program_spec(first) == program_spec(second),
{
}

/// The view of what a compilation step returns.
pub open spec fn outcome_view(r: Result<Value, Message>) -> Result<ValueView, MessageView> {
    match r {
        Ok(v) => Ok(v@),
        Err(m) => Err(m@),
    }
}

/// The views of a list of blocks, in order.
pub open spec fn functions_view(functions: Seq<McFunction>) -> Seq<McFunctionView> {
    Seq::new(functions.len(), |i: int| functions[i]@)
}

/// The view of what compiling a program returns.
pub open spec fn compiled_view(r: Result<Vec<McFunction>, Message>) -> Result<
    Seq<McFunctionView>,
    MessageView,
> {
    match r {
        Ok(functions) => Ok(functions_view(functions@)),
        Err(m) => Err(m@),
    }
}

/// The view of an optional initializer.
pub open spec fn initializer_view(value: Option<Box<Expression>>) -> Option<Box<ExpressionView>> {
    match value {
        Some(v) => Some(Box::new((*v)@)),
        None => None,
    }
}

/// The declaration node with the given parts.
pub open spec fn declaration_node(
    name: Seq<char>,
    variable_type: Option<Type>,
    value: Option<Box<Expression>>,
    cursor: CursorView,
) -> ExpressionView {
    ExpressionView::VariableDeclaration {
        name,
        variable_type: crate::ast::type_view(variable_type),
        value: initializer_view(value),
        cursor,
    }
}

/// The compiler: the blocks it has finished, in the order of finishing.
pub struct Compiler {
    pub functions: Vec<McFunction>,
}

impl View for Compiler {
    type V = Seq<McFunctionView>;

    open spec fn view(&self) -> Seq<McFunctionView> {
        functions_view(self.functions@)
    }
}

impl Compiler {
    /// A compiler that has finished no block.
    pub fn new() -> (c: Compiler)
        ensures
            c@ == Seq::<McFunctionView>::empty(),
    {
        let c = Compiler { functions: Vec::new() };
        assert(c@ =~= Seq::<McFunctionView>::empty());
        c
    }

    /// Compiles an integer literal.
    pub fn compile_integer(&self, cursor: &Cursor, number: i64) -> (r: Result<Value, Message>)
        ensures
            outcome_view(r) == integer_spec(number, cursor@),
    {
        if -2147483648 <= number && number <= 2147483647 {
            Ok(Value::Int(number as i32))
        } else {
            let details = integer_bounds_exceeded(32);
            Err(
                Message::error(
                    MessageType::IntegerBoundsExceeded,
                    details.as_str(),
                    cursor.clone(),
                ),
            )
        }
    }

    /// Compiles the use of a variable.
    pub fn compile_variable_access(&self, cursor: &Cursor, scope: &Scope, identifier: &String) -> (r:
        Result<Value, Message>)
        ensures
            outcome_view(r) == access_spec(scope@, identifier@, cursor@),
    {
        if scope.declares(identifier) {
            Ok(
                Value::IntReference {
                    scoreboard: scope.function.name().clone(),
                    player: slot_name_text(identifier.as_str()),
                },
            )
        } else {
            let details = unknown_member("Variable", identifier.as_str());
            Err(Message::error(MessageType::UnknownMember, details.as_str(), cursor.clone()))
        }
    }

    /// Applies an operation with a constant right operand to a slot in
    /// place.
    pub fn execute_semi_static_math_operation(
        &self,
        scope: &mut Scope,
        math_op: MathOp,
        player: &String,
        scoreboard: &String,
        value: i32,
    )
        ensures
            final(scope)@ == apply_constant_spec(
                old(scope)@,
                math_op,
                player@,
                scoreboard@,
                value,
            ),
            final(scope).parent == old(scope).parent,
    {
        match math_op {
            MathOp::Addition => {
                let cmd = add_command_text(player.as_str(), scoreboard.as_str(), value);
                scope.emit(cmd.as_str());
            },
            MathOp::Subtraction => {
                let cmd = remove_command_text(player.as_str(), scoreboard.as_str(), value);
                scope.emit(cmd.as_str());
            },
            MathOp::Multiplication | MathOp::Division => {
                let block = scope.function.name().clone();
                let constant = constant_slot_text(value);
                let set = set_command_text(constant.as_str(), block.as_str(), value);
                scope.emit(set.as_str());
                let cmd = operation_command_text(
                    player.as_str(),
                    scoreboard.as_str(),
                    math_op.operator(),
                    constant.as_str(),
                    block.as_str(),
                );
                scope.emit(cmd.as_str());
            },
        }
    }

    /// Brings the value of one slot into another, unless they are the same.
    fn move_slot(
        &self,
        scope: &mut Scope,
        player: &String,
        scoreboard: &String,
        from_player: &String,
        from_scoreboard: &String,
    )
        ensures
            final(scope)@ == moved(
                old(scope)@,
                player@,
                scoreboard@,
                from_player@,
                from_scoreboard@,
            ),
            final(scope).parent == old(scope).parent,
    {
        if !(*from_player == *player && *from_scoreboard == *scoreboard) {
            let cmd = operation_command_text(
                player.as_str(),
                scoreboard.as_str(),
                "=",
                from_player.as_str(),
                from_scoreboard.as_str(),
            );
            scope.emit(cmd.as_str());
        }
    }

    /// Combines the values of two operands by the rule table of binary
    /// arithmetic.
    pub fn combine(
        &self,
        scope: &mut Scope,
        context: &Context,
        math_op: MathOp,
        left: Value,
        right: Value,
    ) -> (v: Value)
        requires
            left@ is Int || left@ is IntReference,
            right@ is Int || right@ is IntReference,
            foldable(math_op, left@, right@),
            target_wf(context@),
        ensures
            (v@, final(scope)@) == combine_spec(old(scope)@, context@, math_op, left@, right@),
            final(scope).parent == old(scope).parent,
    {
        let block = scope.function.name().clone();
        let (temp, temp_scoreboard) = match &context.macro_target {
            Some(Value::IntReference { scoreboard, player }) => (
                player.clone(),
                scoreboard.clone(),
            ),
            _ => (scratch_slot_text(), block.clone()),
        };
        match (left, right) {
            (Value::Int(left_val), Value::Int(right_val)) => Value::Int(
                math_op.execute(left_val, right_val),
            ),
            (Value::IntReference { scoreboard, player }, Value::Int(right_val)) => {
                self.move_slot(scope, &temp, &temp_scoreboard, &player, &scoreboard);
                self.execute_semi_static_math_operation(
                    scope,
                    math_op,
                    &temp,
                    &temp_scoreboard,
                    right_val,
                );
                Value::IntReference { scoreboard: block, player: temp }
            },
            (Value::Int(left_val), Value::IntReference { scoreboard, player }) => {
                let set = set_command_text(temp.as_str(), temp_scoreboard.as_str(), left_val);
                scope.emit(set.as_str());
                let cmd = operation_command_text(
                    temp.as_str(),
                    temp_scoreboard.as_str(),
                    math_op.operator(),
                    player.as_str(),
                    scoreboard.as_str(),
                );
                scope.emit(cmd.as_str());
                Value::IntReference { scoreboard: block, player: temp }
            },
            (
                Value::IntReference { scoreboard: left_scoreboard, player: left_player },
                Value::IntReference { scoreboard: right_scoreboard, player: right_player },
            ) => {
                self.move_slot(scope, &temp, &temp_scoreboard, &left_player, &left_scoreboard);
                let cmd = operation_command_text(
                    temp.as_str(),
                    temp_scoreboard.as_str(),
                    math_op.operator(),
                    right_player.as_str(),
                    right_scoreboard.as_str(),
                );
                scope.emit(cmd.as_str());
                Value::IntReference { scoreboard: block, player: temp }
            },
            _ => vstd::pervasive::unreached(),
        }
    }

    /// Binds a declared name to the value of its initializer.
    pub fn bind(
        &self,
        scope: &mut Scope,
        cursor: &Cursor,
        name: &String,
        player: String,
        scoreboard: String,
        value: Value,
    ) -> (r: Result<Value, Message>)
        requires
            old(scope)@.wf(),
        ensures
            (outcome_view(r), final(scope)@) == bind_spec(
                old(scope)@,
                cursor@,
                name@,
                player@,
                scoreboard@,
                value@,
            ),
            final(scope)@.wf(),
            final(scope).parent == old(scope).parent,
    {
        let reference = Value::IntReference {
            scoreboard: scoreboard.clone(),
            player: player.clone(),
        };
        if value.same_as(&reference) {
            scope.declare(name);
            return Ok(reference);
        }
        match value {
            Value::Int(number) => {
                let cmd = set_command_text(player.as_str(), scoreboard.as_str(), number);
                scope.emit(cmd.as_str());
            },
            Value::IntReference { scoreboard: other_scoreboard, player: other_player } => {
                let cmd = operation_command_text(
                    player.as_str(),
                    scoreboard.as_str(),
                    "=",
                    other_player.as_str(),
                    other_scoreboard.as_str(),
                );
                scope.emit(cmd.as_str());
            },
            _ => {
                let details = type_mismatch("int", "unknown");
                return Err(
                    Message::error(MessageType::TypeMismatch, details.as_str(), cursor.clone()),
                );
            },
        }
        scope.declare(name);
        Ok(reference)
    }

    /// Compiles a variable declaration.
    pub fn compile_variable_declaration(
        &mut self,
        cursor: &Cursor,
        scope: &mut Scope,
        context: &Context,
        name: &String,
        variable_type: &Option<Type>,
        value: &Option<Box<Expression>>,
    ) -> (r: Result<Value, Message>)
        requires
            supported(declaration_node(name@, *variable_type, *value, cursor@)),
            old(scope)@.wf(),
        ensures
            ({
                let c = expression_spec(
                    old(scope)@,
                    old(self)@,
                    context@,
                    declaration_node(name@, *variable_type, *value, cursor@),
                );
                &&& outcome_view(r) == c.result
                &&& final(scope)@ == c.scope
                &&& final(self)@ == c.functions
            }),
            final(scope)@.wf(),
            final(scope).parent == old(scope).parent,
        decreases declaration_node(name@, *variable_type, *value, cursor@), 1nat,
    {
        let player = slot_name_text(name.as_str());
        let scoreboard = scope.function.name().clone();
        if scope.declares(name) {
            let details = member_redeclaration("Variable", name.as_str());
            return Err(
                Message::error(MessageType::MemberRedeclaration, details.as_str(), cursor.clone()),
            );
        }
        match value {
            Some(initializer) => {
                let reference = Value::IntReference {
                    scoreboard: scoreboard.clone(),
                    player: player.clone(),
                };
                let new_context = Context { macro_target: Some(reference) };
                match self.compile_expression(scope, &new_context, initializer) {
                    Err(m) => Err(m),
                    Ok(expr) => self.bind(scope, cursor, name, player, scoreboard, expr),
                }
            },
            None => {
                scope.declare(name);
                Ok(Value::UndefinedReference { scoreboard, player })
            },
        }
    }

    /// Compiles binary arithmetic.
    pub fn compile_math_operation(
        &mut self,
        cursor: &Cursor,
        scope: &mut Scope,
        context: &Context,
        math_op: MathOp,
        left_expr: &Expression,
        right_expr: &Expression,
    ) -> (r: Result<Value, Message>)
        requires
            supported(operation_node(math_op, left_expr@, right_expr@, cursor@)),
            old(scope)@.wf(),
            target_wf(context@),
        ensures
            ({
                let c = expression_spec(
                    old(scope)@,
                    old(self)@,
                    context@,
                    operation_node(math_op, left_expr@, right_expr@, cursor@),
                );
                &&& outcome_view(r) == c.result
                &&& final(scope)@ == c.scope
                &&& final(self)@ == c.functions
            }),
            final(scope)@.wf(),
            final(scope).parent == old(scope).parent,
        decreases operation_node(math_op, left_expr@, right_expr@, cursor@), 0nat,
    {
        let ghost scope0 = scope@;
        let ghost functions0 = self@;
        let left = match self.compile_expression(scope, context, left_expr) {
            Ok(v) => v,
            Err(m) => {
                return Err(m);
            },
        };
        let ghost scope1 = scope@;
        let ghost functions1 = self@;
        let new_context = Context { macro_target: None };
        let right = match self.compile_expression(scope, &new_context, right_expr) {
            Ok(v) => v,
            Err(m) => {
                return Err(m);
            },
        };
        proof {
            lemma_shape_agrees(scope0, functions0, context@, left_expr@);
            lemma_shape_agrees(scope1, functions1, None, right_expr@);
        }
        Ok(self.combine(scope, context, math_op, left, right))
    }

    /// Compiles a sum.
    pub fn compile_addition(
        &mut self,
        cursor: &Cursor,
        scope: &mut Scope,
        context: &Context,
        left_expr: &Expression,
        right_expr: &Expression,
    ) -> (r: Result<Value, Message>)
        requires
            supported(operation_node(MathOp::Addition, left_expr@, right_expr@, cursor@)),
            old(scope)@.wf(),
            target_wf(context@),
        ensures
            ({
                let c = expression_spec(
                    old(scope)@,
                    old(self)@,
                    context@,
                    operation_node(MathOp::Addition, left_expr@, right_expr@, cursor@),
                );
                &&& outcome_view(r) == c.result
                &&& final(scope)@ == c.scope
                &&& final(self)@ == c.functions
            }),
            final(scope)@.wf(),
            final(scope).parent == old(scope).parent,
        decreases operation_node(MathOp::Addition, left_expr@, right_expr@, cursor@), 1nat,
    {
        self.compile_math_operation(cursor, scope, context, MathOp::Addition, left_expr, right_expr)
    }

    /// Compiles a difference.
    pub fn compile_subtraction(
        &mut self,
        cursor: &Cursor,
        scope: &mut Scope,
        context: &Context,
        left_expr: &Expression,
        right_expr: &Expression,
    ) -> (r: Result<Value, Message>)
        requires
            supported(operation_node(MathOp::Subtraction, left_expr@, right_expr@, cursor@)),
            old(scope)@.wf(),
            target_wf(context@),
        ensures
            ({
                let c = expression_spec(
                    old(scope)@,
                    old(self)@,
                    context@,
                    operation_node(MathOp::Subtraction, left_expr@, right_expr@, cursor@),
                );
                &&& outcome_view(r) == c.result
                &&& final(scope)@ == c.scope
                &&& final(self)@ == c.functions
            }),
            final(scope)@.wf(),
            final(scope).parent == old(scope).parent,
        decreases operation_node(MathOp::Subtraction, left_expr@, right_expr@, cursor@), 1nat,
    {
        self.compile_math_operation(
            cursor,
            scope,
            context,
            MathOp::Subtraction,
            left_expr,
            right_expr,
        )
    }

    /// Compiles a product.
    pub fn compile_multiplication(
        &mut self,
        cursor: &Cursor,
        scope: &mut Scope,
        context: &Context,
        left_expr: &Expression,
        right_expr: &Expression,
    ) -> (r: Result<Value, Message>)
        requires
            supported(operation_node(MathOp::Multiplication, left_expr@, right_expr@, cursor@)),
            old(scope)@.wf(),
            target_wf(context@),
        ensures
            ({
                let c = expression_spec(
                    old(scope)@,
                    old(self)@,
                    context@,
                    operation_node(MathOp::Multiplication, left_expr@, right_expr@, cursor@),
                );
                &&& outcome_view(r) == c.result
                &&& final(scope)@ == c.scope
                &&& final(self)@ == c.functions
            }),
            final(scope)@.wf(),
            final(scope).parent == old(scope).parent,
        decreases operation_node(MathOp::Multiplication, left_expr@, right_expr@, cursor@), 1nat,
    {
        self.compile_math_operation(
            cursor,
            scope,
            context,
            MathOp::Multiplication,
            left_expr,
            right_expr,
        )
    }

    /// Compiles a quotient.
    pub fn compile_division(
        &mut self,
        cursor: &Cursor,
        scope: &mut Scope,
        context: &Context,
        left_expr: &Expression,
        right_expr: &Expression,
    ) -> (r: Result<Value, Message>)
        requires
            supported(operation_node(MathOp::Division, left_expr@, right_expr@, cursor@)),
            old(scope)@.wf(),
            target_wf(context@),
        ensures
            ({
                let c = expression_spec(
                    old(scope)@,
                    old(self)@,
                    context@,
                    operation_node(MathOp::Division, left_expr@, right_expr@, cursor@),
                );
                &&& outcome_view(r) == c.result
                &&& final(scope)@ == c.scope
                &&& final(self)@ == c.functions
            }),
            final(scope)@.wf(),
            final(scope).parent == old(scope).parent,
        decreases operation_node(MathOp::Division, left_expr@, right_expr@, cursor@), 1nat,
    {
        self.compile_math_operation(cursor, scope, context, MathOp::Division, left_expr, right_expr)
    }

    /// Compiles a function declaration: a new block with the commands of the
    /// body between the opening and the closing command.
    pub fn compile_function_declaration(
        &mut self,
        context: &Context,
        name: &String,
        body: &Vec<Expression>,
        parent: Option<&Scope>,
    ) -> (r: Result<Value, Message>)
        requires
            all_supported(block_view(body@)),
            target_wf(context@),
        ensures
            (outcome_view(r), final(self)@) == function_spec(
                old(self)@,
                context@,
                name@,
                block_view(body@),
            ),
        decreases block_view(body@), 0nat,
    {
        let mut function = McFunction::new(name.as_str());
        let opening = open_command_text(name.as_str());
        function.push_cmd(opening.as_str());
        let mut scope = Scope::new(function, parent);
        let ghost statements = block_view(body@);
        let mut i: usize = 0;
        while i < body.len()
            invariant
                i <= body.len(),
                statements == block_view(body@),
                all_supported(statements),
                target_wf(context@),
                scope@.wf(),
                block_spec(scope@, self@, context@, statements, i as nat) == block_spec(
                    opened(name@),
                    old(self)@,
                    context@,
                    statements,
                    0,
                ),
            decreases body.len() - i,
        {
            assert(statements[i as int] == body[i as int]@);
            match self.compile_expression(&mut scope, context, &body[i]) {
                Err(m) => {
                    return Err(m);
                },
                Ok(_) => {},
            }
            i += 1;
        }
        let mut function = scope.function;
        let closing = close_command_text(name.as_str());
        function.push_cmd(closing.as_str());
        self.functions.push(function);
        assert(self@ =~= block_spec(
            opened(name@),
            old(self)@,
            context@,
            statements,
            0,
        ).functions.push(function@));
        Ok(Value::FunctionReference(name.clone()))
    }

    /// Compiles one expression.
    pub fn compile_expression(
        &mut self,
        scope: &mut Scope,
        context: &Context,
        expression: &Expression,
    ) -> (r: Result<Value, Message>)
        requires
            supported(expression@),
            old(scope)@.wf(),
            target_wf(context@),
        ensures
            ({
                let c = expression_spec(old(scope)@, old(self)@, context@, expression@);
                &&& outcome_view(r) == c.result
                &&& final(scope)@ == c.scope
                &&& final(self)@ == c.functions
            }),
            final(scope)@.wf(),
            final(scope).parent == old(scope).parent,
        decreases expression@, 2nat,
    {
        match expression {
            Expression::VariableDeclaration { name, variable_type, value, cursor } => {
                self.compile_variable_declaration(
                    cursor,
                    scope,
                    context,
                    name,
                    variable_type,
                    value,
                )
            },
            Expression::Integer(number, cursor) => self.compile_integer(cursor, *number),
            Expression::VariableAccess(identifier, cursor) => self.compile_variable_access(
                cursor,
                scope,
                identifier,
            ),
            Expression::Addition { left, right, cursor } => self.compile_addition(
                cursor,
                scope,
                context,
                left,
                right,
            ),
            Expression::Subtraction { left, right, cursor } => self.compile_subtraction(
                cursor,
                scope,
                context,
                left,
                right,
            ),
            Expression::Multiplication { left, right, cursor } => self.compile_multiplication(
                cursor,
                scope,
                context,
                left,
                right,
            ),
            Expression::Division { left, right, cursor } => self.compile_division(
                cursor,
                scope,
                context,
                left,
                right,
            ),
            Expression::FunctionDeclaration { name, parameters, return_type, body, cursor } => {
                proof {
                    crate::ast::lemma_body_view(*expression);
                }
                self.compile_function_declaration(context, name, body, Some(&*scope))
            },
            _ => vstd::pervasive::unreached(),
        }
    }
}

/// Compiles a program: the statements become the body of a function named
/// `main`. Returns every finished block, `main` last, or the first
/// diagnostic.
pub fn compile(ast: Vec<Expression>) -> (r: Result<Vec<McFunction>, Message>)
    requires
        all_supported(block_view(ast@)),
    ensures
        compiled_view(r) == program_spec(block_view(ast@)),
{
    let mut compiler = Compiler::new();
    let name = "main".to_owned();
    let context = Context { macro_target: None };
    match compiler.compile_function_declaration(&context, &name, &ast, None) {
        Ok(_) => Ok(compiler.functions),
        Err(m) => Err(m),
    }
}


/// The shape of binary arithmetic on operands of the given shapes.
pub fn combine_shapes(op: MathOp, left: Shape, right: Shape) -> (s: Shape)
    ensures
        s == combined_shape(op, left, right),
{
    match (left, right) {
        (Shape::Other, _) => Shape::Other,
        (_, Shape::Other) => Shape::Other,
        (Shape::Overflow, _) => Shape::Overflow,
        (Shape::Constant(_), Shape::Overflow) => Shape::Overflow,
        (Shape::Constant(a), Shape::Constant(b)) => if op.can_execute(a, b) {
            Shape::Constant(op.execute(a, b))
        } else {
            Shape::Other
        },
        _ => Shape::Slot,
    }
}

/// Whether operands of the given shapes can be combined.
pub fn can_combine(op: MathOp, left: Shape, right: Shape) -> (b: bool)
    ensures
        b == combinable(op, left, right),
{
    match (left, right) {
        (Shape::Other, _) => false,
        (_, Shape::Other) => false,
        (Shape::Constant(a), Shape::Constant(b)) => op.can_execute(a, b),
        _ => true,
    }
}

/// Whether the compiler can compile the expression, and the shape
/// of the expression.
pub fn inspect(expression: &Expression) -> (r: (bool, Shape))
    ensures
        r.0 == supported(expression@),
        r.1 == shape_of(expression@),
    decreases expression@, 1nat,
{
    match expression {
        Expression::Integer(number, _) => {
            if -2147483648 <= *number && *number <= 2147483647 {
                (true, Shape::Constant(*number as i32))
            } else {
                (true, Shape::Overflow)
            }
        },
        Expression::VariableAccess(..) => (true, Shape::Slot),
        Expression::VariableDeclaration { value, .. } => match value {
            Some(initializer) => {
                assert(expression@ matches ExpressionView::VariableDeclaration {
                    value: Some(viewed),
                    ..
                } && *viewed == initializer@);
                (inspect(initializer).0, Shape::Slot)
            },
            None => (true, Shape::Other),
        },
        Expression::FunctionDeclaration { body, .. } => {
            proof {
                crate::ast::lemma_body_view(*expression);
            }
            let mut i: usize = 0;
            while i < body.len()
                invariant
                    i <= body.len(),
                    expression@ matches ExpressionView::FunctionDeclaration { body: viewed, .. }
                        && viewed == block_view(body@),
                    forall|j: int| 0 <= j < i ==> supported(#[trigger] block_view(body@)[j]),
                decreases body.len() - i,
            {
                assert(block_view(body@)[i as int] == body[i as int]@);
                if !inspect(&body[i]).0 {
                    return (false, Shape::Other);
                }
                i += 1;
            }
            (true, Shape::Other)
        },
        Expression::Addition { left, right, .. } => inspect_operation(
            MathOp::Addition,
            expression,
            left,
            right,
        ),
        Expression::Subtraction { left, right, .. } => inspect_operation(
            MathOp::Subtraction,
            expression,
            left,
            right,
        ),
        Expression::Multiplication { left, right, .. } => inspect_operation(
            MathOp::Multiplication,
            expression,
            left,
            right,
        ),
        Expression::Division { left, right, .. } => inspect_operation(
            MathOp::Division,
            expression,
            left,
            right,
        ),
        _ => (false, Shape::Other),
    }
}

/// [`inspect`] for binary arithmetic: `whole` is the node, `left` and
/// `right` are its operands.
fn inspect_operation(op: MathOp, whole: &Expression, left: &Expression, right: &Expression) -> (r: (
    bool,
    Shape,
))
    requires
        operation_of(whole@) == Some((op, left@, right@)),
    ensures
        r.0 == supported(whole@),
        r.1 == shape_of(whole@),
    decreases whole@, 0nat,
{
    let l = inspect(left);
    let r = inspect(right);
    (l.0 && r.0 && can_combine(op, l.1, r.1), combine_shapes(op, l.1, r.1))
}

/// Whether [`compile`] may be called on the program: every statement is
/// supported.
pub fn can_compile(ast: &Vec<Expression>) -> (b: bool)
    ensures
        b == all_supported(block_view(ast@)),
{
    let mut i: usize = 0;
    while i < ast.len()
        invariant
            i <= ast.len(),
            forall|j: int| 0 <= j < i ==> supported(#[trigger] block_view(ast@)[j]),
        decreases ast.len() - i,
    {
        assert(block_view(ast@)[i as int] == ast[i as int]@);
        if !inspect(&ast[i]).0 {
            return false;
        }
        i += 1;
    }
    true
}

/// Compiles a program if it can be compiled: `None` for a program that
/// holds a statement that is not supported; else what [`compile`] returns.
pub fn try_compile(ast: Vec<Expression>) -> (r: Option<Result<Vec<McFunction>, Message>>)
    ensures
        all_supported(block_view(ast@)) <==> r is Some,
        r matches Some(compiled) ==> compiled_view(compiled) == program_spec(block_view(ast@)),
{
    if can_compile(&ast) {
        Some(compile(ast))
    } else {
        None
    }
}

} // verus!
