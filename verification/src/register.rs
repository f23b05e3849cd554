//! Bookkeeping for a walk over a tree: a register that collects the result
//! of a step and counts how far the walk has advanced, the typed values
//! that the steps yield, and the files that the commands are written to.

use vstd::prelude::*;
use crate::message::{Message, MessageView};
use crate::text::{chars_of, decimal, decimal_text, slice_text};
use crate::util::{Position, PositionView};

verus! {

/// The view of a [`Type`].
pub enum TypeView {
    Int(i32),
    IntPointer(Seq<char>),
}

/// What a value is: an integer that is known, or the name of the slot that
/// holds one.
#[derive(Debug)]
pub enum Type {
    Int(i32),
    IntPointer(String),
}

impl View for Type {
    type V = TypeView;

    open spec fn view(&self) -> TypeView {
        match self {
            Type::Int(v) => TypeView::Int(*v),
            Type::IntPointer(name) => TypeView::IntPointer(name@),
        }
    }
}

impl Clone for Type {
    fn clone(&self) -> (t: Type)
        ensures
            t@ == self@,
    {
        match self {
            Type::Int(v) => Type::Int(*v),
            Type::IntPointer(name) => Type::IntPointer(name.clone()),
        }
    }
}

/// The view of an optional position.
pub open spec fn place_view(p: Option<Position>) -> Option<PositionView> {
    match p {
        Some(p) => Some(p@),
        None => None,
    }
}

/// The view of a [`Value`].
pub struct ValueView {
    pub typ: TypeView,
    pub start_pos: Option<PositionView>,
    pub end_pos: Option<PositionView>,
}

/// A typed value and, once known, the positions between which the text
/// stands that it was made from.
#[derive(Debug)]
pub struct Value {
    pub typ: Type,
    pub start_pos: Option<Position>,
    pub end_pos: Option<Position>,
}

impl View for Value {
    type V = ValueView;

    open spec fn view(&self) -> ValueView {
        ValueView {
            typ: self.typ@,
            start_pos: place_view(self.start_pos),
            end_pos: place_view(self.end_pos),
        }
    }
}

/// A copy of an optional position.
fn clone_place(p: &Option<Position>) -> (c: Option<Position>)
    ensures
        place_view(c) == place_view(*p),
{
    match p {
        Some(p) => Some(p.clone()),
        None => None,
    }
}

impl Clone for Value {
    fn clone(&self) -> (v: Value)
        ensures
            v@ == self@,
    {
        Value {
            typ: self.typ.clone(),
            start_pos: clone_place(&self.start_pos),
            end_pos: clone_place(&self.end_pos),
        }
    }
}

impl Value {
    /// A value without positions.
    pub fn new(typ: Type) -> (v: Value)
        ensures
            v@ == (ValueView { typ: typ@, start_pos: None, end_pos: None }),
    {
        Value { typ, start_pos: None, end_pos: None }
    }

    /// The same value between the given positions.
    pub fn set_pos(self, start_pos: &Position, end_pos: &Position) -> (v: Value)
        ensures
            v@ == (ValueView {
                typ: self@.typ,
                start_pos: Some(start_pos@),
                end_pos: Some(end_pos@),
            }),
    {
        let mut v = self;
        v.start_pos = Some(start_pos.clone());
        v.end_pos = Some(end_pos.clone());
        v
    }
}

/// The offset of the first dot at or behind `from`; the length of the text
/// where there is none.
pub open spec fn segment_end(path: Seq<char>, from: int) -> int
    decreases path.len() - from,
{
    if from < 0 || from >= path.len() {
        path.len() as int
    } else if path[from] == '.' {
        from
    } else {
        segment_end(path, from + 1)
    }
}

/// The pieces of `path` between its dots, from offset `from` on. A path
/// without dots is one piece; a dot at the end leaves an empty piece behind
/// it.
pub open spec fn segments_from(path: Seq<char>, from: int) -> Seq<Seq<char>>
    decreases path.len() - from,
{
    let end = segment_end(path, from);
    if 0 <= from <= end < path.len() {
        seq![path.subrange(from, end)] + segments_from(path, end + 1)
    } else if 0 <= from <= path.len() {
        seq![path.subrange(from, path.len() as int)]
    } else {
        seq![Seq::empty()]
    }
}

/// The pieces from the `i`-th on, with a slash between each two.
pub open spec fn joined_from(segments: Seq<Seq<char>>, i: int) -> Seq<char>
    decreases segments.len() - i,
{
    if i < 0 || i >= segments.len() {
        Seq::empty()
    } else if i + 1 == segments.len() {
        segments[i]
    } else {
        segments[i] + "/"@ + joined_from(segments, i + 1)
    }
}

/// The name of a resource: the first piece, a colon, and the other pieces
/// with slashes between them.
pub open spec fn resource_name(segments: Seq<Seq<char>>) -> Seq<char> {
    segments[0] + ":"@ + joined_from(segments, 1)
}

/// A path: the pieces of a dotted name. There is always a first piece, the
/// namespace.
#[derive(Debug)]
pub struct Path {
    pub segments: Vec<String>,
}

impl View for Path {
    type V = Seq<Seq<char>>;

    open spec fn view(&self) -> Seq<Seq<char>> {
        Seq::new(self.segments@.len(), |i: int| self.segments@[i]@)
    }
}

impl Clone for Path {
    fn clone(&self) -> (p: Path)
        ensures
            p@ == self@,
    {
        let mut segments: Vec<String> = Vec::new();
        let mut i: usize = 0;
        while i < self.segments.len()
            invariant
                i <= self.segments@.len(),
                segments@.len() == i,
                forall|j: int| 0 <= j < i ==> segments@[j]@ == self.segments@[j]@,
            decreases self.segments@.len() - i,
        {
            segments.push(self.segments[i].clone());
            i += 1;
        }
        let p = Path { segments };
        assert(p@ =~= self@);
        p
    }
}

impl Path {
    /// Cuts a dotted name into its pieces.
    pub fn new(path: &str) -> (p: Path)
        ensures
            p@ == segments_from(path@, 0),
            p@.len() >= 1,
    {
        let chars = chars_of(path);
        let len = chars.len();
        let mut segments: Vec<String> = Vec::new();
        let mut from: usize = 0;
        let ghost mut read: Seq<Seq<char>> = Seq::empty();
        loop
            invariant
                from <= len,
                len == chars@.len(),
                chars@ == path@,
                read == Seq::new(segments@.len(), |i: int| segments@[i]@),
                read + segments_from(path@, from as int) == segments_from(path@, 0),
            decreases len - from,
        {
            let mut end = from;
            while end < len && chars[end] != '.'
                invariant
                    from <= end <= len,
                    len == chars@.len(),
                    segment_end(chars@, end as int) == segment_end(chars@, from as int),
                decreases len - end,
            {
                end += 1;
            }
            let piece = slice_text(path, from, end);
            proof {
                read = read.push(piece@);
            }
            segments.push(piece);
            assert(read =~= Seq::new(segments@.len(), |i: int| segments@[i]@));
            if end >= len {
                let p = Path { segments };
                assert(p@ =~= segments_from(path@, 0));
                return p;
            }
            assert(read + segments_from(path@, end + 1) =~= segments_from(path@, 0));
            from = end + 1;
        }
    }

    /// The first piece.
    pub fn namespace(&self) -> (s: &String)
        requires
            self@.len() >= 1,
        ensures
            s@ == self@[0],
    {
        &self.segments[0]
    }

    /// The name of the resource that the path leads to.
    pub fn to_string(&self) -> (s: String)
        requires
            self@.len() >= 1,
        ensures
            s@ == resource_name(self@),
    {
        let mut s = self.segments[0].clone();
        s.append(":");
        let rest = self.join_from(1);
        s.append(rest.as_str());
        s
    }

    /// The pieces from the `i`-th on, with a slash between each two.
    fn join_from(&self, i: usize) -> (s: String)
        ensures
            s@ == joined_from(self@, i as int),
        decreases self.segments@.len() - i,
    {
        if i >= self.segments.len() {
            String::new()
        } else if i + 1 == self.segments.len() {
            self.segments[i].clone()
        } else {
            let mut s = self.segments[i].clone();
            s.append("/");
            let rest = self.join_from(i + 1);
            s.append(rest.as_str());
            s
        }
    }
}

/// The view of a [`BinFile`].
pub struct BinFileView {
    pub text: Seq<char>,
    pub path: Seq<Seq<char>>,
}

/// A file of commands under its path.
#[derive(Debug)]
pub struct BinFile {
    pub text: String,
    pub path: Path,
}

impl View for BinFile {
    type V = BinFileView;

    open spec fn view(&self) -> BinFileView {
        BinFileView { text: self.text@, path: self.path@ }
    }
}

impl Clone for BinFile {
    fn clone(&self) -> (f: BinFile)
        ensures
            f@ == self@,
    {
        BinFile { text: self.text.clone(), path: self.path.clone() }
    }
}

impl BinFile {
    /// An empty file under `path`.
    pub fn new(path: Path) -> (f: BinFile)
        ensures
            f@ == (BinFileView { text: Seq::empty(), path: path@ }),
    {
        BinFile { text: String::new(), path }
    }

    /// Adds a line, and the line feed that ends it.
    pub fn push(&mut self, line: &str) -> (r: &Self)
        ensures
            final(self)@ == (BinFileView {
                text: old(self)@.text + line@ + "\n"@,
                path: old(self)@.path,
            }),
            r@ == final(self)@,
    {
        self.text.append(line);
        self.text.append("\n");
        self
    }
}

/// The view of what a step yields.
pub open spec fn outcome_view(r: Result<Value, Message>) -> Result<ValueView, MessageView> {
    match r {
        Ok(v) => Ok(v@),
        Err(m) => Err(m@),
    }
}

/// The view of what a register holds.
pub open spec fn held_view(r: Option<Result<Value, Message>>) -> Option<
    Result<ValueView, MessageView>,
> {
    match r {
        Some(r) => Some(outcome_view(r)),
        None => None,
    }
}

/// The view of a [`CompileRegister`] or of a [`CompileResult`]: what it
/// holds, and its three counts.
pub struct RegisterView {
    pub result: Option<Result<ValueView, MessageView>>,
    pub last_registered_advance_count: usize,
    pub advance_count: usize,
    pub to_reverse_count: usize,
}

/// A copy of what a step yields.
fn clone_outcome(r: &Result<Value, Message>) -> (c: Result<Value, Message>)
    ensures
        outcome_view(c) == outcome_view(*r),
{
    match r {
        Ok(v) => Ok(v.clone()),
        Err(m) => Err(m.clone()),
    }
}

/// The register of a walk: the result of its last step, how far that step
/// advanced, how far the walk has advanced in all, and how far a failed
/// attempt has to be taken back.
#[derive(Debug)]
pub struct CompileRegister {
    pub result: Option<Result<Value, Message>>,
    pub last_registered_advance_count: usize,
    pub advance_count: usize,
    pub to_reverse_count: usize,
}

impl View for CompileRegister {
    type V = RegisterView;

    open spec fn view(&self) -> RegisterView {
        RegisterView {
            result: held_view(self.result),
            last_registered_advance_count: self.last_registered_advance_count,
            advance_count: self.advance_count,
            to_reverse_count: self.to_reverse_count,
        }
    }
}

/// What a step hands to the register of the walk that made it.
#[derive(Debug)]
pub struct CompileResult {
    pub result: Result<Value, Message>,
    pub last_registered_advance_count: usize,
    pub advance_count: usize,
    pub to_reverse_count: usize,
}

impl View for CompileResult {
    type V = RegisterView;

    open spec fn view(&self) -> RegisterView {
        RegisterView {
            result: Some(outcome_view(self.result)),
            last_registered_advance_count: self.last_registered_advance_count,
            advance_count: self.advance_count,
            to_reverse_count: self.to_reverse_count,
        }
    }
}

impl RegisterView {
    /// The register after a step of the walk itself.
    pub open spec fn register_advancement(self) -> RegisterView {
        RegisterView {
            last_registered_advance_count: (self.last_registered_advance_count + 1) as usize,
            advance_count: (self.advance_count + 1) as usize,
            ..self
        }
    }

    /// The register after taking in the result of a step: the counts move
    /// on by what the step advanced; a failure is kept, a success is not.
    pub open spec fn register(self, step: RegisterView) -> RegisterView {
        RegisterView {
            result: match step.result {
                Some(Err(m)) => Some(Err(m)),
                _ => self.result,
            },
            last_registered_advance_count: step.advance_count,
            advance_count: (self.advance_count + step.advance_count) as usize,
            to_reverse_count: self.to_reverse_count,
        }
    }

    /// The register after an attempt: a success is taken in as by
    /// [`RegisterView::register`]; a failure only notes how far the attempt
    /// has to be taken back.
    pub open spec fn try_register(self, step: RegisterView) -> RegisterView {
        match step.result {
            Some(Err(_)) => RegisterView { to_reverse_count: step.advance_count, ..self },
            _ => self.register(step),
        }
    }

    /// The register with the given result in place of its own.
    pub open spec fn holding(self, result: Result<ValueView, MessageView>) -> RegisterView {
        RegisterView { result: Some(result), ..self }
    }
}

impl CompileRegister {
    /// A register that holds nothing and has not advanced.
    pub fn new() -> (r: CompileRegister)
        ensures
            r@ == (RegisterView {
                result: None,
                last_registered_advance_count: 0,
                advance_count: 0,
                to_reverse_count: 0,
            }),
    {
        CompileRegister {
            result: None,
            last_registered_advance_count: 0,
            advance_count: 0,
            to_reverse_count: 0,
        }
    }

    /// Notes one step of the walk itself.
    pub fn register_advancement(&mut self) -> (r: &Self)
        requires
            old(self).last_registered_advance_count < usize::MAX,
            old(self).advance_count < usize::MAX,
        ensures
            final(self)@ == old(self)@.register_advancement(),
            r@ == final(self)@,
    {
        self.last_registered_advance_count += 1;
        self.advance_count += 1;
        self
    }

    /// Takes in the result of a step and hands its value or its failure on.
    pub fn register(&mut self, result: &CompileResult) -> (r: Result<Value, Message>)
        requires
            old(self).advance_count + result.advance_count <= usize::MAX,
        ensures
            final(self)@ == old(self)@.register(result@),
            outcome_view(r) == outcome_view(result.result),
    {
        self.last_registered_advance_count = result.advance_count;
        self.advance_count += result.advance_count;
        match &result.result {
            Ok(node) => Ok(node.clone()),
            Err(error) => {
                self.result = Some(Err(error.clone()));
                Err(error.clone())
            },
        }
    }

    /// Takes in the result of an attempt: a success as
    /// [`CompileRegister::register`] does, of a failure only how far the
    /// attempt advanced.
    pub fn try_register(&mut self, result: &CompileResult) -> (r: Result<Value, Message>)
        requires
            old(self).advance_count + result.advance_count <= usize::MAX,
        ensures
            final(self)@ == old(self)@.try_register(result@),
            outcome_view(r) == outcome_view(result.result),
    {
        match &result.result {
            Ok(_) => self.register(result),
            Err(error) => {
                self.to_reverse_count = result.advance_count;
                Err(error.clone())
            },
        }
    }

    /// Ends the step with a value.
    pub fn success(&mut self, value: Value) -> (r: CompileResult)
        ensures
            final(self)@ == old(self)@.holding(Ok(value@)),
            r@ == final(self)@,
    {
        let held = value.clone();
        self.result = Some(Ok(value));
        CompileResult {
            result: Ok(held),
            last_registered_advance_count: self.last_registered_advance_count,
            advance_count: self.advance_count,
            to_reverse_count: self.to_reverse_count,
        }
    }

    /// Ends the step with a failure.
    pub fn failure(&mut self, error: Message) -> (r: CompileResult)
        ensures
            final(self)@ == old(self)@.holding(Err(error@)),
            r@ == final(self)@,
    {
        let held = error.clone();
        self.result = Some(Err(error));
        CompileResult {
            result: Err(held),
            last_registered_advance_count: self.last_registered_advance_count,
            advance_count: self.advance_count,
            to_reverse_count: self.to_reverse_count,
        }
    }

    /// Ends the step with what the register holds.
    pub fn pack(&mut self) -> (r: CompileResult)
        requires
            old(self).result is Some,
        ensures
            final(self)@ == old(self)@,
            r@ == old(self)@,
    {
        match &self.result {
            Some(result) => CompileResult {
                result: clone_outcome(result),
                last_registered_advance_count: self.last_registered_advance_count,
                advance_count: self.advance_count,
                to_reverse_count: self.to_reverse_count,
            },
            None => vstd::pervasive::unreached(),
        }
    }

    /// Whether the register holds a failure.
    pub fn failed(&self) -> (b: bool)
        ensures
            b == (self@.result matches Some(Err(_))),
    {
        match self.result {
            Some(Err(_)) => true,
            Some(_) => false,
            None => false,
        }
    }

    /// Whether the register holds a value.
    pub fn succeeded(&self) -> (b: bool)
        ensures
            b == (self@.result matches Some(Ok(_))),
    {
        match self.result {
            Some(Ok(_)) => true,
            Some(_) => false,
            None => false,
        }
    }
}

impl CompileResult {
    /// A register that starts from this result.
    pub fn to_register(&self) -> (r: CompileRegister)
        ensures
            r@ == self@,
    {
        CompileRegister {
            advance_count: self.advance_count,
            last_registered_advance_count: self.last_registered_advance_count,
            to_reverse_count: self.to_reverse_count,
            result: Some(clone_outcome(&self.result)),
        }
    }
}

/// The command that adds a constant to the slot `ptr` of the shared
/// storage.
pub open spec fn storage_add_command(ptr: Seq<char>, value: int) -> Seq<char> {
    "scoreboard players add ."@ + ptr + " .es-storage "@ + decimal(value)
}

/// Whether the sum of two constants is a 32-bit value again; true of every
/// other pair.
pub open spec fn addable(first: TypeView, second: TypeView) -> bool {
    match (first, second) {
        (TypeView::Int(a), TypeView::Int(b)) => i32::MIN <= a + b <= i32::MAX,
        _ => true,
    }
}

/// The sum of two values of which at most one is a slot.
pub open spec fn sum_value(first: TypeView, second: TypeView) -> ValueView {
    ValueView {
        typ: match (first, second) {
            (TypeView::Int(a), TypeView::Int(b)) => TypeView::Int((a + b) as i32),
            (TypeView::Int(_), TypeView::IntPointer(ptr)) => TypeView::IntPointer(ptr),
            (TypeView::IntPointer(ptr), _) => TypeView::IntPointer(ptr),
        },
        start_pos: None,
        end_pos: None,
    }
}

/// The commands that the sum of two values takes, each with its line feed.
pub open spec fn sum_commands(first: TypeView, second: TypeView) -> Seq<char> {
    match (first, second) {
        (TypeView::Int(a), TypeView::IntPointer(ptr)) => storage_add_command(ptr, a as int)
            + "\n"@,
        (TypeView::IntPointer(ptr), TypeView::Int(b)) => storage_add_command(ptr, b as int)
            + "\n"@,
        _ => Seq::empty(),
    }
}

/// The table of the names of one scope, each with its value, and the table
/// of the scope around it.
pub struct SymbolTable<'a> {
    pub symbols: Vec<(String, Value)>,
    pub parent: Option<&'a SymbolTable<'a>>,
}

impl<'a> SymbolTable<'a> {
    /// The names of the table, in the order in which they were added.
    pub open spec fn names(&self) -> Seq<Seq<char>> {
        Seq::new(self.symbols@.len(), |i: int| self.symbols@[i].0@)
    }

    /// The values of the table, in the order in which they were added.
    pub open spec fn values(&self) -> Seq<ValueView> {
        Seq::new(self.symbols@.len(), |i: int| self.symbols@[i].1@)
    }

    /// An empty table inside `parent`.
    pub fn new(parent: Option<&'a SymbolTable<'a>>) -> (t: SymbolTable<'a>)
        ensures
            t.names() == Seq::<Seq<char>>::empty(),
            t.values() == Seq::<ValueView>::empty(),
            t.parent == parent,
    {
        let t = SymbolTable { symbols: Vec::new(), parent };
        assert(t.names() =~= Seq::<Seq<char>>::empty());
        assert(t.values() =~= Seq::<ValueView>::empty());
        t
    }

    /// Adds a name with its value and hands the value back.
    pub fn add(&mut self, name: String, value: Value) -> (v: Value)
        ensures
            final(self).names() == old(self).names().push(name@),
            final(self).values() == old(self).values().push(value@),
            final(self).parent == old(self).parent,
            v@ == value@,
    {
        let handed = value.clone();
        self.symbols.push((name, value));
        assert(self.names() =~= old(self).names().push(name@));
        assert(self.values() =~= old(self).values().push(value@));
        handed
    }
}

/// Sums of values: constants are added now, a sum with a slot is left to a
/// command in the main file.
pub struct Compiler {
    pub main_file: BinFile,
    pub helper_files: Vec<BinFile>,
}

impl Compiler {
    /// A compiler whose main file lies under the dotted name `path`.
    pub fn new(path: &str) -> (c: Compiler)
        ensures
            c.main_file@ == (BinFileView { text: Seq::empty(), path: segments_from(path@, 0) }),
            c.helper_files@.len() == 0,
    {
        Compiler { main_file: BinFile::new(Path::new(path)), helper_files: Vec::new() }
    }

    /// The sum of two constants.
    pub fn add_int_to_int(&self, first: &i32, second: &i32) -> (v: Value)
        requires
            i32::MIN <= *first + *second <= i32::MAX,
        ensures
            v@ == (ValueView {
                typ: TypeView::Int((*first + *second) as i32),
                start_pos: None,
                end_pos: None,
            }),
    {
        Value::new(Type::Int(*first + *second))
    }

    /// The sum of a slot and a constant: a command adds the constant to the
    /// slot, which is the result.
    pub fn add_int_to_int_ptr(&mut self, ptr: &String, val: &i32) -> (v: Value)
        ensures
            final(self).main_file@ == (BinFileView {
                text: old(self).main_file@.text + storage_add_command(ptr@, *val as int) + "\n"@,
                path: old(self).main_file@.path,
            }),
            final(self).helper_files == old(self).helper_files,
            v@ == (ValueView { typ: TypeView::IntPointer(ptr@), start_pos: None, end_pos: None }),
    {
        let mut cmd = "scoreboard players add .".to_owned();
        cmd.append(ptr.as_str());
        cmd.append(" .es-storage ");
        let amount = decimal_text(*val as i64);
        cmd.append(amount.as_str());
        self.main_file.push(cmd.as_str());
        Value::new(Type::IntPointer(ptr.clone()))
    }

    /// The sum of two values. Two constants are added now. A constant and a
    /// slot, in either order, leave the addition to a command; the slot is
    /// the result.
    pub fn add(&mut self, first: &Value, second: &Value) -> (r: CompileResult)
        requires
            !(first@.typ is IntPointer && second@.typ is IntPointer),
            addable(first@.typ, second@.typ),
        ensures
            r@ == (RegisterView {
                result: Some(Ok(sum_value(first@.typ, second@.typ))),
                last_registered_advance_count: 0,
                advance_count: 0,
                to_reverse_count: 0,
            }),
            final(self).main_file@ == (BinFileView {
                text: old(self).main_file@.text + sum_commands(first@.typ, second@.typ),
                path: old(self).main_file@.path,
            }),
            final(self).helper_files == old(self).helper_files,
    {
        let value = match (&first.typ, &second.typ) {
            (Type::Int(first_val), Type::Int(second_val)) => {
                assert(self.main_file@.text + Seq::<char>::empty() =~= self.main_file@.text);
                self.add_int_to_int(first_val, second_val)
            },
            (Type::Int(first_val), Type::IntPointer(ptr)) => {
                let v = self.add_int_to_int_ptr(ptr, first_val);
                assert(self.main_file@.text =~= old(self).main_file@.text + sum_commands(
                    first@.typ,
                    second@.typ,
                ));
                v
            },
            (Type::IntPointer(ptr), Type::Int(second_val)) => {
                let v = self.add_int_to_int_ptr(ptr, second_val);
                assert(self.main_file@.text =~= old(self).main_file@.text + sum_commands(
                    first@.typ,
                    second@.typ,
                ));
                v
            },
            _ => vstd::pervasive::unreached(),
        };
        CompileRegister::new().success(value)
    }

    /// The files written so far: the helper files, then the main file.
    pub fn bin_files(&self) -> (files: Vec<BinFile>)
        ensures
            files@.len() == self.helper_files@.len() + 1,
            forall|i: int|
                0 <= i < self.helper_files@.len() ==> (#[trigger] files@[i])@
                    == self.helper_files@[i]@,
            files@[self.helper_files@.len() as int]@ == self.main_file@,
    {
        let mut files: Vec<BinFile> = Vec::new();
        let mut i: usize = 0;
        while i < self.helper_files.len()
            invariant
                i <= self.helper_files@.len(),
                files@.len() == i,
                forall|j: int| 0 <= j < i ==> (#[trigger] files@[j])@ == self.helper_files@[j]@,
            decreases self.helper_files@.len() - i,
        {
            files.push(self.helper_files[i].clone());
            i += 1;
        }
        files.push(self.main_file.clone());
        files
    }
}

} // verus!
