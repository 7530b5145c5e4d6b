//! The instruction set of the VM and the program it runs.
use vstd::prelude::*;

verus! {

/// The types that `CastTo` converts to.
#[derive(Debug, Clone, Copy, PartialEq, Eq, Structural)]
pub enum Type {
    Integer,
    Float,
    UnsignedInteger,
    Boolean,
    String,
    Char,
}

/// The number of a type, in the order of declaration.
pub open spec fn type_number(t: Type) -> u8 {
    match t {
        Type::Integer => 0,
        Type::Float => 1,
        Type::UnsignedInteger => 2,
        Type::Boolean => 3,
        Type::String => 4,
        Type::Char => 5,
    }
}

impl Type {
    /// The number of the type, in the order of declaration.
    pub fn number(&self) -> (r: u8)
        ensures
            r == type_number(*self),
    {
        match self {
            Type::Integer => 0,
            Type::Float => 1,
            Type::UnsignedInteger => 2,
            Type::Boolean => 3,
            Type::String => 4,
            Type::Char => 5,
        }
    }
}

/// An instruction of the VM. A float operand is carried as the bits of its
/// IEEE-754 binary64 encoding.
#[derive(Debug, Clone, PartialEq, Eq)]
pub enum Instruction {
    PushInt(i64),
    PushFloat(u64),
    PushUnsignedInt(u64),
    PushBool(bool),
    PushChar(char),
    /// Puts the string of the constant pool with that index into the memory and
    /// pushes a reference to it.
    PushStr(usize),
    /// Pushes a list of the constant pool (not carried out by the VM).
    PushList(usize),
    PushUnit,
    /// Reads a variable kept on the stack (not carried out by the VM).
    Get(usize),
    Pop,
    Swap,
    Dup,
    Store { var_name: String },
    Load { var_name: String },
    /// Stack: `[ListPointer, Index]` (top last) -> `[Value]`
    ListLoad,
    /// Stack: `[Index, ListPointer, Value]` -> `[]`
    ListStore,
    /// Creates a list of units, the size being the top of the stack.
    NewList,
    ListIndex(usize),
    /// Stack: `[StrPointer, Index]` -> `[Char]`
    StringLoad,
    /// Stack: `[StrPointer, Index, Value]` -> `[]`
    StringStore,
    CastTo(Type),
    IAdd,
    FAdd,
    UIAdd,
    ISub,
    FSub,
    UISub,
    IMul,
    FMul,
    UIMul,
    IDiv,
    FDiv,
    UIDiv,
    IMod,
    FMod,
    UIMod,
    Eq,
    Neq,
    Gt,
    Gte,
    Lt,
    Lte,
    /// Relative unconditional jump.
    Jmp { pos: isize },
    /// Relative jump when the top of the stack is false.
    JmpZ { pos: isize },
    /// Calls the function whose pointer is in stack slot `pos`.
    DirectCall { pos: usize, args: u8 },
    /// Calls the function whose pointer is on top of the stack (not carried out by the VM).
    Call { nb_args: u8 },
    FunctionCall { function_name: String, nb_args: u8 },
    ExternCall { function_name: String, nb_args: u8 },
    Return,
    /// Deletes the object whose reference is on top of the stack.
    DeleteObj,
    /// Stack: `[ClassPtr]` -> `[FieldValue]`
    GetField { field: usize },
    /// Stack: `[ClassPtr, Value]` -> `[]`
    SetField { field: usize },
    /// Creates an object of the class of the constant pool with that name.
    NewObj { class_name: String },
    MethodCall { method_name: String, nb_args: u8 },
    StaticCall { method_name: String, nb_args: u8 },
    Halt,
}

impl Instruction {
    /// A copy of the instruction.
    pub fn copy(&self) -> (r: Instruction)
        ensures
            r == *self,
    {
        match self {
            Instruction::PushInt(i) => Instruction::PushInt(*i),
            Instruction::PushFloat(f) => Instruction::PushFloat(*f),
            Instruction::PushUnsignedInt(u) => Instruction::PushUnsignedInt(*u),
            Instruction::PushBool(b) => Instruction::PushBool(*b),
            Instruction::PushChar(c) => Instruction::PushChar(*c),
            Instruction::PushStr(u) => Instruction::PushStr(*u),
            Instruction::PushList(u) => Instruction::PushList(*u),
            Instruction::PushUnit => Instruction::PushUnit,
            Instruction::Get(u) => Instruction::Get(*u),
            Instruction::Pop => Instruction::Pop,
            Instruction::Swap => Instruction::Swap,
            Instruction::Dup => Instruction::Dup,
            Instruction::Store { var_name } => Instruction::Store { var_name: var_name.clone() },
            Instruction::Load { var_name } => Instruction::Load { var_name: var_name.clone() },
            Instruction::ListLoad => Instruction::ListLoad,
            Instruction::ListStore => Instruction::ListStore,
            Instruction::NewList => Instruction::NewList,
            Instruction::ListIndex(u) => Instruction::ListIndex(*u),
            Instruction::StringLoad => Instruction::StringLoad,
            Instruction::StringStore => Instruction::StringStore,
            Instruction::CastTo(t) => Instruction::CastTo(*t),
            Instruction::IAdd => Instruction::IAdd,
            Instruction::FAdd => Instruction::FAdd,
            Instruction::UIAdd => Instruction::UIAdd,
            Instruction::ISub => Instruction::ISub,
            Instruction::FSub => Instruction::FSub,
            Instruction::UISub => Instruction::UISub,
            Instruction::IMul => Instruction::IMul,
            Instruction::FMul => Instruction::FMul,
            Instruction::UIMul => Instruction::UIMul,
            Instruction::IDiv => Instruction::IDiv,
            Instruction::FDiv => Instruction::FDiv,
            Instruction::UIDiv => Instruction::UIDiv,
            Instruction::IMod => Instruction::IMod,
            Instruction::FMod => Instruction::FMod,
            Instruction::UIMod => Instruction::UIMod,
            Instruction::Eq => Instruction::Eq,
            Instruction::Neq => Instruction::Neq,
            Instruction::Gt => Instruction::Gt,
            Instruction::Gte => Instruction::Gte,
            Instruction::Lt => Instruction::Lt,
            Instruction::Lte => Instruction::Lte,
            Instruction::Jmp { pos } => Instruction::Jmp { pos: *pos },
            Instruction::JmpZ { pos } => Instruction::JmpZ { pos: *pos },
            Instruction::DirectCall { pos, args } => Instruction::DirectCall { pos: *pos, args: *args },
            Instruction::Call { nb_args } => Instruction::Call { nb_args: *nb_args },
            Instruction::FunctionCall { function_name, nb_args } => Instruction::FunctionCall {
                function_name: function_name.clone(),
                nb_args: *nb_args,
            },
            Instruction::ExternCall { function_name, nb_args } => Instruction::ExternCall {
                function_name: function_name.clone(),
                nb_args: *nb_args,
            },
            Instruction::Return => Instruction::Return,
            Instruction::DeleteObj => Instruction::DeleteObj,
            Instruction::GetField { field } => Instruction::GetField { field: *field },
            Instruction::SetField { field } => Instruction::SetField { field: *field },
            Instruction::NewObj { class_name } => Instruction::NewObj { class_name: class_name.clone() },
            Instruction::MethodCall { method_name, nb_args } => Instruction::MethodCall {
                method_name: method_name.clone(),
                nb_args: *nb_args,
            },
            Instruction::StaticCall { method_name, nb_args } => Instruction::StaticCall {
                method_name: method_name.clone(),
                nb_args: *nb_args,
            },
            Instruction::Halt => Instruction::Halt,
        }
    }
}

/// A library that the VM imports before running the program.
#[derive(Debug, Clone, PartialEq, Eq)]
pub struct ImportedLibrary {
    pub name: String,
    pub is_std: bool,
}

/// A class of the constant pool: its name and the names of its fields.
#[derive(Debug, Clone, PartialEq, Eq)]
pub struct ConstantClass {
    pub name: String,
    pub fields: Vec<String>,
    pub constructor_nb_args: usize,
}

/// The constants of a program.
#[derive(Debug, Clone, PartialEq, Eq)]
pub struct ConstantPool {
    pub string_pool: Vec<String>,
    pub function_pool: Vec<usize>,
    pub class_pool: Vec<ConstantClass>,
}

/// A function of the program: its name, the position of its first instruction
/// and its body.
#[derive(Debug, Clone, PartialEq, Eq)]
pub struct Label {
    pub name: String,
    pub position: usize,
    pub body: Vec<Instruction>,
}

/// A program: its functions, the name of the entry one, the libraries it
/// imports and its constants.
#[derive(Debug, Clone, PartialEq, Eq)]
pub struct Program {
    pub labels: Vec<Label>,
    pub entry_point: String,
    pub libraries: Vec<ImportedLibrary>,
    pub global: ConstantPool,
}

/// The instructions of the labels, one body after the other.
pub open spec fn code_of(labels: Seq<Label>) -> Seq<Instruction>
    decreases labels.len(),
{
    if labels.len() == 0 {
        Seq::empty()
    } else {
        code_of(labels.drop_last()) + labels.last().body@
    }
}

pub proof fn lemma_code_of_prefix(labels: Seq<Label>, k: int)
    requires
        0 <= k < labels.len(),
    ensures
        code_of(labels.take(k + 1)) == code_of(labels.take(k)) + labels[k].body@,
{
    assert(labels.take(k + 1).drop_last() =~= labels.take(k));
}

pub proof fn lemma_code_of_monotone(labels: Seq<Label>, k: int)
    requires
        0 <= k <= labels.len(),
    ensures
        code_of(labels.take(k)).len() <= code_of(labels).len(),
        forall|i: int| 0 <= i < code_of(labels.take(k)).len() ==> #[trigger] code_of(labels.take(k))[i] == code_of(labels)[i],
    decreases labels.len() - k,
{
    if k < labels.len() {
        lemma_code_of_prefix(labels, k);
        lemma_code_of_monotone(labels, k + 1);
        assert forall|i: int| 0 <= i < code_of(labels.take(k)).len() implies #[trigger] code_of(labels.take(k))[i] == code_of(labels)[i] by {
            assert(code_of(labels.take(k + 1))[i] == code_of(labels.take(k))[i]);
        }
    } else {
        assert(labels.take(k) =~= labels);
    }
}

impl Program {
    /// The instructions of the program, in order.
    pub open spec fn code(&self) -> Seq<Instruction> {
        code_of(self.labels@)
    }

    /// An empty program.
    pub fn new() -> (r: Program)
        ensures
            r.labels@.len() == 0,
            r.entry_point@ == Seq::<char>::empty(),
            r.libraries@.len() == 0,
            r.global.string_pool@.len() == 0,
            r.global.function_pool@.len() == 0,
            r.global.class_pool@.len() == 0,
    {
        Program {
            labels: Vec::new(),
            entry_point: String::new(),
            libraries: Vec::new(),
            global: ConstantPool { string_pool: Vec::new(), function_pool: Vec::new(), class_pool: Vec::new() },
        }
    }

    /// The number of instructions.
    pub fn len(&self) -> (r: usize)
        requires
            self.code().len() <= usize::MAX,
        ensures
            r == self.code().len(),
    {
        let mut total: usize = 0;
        let mut k: usize = 0;
        while k < self.labels.len()
            invariant
                k <= self.labels@.len(),
                self.code().len() <= usize::MAX,
                total == code_of(self.labels@.take(k as int)).len(),
            decreases self.labels@.len() - k,
        {
            proof {
                lemma_code_of_prefix(self.labels@, k as int);
                lemma_code_of_monotone(self.labels@, k as int + 1);
            }
            total = total + self.labels[k].body.len();
            k += 1;
        }
        assert(self.labels@.take(k as int) =~= self.labels@);
        total
    }

    pub fn is_empty(&self) -> (r: bool)
        requires
            self.code().len() <= usize::MAX,
        ensures
            r == (self.code().len() == 0),
    {
        self.len() == 0
    }

    /// The instruction at position `index` of the program.
    pub fn instruction(&self, index: usize) -> (r: &Instruction)
        requires
            index < self.code().len(),
        ensures
            *r == self.code()[index as int],
    {
        let mut current: usize = 0;
        let mut k: usize = 0;
        while k < self.labels.len()
            invariant
                k <= self.labels@.len(),
                index < self.code().len(),
                current == code_of(self.labels@.take(k as int)).len(),
                current <= index,
            decreases self.labels@.len() - k,
        {
            proof {
                lemma_code_of_prefix(self.labels@, k as int);
                lemma_code_of_monotone(self.labels@, k as int + 1);
            }
            let n = self.labels[k].body.len();
            if n > index - current {
                proof {
                    assert(code_of(self.labels@.take(k as int + 1))[index as int] == self.labels@[k as int].body@[index - current]);
                }
                return &self.labels[k].body[index - current];
            }
            current = current + n;
            k += 1;
        }
        proof {
            assert(self.labels@.take(k as int) =~= self.labels@);
        }
        vstd::pervasive::unreached()
    }
}


/// A label as a plain value.
pub struct LabelView {
    pub name: String,
    pub position: usize,
    pub body: Seq<Instruction>,
}

/// A class of the constant pool as a plain value.
pub struct ClassView {
    pub name: String,
    pub fields: Seq<String>,
    pub constructor_nb_args: usize,
}

/// A program as a plain value.
pub struct ProgramView {
    pub labels: Seq<LabelView>,
    pub entry_point: String,
    pub libraries: Seq<ImportedLibrary>,
    pub string_pool: Seq<String>,
    pub function_pool: Seq<usize>,
    pub class_pool: Seq<ClassView>,
}

impl View for Label {
    type V = LabelView;

    open spec fn view(&self) -> LabelView {
        LabelView { name: self.name, position: self.position, body: self.body@ }
    }
}

impl View for ConstantClass {
    type V = ClassView;

    open spec fn view(&self) -> ClassView {
        ClassView { name: self.name, fields: self.fields@, constructor_nb_args: self.constructor_nb_args }
    }
}

impl View for Program {
    type V = ProgramView;

    open spec fn view(&self) -> ProgramView {
        ProgramView {
            labels: self.labels@.map_values(|l: Label| l@),
            entry_point: self.entry_point,
            libraries: self.libraries@,
            string_pool: self.global.string_pool@,
            function_pool: self.global.function_pool@,
            class_pool: self.global.class_pool@.map_values(|c: ConstantClass| c@),
        }
    }
}

/// A copy of `v`.
fn copy_strings(v: &Vec<String>) -> (r: Vec<String>)
    ensures
        r@ == v@,
{
    let mut r: Vec<String> = Vec::new();
    let mut k: usize = 0;
    while k < v.len()
        invariant
            k <= v@.len(),
            r@ == v@.take(k as int),
        decreases v@.len() - k,
    {
        r.push(v[k].clone());
        k += 1;
        assert(r@ =~= v@.take(k as int));
    }
    assert(v@.take(k as int) =~= v@);
    r
}

impl Label {
    /// A copy of the label.
    pub fn copy(&self) -> (r: Label)
        ensures
            r@ == self@,
    {
        let mut body: Vec<Instruction> = Vec::new();
        let mut k: usize = 0;
        while k < self.body.len()
            invariant
                k <= self.body@.len(),
                body@ == self.body@.take(k as int),
            decreases self.body@.len() - k,
        {
            body.push(self.body[k].copy());
            k += 1;
            assert(body@ =~= self.body@.take(k as int));
        }
        assert(self.body@.take(k as int) =~= self.body@);
        Label { name: self.name.clone(), position: self.position, body }
    }
}

impl Program {
    /// A copy of the program.
    pub fn copy(&self) -> (r: Program)
        ensures
            r@ == self@,
    {
        let mut labels: Vec<Label> = Vec::new();
        let mut k: usize = 0;
        while k < self.labels.len()
            invariant
                k <= self.labels@.len(),
                labels@.len() == k,
                forall|i: int| 0 <= i < k ==> #[trigger] labels@[i]@ == self.labels@[i]@,
            decreases self.labels@.len() - k,
        {
            labels.push(self.labels[k].copy());
            k += 1;
        }
        assert(labels@.map_values(|l: Label| l@) =~= self.labels@.map_values(|l: Label| l@));
        let mut libraries: Vec<ImportedLibrary> = Vec::new();
        let mut j: usize = 0;
        while j < self.libraries.len()
            invariant
                j <= self.libraries@.len(),
                libraries@ == self.libraries@.take(j as int),
            decreases self.libraries@.len() - j,
        {
            let l = &self.libraries[j];
            libraries.push(ImportedLibrary { name: l.name.clone(), is_std: l.is_std });
            j += 1;
            assert(libraries@ =~= self.libraries@.take(j as int));
        }
        assert(self.libraries@.take(j as int) =~= self.libraries@);
        let mut functions: Vec<usize> = Vec::new();
        let mut f: usize = 0;
        while f < self.global.function_pool.len()
            invariant
                f <= self.global.function_pool@.len(),
                functions@ == self.global.function_pool@.take(f as int),
            decreases self.global.function_pool@.len() - f,
        {
            functions.push(self.global.function_pool[f]);
            f += 1;
            assert(functions@ =~= self.global.function_pool@.take(f as int));
        }
        assert(self.global.function_pool@.take(f as int) =~= self.global.function_pool@);
        let mut classes: Vec<ConstantClass> = Vec::new();
        let mut c: usize = 0;
        while c < self.global.class_pool.len()
            invariant
                c <= self.global.class_pool@.len(),
                classes@.len() == c,
                forall|i: int| 0 <= i < c ==> #[trigger] classes@[i]@ == self.global.class_pool@[i]@,
            decreases self.global.class_pool@.len() - c,
        {
            let cl = &self.global.class_pool[c];
            classes.push(ConstantClass {
                name: cl.name.clone(),
                fields: copy_strings(&cl.fields),
                constructor_nb_args: cl.constructor_nb_args,
            });
            c += 1;
        }
        assert(classes@.map_values(|x: ConstantClass| x@) =~= self.global.class_pool@.map_values(|x: ConstantClass| x@));
        Program {
            labels,
            entry_point: self.entry_point.clone(),
            libraries,
            global: ConstantPool {
                string_pool: copy_strings(&self.global.string_pool),
                function_pool: functions,
                class_pool: classes,
            },
        }
    }
}

} // verus!
