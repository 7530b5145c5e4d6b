//! The context of the lowering: for each function, its variables with the
//! scopes they were created in, and the order of the functions.
use vstd::prelude::*;
use super::node::{HlirDataType, HlirError};

verus! {

/// A scope: its identity and its depth.
#[derive(Debug, Clone, Copy, PartialEq, Eq, Structural)]
pub struct ContextScope {
    pub id: usize,
    pub value: usize,
}

/// A variable: its name, identity, data type and the scope it was created in.
#[derive(Debug, Clone, PartialEq, Eq)]
pub struct ContextVariable {
    name: String,
    id: usize,
    data_type: HlirDataType,
    scope: ContextScope,
}

/// A variable as plain values.
pub struct VariableModel {
    pub name: Seq<char>,
    pub id: usize,
    pub data_type: HlirDataType,
    pub scope: ContextScope,
}

impl View for ContextVariable {
    type V = VariableModel;

    closed spec fn view(&self) -> VariableModel {
        VariableModel { name: self.name@, id: self.id, data_type: self.data_type, scope: self.scope }
    }
}

impl ContextVariable {
    pub fn new(name: String, id: usize, data_type: HlirDataType, scope: ContextScope) -> (r: ContextVariable)
        ensures
            r@ == (VariableModel { name: name@, id, data_type, scope }),
    {
        ContextVariable { name, id, data_type, scope }
    }

    fn copy(&self) -> (r: ContextVariable)
        ensures
            r@ == self@,
    {
        ContextVariable { name: self.name.clone(), id: self.id, data_type: self.data_type, scope: self.scope }
    }
}

/// A function of the context.
#[derive(Debug)]
pub struct ContextFunction {
    name: String,
    variables: Vec<ContextVariable>,
    id: usize,
    current_scope: ContextScope,
    next_scope: usize,
    scopes_id: Vec<usize>,
    return_type: HlirDataType,
    next_variable: usize,
}

/// A function as plain values.
pub struct FunctionModel {
    pub name: Seq<char>,
    pub variables: Seq<VariableModel>,
    pub id: usize,
    pub current_scope: ContextScope,
    pub next_scope: usize,
    pub scopes_id: Seq<usize>,
    pub return_type: HlirDataType,
    pub next_variable: usize,
}

/// The models of some variables.
pub open spec fn var_models(vs: Seq<ContextVariable>) -> Seq<VariableModel> {
    vs.map_values(|v: ContextVariable| v@)
}

impl View for ContextFunction {
    type V = FunctionModel;

    closed spec fn view(&self) -> FunctionModel {
        FunctionModel {
            name: self.name@,
            variables: var_models(self.variables@),
            id: self.id,
            current_scope: self.current_scope,
            next_scope: self.next_scope,
            scopes_id: self.scopes_id@,
            return_type: self.return_type,
            next_variable: self.next_variable,
        }
    }
}

impl ContextFunction {
    /// A function with no variables, in scope 1 at depth 1.
    pub fn new(name: String, return_type: HlirDataType, id: usize) -> (r: ContextFunction)
        ensures
            r@ == (FunctionModel {
                name: name@,
                variables: Seq::empty(),
                id,
                current_scope: ContextScope { id: 1, value: 1 },
                next_scope: 2,
                scopes_id: seq![1usize],
                return_type,
                next_variable: 0,
            }),
    {
        let scopes_id = vec![1usize];
        assert(scopes_id@ =~= seq![1usize]);
        let variables: Vec<ContextVariable> = Vec::new();
        assert(var_models(variables@) =~= Seq::<VariableModel>::empty());
        ContextFunction {
            name,
            variables,
            id,
            current_scope: ContextScope { id: 1, value: 1 },
            next_scope: 2,
            scopes_id,
            return_type,
            next_variable: 0,
        }
    }

    fn copy(&self) -> (r: ContextFunction)
        ensures
            r@ == self@,
    {
        let mut variables: Vec<ContextVariable> = Vec::new();
        let mut k: usize = 0;
        while k < self.variables.len()
            invariant
                k <= self.variables@.len(),
                var_models(variables@) == var_models(self.variables@.take(k as int)),
            decreases self.variables@.len() - k,
        {
            let ghost before = variables@;
            variables.push(self.variables[k].copy());
            assert(var_models(variables@) =~= var_models(before).push(self.variables@[k as int]@));
            assert(self.variables@.take(k as int + 1) =~= self.variables@.take(k as int).push(self.variables@[k as int]));
            k += 1;
            assert(var_models(variables@) =~= var_models(self.variables@.take(k as int)));
        }
        assert(self.variables@.take(k as int) =~= self.variables@);
        let mut scopes_id: Vec<usize> = Vec::new();
        let mut j: usize = 0;
        while j < self.scopes_id.len()
            invariant
                j <= self.scopes_id@.len(),
                scopes_id@ == self.scopes_id@.take(j as int),
            decreases self.scopes_id@.len() - j,
        {
            scopes_id.push(self.scopes_id[j]);
            j += 1;
            assert(scopes_id@ =~= self.scopes_id@.take(j as int));
        }
        assert(self.scopes_id@.take(j as int) =~= self.scopes_id@);
        ContextFunction {
            name: self.name.clone(),
            variables,
            id: self.id,
            current_scope: self.current_scope,
            next_scope: self.next_scope,
            scopes_id,
            return_type: self.return_type,
            next_variable: self.next_variable,
        }
    }
}

/// The context: the functions and the one being lowered.
#[derive(Debug)]
pub struct HlirContext {
    pub functions: Vec<ContextFunction>,
    pub current_function: usize,
}

/// The models of some functions.
pub open spec fn fn_models(fs: Seq<ContextFunction>) -> Seq<FunctionModel> {
    fs.map_values(|f: ContextFunction| f@)
}

/// Whether a variable of that name was created in the current scope or a
/// deeper one.
pub open spec fn clashes(f: FunctionModel, name: Seq<char>) -> bool {
    exists|i: int| 0 <= i < f.variables.len() && #[trigger] f.variables[i].name == name
        && f.variables[i].scope.value >= f.current_scope.value
}

/// The scopes whose variables are visible: the saved ones and the current one.
pub open spec fn visible_scopes(f: FunctionModel) -> Seq<usize> {
    f.scopes_id.push(f.current_scope.id)
}

/// Whether variable `v` is visible under `name`.
pub open spec fn visible(f: FunctionModel, v: VariableModel, name: Seq<char>) -> bool {
    v.name == name && visible_scopes(f).contains(v.scope.id)
}

/// The position of the first variable from `k` on that is visible under `name`.
pub open spec fn first_visible(f: FunctionModel, name: Seq<char>, k: int) -> Option<int>
    decreases f.variables.len() - k,
{
    if k < 0 || k >= f.variables.len() {
        None
    } else if visible(f, f.variables[k], name) {
        Some(k)
    } else {
        first_visible(f, name, k + 1)
    }
}

/// The function with the identity `id`.
pub open spec fn with_id(f: FunctionModel, id: usize) -> FunctionModel {
    FunctionModel { id, ..f }
}

/// The functions from position `k` on renumbered as `sort_function` does: a
/// function named `main` gets 0 and starts the count again at 0, each other
/// one gets the count, which then goes up by one.
pub open spec fn renumbered(fs: Seq<FunctionModel>, k: int, count: int) -> Seq<FunctionModel>
    decreases fs.len() - k,
{
    if k < 0 || k >= fs.len() {
        Seq::empty()
    } else if fs[k].name == "main"@ {
        seq![with_id(fs[k], 0)] + renumbered(fs, k + 1, 0)
    } else {
        seq![with_id(fs[k], count as usize)] + renumbered(fs, k + 1, count + 1)
    }
}

/// The last function named `main`, renumbered to 0.
pub open spec fn last_main(fs: Seq<FunctionModel>, k: int) -> Option<FunctionModel>
    decreases k,
{
    if k <= 0 || k > fs.len() {
        None
    } else if fs[k - 1].name == "main"@ {
        Some(with_id(fs[k - 1], 0))
    } else {
        last_main(fs, k - 1)
    }
}

pub proof fn lemma_renumbered_len(fs: Seq<FunctionModel>, k: int, count: int)
    requires
        0 <= k <= fs.len(),
    ensures
        renumbered(fs, k, count).len() == fs.len() - k,
    decreases fs.len() - k,
{
    if k < fs.len() {
        if fs[k].name == "main"@ {
            lemma_renumbered_len(fs, k + 1, 0);
        } else {
            lemma_renumbered_len(fs, k + 1, count + 1);
        }
    }
}


pub proof fn lemma_first_visible_some(f: FunctionModel, name: Seq<char>, k: int, j: int)
    requires
        0 <= k <= j < f.variables.len(),
        visible(f, f.variables[j], name),
    ensures
        first_visible(f, name, k) is Some,
    decreases j - k,
{
    if k < j && !visible(f, f.variables[k], name) {
        lemma_first_visible_some(f, name, k + 1, j);
    }
}

/// A created variable can be found: after `create_variable` succeeds, a
/// variable of that name is visible in the current scope.
pub proof fn law_created_variable_is_found(f: FunctionModel, name: Seq<char>, data_type: HlirDataType)
    ensures
        ({
            let f1 = FunctionModel {
                variables: f.variables.push(VariableModel { name, id: f.next_variable, data_type, scope: f.current_scope }),
                next_variable: (f.next_variable + 1) as usize,
                ..f
            };
            first_visible(f1, name, 0) is Some
        }),
{
    let f1 = FunctionModel {
        variables: f.variables.push(VariableModel { name, id: f.next_variable, data_type, scope: f.current_scope }),
        next_variable: (f.next_variable + 1) as usize,
        ..f
    };
    let j = f.variables.len() as int;
    assert(visible_scopes(f1)[f.scopes_id.len() as int] == f.current_scope.id);
    assert(visible(f1, f1.variables[j], name));
    lemma_first_visible_some(f1, name, 0, j);
}

/// What `sort_function` puts first is a function named `main` numbered 0.
pub proof fn law_sort_puts_main_first(fs: Seq<FunctionModel>, k: int)
    ensures
        last_main(renumbered(fs, 0, 0), k) matches Some(m) ==> m.name == "main"@ && m.id == 0,
    decreases k,
{
    if k > 0 && k <= renumbered(fs, 0, 0).len() && renumbered(fs, 0, 0)[k - 1].name != "main"@ {
        law_sort_puts_main_first(fs, k - 1);
    }
}

impl HlirContext {
    pub fn new() -> (r: HlirContext)
        ensures
            r.functions@.len() == 0,
            r.current_function == 0,
    {
        HlirContext { functions: Vec::new(), current_function: 0 }
    }

    /// Whether the current function is one of the context's.
    pub open spec fn wf(&self) -> bool {
        self.current_function < self.functions@.len()
    }

    /// The current function.
    pub open spec fn current(&self) -> FunctionModel {
        self.functions@[self.current_function as int]@
    }

    /// Creates a variable in the current scope of the current function; a
    /// variable of that name made in this scope or a deeper one is an error.
    pub fn create_variable(&mut self, name: String, data_type: HlirDataType) -> (r: Result<(), HlirError>)
        requires
            old(self).wf(),
            old(self).current().next_variable < usize::MAX,
        ensures
            final(self).current_function == old(self).current_function,
            final(self).functions@.len() == old(self).functions@.len(),
            forall|i: int| 0 <= i < old(self).functions@.len() && i != old(self).current_function
                ==> #[trigger] final(self).functions@[i]@ == old(self).functions@[i]@,
            clashes(old(self).current(), name@) ==> {
                &&& r == Err::<(), HlirError>(HlirError::VariableAlreadyExists(name, old(self).current().variables.len() as usize))
                &&& final(self).current() == old(self).current()
            },
            !clashes(old(self).current(), name@) ==> {
                &&& r is Ok
                &&& final(self).current() == (FunctionModel {
                        variables: old(self).current().variables.push(VariableModel {
                            name: name@,
                            id: old(self).current().next_variable,
                            data_type,
                            scope: old(self).current().current_scope,
                        }),
                        next_variable: (old(self).current().next_variable + 1) as usize,
                        ..old(self).current()
                    })
            },
    {
        let cur = self.current_function;
        let mut f = self.functions.remove(cur);
        let ghost f0 = f@;
        let n = f.variables.len();
        let mut k: usize = 0;
        while k < n
            invariant
                k <= n,
                n == f.variables@.len(),
                f@ == f0,
                cur == old(self).current_function,
                cur < old(self).functions@.len(),
                f == old(self).functions@[cur as int],
                self.functions@ == old(self).functions@.remove(cur as int),
                self.current_function == old(self).current_function,
                forall|i: int| 0 <= i < k ==> !(#[trigger] f0.variables[i].name == name@
                    && f0.variables[i].scope.value >= f0.current_scope.value),
            decreases n - k,
        {
            let v = &f.variables[k];
            assert(f0.variables[k as int] == v@);
            if v.name.eq(&name) && v.scope.value >= f.current_scope.value {
                self.functions.insert(cur, f);
                assert(self.functions@ =~= old(self).functions@);
                assert(f0.variables[k as int].name == name@ && f0.variables[k as int].scope.value >= f0.current_scope.value);
                assert(clashes(f0, name@));
                return Err(HlirError::VariableAlreadyExists(name, n));
            }
            k += 1;
        }
        let id = f.next_variable;
        let scope = f.current_scope;
        let ghost vs = f.variables@;
        f.variables.push(ContextVariable::new(name, id, data_type, scope));
        f.next_variable = f.next_variable + 1;
        assert(var_models(f.variables@) =~= var_models(vs).push(VariableModel { name: name@, id, data_type, scope }));
        self.functions.insert(cur, f);
        assert(self.functions@ =~= old(self).functions@.update(cur as int, f));
        Ok(())
    }

    /// Whether variable `k` of `f` is visible under `name`.
    fn is_visible(f: &ContextFunction, k: usize, name: &String) -> (r: bool)
        requires
            k < f@.variables.len(),
        ensures
            r == visible(f@, f@.variables[k as int], name@),
    {
        let v = &f.variables[k];
        assert(f@.variables[k as int] == v@);
        if !v.name.eq(name) {
            return false;
        }
        let mut j: usize = 0;
        while j < f.scopes_id.len()
            invariant
                j <= f.scopes_id@.len(),
                k < f@.variables.len(),
                f@.variables[k as int] == v@,
                v@.name == name@,
                visible_scopes(f@) == f.scopes_id@.push(f.current_scope.id),
                forall|i: int| 0 <= i < j ==> f.scopes_id@[i] != v.scope.id,
            decreases f.scopes_id@.len() - j,
        {
            if f.scopes_id[j] == v.scope.id {
                assert(visible_scopes(f@)[j as int] == v.scope.id);
                return true;
            }
            j += 1;
        }
        if f.current_scope.id == v.scope.id {
            assert(visible_scopes(f@)[f.scopes_id@.len() as int] == v.scope.id);
            return true;
        }
        assert(!visible_scopes(f@).contains(v.scope.id)) by {
            if visible_scopes(f@).contains(v.scope.id) {
                let i = choose|i: int| 0 <= i < visible_scopes(f@).len() && visible_scopes(f@)[i] == v.scope.id;
                if i < f.scopes_id@.len() {
                    assert(f.scopes_id@[i] == v.scope.id);
                }
            }
        }
        false
    }

    /// The position of the first variable of the current function visible
    /// under `name`.
    fn find_visible(&self, name: &String) -> (r: Option<usize>)
        requires
            self.wf(),
        ensures
            match r {
                Some(k) => first_visible(self.current(), name@, 0) == Some(k as int) && k < self.current().variables.len(),
                None => first_visible(self.current(), name@, 0) is None,
            },
    {
        let f = &self.functions[self.current_function];
        let n = f.variables.len();
        let mut k: usize = 0;
        while k < n
            invariant
                k <= n,
                n == f@.variables.len(),
                f@ == self.current(),
                first_visible(f@, name@, 0) == first_visible(f@, name@, k as int),
            decreases n - k,
        {
            if Self::is_visible(f, k, name) {
                return Some(k);
            }
            k += 1;
        }
        None
    }

    /// The identity of the first variable of the current function that is
    /// visible under `identifier`.
    pub fn get_variable_id(&self, identifier: String) -> (r: Result<usize, HlirError>)
        requires
            self.wf(),
        ensures
            match first_visible(self.current(), identifier@, 0) {
                Some(k) => r == Ok::<usize, HlirError>(self.current().variables[k].id),
                None => r == Err::<usize, HlirError>(HlirError::VariableNotFound(identifier, 0)),
            },
    {
        match self.find_visible(&identifier) {
            Some(k) => {
                let f = &self.functions[self.current_function];
                assert(f@.variables[k as int] == f.variables@[k as int]@);
                Ok(f.variables[k].id)
            },
            None => Err(HlirError::VariableNotFound(identifier, 0)),
        }
    }

    /// Whether a variable of the current function is visible under `identifier`.
    pub fn variable_exist(&self, identifier: String) -> (r: bool)
        requires
            self.wf(),
        ensures
            r == first_visible(self.current(), identifier@, 0) is Some,
    {
        self.find_visible(&identifier).is_some()
    }

    /// Enters a new scope of the current function: a fresh identity, one level
    /// deeper.
    pub fn create_scope(&mut self)
        requires
            old(self).wf(),
            old(self).current().current_scope.value < usize::MAX,
            old(self).current().next_scope < usize::MAX,
        ensures
            final(self).current_function == old(self).current_function,
            final(self).functions@.len() == old(self).functions@.len(),
            forall|i: int| 0 <= i < old(self).functions@.len() && i != old(self).current_function
                ==> #[trigger] final(self).functions@[i]@ == old(self).functions@[i]@,
            final(self).current() == (FunctionModel {
                current_scope: ContextScope {
                    id: old(self).current().next_scope,
                    value: (old(self).current().current_scope.value + 1) as usize,
                },
                next_scope: (old(self).current().next_scope + 1) as usize,
                ..old(self).current()
            }),
    {
        let cur = self.current_function;
        let mut f = self.functions.remove(cur);
        f.current_scope.id = f.next_scope;
        f.current_scope.value = f.current_scope.value + 1;
        f.next_scope = f.next_scope + 1;
        self.functions.insert(cur, f);
    }

    /// Leaves the current scope of the current function for the last saved one,
    /// one level up; with none saved, nothing changes.
    pub fn leave_scope(&mut self)
        requires
            old(self).wf(),
            old(self).current().scopes_id.len() > 0 ==> old(self).current().current_scope.value > 0,
        ensures
            final(self).current_function == old(self).current_function,
            final(self).functions@.len() == old(self).functions@.len(),
            forall|i: int| 0 <= i < old(self).functions@.len() && i != old(self).current_function
                ==> #[trigger] final(self).functions@[i]@ == old(self).functions@[i]@,
            final(self).current() == if old(self).current().scopes_id.len() > 0 {
                FunctionModel {
                    current_scope: ContextScope {
                        id: old(self).current().scopes_id.last(),
                        value: (old(self).current().current_scope.value - 1) as usize,
                    },
                    scopes_id: old(self).current().scopes_id.drop_last(),
                    ..old(self).current()
                }
            } else {
                old(self).current()
            },
    {
        let cur = self.current_function;
        let mut f = self.functions.remove(cur);
        if let Some(id) = f.scopes_id.pop() {
            f.current_scope.id = id;
            f.current_scope.value = f.current_scope.value - 1;
        }
        self.functions.insert(cur, f);
    }

    /// Renumbers the functions (see `renumbered`) and puts the last `main`
    /// first once more; with no `main`, `NoMainFunction`.
    pub fn sort_function(&mut self) -> (r: Result<(), HlirError>)
        ensures
            final(self).current_function == old(self).current_function,
            match last_main(renumbered(fn_models(old(self).functions@), 0, 0), old(self).functions@.len() as int) {
                Some(m) => r is Ok && fn_models(final(self).functions@)
                    == seq![m] + renumbered(fn_models(old(self).functions@), 0, 0),
                None => r == Err::<(), HlirError>(HlirError::NoMainFunction)
                    && fn_models(final(self).functions@) == renumbered(fn_models(old(self).functions@), 0, 0),
            },
    {
        let ghost fs0 = fn_models(self.functions@);
        let n0 = self.functions.len();
        let ghost rr = renumbered(fs0, 0, 0);
        let mut sorted_functions: Vec<ContextFunction> = Vec::new();
        let mut main_function: Option<ContextFunction> = None;
        let mut current_id: usize = 0;
        let ghost mut k: int = 0;
        assert(fs0.skip(0) =~= fs0);
        assert(fn_models(sorted_functions@) + renumbered(fs0, 0, 0) =~= rr);
        while self.functions.len() > 0
            invariant
                0 <= k <= n0,
                n0 == fs0.len(),
                self.current_function == old(self).current_function,
                rr == renumbered(fs0, 0, 0),
                fn_models(self.functions@) == fs0.skip(k),
                current_id <= k,
                fn_models(sorted_functions@) + renumbered(fs0, k, current_id as int) == rr,
                sorted_functions@.len() == k,
                match main_function {
                    Some(m) => last_main(rr, k) == Some(m@),
                    None => last_main(rr, k) is None,
                },
            decreases self.functions@.len(),
        {
            let ghost old_fns = self.functions@;
            assert(fn_models(old_fns).len() == fs0.skip(k).len());
            assert(k < n0);
            let mut function = self.functions.remove(0);
            assert(function@ == fn_models(old_fns)[0]);
            assert forall|i: int| 0 <= i < fn_models(self.functions@).len()
                implies #[trigger] fn_models(self.functions@)[i] == fs0.skip(k + 1)[i] by {
                assert(self.functions@[i] == old_fns[i + 1]);
                assert(fn_models(old_fns)[i + 1] == fs0.skip(k)[i + 1]);
            }
            assert(fn_models(self.functions@) =~= fs0.skip(k + 1));
            let ghost before = fn_models(sorted_functions@);
            let ghost cid = current_id as int;
            proof { lemma_renumbered_len(fs0, k, cid); }
            let main_name = String::from_str("main");
            if function.name.eq(&main_name) {
                function.id = 0;
                current_id = 0;
                main_function = Some(function.copy());
            } else {
                function.id = current_id;
                current_id = current_id + 1;
            }
            sorted_functions.push(function);
            proof {
                assert(renumbered(fs0, k, cid) =~= seq![function@] + renumbered(fs0, k + 1, current_id as int));
                assert(fn_models(sorted_functions@) =~= before.push(function@));
                assert(fn_models(sorted_functions@) + renumbered(fs0, k + 1, current_id as int)
                    =~= before + renumbered(fs0, k, cid));
                assert(rr[k] == function@) by {
                    assert((before + renumbered(fs0, k, cid))[k] == renumbered(fs0, k, cid)[0]);
                }
                k = k + 1;
            }
        }
        proof {
            assert(fn_models(self.functions@).len() == 0);
            assert(k == n0);
            assert(fn_models(sorted_functions@) =~= rr);
        }
        self.functions = sorted_functions;
        match main_function {
            Some(m) => {
                let ghost sorted = fn_models(self.functions@);
                self.functions.insert(0, m);
                assert(fn_models(self.functions@) =~= seq![m@] + sorted);
                Ok(())
            },
            None => Err(HlirError::NoMainFunction),
        }
    }
}

} // verus!
