//! The variable store: named, typed values, one under each name. It keeps
//! the stamps of a variable: the first `set` of a name stamps its creation
//! and its modification, a later one its modification only.

use crate::models::{now, Action, ActionView, TimespecDef, Variable, VariableView};
use vstd::prelude::*;

verus! {

/// The variables that a list holds, each under its name, a later one in
/// place of an earlier one of the same name.
pub open spec fn stored_of(s: Seq<Variable>) -> Map<Seq<char>, VariableView>
    decreases s.len(),
{
    if s.len() == 0 {
        Map::empty()
    } else {
        stored_of(s.drop_last()).insert(s.last()@.name, s.last()@)
    }
}

/// No two variables of `s` have the same name.
pub open spec fn distinct_names(s: Seq<Variable>) -> bool {
    forall|i: int, j: int| 0 <= i < j < s.len() ==> s[i]@.name != s[j]@.name
}

/// The id that follows `id`.
pub open spec fn next_id(id: i32) -> i32 {
    if id < i32::MAX {
        (id + 1) as i32
    } else {
        id
    }
}

/// What stands under the name of `variable` once it was set at the time
/// `at`, where `last_id` was the id given last.
pub open spec fn stored_after_set(
    stored: Map<Seq<char>, VariableView>,
    last_id: i32,
    variable: VariableView,
    at: TimespecDef,
) -> VariableView {
    if stored.contains_key(variable.name) {
        VariableView { value: variable.value, time_modified: at, ..stored[variable.name] }
    } else {
        VariableView {
            id: next_id(last_id),
            time_created: at,
            time_modified: at,
            name: variable.name,
            value: variable.value,
        }
    }
}

/// The names of a store are those of the variables it was made of.
pub proof fn lemma_stored_keys(s: Seq<Variable>, name: Seq<char>)
    ensures
        stored_of(s).contains_key(name) <==> exists|i: int|
            0 <= i < s.len() && #[trigger] s[i]@.name == name,
    decreases s.len(),
{
    if s.len() > 0 {
        let head = s.drop_last();
        lemma_stored_keys(head, name);
        if stored_of(s).contains_key(name) {
            if s.last()@.name == name {
                assert(s[s.len() - 1]@.name == name);
            } else {
                let i = choose|i: int| 0 <= i < head.len() && #[trigger] head[i]@.name == name;
                assert(s[i]@.name == name);
            }
        }
        if exists|i: int| 0 <= i < s.len() && #[trigger] s[i]@.name == name {
            let i = choose|i: int| 0 <= i < s.len() && #[trigger] s[i]@.name == name;
            if i < s.len() - 1 {
                assert(head[i]@.name == name);
            }
        }
    }
}

/// Where no name occurs twice, each variable stands under its name.
pub proof fn lemma_stored_value(s: Seq<Variable>, i: int)
    requires
        distinct_names(s),
        0 <= i < s.len(),
    ensures
        stored_of(s).contains_key(s[i]@.name),
        stored_of(s)[s[i]@.name] == s[i]@,
    decreases s.len(),
{
    if i < s.len() - 1 {
        let head = s.drop_last();
        assert(head[i] == s[i]);
        lemma_stored_value(head, i);
    }
}

proof fn lemma_stored_update(s: Seq<Variable>, i: int, v: Variable)
    requires
        distinct_names(s),
        0 <= i < s.len(),
        s[i]@.name == v@.name,
    ensures
        distinct_names(s.update(i, v)),
        stored_of(s.update(i, v)) =~= stored_of(s).insert(v@.name, v@),
    decreases s.len(),
{
    let u = s.update(i, v);
    let head = s.drop_last();
    if i == s.len() - 1 {
        assert(u.drop_last() =~= head);
    } else {
        assert(head[i] == s[i]);
        lemma_stored_update(head, i, v);
        assert(u.drop_last() =~= head.update(i, v));
        assert(u.last() == s.last());
        assert(s[s.len() - 1]@.name != s[i]@.name);
    }
}

proof fn lemma_stored_remove(s: Seq<Variable>, i: int)
    requires
        distinct_names(s),
        0 <= i < s.len(),
    ensures
        distinct_names(s.remove(i)),
        stored_of(s.remove(i)) =~= stored_of(s).remove(s[i]@.name),
    decreases s.len(),
{
    let r = s.remove(i);
    let head = s.drop_last();
    if i == s.len() - 1 {
        assert(r =~= head);
        assert forall|t: Seq<char>| stored_of(head).contains_key(t) implies t != s[i]@.name by {
            lemma_stored_keys(head, t);
        }
    } else {
        assert(head[i] == s[i]);
        lemma_stored_remove(head, i);
        assert(r.drop_last() =~= head.remove(i));
        assert(r.last() == s.last());
        assert(s[s.len() - 1]@.name != s[i]@.name);
    }
}

/// The variable store.
pub struct VariableStore {
    variables: Vec<Variable>,
    last_id: i32,
}

impl View for VariableStore {
    type V = Map<Seq<char>, VariableView>;

    closed spec fn view(&self) -> Map<Seq<char>, VariableView> {
        stored_of(self.variables@)
    }
}

impl VariableStore {
    /// No name is stored twice. Every store that this module hands out is
    /// well formed, and its methods keep it so.
    pub closed spec fn wf(&self) -> bool {
        distinct_names(self.variables@)
    }

    /// The id that was given last.
    pub closed spec fn last_id(&self) -> i32 {
        self.last_id
    }

    /// The number of variables stored.
    pub closed spec fn count(&self) -> nat {
        self.variables@.len()
    }

    /// An empty store.
    pub fn new() -> (r: VariableStore)
        ensures
            r.wf(),
            r@ == Map::<Seq<char>, VariableView>::empty(),
            r.last_id() == 0,
    {
        VariableStore { variables: Vec::new(), last_id: 0 }
    }

    fn position(&self, name: &str) -> (r: Option<usize>)
        ensures
            r is Some == self@.contains_key(name@),
            r is Some ==> r->0 < self.variables.len() && self.variables@[r->0 as int]@.name
                == name@,
    {
        let wanted = name.to_string();
        let mut i: usize = 0;
        while i < self.variables.len()
            invariant
                i <= self.variables.len(),
                wanted@ == name@,
                forall|j: int| 0 <= j < i ==> self.variables@[j]@.name != name@,
            decreases self.variables.len() - i,
        {
            if self.variables[i].name == wanted {
                proof {
                    lemma_stored_keys(self.variables@, name@);
                    assert(self.variables@[i as int]@.name == name@);
                }
                return Some(i);
            }
            i = i + 1;
        }
        proof {
            lemma_stored_keys(self.variables@, name@);
        }
        None
    }

    /// The variable stored under `name`, if there is one.
    pub fn get_variable(&self, name: &str) -> (r: Option<Variable>)
        requires
            self.wf(),
        ensures
            r is Some == self@.contains_key(name@),
            r is Some ==> r->0@ == self@[name@],
    {
        match self.position(name) {
            Some(i) => {
                proof {
                    lemma_stored_value(self.variables@, i as int);
                }
                Some(self.variables[i].clone())
            },
            None => None,
        }
    }

    /// The stored variables, each once, in no stated order.
    pub fn get_variables(&self) -> (r: Vec<Variable>)
        requires
            self.wf(),
        ensures
            stored_of(r@) == self@,
            distinct_names(r@),
            r.len() == self.count(),
    {
        let mut r: Vec<Variable> = Vec::new();
        let mut i: usize = 0;
        while i < self.variables.len()
            invariant
                i <= self.variables.len(),
                r.len() == i,
                forall|j: int| 0 <= j < i ==> r@[j]@ == self.variables@[j]@,
                stored_of(r@) == stored_of(self.variables@.subrange(0, i as int)),
            decreases self.variables.len() - i,
        {
            let ghost before = r@;
            r.push(self.variables[i].clone());
            i = i + 1;
            assert(r@.drop_last() =~= before);
            assert(self.variables@.subrange(0, i as int).drop_last()
                =~= self.variables@.subrange(0, i - 1));
        }
        assert(self.variables@.subrange(0, i as int) =~= self.variables@);
        r
    }

    /// Stores the value of `variable` under its name, stamped with the time
    /// `at`. A name that is new gets the next id and `at` as its creation
    /// time; a name that is stored keeps its id and its creation time.
    pub fn set_variable_at(&mut self, variable: &Variable, at: TimespecDef)
        requires
            old(self).wf(),
        ensures
            final(self).wf(),
            final(self)@ == old(self)@.insert(
                variable@.name,
                stored_after_set(old(self)@, old(self).last_id(), variable@, at),
            ),
            final(self).last_id() == if old(self)@.contains_key(variable@.name) {
                old(self).last_id()
            } else {
                next_id(old(self).last_id())
            },
    {
        match self.position(variable.name.as_str()) {
            Some(i) => {
                let stored = &self.variables[i];
                let v = Variable {
                    id: stored.id,
                    time_created: stored.time_created,
                    time_modified: at,
                    name: stored.name.clone(),
                    value: variable.value.clone(),
                };
                proof {
                    lemma_stored_value(self.variables@, i as int);
                    lemma_stored_update(self.variables@, i as int, v);
                }
                self.variables.set(i, v);
            },
            None => {
                let id = if self.last_id < i32::MAX {
                    self.last_id + 1
                } else {
                    self.last_id
                };
                let v = Variable {
                    id,
                    time_created: at,
                    time_modified: at,
                    name: variable.name.clone(),
                    value: variable.value.clone(),
                };
                proof {
                    assert forall|j: int| 0 <= j < self.variables@.len() implies self.variables@[j]@.name
                        != v@.name by {
                        lemma_stored_keys(self.variables@, v@.name);
                    }
                    assert(self.variables@.push(v).drop_last() =~= self.variables@);
                }
                self.variables.push(v);
                self.last_id = id;
            },
        }
    }

    /// Stores the value of `variable` under its name, stamped with the
    /// current time.
    pub fn set_variable(&mut self, variable: &Variable)
        requires
            old(self).wf(),
        ensures
            final(self).wf(),
            exists|at: TimespecDef|
                final(self)@ == old(self)@.insert(
                    variable@.name,
                    #[trigger] stored_after_set(old(self)@, old(self).last_id(), variable@, at),
                ),
    {
        let at = now();
        self.set_variable_at(variable, at);
    }

    /// Removes what is stored under the name of `variable`; says whether
    /// there was something.
    pub fn delete_variable(&mut self, variable: &Variable) -> (r: bool)
        requires
            old(self).wf(),
        ensures
            final(self).wf(),
            r == old(self)@.contains_key(variable@.name),
            final(self)@ == old(self)@.remove(variable@.name),
            final(self).last_id() == old(self).last_id(),
    {
        match self.position(variable.name.as_str()) {
            Some(i) => {
                proof {
                    lemma_stored_remove(self.variables@, i as int);
                }
                self.variables.remove(i);
                true
            },
            None => {
                assert(self@.remove(variable@.name) =~= self@);
                false
            },
        }
    }
}

/// The store once `action` was written to it at the time `at`: a variable
/// that is added or edited is set, one that is deleted is removed, and an
/// action on a command leaves the store as it is.
pub open spec fn written(
    stored: Map<Seq<char>, VariableView>,
    last_id: i32,
    action: ActionView,
    at: TimespecDef,
) -> Map<Seq<char>, VariableView> {
    match action {
        ActionView::AddVariable(v) => stored.insert(
            v.name,
            stored_after_set(stored, last_id, v, at),
        ),
        ActionView::EditVariable(v, _) => stored.insert(
            v.name,
            stored_after_set(stored, last_id, v, at),
        ),
        ActionView::DeleteVariable(v) => stored.remove(v.name),
        _ => stored,
    }
}

impl VariableStore {
    /// Writes an accepted action to the store, stamped with the time `at`.
    pub fn write_at(&mut self, action: &Action, at: TimespecDef)
        requires
            old(self).wf(),
        ensures
            final(self).wf(),
            final(self)@ == written(old(self)@, old(self).last_id(), action@, at),
    {
        match action {
            Action::AddVariable(v) => self.set_variable_at(v, at),
            Action::EditVariable(v, _) => self.set_variable_at(v, at),
            Action::DeleteVariable(v) => {
                self.delete_variable(v);
            },
            _ => {},
        }
    }

    /// Writes an accepted action to the store, stamped with the current
    /// time.
    pub fn write(&mut self, action: &Action)
        requires
            old(self).wf(),
        ensures
            final(self).wf(),
            exists|at: TimespecDef|
                final(self)@ == #[trigger] written(old(self)@, old(self).last_id(), action@, at),
    {
        let at = now();
        self.write_at(action, at);
    }
}

/// What was set is what is read: after `set`, the name holds the value that
/// was set, whatever stood there before.
pub proof fn lemma_set_then_get(
    stored: Map<Seq<char>, VariableView>,
    last_id: i32,
    variable: VariableView,
    at: TimespecDef,
)
    ensures
        ({
            let after = stored.insert(
                variable.name,
                stored_after_set(stored, last_id, variable, at),
            );
            &&& after.contains_key(variable.name)
            &&& after[variable.name].value == variable.value
            &&& after[variable.name].time_modified == at
            &&& forall|other: Seq<char>|
                other != variable.name ==> (after.contains_key(other) == stored.contains_key(other))
                    && (stored.contains_key(other) ==> after[other] == stored[other])
        }),
{
}

} // verus!
