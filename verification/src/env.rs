//! The type environment: a stack of scopes mapping names to bindings. A name
//! resolves to its binding in the innermost scope that defines it; defining a
//! name again in the same scope replaces the binding, and in an inner scope
//! shadows it until that scope is popped. The outermost scope is never
//! popped.

use crate::unify::{Ty, TyModel};
use vstd::prelude::*;

verus! {

/// Whether a binding may be assigned to (`var`) or not (`val`).
#[derive(Debug, Clone, Copy, PartialEq, Eq, Structural)]
pub enum Mutability {
    Immutable,
    Mutable,
}

/// What a name is bound to: its type, its definition, and its mutability.
pub struct BindingInfo {
    pub ty: Ty,
    pub def_id: usize,
    pub mutability: Mutability,
}

/// The value of a binding.
pub type BindingModel = (TyModel, nat, Mutability);

/// The value of a binding.
pub open spec fn binding_model(b: BindingInfo) -> BindingModel {
    (b.ty@, b.def_id as nat, b.mutability)
}

/// One scope: its bindings, each name at most once.
struct Scope {
    bindings: Vec<(String, BindingInfo)>,
}

/// The bindings a list of entries makes, later entries taking precedence.
pub open spec fn bindings_map(es: Seq<(String, BindingInfo)>) -> Map<Seq<char>, BindingModel>
    decreases es.len(),
{
    if es.len() == 0 {
        Map::empty()
    } else {
        bindings_map(es.drop_last()).insert(es.last().0@, binding_model(es.last().1))
    }
}

/// No name is bound twice.
pub open spec fn names_distinct(es: Seq<(String, BindingInfo)>) -> bool {
    forall|i: int, j: int| 0 <= i < j < es.len() ==> (#[trigger] es[i]).0@ != (#[trigger] es[j]).0@
}

/// An entry's binding is in the map.
proof fn lemma_bindings_lookup(es: Seq<(String, BindingInfo)>, i: int)
    requires
        names_distinct(es),
        0 <= i < es.len(),
    ensures
        bindings_map(es).contains_key(es[i].0@),
        bindings_map(es)[es[i].0@] == binding_model(es[i].1),
    decreases es.len(),
{
    if i < es.len() - 1 {
        assert(names_distinct(es.drop_last()));
        lemma_bindings_lookup(es.drop_last(), i);
        assert(es[i].0@ != es[es.len() - 1].0@);
    }
}

/// A name no entry binds is not in the map.
proof fn lemma_bindings_absent(es: Seq<(String, BindingInfo)>, k: Seq<char>)
    requires
        forall|i: int| 0 <= i < es.len() ==> (#[trigger] es[i]).0@ != k,
    ensures
        !bindings_map(es).contains_key(k),
    decreases es.len(),
{
    if es.len() > 0 {
        lemma_bindings_absent(es.drop_last(), k);
    }
}

/// Replacing the entry of a name rebinds that name.
proof fn lemma_bindings_update(es: Seq<(String, BindingInfo)>, i: int, e: (String, BindingInfo))
    requires
        names_distinct(es),
        0 <= i < es.len(),
        e.0@ == es[i].0@,
    ensures
        bindings_map(es.update(i, e)) == bindings_map(es).insert(e.0@, binding_model(e.1)),
    decreases es.len(),
{
    let n = es.len() - 1;
    if i == n {
        assert(es.update(i, e).drop_last() =~= es.drop_last());
        assert(bindings_map(es.update(i, e)) =~= bindings_map(es).insert(e.0@, binding_model(e.1)));
    } else {
        assert(names_distinct(es.drop_last()));
        lemma_bindings_update(es.drop_last(), i, e);
        assert(es.update(i, e).drop_last() =~= es.drop_last().update(i, e));
        assert(es.update(i, e).last() == es.last());
        assert(es[i].0@ != es[n].0@);
        assert(bindings_map(es.update(i, e)) =~= bindings_map(es).insert(e.0@, binding_model(e.1)));
    }
}

impl Scope {
    /// An empty scope.
    fn new() -> (s: Scope)
        ensures
            s.bindings@ == Seq::<(String, BindingInfo)>::empty(),
    {
        Scope { bindings: Vec::new() }
    }

    /// Bind `name`, replacing an earlier binding of it in this scope.
    fn insert(&mut self, name: String, info: BindingInfo)
        requires
            names_distinct(old(self).bindings@),
        ensures
            names_distinct(final(self).bindings@),
            bindings_map(final(self).bindings@) == bindings_map(old(self).bindings@).insert(
                name@,
                binding_model(info),
            ),
    {
        let mut i: usize = 0;
        while i < self.bindings.len()
            invariant
                0 <= i <= self.bindings.len(),
                self.bindings@ == old(self).bindings@,
                names_distinct(self.bindings@),
                forall|j: int| 0 <= j < i ==> (#[trigger] self.bindings@[j]).0@ != name@,
            decreases self.bindings.len() - i,
        {
            if self.bindings[i].0 == name {
                let ghost es = self.bindings@;
                let ghost e = (name, info);
                proof {
                    lemma_bindings_update(es, i as int, e);
                }
                self.bindings.set(i, (name, info));
                proof {
                    assert(self.bindings@ == es.update(i as int, e));
                    assert forall|a: int, b: int|
                        0 <= a < b < self.bindings@.len() implies (#[trigger] self.bindings@[a]).0@
                        != (#[trigger] self.bindings@[b]).0@ by {
                        assert(es[a].0@ != es[b].0@);
                        assert(self.bindings@[a].0@ == es[a].0@);
                        assert(self.bindings@[b].0@ == es[b].0@);
                    }
                }
                return ;
            }
            i = i + 1;
        }
        let ghost es = self.bindings@;
        self.bindings.push((name, info));
        proof {
            assert(self.bindings@.drop_last() =~= es);
        }
    }

    /// The binding of `name` in this scope, if any.
    fn get(&self, name: &String) -> (r: Option<&BindingInfo>)
        requires
            names_distinct(self.bindings@),
        ensures
            r is Some <==> bindings_map(self.bindings@).contains_key(name@),
            r matches Some(b) ==> binding_model(*b) == bindings_map(self.bindings@)[name@],
    {
        let mut i: usize = 0;
        while i < self.bindings.len()
            invariant
                0 <= i <= self.bindings.len(),
                names_distinct(self.bindings@),
                forall|j: int| 0 <= j < i ==> (#[trigger] self.bindings@[j]).0@ != name@,
            decreases self.bindings.len() - i,
        {
            if self.bindings[i].0 == *name {
                proof {
                    lemma_bindings_lookup(self.bindings@, i as int);
                }
                return Some(&self.bindings[i].1);
            }
            i = i + 1;
        }
        proof {
            lemma_bindings_absent(self.bindings@, name@);
        }
        None
    }
}

/// The binding a name resolves to in a stack of scopes: that of the innermost
/// scope binding it.
pub open spec fn resolve(scopes: Seq<Map<Seq<char>, BindingModel>>, name: Seq<char>) -> Option<
    BindingModel,
>
    decreases scopes.len(),
{
    if scopes.len() == 0 {
        None
    } else if scopes.last().contains_key(name) {
        Some(scopes.last()[name])
    } else {
        resolve(scopes.drop_last(), name)
    }
}

/// The type environment: a stack of scopes, innermost last.
pub struct TypeEnv {
    scopes: Vec<Scope>,
}

impl View for TypeEnv {
    type V = Seq<Map<Seq<char>, BindingModel>>;

    closed spec fn view(&self) -> Seq<Map<Seq<char>, BindingModel>> {
        self.scopes@.map_values(|s: Scope| bindings_map(s.bindings@))
    }
}

impl TypeEnv {
    /// The environment's invariant: at least one scope, and no name bound
    /// twice in a scope.
    pub closed spec fn wf(&self) -> bool {
        &&& self.scopes@.len() > 0
        &&& forall|i: int| 0 <= i < self.scopes@.len() ==> names_distinct(#[trigger] self.scopes@[i].bindings@)
    }

    /// An environment with one empty scope.
    pub fn new() -> (env: TypeEnv)
        ensures
            env.wf(),
            env@ == seq![Map::<Seq<char>, BindingModel>::empty()],
    {
        let env = TypeEnv { scopes: vec![Scope::new()] };
        proof {
            assert(env@ =~= seq![Map::<Seq<char>, BindingModel>::empty()]);
        }
        env
    }

    /// Open a new, empty innermost scope.
    pub fn push_scope(&mut self)
        requires
            old(self).wf(),
        ensures
            final(self).wf(),
            final(self)@ == old(self)@.push(Map::empty()),
    {
        self.scopes.push(Scope::new());
        proof {
            assert(self@ =~= old(self)@.push(Map::empty()));
        }
    }

    /// Close the innermost scope; the outermost scope stays.
    pub fn pop_scope(&mut self)
        requires
            old(self).wf(),
        ensures
            final(self).wf(),
            old(self)@.len() > 1 ==> final(self)@ == old(self)@.drop_last(),
            old(self)@.len() == 1 ==> final(self)@ == old(self)@,
    {
        if self.scopes.len() > 1 {
            self.scopes.pop();
            proof {
                assert(self@ =~= old(self)@.drop_last());
            }
        }
    }

    /// Bind `name` in the innermost scope, replacing a binding of it there.
    pub fn define(&mut self, name: String, ty: Ty, def_id: usize, mutability: Mutability)
        requires
            old(self).wf(),
        ensures
            final(self).wf(),
            final(self)@ == old(self)@.update(
                old(self)@.len() - 1,
                old(self)@.last().insert(name@, (ty@, def_id as nat, mutability)),
            ),
    {
        let mut scope = self.scopes.pop().unwrap();
        let ghost rest = self.scopes@;
        scope.insert(name, BindingInfo { ty, def_id, mutability });
        self.scopes.push(scope);
        proof {
            assert(self.scopes@.drop_last() =~= rest);
            assert(self@ =~= old(self)@.update(
                old(self)@.len() - 1,
                old(self)@.last().insert(name@, (ty@, def_id as nat, mutability)),
            ));
        }
    }

    /// The binding `name` resolves to: that of the innermost scope binding it.
    pub fn lookup(&self, name: &str) -> (r: Option<&BindingInfo>)
        requires
            self.wf(),
        ensures
            r is Some <==> resolve(self@, name@) is Some,
            r matches Some(b) ==> resolve(self@, name@) == Some(binding_model(*b)),
    {
        let key = name.to_owned();
        let mut i = self.scopes.len();
        proof {
            assert(self@.take(i as int) =~= self@);
        }
        while i > 0
            invariant
                0 <= i <= self.scopes.len(),
                self.wf(),
                key@ == name@,
                resolve(self@, name@) == resolve(self@.take(i as int), name@),
            decreases i,
        {
            let ghost pre = self@.take(i as int);
            proof {
                assert(pre.drop_last() =~= self@.take(i - 1));
                assert(pre.last() == bindings_map(self.scopes@[i - 1].bindings@));
            }
            match self.scopes[i - 1].get(&key) {
                Some(info) => {
                    return Some(info);
                },
                None => {},
            }
            i = i - 1;
        }
        None
    }
}

/// A name just defined resolves to its new binding.
pub proof fn lemma_define_then_resolve(
    scopes: Seq<Map<Seq<char>, BindingModel>>,
    name: Seq<char>,
    b: BindingModel,
)
    requires
        scopes.len() > 0,
    ensures
        resolve(scopes.update(scopes.len() - 1, scopes.last().insert(name, b)), name) == Some(b),
{
}

/// Defining one name leaves every other name resolving as before.
pub proof fn lemma_define_leaves_others(
    scopes: Seq<Map<Seq<char>, BindingModel>>,
    name: Seq<char>,
    other: Seq<char>,
    b: BindingModel,
)
    requires
        scopes.len() > 0,
        other != name,
    ensures
        resolve(scopes.update(scopes.len() - 1, scopes.last().insert(name, b)), other) == resolve(
            scopes,
            other,
        ),
{
    let s2 = scopes.update(scopes.len() - 1, scopes.last().insert(name, b));
    assert(s2.drop_last() =~= scopes.drop_last());
}

/// Opening a scope and closing it again leaves every name resolving as
/// before; a name resolves in a fresh inner scope as it did outside it.
pub proof fn lemma_push_scope_resolves_outer(scopes: Seq<Map<Seq<char>, BindingModel>>, name: Seq<char>)
    ensures
        resolve(scopes.push(Map::empty()), name) == resolve(scopes, name),
        scopes.push(Map::empty()).drop_last() == scopes,
{
    assert(scopes.push(Map::empty()).drop_last() =~= scopes);
}

} // verus!
