use vstd::prelude::*;
use vstd::hash_map::StringHashMap;
use vstd::string::StringExecFns;
use crate::pretty::{val_text, show_val};
use crate::value::{Val, Type};

verus! {

/// Whether `order` lists each variable of `m` exactly once.
pub open spec fn lists_each_once(order: Seq<Seq<char>>, m: Map<Seq<char>, Val>) -> bool {
    &&& order.no_duplicates()
    &&& forall|k: Seq<char>| m.contains_key(k) <==> order.contains(k)
}

/// `<name>: <value>` for the variable `k` of `m`.
pub open spec fn binding_text(k: Seq<char>, m: Map<Seq<char>, Val>) -> Seq<char> {
    k + ": "@ + val_text(m[k])
}

/// The bindings of the variables of `order` in `m`, in that order, joined by
/// `, `.
pub open spec fn bindings_text(order: Seq<Seq<char>>, m: Map<Seq<char>, Val>) -> Seq<char>
    decreases order.len(),
{
    if order.len() == 0 {
        Seq::empty()
    } else if order.len() == 1 {
        binding_text(order[0], m)
    } else {
        bindings_text(order.drop_last(), m) + ", "@ + binding_text(order.last(), m)
    }
}

/// `state: {<bindings>}` with the bindings of `m` in the order `order`.
pub open spec fn state_text(order: Seq<Seq<char>>, m: Map<Seq<char>, Val>) -> Seq<char> {
    "state: {"@ + bindings_text(order, m) + "}"@
}

/// The text of each string of `v`.
pub open spec fn names_of(v: Seq<String>) -> Seq<Seq<char>> {
    v.map_values(|s: String| s@)
}

/// The runtime environment: the current value of each declared variable.
/// It also keeps the declared names in the order of their first
/// declaration, each once.
pub struct ValState {
    map: StringHashMap<Val>,
    names: Vec<String>,
}

impl View for ValState {
    type V = Map<Seq<char>, Val>;

    closed spec fn view(&self) -> Map<Seq<char>, Val> {
        self.map@
    }
}

impl ValState {
    /// The declared names are listed each once, and they are exactly the
    /// variables of the environment.
    pub closed spec fn wf(&self) -> bool {
        lists_each_once(names_of(self.names@), self.map@)
    }

    /// An environment in which nothing is declared.
    pub fn new() -> (r: ValState)
        ensures
            r@ == Map::<Seq<char>, Val>::empty(),
            r.wf(),
    {
        let r = ValState { map: StringHashMap::new(), names: Vec::new() };
        assert(names_of(r.names@) =~= Seq::<Seq<char>>::empty());
        r
    }

    /// The value bound to `name`, if it is declared.
    pub fn get(&self, name: &str) -> (r: Option<Val>)
        ensures
            r == (if self@.contains_key(name@) { Some(self@[name@]) } else { None::<Val> }),
    {
        match self.map.get(name) {
            Some(v) => Some(*v),
            None => None,
        }
    }

    /// Binds `name` to `v`, replacing any earlier binding.
    pub fn insert(&mut self, name: String, v: Val)
        requires
            old(self).wf(),
        ensures
            final(self)@ == old(self)@.insert(name@, v),
            final(self).wf(),
    {
        let ghost before = names_of(self.names@);
        let ghost key = name@;
        if !self.map.contains_key(name.as_str()) {
            self.names.push(name.clone());
            proof {
                let after = before.push(key);
                assert(names_of(self.names@) =~= after);
                assert(!before.contains(key));
                assert forall|i: int, j: int| 0 <= i < after.len() && 0 <= j < after.len() && i != j implies after[i]
                    != after[j] by {
                    if i < before.len() && j < before.len() {
                    } else if i == before.len() {
                        assert(before.contains(after[j]));
                    } else {
                        assert(before.contains(after[i]));
                    }
                }
                assert forall|k: Seq<char>| old(self).map@.insert(key, v).contains_key(k) <==> after.contains(k) by {
                    if k != key && before.contains(k) {
                        let i = choose|i: int| 0 <= i < before.len() && before[i] == k;
                        assert(after[i] == k);
                    }
                    if after.contains(k) && k != key {
                        let i = choose|i: int| 0 <= i < after.len() && after[i] == k;
                        assert(before[i] == k);
                    }
                    assert(after[before.len() as int] == key);
                }
            }
        }
        self.map.insert(name, v);
        assert(lists_each_once(names_of(self.names@), self.map@));
    }

    /// The number of declared variables.
    pub fn len(&self) -> (r: usize)
        ensures
            r == self@.len(),
    {
        self.map.len()
    }

    /// `state: {<name>: <value>, ...}`, listing each declared variable once,
    /// in the order of its first declaration.
    pub fn show_state(&self) -> (r: String)
        requires
            self.wf(),
        ensures
            exists|order: Seq<Seq<char>>| lists_each_once(order, self@) && r@ == state_text(order, self@),
    {
        let ghost order = names_of(self.names@);
        let mut r = String::new();
        r.append("state: {");
        assert(order.take(0) =~= Seq::<Seq<char>>::empty());
        assert(r@ =~= "state: {"@ + bindings_text(order.take(0), self@));
        let mut i: usize = 0;
        while i < self.names.len()
            invariant
                i <= self.names@.len(),
                order == names_of(self.names@),
                lists_each_once(order, self@),
                r@ == "state: {"@ + bindings_text(order.take(i as int), self@),
            decreases self.names@.len() - i,
        {
            let ghost before = r@;
            if i > 0 {
                r.append(", ");
            }
            let name = &self.names[i];
            assert(order[i as int] == name@);
            assert(order.contains(name@));
            r.append(name.as_str());
            r.append(": ");
            let v = match self.map.get(name.as_str()) {
                Some(v) => *v,
                None => Val::Undefined,
            };
            let t = show_val(v);
            r.append(t.as_str());
            proof {
                let next = order.take(i as int + 1);
                assert(next.drop_last() =~= order.take(i as int));
                assert(next.last() == name@);
                if i == 0 {
                    assert(r@ =~= "state: {"@ + bindings_text(next, self@));
                } else {
                    assert(r@ =~= "state: {"@ + bindings_text(next, self@));
                }
            }
            i = i + 1;
        }
        r.append("}");
        assert(order.take(self.names@.len() as int) =~= order);
        assert(r@ =~= state_text(order, self@));
        r
    }
}

/// The static environment: the inferred type of each declared variable.
pub struct TyState {
    map: StringHashMap<Type>,
}

impl View for TyState {
    type V = Map<Seq<char>, Type>;

    closed spec fn view(&self) -> Map<Seq<char>, Type> {
        self.map@
    }
}

impl TyState {
    /// An environment in which nothing is declared.
    pub fn new() -> (r: TyState)
        ensures
            r@ == Map::<Seq<char>, Type>::empty(),
    {
        TyState { map: StringHashMap::new() }
    }

    /// The type bound to `name`, if it is declared.
    pub fn get(&self, name: &str) -> (r: Option<Type>)
        ensures
            r == (if self@.contains_key(name@) { Some(self@[name@]) } else { None::<Type> }),
    {
        match self.map.get(name) {
            Some(t) => Some(*t),
            None => None,
        }
    }

    /// Binds `name` to `t`, replacing any earlier binding.
    pub fn insert(&mut self, name: String, t: Type)
        ensures
            final(self)@ == old(self)@.insert(name@, t),
    {
        self.map.insert(name, t);
    }

    /// The number of declared variables.
    pub fn len(&self) -> (r: usize)
        ensures
            r == self@.len(),
    {
        self.map.len()
    }
}

} // verus!
