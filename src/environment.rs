use vstd::prelude::*;
use crate::ast::Expression;

verus! {

/// The variable bindings of an interpreter: each name is bound to the
/// expression most recently given to it, unevaluated.
#[derive(Debug)]
pub struct Environment {
    entries: Vec<(String, Expression)>,
}

/// The map that a sequence of bindings stands for; a later entry wins.
pub open spec fn bindings_map(s: Seq<(String, Expression)>) -> Map<Seq<char>, Expression>
    decreases s.len(),
{
    if s.len() == 0 {
        Map::empty()
    } else {
        bindings_map(s.drop_last()).insert(s.last().0@, s.last().1)
    }
}

/// No name is bound twice.
pub open spec fn names_unique(s: Seq<(String, Expression)>) -> bool {
    forall|i: int, j: int| 0 <= i < j < s.len() ==> s[i].0@ != s[j].0@
}

proof fn lemma_bindings_absent(s: Seq<(String, Expression)>, k: Seq<char>)
    requires
        forall|i: int| 0 <= i < s.len() ==> s[i].0@ != k,
    ensures
        !bindings_map(s).contains_key(k),
    decreases s.len(),
{
    if s.len() > 0 {
        lemma_bindings_absent(s.drop_last(), k);
    }
}

proof fn lemma_bindings_present(s: Seq<(String, Expression)>, i: int)
    requires
        names_unique(s),
        0 <= i < s.len(),
    ensures
        bindings_map(s).contains_key(s[i].0@),
        bindings_map(s)[s[i].0@] == s[i].1,
    decreases s.len(),
{
    if i < s.len() - 1 {
        lemma_bindings_present(s.drop_last(), i);
    }
}

proof fn lemma_bindings_len(s: Seq<(String, Expression)>)
    requires
        names_unique(s),
    ensures
        bindings_map(s).dom().finite(),
        bindings_map(s).dom().len() == s.len(),
    decreases s.len(),
{
    if s.len() > 0 {
        let p = s.drop_last();
        lemma_bindings_len(p);
        lemma_bindings_absent(p, s.last().0@);
    }
}

proof fn lemma_bindings_update(s: Seq<(String, Expression)>, i: int, b: (String, Expression))
    requires
        names_unique(s),
        0 <= i < s.len(),
        s[i].0@ == b.0@,
    ensures
        names_unique(s.update(i, b)),
        bindings_map(s.update(i, b)) == bindings_map(s).insert(b.0@, b.1),
{
    let t = s.update(i, b);
    assert forall|x: int| 0 <= x < s.len() implies #[trigger] t[x].0@ == s[x].0@ by {}
    assert(names_unique(t));
    let m = bindings_map(s).insert(b.0@, b.1);
    assert forall|k: Seq<char>|
        #[trigger] bindings_map(t).contains_key(k) == m.contains_key(k) && (m.contains_key(k)
            ==> bindings_map(t)[k] == m[k]) by {
        if exists|j: int| 0 <= j < s.len() && s[j].0@ == k {
            let j = choose|j: int| 0 <= j < s.len() && s[j].0@ == k;
            lemma_bindings_present(s, j);
            lemma_bindings_present(t, j);
        } else {
            lemma_bindings_absent(s, k);
            lemma_bindings_absent(t, k);
        }
    }
    assert(bindings_map(t) =~= m);
}

/// The index of the entry that binds `name`, if any.
fn position_in(entries: &Vec<(String, Expression)>, name: &String) -> (r: Option<usize>)
    ensures
        match r {
            Some(i) => i < entries@.len() && entries@[i as int].0@ == name@,
            None => forall|i: int| 0 <= i < entries@.len() ==> entries@[i].0@ != name@,
        },
{
    let mut i: usize = 0;
    while i < entries.len()
        invariant
            i <= entries@.len(),
            forall|j: int| 0 <= j < i ==> entries@[j].0@ != name@,
        decreases entries@.len() - i,
    {
        if entries[i].0 == *name {
            return Some(i);
        }
        i = i + 1;
    }
    None
}

impl View for Environment {
    type V = Map<Seq<char>, Expression>;

    closed spec fn view(&self) -> Map<Seq<char>, Expression> {
        bindings_map(self.entries@)
    }
}

impl Environment {
    /// Each name is held by one entry only.
    #[verifier::type_invariant]
    spec fn wf(&self) -> bool {
        names_unique(self.entries@)
    }

    /// An environment with no bindings.
    pub fn new() -> (r: Environment)
        ensures
            r@ == Map::<Seq<char>, Expression>::empty(),
    {
        Environment { entries: Vec::new() }
    }

    /// The number of names bound.
    pub fn len(&self) -> (r: usize)
        ensures
            self@.dom().finite(),
            r == self@.dom().len(),
    {
        proof {
            use_type_invariant(self);
            lemma_bindings_len(self.entries@);
        }
        self.entries.len()
    }

    /// The expression bound to `name`, if any.
    pub fn get(&self, name: &String) -> (r: Option<&Expression>)
        ensures
            self@.contains_key(name@) ==> r == Some(&self@[name@]),
            !self@.contains_key(name@) ==> r.is_none(),
    {
        proof {
            use_type_invariant(self);
        }
        match position_in(&self.entries, name) {
            Some(i) => {
                proof {
                    lemma_bindings_present(self.entries@, i as int);
                }
                Some(&self.entries[i].1)
            },
            None => {
                proof {
                    lemma_bindings_absent(self.entries@, name@);
                }
                None
            },
        }
    }

    /// Whether `name` is bound.
    pub fn contains_key(&self, name: &String) -> (r: bool)
        ensures
            r == self@.contains_key(name@),
    {
        match self.get(name) {
            Some(_) => true,
            None => false,
        }
    }

    /// Binds `name` to `value`, replacing any earlier binding of it.
    pub fn insert(&mut self, name: String, value: Expression)
        ensures
            final(self)@ == old(self)@.insert(name@, value),
    {
        proof {
            use_type_invariant(&*self);
        }
        let mut entries: Vec<(String, Expression)> = Vec::new();
        std::mem::swap(&mut self.entries, &mut entries);
        match position_in(&entries, &name) {
            Some(i) => {
                proof {
                    lemma_bindings_update(entries@, i as int, (name, value));
                }
                entries.set(i, (name, value));
            },
            None => {
                let ghost s = entries@;
                entries.push((name, value));
                proof {
                    assert(entries@.drop_last() =~= s);
                }
            },
        }
        std::mem::swap(&mut self.entries, &mut entries);
    }
}

} // verus!
