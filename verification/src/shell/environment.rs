use crate::text::same_bytes;
use vstd::prelude::*;

verus! {

/// The environment variables that a script is run with: names and values as byte strings.
///
/// No name occurs twice: setting a variable anew replaces its value.
#[derive(Debug)]
pub struct Environment {
    variables: Vec<(Vec<u8>, Vec<u8>)>,
}

/// Whether no name occurs twice among the entries.
pub open spec fn distinct_names(entries: Seq<(Vec<u8>, Vec<u8>)>) -> bool {
    forall|i: int, j: int|
        0 <= i < j < entries.len() ==> (#[trigger] entries[i]).0@ != (#[trigger] entries[j]).0@
}

/// The name of an entry.
pub open spec fn name_at(entries: Seq<(Vec<u8>, Vec<u8>)>, i: int) -> Seq<u8> {
    entries[i].0@
}

/// Whether a name occurs among the entries.
pub open spec fn names(entries: Seq<(Vec<u8>, Vec<u8>)>, name: Seq<u8>) -> bool {
    exists|i: int| 0 <= i < entries.len() && #[trigger] name_at(entries, i) == name
}

/// The place of a name among the entries.
pub open spec fn place_of(entries: Seq<(Vec<u8>, Vec<u8>)>, name: Seq<u8>) -> int {
    choose|i: int| 0 <= i < entries.len() && #[trigger] name_at(entries, i) == name
}

/// The variables that entries define: every name that occurs, with the value beside it.
pub open spec fn defined(entries: Seq<(Vec<u8>, Vec<u8>)>) -> Map<Seq<u8>, Seq<u8>> {
    Map::new(
        |name: Seq<u8>| names(entries, name),
        |name: Seq<u8>| entries[place_of(entries, name)].1@,
    )
}

/// Where no name occurs twice, a name is found at the one place where it stands.
pub proof fn lemma_place_of(entries: Seq<(Vec<u8>, Vec<u8>)>, k: int)
    requires
        distinct_names(entries),
        0 <= k < entries.len(),
    ensures
        names(entries, entries[k].0@),
        place_of(entries, entries[k].0@) == k,
{
    let name = entries[k].0@;
    assert(name_at(entries, k) == name);
    let found = place_of(entries, name);
    assert(0 <= found < entries.len() && name_at(entries, found) == name);
    if found < k {
        assert(entries[found].0@ != entries[k].0@);
    } else if k < found {
        assert(entries[k].0@ != entries[found].0@);
    }
}

/// Replacing the value beside a name sets that variable and leaves the others.
proof fn lemma_replace(before: Seq<(Vec<u8>, Vec<u8>)>, at: int, entry: (Vec<u8>, Vec<u8>))
    requires
        distinct_names(before),
        0 <= at < before.len(),
        before[at].0@ == entry.0@,
    ensures
        distinct_names(before.update(at, entry)),
        defined(before.update(at, entry)) == defined(before).insert(entry.0@, entry.1@),
{
    let after = before.update(at, entry);
    assert forall|k: int| 0 <= k < after.len() implies name_at(after, k) == name_at(before, k) by {}
    assert forall|a: int, b: int| 0 <= a < b < after.len() implies (#[trigger] after[a]).0@ != (
    #[trigger] after[b]).0@ by {
        assert(name_at(after, a) == name_at(before, a));
        assert(name_at(after, b) == name_at(before, b));
        assert(before[a].0@ != before[b].0@);
    }
    let goal = defined(before).insert(entry.0@, entry.1@);
    assert forall|name: Seq<u8>| defined(after).dom().contains(name) <==> goal.dom().contains(
        name,
    ) by {
        if names(after, name) {
            let k = place_of(after, name);
            assert(name_at(before, k) == name);
        }
        if names(before, name) {
            let k = place_of(before, name);
            assert(name_at(after, k) == name);
        }
        if name == entry.0@ {
            assert(name_at(after, at) == name);
        }
    }
    assert forall|name: Seq<u8>| defined(after).dom().contains(name) implies defined(after)[name]
        == goal[name] by {
        let k = place_of(after, name);
        assert(0 <= k < after.len() && name_at(after, k) == name);
        lemma_place_of(after, k);
        if k != at {
            assert(name_at(before, k) == name);
            lemma_place_of(before, k);
            lemma_place_of(before, at);
        }
    }
    assert(defined(after) =~= goal);
}

/// Adding an entry under a new name sets that variable and leaves the others.
proof fn lemma_append(before: Seq<(Vec<u8>, Vec<u8>)>, entry: (Vec<u8>, Vec<u8>))
    requires
        distinct_names(before),
        !names(before, entry.0@),
    ensures
        distinct_names(before.push(entry)),
        defined(before.push(entry)) == defined(before).insert(entry.0@, entry.1@),
{
    let after = before.push(entry);
    assert forall|k: int| 0 <= k < before.len() implies name_at(after, k) == name_at(before, k) by {}
    assert forall|a: int, b: int| 0 <= a < b < after.len() implies (#[trigger] after[a]).0@ != (
    #[trigger] after[b]).0@ by {
        if b < before.len() {
            assert(before[a].0@ != before[b].0@);
        } else {
            assert(name_at(before, a) != entry.0@);
        }
    }
    let goal = defined(before).insert(entry.0@, entry.1@);
    assert forall|name: Seq<u8>| defined(after).dom().contains(name) <==> goal.dom().contains(
        name,
    ) by {
        if names(after, name) {
            let k = place_of(after, name);
            if k < before.len() {
                assert(name_at(before, k) == name);
            }
        }
        if names(before, name) {
            let k = place_of(before, name);
            assert(name_at(after, k) == name);
        }
        if name == entry.0@ {
            assert(name_at(after, before.len() as int) == name);
        }
    }
    assert forall|name: Seq<u8>| defined(after).dom().contains(name) implies defined(after)[name]
        == goal[name] by {
        let k = place_of(after, name);
        assert(0 <= k < after.len() && name_at(after, k) == name);
        lemma_place_of(after, k);
        if k < before.len() {
            assert(name_at(before, k) == name);
            lemma_place_of(before, k);
        }
    }
    assert(defined(after) =~= goal);
}

impl View for Environment {
    type V = Map<Seq<u8>, Seq<u8>>;

    closed spec fn view(&self) -> Map<Seq<u8>, Seq<u8>> {
        defined(self.variables@)
    }
}

/// Entries with the same names and values, place by place, define the same variables.
proof fn lemma_same_entries(a: Seq<(Vec<u8>, Vec<u8>)>, b: Seq<(Vec<u8>, Vec<u8>)>)
    requires
        distinct_names(a),
        a.len() == b.len(),
        forall|i: int| 0 <= i < a.len() ==> a[i].0@ == b[i].0@ && a[i].1@ == b[i].1@,
    ensures
        distinct_names(b),
        defined(a) == defined(b),
{
    assert forall|i: int, j: int| 0 <= i < j < b.len() implies (#[trigger] b[i]).0@ != (
    #[trigger] b[j]).0@ by {
        assert(a[i].0@ != a[j].0@);
    }
    assert forall|name: Seq<u8>| names(a, name) <==> names(b, name) by {
        if names(a, name) {
            let k = place_of(a, name);
            assert(name_at(b, k) == name);
        }
        if names(b, name) {
            let k = place_of(b, name);
            assert(name_at(a, k) == name);
        }
    }
    assert forall|name: Seq<u8>| names(a, name) implies defined(a)[name] == defined(b)[name] by {
        let k = place_of(a, name);
        assert(0 <= k < a.len() && name_at(a, k) == name);
        lemma_place_of(a, k);
        assert(name_at(b, k) == name);
        lemma_place_of(b, k);
    }
    assert(defined(a) =~= defined(b));
}

/// Sets a variable among the entries, replacing the value that it had.
fn set_entry(entries: &mut Vec<(Vec<u8>, Vec<u8>)>, key: Vec<u8>, value: Vec<u8>)
    requires
        distinct_names(old(entries)@),
    ensures
        distinct_names(final(entries)@),
        defined(final(entries)@) == defined(old(entries)@).insert(key@, value@),
{
    let ghost before = entries@;
    let mut i: usize = 0;
    while i < entries.len()
        invariant
            i <= entries.len(),
            entries@ == before,
            old(entries)@ == before,
            distinct_names(before),
            forall|k: int| 0 <= k < i ==> #[trigger] name_at(before, k) != key@,
        decreases entries.len() - i,
    {
        if same_bytes(entries[i].0.as_slice(), key.as_slice()) {
            let ghost entry = (key, value);
            proof {
                lemma_replace(before, i as int, entry);
            }
            entries[i] = (key, value);
            assert(entries@ == before.update(i as int, entry));
            return ;
        }
        assert(name_at(before, i as int) != key@);
        i += 1;
    }
    proof {
        lemma_append(before, (key, value));
    }
    entries.push((key, value));
}

impl Clone for Environment {
    fn clone(&self) -> (copy: Self)
        ensures
            copy@ == self@,
    {
        proof {
            use_type_invariant(self);
        }
        let mut variables: Vec<(Vec<u8>, Vec<u8>)> = Vec::new();
        let mut i: usize = 0;
        while i < self.variables.len()
            invariant
                i <= self.variables.len(),
                variables@.len() == i,
                forall|k: int|
                    0 <= k < i ==> self.variables@[k].0@ == variables@[k].0@
                        && self.variables@[k].1@ == variables@[k].1@,
            decreases self.variables.len() - i,
        {
            let entry = &self.variables[i];
            variables.push((entry.0.clone(), entry.1.clone()));
            i += 1;
        }
        proof {
            lemma_same_entries(self.variables@, variables@);
        }
        Environment { variables }
    }
}

impl Environment {
    /// No name occurs twice.
    #[verifier::type_invariant]
    spec fn distinct(&self) -> bool {
        distinct_names(self.variables@)
    }

    /// The environment that sets nothing.
    pub fn new() -> (environment: Self)
        ensures
            environment@ == Map::<Seq<u8>, Seq<u8>>::empty(),
    {
        let environment = Environment { variables: Vec::new() };
        assert(environment@ =~= Map::<Seq<u8>, Seq<u8>>::empty());
        environment
    }

    /// Sets a variable, replacing the value that it had.
    pub fn insert(&mut self, key: Vec<u8>, value: Vec<u8>)
        ensures
            final(self)@ == old(self)@.insert(key@, value@),
    {
        proof {
            use_type_invariant(&*self);
        }
        let mut entries: Vec<(Vec<u8>, Vec<u8>)> = Vec::new();
        core::mem::swap(&mut self.variables, &mut entries);
        set_entry(&mut entries, key, value);
        self.variables = entries;
    }

    /// The variables, each name with its value, in the order in which they were first set.
    pub fn variables(&self) -> (entries: &Vec<(Vec<u8>, Vec<u8>)>)
        ensures
            defined(entries@) == self@,
            distinct_names(entries@),
    {
        proof {
            use_type_invariant(self);
        }
        &self.variables
    }
}

} // verus!
