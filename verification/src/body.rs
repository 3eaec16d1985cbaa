//! The body of a POST request: a set of named text fields.
//!
//! A body is kept as a list of fields in which no name occurs twice, and
//! is specified as the map from names to values that the list stands
//! for. The order of the list carries no meaning.

use vstd::prelude::*;
use vstd::string::*;

verus! {

/// One named field of a request body.
#[derive(Debug)]
struct VultrField {
    name: String,
    value: String,
}

/// The fields of a request body, each name at most once.
#[derive(Debug)]
pub struct VultrBody {
    fields: Vec<VultrField>,
}

/// No two fields of `s` share a name.
spec fn distinct_names(s: Seq<VultrField>) -> bool {
    forall|i: int, j: int| 0 <= i < j < s.len() ==> s[i].name@ != s[j].name@
}

/// Some field of `s` is named `name`.
spec fn has_name(s: Seq<VultrField>, name: Seq<char>) -> bool {
    exists|i: int| 0 <= i < s.len() && #[trigger] s[i].name@ == name
}

/// The map that a list of fields stands for. Where a name occurs more than
/// once the last field wins.
spec fn fields_map(s: Seq<VultrField>) -> Map<Seq<char>, Seq<char>>
    decreases s.len(),
{
    if s.len() == 0 {
        Map::empty()
    } else {
        fields_map(s.drop_last()).insert(s.last().name@, s.last().value@)
    }
}

/// The map of a list holds exactly the names of the list, and is finite.
proof fn lemma_fields_map_dom(s: Seq<VultrField>)
    ensures
        fields_map(s).dom().finite(),
        forall|k: Seq<char>| fields_map(s).dom().contains(k) <==> has_name(s, k),
    decreases s.len(),
{
    if s.len() > 0 {
        let init = s.drop_last();
        lemma_fields_map_dom(init);
        assert forall|k: Seq<char>| fields_map(s).dom().contains(k) <==> has_name(s, k) by {
            if has_name(s, k) {
                let i = choose|i: int| 0 <= i < s.len() && #[trigger] s[i].name@ == k;
                if i < s.len() - 1 {
                    assert(init[i].name@ == k);
                    assert(has_name(init, k));
                }
            }
            if fields_map(s).dom().contains(k) {
                if k == s.last().name@ {
                    assert(s[s.len() - 1].name@ == k);
                } else {
                    assert(has_name(init, k));
                    let i = choose|i: int| 0 <= i < init.len() && #[trigger] init[i].name@ == k;
                    assert(s[i].name@ == k);
                }
            }
        }
    }
}

/// Where no name occurs twice, each field's value is what the map gives
/// for its name.
proof fn lemma_fields_map_at(s: Seq<VultrField>, i: int)
    requires
        distinct_names(s),
        0 <= i < s.len(),
    ensures
        fields_map(s).dom().contains(s[i].name@),
        fields_map(s)[s[i].name@] == s[i].value@,
    decreases s.len(),
{
    let init = s.drop_last();
    if i < s.len() - 1 {
        assert(distinct_names(init)) by {
            assert forall|a: int, b: int| 0 <= a < b < init.len() implies init[a].name@
                != init[b].name@ by {
                assert(s[a].name@ != s[b].name@);
            }
        }
        lemma_fields_map_at(init, i);
        assert(init[i] == s[i]);
        assert(s[i].name@ != s[s.len() - 1].name@);
    }
}

/// Where no name occurs twice, the map has as many keys as the list has
/// fields.
proof fn lemma_fields_map_len(s: Seq<VultrField>)
    requires
        distinct_names(s),
    ensures
        fields_map(s).dom().finite(),
        fields_map(s).dom().len() == s.len(),
    decreases s.len(),
{
    lemma_fields_map_dom(s);
    if s.len() > 0 {
        let init = s.drop_last();
        assert(distinct_names(init)) by {
            assert forall|a: int, b: int| 0 <= a < b < init.len() implies init[a].name@
                != init[b].name@ by {
                assert(s[a].name@ != s[b].name@);
            }
        }
        lemma_fields_map_len(init);
        lemma_fields_map_dom(init);
        let k = s.last().name@;
        if has_name(init, k) {
            let i = choose|i: int| 0 <= i < init.len() && #[trigger] init[i].name@ == k;
            assert(s[i].name@ != s[s.len() - 1].name@);
        }
        assert(!fields_map(init).dom().contains(k));
        assert(fields_map(s).dom() =~= fields_map(init).dom().insert(k));
    }
}

/// Replacing the value of the field at `i` is an insertion into the map.
proof fn lemma_fields_map_update(s: Seq<VultrField>, i: int, f: VultrField)
    requires
        distinct_names(s),
        0 <= i < s.len(),
        f.name@ == s[i].name@,
    ensures
        distinct_names(s.update(i, f)),
        fields_map(s.update(i, f)) == fields_map(s).insert(f.name@, f.value@),
{
    let t = s.update(i, f);
    assert(distinct_names(t)) by {
        assert forall|a: int, b: int| 0 <= a < b < t.len() implies t[a].name@ != t[b].name@ by {
            assert(s[a].name@ != s[b].name@);
        }
    }
    lemma_fields_map_dom(s);
    lemma_fields_map_dom(t);
    let want = fields_map(s).insert(f.name@, f.value@);
    assert forall|k: Seq<char>| fields_map(t).dom().contains(k) <==> want.dom().contains(k) by {
        if has_name(t, k) {
            let j = choose|j: int| 0 <= j < t.len() && #[trigger] t[j].name@ == k;
            assert(s[j].name@ == k);
        }
        if has_name(s, k) {
            let j = choose|j: int| 0 <= j < s.len() && #[trigger] s[j].name@ == k;
            assert(t[j].name@ == k);
        }
        if k == f.name@ {
            assert(t[i].name@ == k);
        }
    }
    assert forall|k: Seq<char>| fields_map(t).dom().contains(k) implies fields_map(t)[k]
        == want[k] by {
        assert(has_name(t, k));
        let j = choose|j: int| 0 <= j < t.len() && #[trigger] t[j].name@ == k;
        lemma_fields_map_at(t, j);
        if j != i {
            lemma_fields_map_at(s, j);
            if j < i {
                assert(s[j].name@ != s[i].name@);
            } else {
                assert(s[i].name@ != s[j].name@);
            }
        }
    }
    assert(fields_map(t) =~= want);
}

impl View for VultrBody {
    type V = Map<Seq<char>, Seq<char>>;

    closed spec fn view(&self) -> Map<Seq<char>, Seq<char>> {
        fields_map(self.fields@)
    }
}

impl VultrBody {
    #[verifier::type_invariant]
    spec fn no_name_twice(&self) -> bool {
        distinct_names(self.fields@)
    }

    /// A body without fields.
    pub fn new() -> (body: VultrBody)
        ensures
            body@ == Map::<Seq<char>, Seq<char>>::empty(),
    {
        VultrBody { fields: Vec::new() }
    }

    /// The position of the field named `name`, if there is one.
    fn position(&self, name: &String) -> (at: Option<usize>)
        ensures
            match at {
                Some(i) => i < self.fields@.len() && self.fields@[i as int].name@ == name@,
                None => !has_name(self.fields@, name@),
            },
    {
        let mut i: usize = 0;
        while i < self.fields.len()
            invariant
                i <= self.fields@.len(),
                forall|j: int| 0 <= j < i ==> self.fields@[j].name@ != name@,
            decreases self.fields@.len() - i,
        {
            if self.fields[i].name == *name {
                return Some(i);
            }
            i += 1;
        }
        None
    }

    /// Sets the field `name` to `value`, replacing an earlier value of that
    /// name.
    pub fn insert(&mut self, name: &str, value: String)
        ensures
            final(self)@ == old(self)@.insert(name@, value@),
    {
        // The list is taken out, changed and put back whole, so that the
        // body holds a list without a repeated name at every moment.
        let mut taken = VultrBody::new();
        core::mem::swap(self, &mut taken);
        proof {
            use_type_invariant(&taken);
        }
        let field = VultrField { name: name.to_owned(), value };
        let at = taken.position(&field.name);
        let mut fields = taken.fields;
        match at {
            Some(i) => {
                proof {
                    lemma_fields_map_update(fields@, i as int, field);
                }
                fields.set(i, field);
            },
            None => {
                proof {
                    let s = fields@;
                    let t = s.push(field);
                    assert(t.drop_last() =~= s);
                    assert forall|a: int, b: int| 0 <= a < b < t.len() implies t[a].name@
                        != t[b].name@ by {
                        if b == s.len() {
                            assert(s[a].name@ != field.name@);
                        } else {
                            assert(s[a].name@ != s[b].name@);
                        }
                    }
                }
                fields.push(field);
            },
        }
        *self = VultrBody { fields };
    }

    /// The value of the field `name`, if the body has one.
    pub fn get(&self, name: &str) -> (value: Option<String>)
        ensures
            match value {
                Some(v) => self@.dom().contains(name@) && self@[name@] == v@,
                None => !self@.dom().contains(name@),
            },
    {
        proof {
            use_type_invariant(self);
            lemma_fields_map_dom(self.fields@);
        }
        let key = name.to_owned();
        match self.position(&key) {
            Some(i) => {
                proof {
                    lemma_fields_map_at(self.fields@, i as int);
                }
                Some(self.fields[i].value.clone())
            },
            None => None,
        }
    }

    /// Whether the body has a field `name`.
    pub fn contains(&self, name: &str) -> (found: bool)
        ensures
            found == self@.dom().contains(name@),
    {
        proof {
            lemma_fields_map_dom(self.fields@);
        }
        let key = name.to_owned();
        match self.position(&key) {
            Some(_) => {
                assert(has_name(self.fields@, name@));
                true
            },
            None => false,
        }
    }

    /// The number of fields.
    pub fn len(&self) -> (n: usize)
        ensures
            self@.dom().finite(),
            n == self@.dom().len(),
    {
        proof {
            use_type_invariant(self);
            lemma_fields_map_len(self.fields@);
        }
        self.fields.len()
    }

    /// The fields as pairs of name and value, each name once, in no
    /// particular order.
    pub fn entries(&self) -> (pairs: Vec<(String, String)>)
        ensures
            pairs@.len() == self@.dom().len(),
            forall|i: int|
                0 <= i < pairs@.len() ==> self@.dom().contains(#[trigger] pairs@[i].0@)
                    && self@[pairs@[i].0@] == pairs@[i].1@,
            forall|i: int, j: int| 0 <= i < j < pairs@.len() ==> pairs@[i].0@ != pairs@[j].0@,
            forall|k: Seq<char>|
                self@.dom().contains(k) ==> exists|i: int|
                    0 <= i < pairs@.len() && #[trigger] pairs@[i].0@ == k,
    {
        proof {
            use_type_invariant(self);
            lemma_fields_map_len(self.fields@);
            lemma_fields_map_dom(self.fields@);
        }
        let mut pairs: Vec<(String, String)> = Vec::new();
        let mut i: usize = 0;
        while i < self.fields.len()
            invariant
                i <= self.fields@.len(),
                pairs@.len() == i,
                forall|j: int|
                    0 <= j < i ==> (#[trigger] pairs@[j]).0@ == self.fields@[j].name@
                        && pairs@[j].1@ == self.fields@[j].value@,
            decreases self.fields@.len() - i,
        {
            let name = self.fields[i].name.clone();
            let value = self.fields[i].value.clone();
            pairs.push((name, value));
            i += 1;
        }
        proof {
            let s = self.fields@;
            assert forall|j: int| 0 <= j < pairs@.len() implies self@.dom().contains(
                #[trigger] pairs@[j].0@,
            ) && self@[pairs@[j].0@] == pairs@[j].1@ by {
                lemma_fields_map_at(s, j);
                assert(pairs@[j].0@ == s[j].name@);
            }
            assert forall|a: int, b: int| 0 <= a < b < pairs@.len() implies pairs@[a].0@
                != pairs@[b].0@ by {
                assert(s[a].name@ != s[b].name@);
                assert(pairs@[a].0@ == s[a].name@);
                assert(pairs@[b].0@ == s[b].name@);
            }
            assert forall|k: Seq<char>| self@.dom().contains(k) implies exists|j: int|
                0 <= j < pairs@.len() && #[trigger] pairs@[j].0@ == k by {
                assert(has_name(s, k));
                let j = choose|j: int| 0 <= j < s.len() && #[trigger] s[j].name@ == k;
                assert(pairs@[j].0@ == k);
            }
        }
        pairs
    }
}

} // verus!
