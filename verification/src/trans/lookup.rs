//! Finding names in the tables of the linker.

use vstd::prelude::*;
use vstd::string::*;
use crate::text::split;
use crate::text::split_at_char;
use crate::text::str_eq;
use crate::text::strs_view;

verus! {

/// Whether a result is the one that `model` gives, views taken on both sides.
pub open spec fn is_result<T: DeepView, E: DeepView>(
    r: Result<T, E>,
    model: Result<T::V, E::V>,
) -> bool {
    match r {
        Ok(v) => model == Ok::<T::V, E::V>(v.deep_view()),
        Err(e) => model == Err::<T::V, E::V>(e.deep_view()),
    }
}

/// The most entries that a table of the linker takes, so that every handle fits. A registry
/// with more types or features is refused as a bad type.
pub const MAX_ENTRIES: usize = 0x7fff_ffff;

/// The index of the first occurrence of `name` in `names` from `i` on.
pub open spec fn spec_find(names: Seq<Seq<char>>, name: Seq<char>, i: int) -> Option<int>
    decreases names.len() - i,
{
    if i < 0 || i >= names.len() {
        None
    } else if names[i] == name {
        Some(i)
    } else {
        spec_find(names, name, i + 1)
    }
}

/// What a search finds is an index of the name; what it does not find is nowhere from `i` on.
pub proof fn lemma_find(names: Seq<Seq<char>>, name: Seq<char>, i: int)
    requires
        0 <= i,
    ensures
        match spec_find(names, name, i) {
            Some(k) => i <= k < names.len() && names[k] == name,
            None => forall|j: int| i <= j < names.len() ==> names[j] != name,
        },
    decreases names.len() - i,
{
    if i < names.len() && names[i] != name {
        lemma_find(names, name, i + 1);
    }
}

/// A name that a list holds is found in it, also when the list grows.
pub proof fn lemma_found(names: Seq<Seq<char>>, name: Seq<char>, k: int)
    requires
        0 <= k < names.len(),
        names[k] == name,
    ensures
        spec_find(names, name, 0) is Some,
{
    lemma_find(names, name, 0);
}

/// Finds a name in a list.
pub fn find(names: &Vec<String>, name: &str) -> (r: Option<usize>)
    ensures
        match r {
            Some(k) => spec_find(names.deep_view(), name@, 0) == Some(k as int) && k
                < names.len(),
            None => spec_find(names.deep_view(), name@, 0) is None,
        },
{
    let mut i: usize = 0;
    while i < names.len()
        invariant
            spec_find(names.deep_view(), name@, i as int) == spec_find(
                names.deep_view(),
                name@,
                0,
            ),
        decreases names.len() - i,
    {
        if str_eq(names[i].as_str(), name) {
            return Some(i);
        }
        i += 1;
    }
    None
}

/// Whether a list of APIs admits an item to the bindings: an item without a list belongs to
/// every API, one with a list to those that it names.
pub open spec fn spec_api_ok(api: Option<Seq<Seq<char>>>) -> bool {
    match api {
        None => true,
        Some(list) => spec_find(list, "vulkan"@, 0) is Some,
    }
}

/// Whether a comma-separated list of APIs admits an item to the bindings.
pub open spec fn spec_api_text_ok(api: Option<Seq<char>>) -> bool {
    match api {
        None => true,
        Some(text) => spec_find(split(text, ','), "vulkan"@, 0) is Some,
    }
}

/// Whether a list of APIs admits an item to the bindings.
pub fn api_ok(api: &Option<Vec<String>>) -> (r: bool)
    ensures
        r == spec_api_ok(api.deep_view()),
{
    match api {
        None => true,
        Some(list) => find(list, "vulkan").is_some(),
    }
}

/// Whether a comma-separated list of APIs admits an item to the bindings.
pub fn api_text_ok(api: &Option<String>) -> (r: bool)
    ensures
        r == spec_api_text_ok(api.deep_view()),
{
    match api {
        None => true,
        Some(text) => {
            let list = split_at_char(text.as_str(), ',');
            proof {
                assert(list.deep_view() =~= strs_view(list@));
            }
            find(&list, "vulkan").is_some()
        },
    }
}

/// A list of names, each with what it stands for.
pub struct NameMap<V> {
    pub names: Vec<String>,
    pub values: Vec<V>,
}

/// A `NameMap` with its names as character sequences.
pub ghost struct NameMapView<V> {
    pub names: Seq<Seq<char>>,
    pub values: Seq<V>,
}

impl<V: DeepView> DeepView for NameMap<V> {
    type V = NameMapView<V::V>;

    open spec fn deep_view(&self) -> NameMapView<V::V> {
        NameMapView { names: self.names.deep_view(), values: self.values.deep_view() }
    }
}

impl<V> NameMapView<V> {
    /// What a name stands for: the value of its first entry.
    pub open spec fn get(self, name: Seq<char>) -> Option<V> {
        match spec_find(self.names, name, 0) {
            Some(k) => if k < self.values.len() {
                Some(self.values[k])
            } else {
                None
            },
            None => None,
        }
    }

    /// The map with one more entry at its end.
    pub open spec fn with(self, name: Seq<char>, value: V) -> NameMapView<V> {
        NameMapView { names: self.names.push(name), values: self.values.push(value) }
    }

    /// The values of the entries for a name from `i` on that differ from the value taken
    /// before them, after those taken so far.
    pub open spec fn later(self, name: Seq<char>, before: V, i: int, acc: Seq<V>) -> Seq<V>
        decreases self.names.len() - i,
    {
        if i < 0 || i >= self.names.len() || i >= self.values.len() {
            acc
        } else if self.names[i] == name && self.values[i] != before {
            self.later(name, self.values[i], i + 1, acc.push(self.values[i]))
        } else {
            self.later(name, before, i + 1, acc)
        }
    }
}

impl<V: DeepView> NameMap<V> {
    /// An empty map.
    pub fn new() -> (r: NameMap<V>)
        ensures
            r.deep_view() == (NameMapView::<V::V> { names: Seq::empty(), values: Seq::empty() }),
    {
        let r = NameMap { names: Vec::new(), values: Vec::new() };
        proof {
            assert(r.names.deep_view() =~= Seq::empty());
            assert(r.values.deep_view() =~= Seq::empty());
        }
        r
    }

    /// The index of the first entry for a name.
    pub fn index_of(&self, name: &str) -> (r: Option<usize>)
        ensures
            match r {
                Some(k) => spec_find(self.deep_view().names, name@, 0) == Some(k as int) && k
                    < self.names.len(),
                None => spec_find(self.deep_view().names, name@, 0) is None,
            },
    {
        find(&self.names, name)
    }

    /// Adds an entry at the end.
    pub fn push(&mut self, name: String, value: V)
        ensures
            final(self).deep_view() == old(self).deep_view().with(name@, value.deep_view()),
    {
        self.names.push(name);
        self.values.push(value);
        proof {
            assert(self.names.deep_view() =~= old(self).names.deep_view().push(name@));
            assert(self.values.deep_view() =~= old(self).values.deep_view().push(
                value.deep_view(),
            ));
        }
    }
}

} // verus!
