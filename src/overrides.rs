use vstd::prelude::*;

verus! {

/// The two directions a conversion can take, seen from the record.
#[derive(Clone, Copy, Debug, PartialEq, Eq, Structural)]
pub enum Direction {
    /// The record is built from the target type.
    From,
    /// The record is turned into the target type.
    Into,
}

/// The value stored under `key` by a list of (key, value) writes, the last
/// write winning.
pub open spec fn lookup<T>(entries: Seq<(String, T)>, key: Seq<char>) -> Option<T>
    decreases entries.len(),
{
    if entries.len() == 0 {
        None
    } else if entries.last().0@ == key {
        Some(entries.last().1)
    } else {
        lookup(entries.drop_last(), key)
    }
}

/// The map from target path to value that a list of writes leaves.
pub open spec fn entries_map<T: View>(entries: Seq<(String, T)>) -> Map<Seq<char>, T::V> {
    Map::new(|k: Seq<char>| lookup(entries, k) is Some, |k: Seq<char>| lookup(entries, k)->0@)
}

/// The abstract content of a layered override: a fully common value, one
/// common value per direction, and one map per direction keyed by target path.
pub struct OverrideView<T> {
    pub common: Option<T>,
    pub common_from: Option<T>,
    pub common_into: Option<T>,
    pub from: Map<Seq<char>, T>,
    pub into: Map<Seq<char>, T>,
}

impl<T> OverrideView<T> {
    pub open spec fn empty() -> Self {
        OverrideView {
            common: None,
            common_from: None,
            common_into: None,
            from: Map::empty(),
            into: Map::empty(),
        }
    }

    /// The value given for exactly this target in this direction.
    pub open spec fn target_specific(self, dir: Direction, target: Seq<char>) -> Option<T> {
        let m = match dir {
            Direction::From => self.from,
            Direction::Into => self.into,
        };
        if m.contains_key(target) {
            Some(m[target])
        } else {
            None
        }
    }

    /// The value given for every target of this direction.
    pub open spec fn direction_common(self, dir: Direction) -> Option<T> {
        match dir {
            Direction::From => self.common_from,
            Direction::Into => self.common_into,
        }
    }

    /// The value that applies to `target` in direction `dir`: the
    /// target-specific one, else the direction-wide one, else the common one.
    pub open spec fn resolve(self, dir: Direction, target: Seq<char>) -> Option<T> {
        match self.target_specific(dir, target) {
            Some(v) => Some(v),
            None => match self.direction_common(dir) {
                Some(v) => Some(v),
                None => self.common,
            },
        }
    }

    pub open spec fn set_common(self, v: T) -> Self {
        OverrideView { common: Some(v), ..self }
    }

    pub open spec fn set_direction_common(self, dir: Direction, v: T) -> Self {
        match dir {
            Direction::From => OverrideView { common_from: Some(v), ..self },
            Direction::Into => OverrideView { common_into: Some(v), ..self },
        }
    }

    pub open spec fn set_target(self, dir: Direction, target: Seq<char>, v: T) -> Self {
        match dir {
            Direction::From => OverrideView { from: self.from.insert(target, v), ..self },
            Direction::Into => OverrideView { into: self.into.insert(target, v), ..self },
        }
    }

    /// A write in direction `dir`, to one target when `path` names one, else
    /// to the whole direction.
    pub open spec fn set_for(self, dir: Direction, path: Option<Seq<char>>, v: T) -> Self {
        match path {
            Some(p) => self.set_target(dir, p, v),
            None => self.set_direction_common(dir, v),
        }
    }
}

/// The characters of an optional target path.
pub open spec fn path_view(path: Option<String>) -> Option<Seq<char>> {
    match path {
        Some(p) => Some(p@),
        None => None,
    }
}

/// A per-field override of one kind (rename, map, wrap, unwrap or skip),
/// layered in three tiers of precedence.
#[derive(Debug)]
pub struct FieldValue<T> {
    pub common: Option<T>,
    pub common_from: Option<T>,
    pub common_into: Option<T>,
    /// Writes for given source types, in order; a later write of a path replaces an earlier one.
    pub from: Vec<(String, T)>,
    /// Writes for given target types, in order; a later write of a path replaces an earlier one.
    pub into: Vec<(String, T)>,
}

/// The view of an optional stored value.
pub open spec fn opt_view<T: View>(v: Option<T>) -> Option<T::V> {
    match v {
        Some(x) => Some(x@),
        None => None,
    }
}

impl<T: View> View for FieldValue<T> {
    type V = OverrideView<T::V>;

    open spec fn view(&self) -> OverrideView<T::V> {
        OverrideView {
            common: opt_view(self.common),
            common_from: opt_view(self.common_from),
            common_into: opt_view(self.common_into),
            from: entries_map(self.from@),
            into: entries_map(self.into@),
        }
    }
}

proof fn lemma_push_entry<T: View>(entries: Seq<(String, T)>, key: String, v: T)
    ensures
        entries_map(entries.push((key, v))) == entries_map(entries).insert(key@, v@),
{
    let pushed = entries.push((key, v));
    assert(pushed.drop_last() =~= entries);
    assert(entries_map(pushed) =~= entries_map(entries).insert(key@, v@));
}

/// Finds the value that the last write of `key` stored.
fn find_entry<'a, T>(entries: &'a Vec<(String, T)>, key: &String) -> (r: Option<&'a T>)
    ensures
        match r {
            Some(v) => lookup(entries@, key@) == Some(*v),
            None => lookup(entries@, key@) is None,
        },
{
    let mut i: usize = entries.len();
    assert(entries@.subrange(0, i as int) =~= entries@);
    while i > 0
        invariant
            i <= entries.len(),
            lookup(entries@, key@) == lookup(entries@.subrange(0, i as int), key@),
        decreases i,
    {
        let ghost prefix = entries@.subrange(0, i as int);
        assert(prefix.drop_last() =~= entries@.subrange(0, i - 1));
        if entries[i - 1].0 == *key {
            return Some(&entries[i - 1].1);
        }
        i = i - 1;
    }
    None
}

impl<T: View> FieldValue<T> {
    pub fn new() -> (r: Self)
        ensures
            r@ == OverrideView::<T::V>::empty(),
    {
        let r = FieldValue {
            common: None,
            common_from: None,
            common_into: None,
            from: Vec::new(),
            into: Vec::new(),
        };
        assert(r@.from =~= Map::<Seq<char>, T::V>::empty());
        assert(r@.into =~= Map::<Seq<char>, T::V>::empty());
        r
    }

    pub fn set_common(&mut self, value: T)
        ensures
            final(self)@ == old(self)@.set_common(value@),
    {
        self.common = Some(value);
    }

    pub fn set_from(&mut self, path: Option<String>, value: T)
        ensures
            final(self)@ == old(self)@.set_for(Direction::From, path_view(path), value@),
    {
        match path {
            Some(path) => {
                proof {
                    lemma_push_entry(self.from@, path, value);
                }
                self.from.push((path, value));
            },
            None => {
                self.common_from = Some(value);
            },
        }
    }

    pub fn set_into(&mut self, path: Option<String>, value: T)
        ensures
            final(self)@ == old(self)@.set_for(Direction::Into, path_view(path), value@),
    {
        match path {
            Some(path) => {
                proof {
                    lemma_push_entry(self.into@, path, value);
                }
                self.into.push((path, value));
            },
            None => {
                self.common_into = Some(value);
            },
        }
    }

    /// The value that applies when converting from `path`.
    pub fn get_from(&self, path: &String) -> (r: Option<&T>)
        ensures
            match r {
                Some(v) => self@.resolve(Direction::From, path@) == Some(v@),
                None => self@.resolve(Direction::From, path@) is None,
            },
    {
        match find_entry(&self.from, path) {
            Some(v) => Some(v),
            None => match &self.common_from {
                Some(v) => Some(v),
                None => self.common.as_ref(),
            },
        }
    }

    /// The value that applies when converting into `path`.
    pub fn get_into(&self, path: &String) -> (r: Option<&T>)
        ensures
            match r {
                Some(v) => self@.resolve(Direction::Into, path@) == Some(v@),
                None => self@.resolve(Direction::Into, path@) is None,
            },
    {
        match find_entry(&self.into, path) {
            Some(v) => Some(v),
            None => match &self.common_into {
                Some(v) => Some(v),
                None => self.common.as_ref(),
            },
        }
    }
}

/// Precedence: a value given for the target wins over a value given for the
/// whole direction, which wins over the fully common value.
pub proof fn law_precedence<T>(o: OverrideView<T>, dir: Direction, target: Seq<char>)
    ensures
        o.target_specific(dir, target) is Some ==> o.resolve(dir, target) == o.target_specific(
            dir,
            target,
        ),
        o.target_specific(dir, target) is None && o.direction_common(dir) is Some ==> o.resolve(
            dir,
            target,
        ) == o.direction_common(dir),
        o.target_specific(dir, target) is None && o.direction_common(dir) is None ==> o.resolve(
            dir,
            target,
        ) == o.common,
{
}

/// Declaration order does not matter: writes to two different tiers give the
/// same configuration in either order, and a write to a lower tier never
/// changes a resolution that a higher tier decides.
pub proof fn law_order_independent<T>(
    o: OverrideView<T>,
    dir: Direction,
    d2: Direction,
    target: Seq<char>,
    key: Seq<char>,
    v: T,
    w: T,
)
    ensures
        o.set_target(d2, key, v).set_direction_common(dir, w) == o.set_direction_common(
            dir,
            w,
        ).set_target(d2, key, v),
        o.set_target(d2, key, v).set_common(w) == o.set_common(w).set_target(d2, key, v),
        o.set_direction_common(d2, v).set_common(w) == o.set_common(w).set_direction_common(d2, v),
        o.target_specific(dir, target) is Some ==> o.set_direction_common(d2, w).resolve(
            dir,
            target,
        ) == o.resolve(dir, target) && o.set_common(w).resolve(dir, target) == o.resolve(
            dir,
            target,
        ),
        o.direction_common(dir) is Some ==> o.set_common(w).resolve(dir, target) == o.resolve(
            dir,
            target,
        ),
        dir != d2 ==> o.set_for(d2, Some(key), v).resolve(dir, target) == o.resolve(dir, target)
            && o.set_for(d2, None, v).resolve(dir, target) == o.resolve(dir, target),
        key != target ==> o.set_target(d2, key, v).resolve(dir, target) == o.resolve(dir, target),
{
}

} // verus!
