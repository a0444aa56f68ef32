//! Platform-specific extra options: a string-keyed map of small values.

use vstd::prelude::*;
use crate::text::{str_eq, to_owned_string};

verus! {

/// A value of an extra option.
#[derive(Debug, Clone, PartialEq, Eq)]
pub enum ExtraValue {
    Str(String),
    Bool(bool),
    Int(i64),
}

/// Abstract value of an extra option.
pub ghost enum ExtraValueView {
    Str(Seq<char>),
    Bool(bool),
    Int(int),
}

impl View for ExtraValue {
    type V = ExtraValueView;

    open spec fn view(&self) -> ExtraValueView {
        match self {
            ExtraValue::Str(s) => ExtraValueView::Str(s@),
            ExtraValue::Bool(b) => ExtraValueView::Bool(*b),
            ExtraValue::Int(i) => ExtraValueView::Int(*i as int),
        }
    }
}

impl ExtraValue {
    /// A string value.
    pub fn string(s: &str) -> (r: ExtraValue)
        ensures
            r@ == ExtraValueView::Str(s@),
    {
        ExtraValue::Str(to_owned_string(s))
    }

    /// A copy with the same abstract value.
    pub fn duplicate(&self) -> (r: ExtraValue)
        ensures
            r@ == self@,
    {
        match self {
            ExtraValue::Str(s) => ExtraValue::Str(s.clone()),
            ExtraValue::Bool(b) => ExtraValue::Bool(*b),
            ExtraValue::Int(i) => ExtraValue::Int(*i),
        }
    }

    /// The string, when this is a string value.
    pub fn as_str(&self) -> (r: Option<&str>)
        ensures
            match self@ {
                ExtraValueView::Str(s) => r matches Some(x) && x@ == s,
                _ => r is None,
            },
    {
        match self {
            ExtraValue::Str(s) => Some(s.as_str()),
            _ => None,
        }
    }

    /// The boolean, when this is a boolean value.
    pub fn as_bool(&self) -> (r: Option<bool>)
        ensures
            match self@ {
                ExtraValueView::Bool(b) => r == Some(b),
                _ => r is None,
            },
    {
        match self {
            ExtraValue::Bool(b) => Some(*b),
            _ => None,
        }
    }

    /// The value as an unsigned integer, when it is a non-negative integer.
    pub fn as_u64(&self) -> (r: Option<u64>)
        ensures
            match self@ {
                ExtraValueView::Int(i) => if i >= 0 {
                    r == Some(i as u64)
                } else {
                    r is None
                },
                _ => r is None,
            },
    {
        match self {
            ExtraValue::Int(i) => if *i >= 0 {
                Some(*i as u64)
            } else {
                None
            },
            _ => None,
        }
    }
}

/// The value bound to `key` by the last pair that names it.
pub open spec fn lookup(pairs: Seq<(Seq<char>, ExtraValueView)>, key: Seq<char>) -> Option<ExtraValueView>
    decreases pairs.len(),
{
    if pairs.len() == 0 {
        None
    } else if pairs.last().0 == key {
        Some(pairs.last().1)
    } else {
        lookup(pairs.drop_last(), key)
    }
}

/// A string-keyed map of extra option values; a later binding of a key
/// replaces an earlier one.
#[derive(Debug, Clone)]
pub struct ExtraMap {
    pairs: Vec<(String, ExtraValue)>,
}

impl ExtraMap {
    /// The bindings in insertion order, as abstract values.
    pub closed spec fn pair_views(&self) -> Seq<(Seq<char>, ExtraValueView)> {
        self.pairs@.map_values(|p: (String, ExtraValue)| (p.0@, p.1@))
    }

    /// The value bound to `key`.
    pub open spec fn spec_get(&self, key: Seq<char>) -> Option<ExtraValueView> {
        lookup(self.pair_views(), key)
    }

    /// An empty map.
    pub fn new() -> (r: ExtraMap)
        ensures
            forall|k: Seq<char>| r.spec_get(k) is None,
    {
        let r = ExtraMap { pairs: Vec::new() };
        proof {
            assert(r.pair_views() =~= Seq::<(Seq<char>, ExtraValueView)>::empty());
        }
        r
    }

    /// Binds `key` to `value`, replacing an earlier binding of `key`.
    pub fn insert(&mut self, key: String, value: ExtraValue)
        ensures
            final(self).spec_get(key@) == Some(value@),
            forall|k: Seq<char>| k != key@ ==> final(self).spec_get(k) == old(self).spec_get(k),
    {
        let ghost before = self.pairs@;
        let ghost kv = key@;
        let ghost vv = value@;
        self.pairs.push((key, value));
        proof {
            assert(self.pair_views() =~= old(self).pair_views().push((kv, vv)));
            assert(self.pair_views().drop_last() =~= old(self).pair_views());
        }
    }

    /// The value bound to `key`.
    pub fn get(&self, key: &str) -> (r: Option<&ExtraValue>)
        ensures
            match self.spec_get(key@) {
                Some(v) => r matches Some(x) && x@ == v,
                None => r is None,
            },
    {
        let mut i = self.pairs.len();
        proof {
            assert(self.pair_views().take(i as int) =~= self.pair_views());
        }
        while i > 0
            invariant
                i <= self.pairs.len(),
                self.spec_get(key@) == lookup(self.pair_views().take(i as int), key@),
            decreases i,
        {
            let ghost pv = self.pair_views().take(i as int);
            proof {
                assert(pv.last() == (self.pairs@[i - 1].0@, self.pairs@[i - 1].1@));
                assert(pv.drop_last() =~= self.pair_views().take(i - 1));
            }
            if str_eq(self.pairs[i - 1].0.as_str(), key) {
                return Some(&self.pairs[i - 1].1);
            }
            i = i - 1;
        }
        None
    }

    /// Binds every key of `other`, `other`'s bindings taking precedence.
    pub fn extend(&mut self, other: &ExtraMap)
        ensures
            forall|k: Seq<char>|
                #![trigger final(self).spec_get(k)]
                final(self).spec_get(k) == (match other.spec_get(k) {
                    Some(v) => Some(v),
                    None => old(self).spec_get(k),
                }),
    {
        let mut i: usize = 0;
        while i < other.pairs.len()
            invariant
                i <= other.pairs.len(),
                forall|k: Seq<char>|
                    #![trigger self.spec_get(k)]
                    self.spec_get(k) == (match lookup(other.pair_views().take(i as int), k) {
                        Some(v) => Some(v),
                        None => old(self).spec_get(k),
                    }),
            decreases other.pairs.len() - i,
        {
            let ghost prev = *self;
            let k = other.pairs[i].0.clone();
            let v = other.pairs[i].1.duplicate();
            proof {
                assert(other.pair_views().take(i + 1).drop_last() =~= other.pair_views().take(i as int));
                assert(other.pair_views().take(i + 1).last() == (other.pairs@[i as int].0@, other.pairs@[i as int].1@));
            }
            self.insert(k, v);
            i = i + 1;
        }
        proof {
            assert(other.pair_views().take(other.pairs.len() as int) =~= other.pair_views());
        }
    }
}

} // verus!
