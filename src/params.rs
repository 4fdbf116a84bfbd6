use crate::key::{KeyView, ParamKey};
use crate::map::{keys_unique, value_of, ParamMap};
use crate::value::decode;
use serde_json::Value;
use vstd::prelude::*;

verus! {

/// The parameters of a request, in the shape in which they came.
pub enum RawParams {
    /// The request has no parameters.
    Empty,
    /// Positional parameters.
    Array(Vec<Value>),
    /// Named parameters.
    Object(ParamMap),
}

/// The value that an optional reference points to.
pub open spec fn deref_opt(o: Option<&Value>) -> Option<Value> {
    match o {
        Some(v) => Some(*v),
        None => None,
    }
}

impl RawParams {
    /// The value that `key` selects: a name selects only in named
    /// parameters, a position only in positional ones.
    pub open spec fn lookup(&self, key: KeyView) -> Option<Value> {
        match (self, key) {
            (RawParams::Object(m), KeyView::Named(k)) => value_of(m@, k),
            (RawParams::Array(a), KeyView::Positional(i)) => if i < a@.len() {
                Some(a@[i as int])
            } else {
                None
            },
            _ => None,
        }
    }

    /// Every parameter with its key, in order: positions count up from zero,
    /// names come in the order of the map.
    pub open spec fn items(&self) -> Seq<(KeyView, Value)> {
        match self {
            RawParams::Empty => Seq::empty(),
            RawParams::Array(a) => Seq::new(a@.len(), |i: int| (KeyView::Positional(i as nat), a@[i])),
            RawParams::Object(m) => Seq::new(m@.len(), |i: int| (KeyView::Named(m@[i].0), m@[i].1)),
        }
    }
}

/// Access to the parameters of a request.
#[derive(Copy, Clone)]
pub struct Params<'a> {
    /// Raw parameters of the request.
    params: &'a RawParams,
}

impl<'a> View for Params<'a> {
    type V = RawParams;

    closed spec fn view(&self) -> RawParams {
        *self.params
    }
}

impl<'a> Params<'a> {
    /// Wraps around a `&RawParams` and provides utility functions for the user.
    pub fn from(params: &'a RawParams) -> (r: Params<'a>)
        ensures
            r@ == *params,
            params matches RawParams::Object(m) ==> keys_unique(m@),
    {
        proof {
            if let RawParams::Object(m) = params {
                use_type_invariant(m);
            }
        }
        Params { params }
    }

    /// The parameters this view reads.
    pub fn as_ref(&self) -> (r: &RawParams)
        ensures
            *r == self@,
    {
        self.params
    }

    /// Returns a parameter of the request by name or position.
    pub fn get_raw<'k>(self, param: ParamKey<'k>) -> (r: Option<&'a Value>)
        ensures
            deref_opt(r) == self@.lookup(param@),
    {
        match (self.params, param) {
            (RawParams::Empty, _) => None,
            (RawParams::Object(map), ParamKey::String(key)) => map.get(key),
            (RawParams::Object(_), ParamKey::Index(_)) => None,
            (RawParams::Array(_), ParamKey::String(_)) => None,
            (RawParams::Array(array), ParamKey::Index(index)) => {
                if index < array.len() {
                    Some(&array[index])
                } else {
                    None
                }
            },
        }
    }

    /// Returns a parameter of the request by name or position, decoded.
    ///
    /// Fails with `Err(())` both when the parameter does not exist and when
    /// it cannot be decoded into `T`: the two causes are not told apart.
    pub fn get<'k, T: serde::de::DeserializeOwned>(self, param: ParamKey<'k>) -> (r: Result<T, ()>)
        ensures
            self@.lookup(param@) is None ==> r is Err,
    {
        match self.get_raw(param) {
            None => Err(()),
            Some(val) => match decode::<T>(val) {
                Ok(t) => Ok(t),
                Err(_) => Err(()),
            },
        }
    }
}

impl<'a> Params<'a> {
    /// Iterates over all the parameters of the request, with their keys.
    pub fn into_iter(self) -> (r: Iter<'a>)
        ensures
            r.remaining() == self@.items(),
            self@ matches RawParams::Object(m) ==> keys_unique(m@),
    {
        proof {
            if let RawParams::Object(m) = self.params {
                use_type_invariant(m);
            }
        }
        let r = Iter { params: self.params, pos: 0 };
        assert(r.remaining() =~= self@.items());
        r
    }
}

impl<'a> From<Params<'a>> for &'a RawParams {
    fn from(params: Params<'a>) -> (r: &'a RawParams) {
        params.params
    }
}

impl<'a> vstd::std_specs::convert::FromSpecImpl<Params<'a>> for &'a RawParams {
    open spec fn obeys_from_spec() -> bool {
        true
    }

    open spec fn from_spec(params: Params<'a>) -> &'a RawParams {
        &params@
    }
}

/// Iterator to all the parameters of a request.
pub struct Iter<'a> {
    params: &'a RawParams,
    pos: usize,
}

impl<'a> Iter<'a> {
    #[verifier::type_invariant]
    closed spec fn inv(self) -> bool {
        self.pos <= self.params.items().len()
    }

    /// The parameters that are still to come, in order.
    pub closed spec fn remaining(self) -> Seq<(KeyView, Value)> {
        self.params.items().skip(self.pos as int)
    }

    /// The number of parameters still to come.
    fn count_left(&self) -> (r: usize)
        ensures
            r == self.remaining().len(),
    {
        proof {
            use_type_invariant(self);
        }
        let total = match self.params {
            RawParams::Empty => 0,
            RawParams::Array(a) => a.len(),
            RawParams::Object(m) => m.len(),
        };
        total - self.pos
    }

    /// The next parameter with its key, or `None` once all have been seen.
    pub fn next(&mut self) -> (r: Option<(ParamKey<'a>, &'a Value)>)
        ensures
            old(self).remaining().len() == 0 ==> r is None && final(self).remaining()
                == old(self).remaining(),
            old(self).remaining().len() > 0 ==> (r matches Some(item) && item.0@ == old(
                self,
            ).remaining()[0].0 && *item.1 == old(self).remaining()[0].1 && final(self).remaining()
                == old(self).remaining().drop_first()),
    {
        proof {
            use_type_invariant(&*self);
        }
        let i = self.pos;
        let params = self.params;
        let item = match params {
            RawParams::Empty => {
                return None;
            },
            RawParams::Array(a) => {
                if i >= a.len() {
                    return None;
                }
                (ParamKey::Index(i), &a[i])
            },
            RawParams::Object(m) => {
                if i >= m.len() {
                    return None;
                }
                match m.get_index(i) {
                    Some((k, v)) => (ParamKey::String(k.as_str()), v),
                    None => {
                        return None;
                    },
                }
            },
        };
        let ghost before = self.remaining();
        *self = Iter { params, pos: i + 1 };
        assert(self.remaining() =~= before.drop_first());
        Some(item)
    }

    /// The exact number of parameters still to come, as a lower and an upper
    /// bound.
    pub fn size_hint(&self) -> (r: (usize, Option<usize>))
        ensures
            r.0 == self.remaining().len(),
            r.1 == Some(r.0),
    {
        let n = self.count_left();
        (n, Some(n))
    }
}

} // verus!
