use vstd::prelude::*;

verus! {

/// What a [`ParamKey`] selects, as a plain value.
pub ghost enum KeyView {
    /// A parameter of a named (object) payload.
    Named(Seq<char>),
    /// A parameter of a positional (array) payload.
    Positional(nat),
}

/// Key referring to a potential parameter of a request.
pub enum ParamKey<'a> {
    /// String key. Only valid when the parameters list is a map.
    String(&'a str),
    /// Integer key. Only valid when the parameters list is an array.
    Index(usize),
}

impl<'a> View for ParamKey<'a> {
    type V = KeyView;

    open spec fn view(&self) -> KeyView {
        match self {
            ParamKey::String(s) => KeyView::Named(s@),
            ParamKey::Index(i) => KeyView::Positional(*i as nat),
        }
    }
}

impl<'a> From<&'a str> for ParamKey<'a> {
    fn from(s: &'a str) -> (r: Self) {
        ParamKey::String(s)
    }
}

impl<'a> vstd::std_specs::convert::FromSpecImpl<&'a str> for ParamKey<'a> {
    open spec fn obeys_from_spec() -> bool {
        true
    }

    open spec fn from_spec(s: &'a str) -> Self {
        ParamKey::String(s)
    }
}

impl<'a> From<&'a String> for ParamKey<'a> {
    fn from(s: &'a String) -> (r: Self)
        ensures
            r@ == KeyView::Named(s@),
    {
        ParamKey::String(s.as_str())
    }
}

impl<'a> vstd::std_specs::convert::FromSpecImpl<&'a String> for ParamKey<'a> {
    open spec fn obeys_from_spec() -> bool {
        false
    }

    open spec fn from_spec(s: &'a String) -> Self {
        choose|k: ParamKey<'a>| k@ == KeyView::Named(s@)
    }
}

impl<'a> From<usize> for ParamKey<'a> {
    fn from(i: usize) -> (r: Self) {
        ParamKey::Index(i)
    }
}

impl<'a> vstd::std_specs::convert::FromSpecImpl<usize> for ParamKey<'a> {
    open spec fn obeys_from_spec() -> bool {
        true
    }

    open spec fn from_spec(i: usize) -> Self {
        ParamKey::Index(i)
    }
}

} // verus!
