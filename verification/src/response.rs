use vstd::prelude::*;
use vstd::string::StringExecFns;

verus! {

/// One opaque observability tag on an acknowledgement.
#[derive(Debug)]
pub struct Attribute {
    pub key: String,
    pub value: String,
}

/// Model of an attribute: its key and value as character sequences.
#[verifier::ext_equal]
pub struct AttrV {
    pub key: Seq<char>,
    pub value: Seq<char>,
}

impl View for Attribute {
    type V = AttrV;

    open spec fn view(&self) -> AttrV {
        AttrV { key: self.key@, value: self.value@ }
    }
}

/// Shorthand for an attribute model.
pub open spec fn attr(key: Seq<char>, value: Seq<char>) -> AttrV {
    AttrV { key, value }
}

/// An acknowledgement: the ordered attributes a handler emits.
#[derive(Debug)]
pub struct Response {
    pub attributes: Vec<Attribute>,
}

impl View for Response {
    type V = Seq<AttrV>;

    open spec fn view(&self) -> Seq<AttrV> {
        Seq::new(self.attributes@.len(), |i: int| self.attributes@[i]@)
    }
}

impl Response {
    /// An acknowledgement with no attributes yet.
    pub fn new() -> (r: Response)
        ensures
            r@ == Seq::<AttrV>::empty(),
    {
        let r = Response { attributes: Vec::new() };
        proof {
            assert(r@ =~= Seq::<AttrV>::empty());
        }
        r
    }

    /// Append one attribute.
    pub fn add_attribute(self, key: &str, value: &str) -> (r: Response)
        ensures
            r@ == self@.push(attr(key@, value@)),
    {
        let ghost old_view = self@;
        let mut attrs = self.attributes;
        attrs.push(Attribute { key: String::from_str(key), value: String::from_str(value) });
        let r = Response { attributes: attrs };
        proof {
            assert(r@ =~= old_view.push(attr(key@, value@)));
        }
        r
    }
}

} // verus!
