use vstd::prelude::*;

use vstd::hash_map::StringHashMap;

use crate::EvalError;
use crate::smallstep::Node;

verus! {

/// The variable store: a flat mapping from variable name to a bound syntax
/// tree, abstracted as a `Map<Seq<char>, Node>`.
pub struct Environment {
    vars: StringHashMap<Node>,
}

impl View for Environment {
    type V = Map<Seq<char>, Node>;

    closed spec fn view(&self) -> Map<Seq<char>, Node> {
        self.vars@
    }
}

impl Environment {
    /// An empty mapping.
    pub fn new() -> (r: Environment)
        ensures
            r@ == Map::<Seq<char>, Node>::empty(),
    {
        Environment { vars: StringHashMap::new() }
    }

    /// Binds or rebinds `name` to `node`.
    pub fn add(&mut self, name: String, node: Box<Node>)
        ensures
            final(self)@ == old(self)@.insert(name@, *node),
    {
        self.vars.insert(name, *node);
    }

    /// Binds or rebinds `name` to `node`; the same upsert as `add`.
    pub fn insert(&mut self, name: String, node: Box<Node>)
        ensures
            final(self)@ == old(self)@.insert(name@, *node),
    {
        self.vars.insert(name, *node);
    }

    /// A copy of the tree bound to `name`, or `UnboundVariable` if there is
    /// no binding for it.
    pub fn get(&self, name: String) -> (r: Result<Box<Node>, EvalError>)
        ensures
            (match r {
                Ok(n) => self@.contains_key(name@) && *n == self@[name@],
                Err(e) => e == EvalError::UnboundVariable && !self@.contains_key(name@),
            }),
    {
        match self.vars.get(name.as_str()) {
            Some(n) => Ok(Box::new(n.clone())),
            None => Err(EvalError::UnboundVariable),
        }
    }
}

} // verus!
