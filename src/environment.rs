use vstd::prelude::*;
use crate::error::{Error, ErrorModel, ErrorType};
use crate::object::{Object, Value};
use crate::token::{Token, TokenModel};

verus! {

/// The error for reading or assigning a name that was never bound.
pub open spec fn unbound(identifier: TokenModel) -> ErrorModel {
    ErrorModel {
        etype: ErrorType::RuntimeError,
        message: "Variable with name '"@ + identifier.lexeme + "' not found"@,
        line: identifier.line,
    }
}

/// The slot that holds `name`: the last one with that name, or -1.
pub open spec fn slot(names: Seq<String>, name: Seq<char>) -> int
    decreases names.len(),
{
    if names.len() == 0 {
        -1
    } else if names[names.len() - 1]@ == name {
        names.len() - 1
    } else {
        slot(names.subrange(0, names.len() - 1), name)
    }
}

pub proof fn lemma_slot_bounds(names: Seq<String>, name: Seq<char>)
    ensures
        -1 <= slot(names, name) < names.len(),
        slot(names, name) >= 0 ==> names[slot(names, name)]@ == name,
    decreases names.len(),
{
    if names.len() > 0 {
        lemma_slot_bounds(names.subrange(0, names.len() - 1), name);
    }
}

/// Names past `i` that differ from `name` do not change its slot.
pub proof fn lemma_slot_prefix(names: Seq<String>, name: Seq<char>, i: int)
    requires
        0 <= i <= names.len(),
        forall|j: int| i <= j < names.len() ==> (#[trigger] names[j])@ != name,
    ensures
        slot(names, name) == slot(names.subrange(0, i), name),
    decreases names.len() - i,
{
    if i < names.len() {
        let shorter = names.subrange(0, names.len() - 1);
        assert(shorter.subrange(0, i) =~= names.subrange(0, i));
        lemma_slot_prefix(shorter, name, i);
    } else {
        assert(names.subrange(0, i) =~= names);
    }
}

/// The single flat table of bindings shared by the whole program.
#[derive(Debug, Clone)]
pub struct Environment {
    names: Vec<String>,
    values: Vec<Object>,
}

impl View for Environment {
    type V = Map<Seq<char>, Value>;

    closed spec fn view(&self) -> Map<Seq<char>, Value> {
        Map::new(
            |k: Seq<char>| slot(self.names@, k) >= 0,
            |k: Seq<char>| self.values@[slot(self.names@, k)]@,
        )
    }
}

impl Environment {
    pub closed spec fn wf(&self) -> bool {
        self.names@.len() == self.values@.len()
    }

    pub fn new() -> (r: Self)
        ensures
            r.wf(),
            r@ == Map::<Seq<char>, Value>::empty(),
    {
        let r = Environment { names: Vec::new(), values: Vec::new() };
        assert(r@ =~= Map::<Seq<char>, Value>::empty());
        r
    }

    fn find(&self, name: &String) -> (r: Option<usize>)
        requires
            self.wf(),
        ensures
            match r {
                Some(i) => slot(self.names@, name@) == i && i < self.names@.len(),
                None => slot(self.names@, name@) == -1,
            },
    {
        proof {
            lemma_slot_bounds(self.names@, name@);
        }
        let mut i = self.names.len();
        while i > 0
            invariant
                i <= self.names@.len(),
                forall|j: int| i <= j < self.names@.len() ==> (#[trigger] self.names@[j])@ != name@,
            decreases i,
        {
            if self.names[i - 1] == *name {
                proof {
                    lemma_slot_prefix(self.names@, name@, i as int);
                    assert(self.names@.subrange(0, i as int).subrange(0, i - 1) =~= self.names@.subrange(0, i - 1));
                }
                return Some(i - 1);
            }
            i = i - 1;
        }
        proof {
            lemma_slot_prefix(self.names@, name@, 0);
        }
        None
    }

    /// Binds `identifier` to `value`, replacing any earlier binding.
    pub fn set(&mut self, identifier: &Token, value: Object)
        requires
            old(self).wf(),
        ensures
            final(self).wf(),
            final(self)@ == old(self)@.insert(identifier.lexeme@, value@),
    {
        let ghost k = identifier.lexeme@;
        let ghost v = value@;
        match self.find(&identifier.lexeme) {
            Some(i) => {
                self.values.set(i, value);
                proof {
                    lemma_slot_bounds(self.names@, k);
                    assert forall|n: Seq<char>| self@.contains_key(n) implies #[trigger] self@[n] == old(self)@.insert(k, v)[n] by {
                        lemma_slot_bounds(self.names@, n);
                    }
                }
                assert(self@ =~= old(self)@.insert(k, v));
            },
            None => {
                self.names.push(identifier.lexeme.clone());
                self.values.push(value);
                proof {
                    let names = self.names@;
                    assert(names.subrange(0, names.len() - 1) =~= old(self).names@);
                    assert forall|n: Seq<char>| n != k implies #[trigger] slot(names, n) == slot(old(self).names@, n) by {
                        lemma_slot_bounds(old(self).names@, n);
                    }
                    assert(slot(names, k) == names.len() - 1);
                    assert forall|n: Seq<char>| #[trigger] self@.contains_key(n) == old(self)@.insert(k, v).contains_key(n) by {
                        lemma_slot_bounds(old(self).names@, n);
                    }
                    assert forall|n: Seq<char>| self@.contains_key(n) implies #[trigger] self@[n] == old(self)@.insert(k, v)[n] by {
                        lemma_slot_bounds(old(self).names@, n);
                        if n != k {
                            assert(self.values@[slot(names, n)] == old(self).values@[slot(names, n)]);
                        }
                    }
                }
                assert(self@ =~= old(self)@.insert(k, v));
            },
        }
    }

    /// The value bound to `identifier`, or a "not found" error.
    pub fn get(&self, identifier: &Token) -> (r: Result<Object, Error>)
        requires
            self.wf(),
        ensures
            match r {
                Ok(v) => self@.contains_key(identifier.lexeme@) && v@ == self@[identifier.lexeme@],
                Err(e) => !self@.contains_key(identifier.lexeme@) && e@ == unbound(identifier@),
            },
    {
        match self.find(&identifier.lexeme) {
            Some(i) => Ok(self.values[i].duplicate()),
            None => {
                let message = String::from_str("Variable with name '").concat(identifier.lexeme.as_str()).concat(
                    "' not found",
                );
                Err(Error::new(ErrorType::RuntimeError, message.as_str(), identifier.line))
            },
        }
    }
}

} // verus!
