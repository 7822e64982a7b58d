//! Checking structures field by field: every field is checked, and every
//! failure is kept, in the order of the fields.
use vstd::prelude::*;
use vstd::string::*;

verus! {

/// A structure that can be validated as a whole.
pub trait Validate {
    /// Validates every checked field; `Err` holds one message per failing
    /// field, in the order of the fields.
    fn validate(&self) -> Result<(), Vec<String>>;
}

/// `"<field>: <cause>"`.
pub open spec fn field_text(field: Seq<char>, cause: Seq<char>) -> Seq<char> {
    field + ": "@ + cause
}

/// The failure of an outcome, as a message or `None`.
pub open spec fn failure_of(r: Result<(), String>) -> Option<Seq<char>> {
    match r {
        Ok(()) => None,
        Err(m) => Some(m@),
    }
}

/// The messages of the failing fields among `outcomes` (each a field name and
/// its failure, if any), prefixed by their names, in order.
pub open spec fn accumulated(outcomes: Seq<(Seq<char>, Option<Seq<char>>)>) -> Seq<Seq<char>>
    decreases outcomes.len(),
{
    if outcomes.len() == 0 {
        Seq::empty()
    } else {
        let rest = accumulated(outcomes.drop_last());
        match outcomes.last().1 {
            Some(cause) => rest.push(field_text(outcomes.last().0, cause)),
            None => rest,
        }
    }
}

/// What a structure's validation returns for the messages `errors`.
pub open spec fn reports_all(r: Result<(), Vec<String>>, errors: Seq<Seq<char>>) -> bool {
    match r {
        Ok(()) => errors.len() == 0,
        Err(v) => errors.len() > 0 && v@.map_values(|s: String| s@) == errors,
    }
}

/// The failures collected while the fields of a structure are checked.
pub struct FieldErrors {
    pub errors: Vec<String>,
    /// Each field checked so far, with its failure if it failed.
    pub outcomes: Ghost<Seq<(Seq<char>, Option<Seq<char>>)>>,
}

impl FieldErrors {
    pub open spec fn wf(&self) -> bool {
        self.errors@.map_values(|s: String| s@) == accumulated(self.outcomes@)
    }

    /// No field checked yet.
    pub fn new() -> (r: FieldErrors)
        ensures
            r.wf(),
            r.outcomes@ == Seq::<(Seq<char>, Option<Seq<char>>)>::empty(),
    {
        let r = FieldErrors { errors: Vec::new(), outcomes: Ghost(Seq::empty()) };
        assert(r.errors@.map_values(|s: String| s@) =~= Seq::<Seq<char>>::empty());
        r
    }

    /// Records the outcome of checking the field `field`: a failure is kept
    /// as `"<field>: <message>"`.
    pub fn check(&mut self, field: &str, outcome: Result<(), String>)
        requires
            old(self).wf(),
        ensures
            final(self).wf(),
            final(self).outcomes@ == old(self).outcomes@.push((field@, failure_of(outcome))),
    {
        let ghost prev = self.outcomes@;
        let ghost next = prev.push((field@, failure_of(outcome)));
        assert(next.drop_last() =~= prev);
        match outcome {
            Ok(()) => {},
            Err(cause) => {
                let mut m = String::from_str(field);
                m.append(": ");
                m.append(cause.as_str());
                let ghost before = self.errors@;
                self.errors.push(m);
                assert(self.errors@.map_values(|s: String| s@) =~= before.map_values(
                    |s: String| s@,
                ).push(m@));
            },
        }
        self.outcomes = Ghost(next);
    }

    /// `Ok` when no checked field failed, else all the failures in order.
    pub fn finish(self) -> (r: Result<(), Vec<String>>)
        requires
            self.wf(),
        ensures
            reports_all(r, accumulated(self.outcomes@)),
    {
        if self.errors.len() == 0 {
            Ok(())
        } else {
            Err(self.errors)
        }
    }
}

} // verus!
