//! A snapshot of the process environment.

use vstd::prelude::*;

use crate::text;
use crate::text::same_text;

verus! {

/// The value of the first variable called `name`.
pub open spec fn lookup(vars: Seq<(Seq<char>, Seq<char>)>, name: Seq<char>) -> Option<Seq<char>>
    decreases vars.len(),
{
    if vars.len() == 0 {
        None
    } else if vars[0].0 == name {
        Some(vars[0].1)
    } else {
        lookup(vars.skip(1), name)
    }
}

/// Environment variables, as name and value. Of two with one name the first counts.
pub struct Environment {
    pub vars: Vec<(String, String)>,
}

impl View for Environment {
    type V = Seq<(Seq<char>, Seq<char>)>;

    open spec fn view(&self) -> Seq<(Seq<char>, Seq<char>)> {
        text::text_pairs(self.vars@)
    }
}

impl Environment {
    /// The value of a variable.
    pub fn var(&self, name: &str) -> (res: Option<&String>)
        ensures
            match res {
                Some(value) => lookup(self@, name@) == Some(value@),
                None => lookup(self@, name@) is None,
            },
    {
        let mut i: usize = 0;
        assert(self@.skip(0) =~= self@);
        while i < self.vars.len()
            invariant
                i <= self.vars@.len(),
                lookup(self@.skip(i as int), name@) == lookup(self@, name@),
            decreases self.vars@.len() - i,
        {
            assert(self@.skip(i as int).skip(1) =~= self@.skip(i + 1));
            assert(self@[i as int] == (self.vars@[i as int].0@, self.vars@[i as int].1@));
            if same_text(self.vars[i].0.as_str(), name) {
                return Some(&self.vars[i].1);
            }
            i = i + 1;
        }
        None
    }
}

/// Of the variables with a name, the first one counts.
pub proof fn first_variable_counts(
    vars: Seq<(Seq<char>, Seq<char>)>,
    name: Seq<char>,
    i: int,
)
    requires
        0 <= i < vars.len(),
        vars[i].0 == name,
        forall|j: int| 0 <= j < i ==> (#[trigger] vars[j]).0 != name,
    ensures
        lookup(vars, name) == Some(vars[i].1),
    decreases i,
{
    if i > 0 {
        let tail = vars.skip(1);
        assert(vars[0].0 != name);
        assert forall|j: int| 0 <= j < i - 1 implies (#[trigger] tail[j]).0 != name by {
            assert(tail[j] == vars[j + 1]);
        }
        first_variable_counts(tail, name, i - 1);
    }
}

/// A variable that is not there has no value.
pub proof fn missing_variables_have_no_value(
    vars: Seq<(Seq<char>, Seq<char>)>,
    name: Seq<char>,
)
    requires
        forall|j: int| 0 <= j < vars.len() ==> (#[trigger] vars[j]).0 != name,
    ensures
        lookup(vars, name) is None,
    decreases vars.len(),
{
    if vars.len() > 0 {
        let tail = vars.skip(1);
        assert(vars[0].0 != name);
        assert forall|j: int| 0 <= j < tail.len() implies (#[trigger] tail[j]).0 != name by {
            assert(tail[j] == vars[j + 1]);
        }
        missing_variables_have_no_value(tail, name);
    }
}

} // verus!
