//! The guest registry: an ordered list of visitor records, looked up by name.
use vstd::prelude::*;
use vstd::string::*;
use crate::text::{folded_name, lower_of, normalize_name, trim_of};
use crate::visitor::{greeting_lines, Visitor, VisitorAction};

verus! {

/// The visitors known so far, in the order they were added.
#[derive(Debug)]
pub struct GuestRegistry {
    pub visitors: Vec<Visitor>,
}

/// What the door does after a line has been typed.
#[derive(Debug)]
pub enum Reply {
    /// Show these lines and wait for the next name.
    Say(Vec<String>),
    /// Stop asking.
    Quit,
}

/// Some record in `vs` has the name `name`.
pub open spec fn has_match(vs: Seq<Visitor>, name: Seq<char>) -> bool {
    exists|i: int| 0 <= i < vs.len() && (#[trigger] vs[i]).name@ == name
}

/// `i` is the position of the first record in `vs` named `name`.
pub open spec fn is_first_match(vs: Seq<Visitor>, name: Seq<char>, i: int) -> bool {
    &&& 0 <= i < vs.len()
    &&& vs[i].name@ == name
    &&& forall|j: int| 0 <= j < i ==> (#[trigger] vs[j]).name@ != name
}

/// `v` is the record that registering `name` adds.
pub open spec fn is_probation_record(v: Visitor, name: Seq<char>) -> bool {
    &&& v.name@ == lower_of(name)
    &&& v.action == VisitorAction::Probation
    &&& v.age == 0
}

/// `after` is `before` with one record appended for the stranger `name`.
pub open spec fn appended_probation(before: Seq<Visitor>, after: Seq<Visitor>, name: Seq<char>) -> bool {
    &&& after.len() == before.len() + 1
    &&& after.subrange(0, before.len() as int) == before
    &&& is_probation_record(after.last(), name)
}

/// The line that reports a name missing from the list.
pub open spec fn not_listed_line(name: Seq<char>) -> Seq<char> {
    name + " is not on the visitor list."@
}

/// Lookup ignores case and surrounding white space: two typed lines with the
/// same lowercase trimmed form find the same first record, or both find none.
pub proof fn lemma_lookup_ignores_case(vs: Seq<Visitor>, a: Seq<char>, b: Seq<char>)
    requires
        lower_of(trim_of(a)) == lower_of(trim_of(b)),
    ensures
        has_match(vs, folded_name(a)) == has_match(vs, folded_name(b)),
        forall|i: int| is_first_match(vs, folded_name(a), i) == is_first_match(vs, folded_name(b), i),
{
}

/// `r` shows exactly the lines `lines`.
pub open spec fn says(r: Reply, lines: Seq<Seq<char>>) -> bool {
    r matches Reply::Say(shown) && shown.deep_view() == lines
}

impl GuestRegistry {
    /// A registry with no visitors.
    pub fn new() -> (r: Self)
        ensures
            r.visitors@.len() == 0,
    {
        GuestRegistry { visitors: Vec::new() }
    }

    /// The starting list: bert, who is welcome; steve, who is welcome with a
    /// note about the milk; and fred, who is refused.
    pub fn seeded() -> (r: Self)
        ensures
            r.visitors@.len() == 3,
            r.visitors@[0].name@ == lower_of("Bert"@),
            r.visitors@[0].action == VisitorAction::Accept,
            r.visitors@[0].age == 45,
            r.visitors@[1].name@ == lower_of("Steve"@),
            r.visitors@[1].action matches VisitorAction::AcceptWithNote { note }
                && note@ == "Lactose-free milk is in the fridge"@,
            r.visitors@[1].age == 15,
            r.visitors@[2].name@ == lower_of("Fred"@),
            r.visitors@[2].action == VisitorAction::Refuse,
            r.visitors@[2].age == 30,
    {
        let mut visitors: Vec<Visitor> = Vec::new();
        visitors.push(Visitor::new("Bert", VisitorAction::Accept, 45));
        let note = String::from_str("Lactose-free milk is in the fridge");
        visitors.push(Visitor::new("Steve", VisitorAction::AcceptWithNote { note }, 15));
        visitors.push(Visitor::new("Fred", VisitorAction::Refuse, 30));
        GuestRegistry { visitors }
    }

    /// The number of records.
    pub fn len(&self) -> (r: usize)
        ensures
            r == self.visitors@.len(),
    {
        self.visitors.len()
    }

    /// The position of the first record named `name`, if any.
    pub fn position(&self, name: &str) -> (r: Option<usize>)
        ensures
            r is None <==> !has_match(self.visitors@, name@),
            r matches Some(i) ==> is_first_match(self.visitors@, name@, i as int),
    {
        let key = String::from_str(name);
        let mut i: usize = 0;
        while i < self.visitors.len()
            invariant
                0 <= i <= self.visitors@.len(),
                key@ == name@,
                forall|j: int| 0 <= j < i ==> (#[trigger] self.visitors@[j]).name@ != name@,
            decreases self.visitors@.len() - i,
        {
            if self.visitors[i].name == key {
                return Some(i);
            }
            i += 1;
        }
        None
    }

    /// The first record named `name` (already normalised), if any.
    pub fn classify(&self, name: &str) -> (r: Option<&Visitor>)
        ensures
            r is None <==> !has_match(self.visitors@, name@),
            r matches Some(v) ==> exists|i: int|
                is_first_match(self.visitors@, name@, i) && *v == self.visitors@[i],
    {
        match self.position(name) {
            Some(i) => Some(&self.visitors[i]),
            None => None,
        }
    }

    /// Appends a record for the stranger `name`, on probation and of age 0.
    pub fn register_unknown(&mut self, name: &str)
        ensures
            appended_probation(old(self).visitors@, final(self).visitors@, name@),
    {
        self.visitors.push(Visitor::new(name, VisitorAction::Probation, 0));
        assert(self.visitors@.subrange(0, old(self).visitors@.len() as int) =~= old(self).visitors@);
    }
    /// Handles one typed line. The line is normalised; a known name is greeted,
    /// an empty one ends the interaction, and any other is reported as unknown
    /// and registered on probation.
    pub fn submit(&mut self, line: &str) -> (r: Reply)
        ensures
            ({
                let name = folded_name(line@);
                let vs = old(self).visitors@;
                &&& has_match(vs, name) ==> final(self).visitors@ == vs && exists|i: int|
                    is_first_match(vs, name, i) && says(r, greeting_lines(vs[i]))
                &&& !has_match(vs, name) && name.len() == 0 ==> r is Quit
                    && final(self).visitors@ == vs
                &&& !has_match(vs, name) && name.len() > 0 ==> says(r, seq![not_listed_line(name)])
                    && appended_probation(vs, final(self).visitors@, name)
            }),
            trim_of(line@).len() == 0 ==> final(self).visitors@ == old(self).visitors@,
    {
        let name = normalize_name(line);
        match self.classify(name.as_str()) {
            Some(v) => Reply::Say(v.greet_visitor()),
            None => {
                if name.as_str().is_empty() {
                    Reply::Quit
                } else {
                    let mut message = name.clone();
                    message.append(" is not on the visitor list.");
                    self.register_unknown(name.as_str());
                    let lines = vec![message];
                    assert(lines.deep_view() =~= seq![not_listed_line(name@)]);
                    Reply::Say(lines)
                }
            },
        }
    }
}

} // verus!
