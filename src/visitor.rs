//! Visitor records and the lines with which each is greeted.
use vstd::prelude::*;
use vstd::string::*;
use crate::text::{lower_of, lowercase};

verus! {

/// How the door greets a visitor.
#[derive(Debug)]
pub enum VisitorAction {
    Accept,
    AcceptWithNote { note: String },
    Refuse,
    Probation,
}

/// A known visitor: `name` is stored lowercase and is the lookup key.
#[derive(Debug)]
pub struct Visitor {
    pub name: String,
    pub action: VisitorAction,
    pub age: i8,
}

/// Visitors under this age are not served alcohol.
pub const DRINKING_AGE: i8 = 21;

/// The welcome line.
pub open spec fn welcome_line(name: Seq<char>) -> Seq<char> {
    "Welcome to the treehouse, "@ + name
}

/// The warning that a young visitor may not be served alcohol.
pub open spec fn no_alcohol_line(name: Seq<char>) -> Seq<char> {
    "Do not serve alcohol to "@ + name
}

/// The line that turns a visitor away.
pub open spec fn refuse_line(name: Seq<char>) -> Seq<char> {
    "Do not allow "@ + name + " in!"@
}

/// The line for a visitor on probation.
pub open spec fn probation_line(name: Seq<char>) -> Seq<char> {
    name + " is now a probationary member"@
}

/// The lines emitted when greeting a visitor with the given fields.
pub open spec fn greeting_of(name: Seq<char>, action: VisitorAction, age: i8) -> Seq<Seq<char>> {
    match action {
        VisitorAction::Accept => seq![welcome_line(name)],
        VisitorAction::AcceptWithNote { note } => if age < DRINKING_AGE {
            seq![welcome_line(name), note@, no_alcohol_line(name)]
        } else {
            seq![welcome_line(name), note@]
        },
        VisitorAction::Refuse => seq![refuse_line(name)],
        VisitorAction::Probation => seq![probation_line(name)],
    }
}

/// The lines emitted when greeting `v`.
pub open spec fn greeting_lines(v: Visitor) -> Seq<Seq<char>> {
    greeting_of(v.name@, v.action, v.age)
}

/// Whether two actions are the same case, payload aside.
pub open spec fn same_case(a: VisitorAction, b: VisitorAction) -> bool {
    match (a, b) {
        (VisitorAction::Accept, VisitorAction::Accept) => true,
        (VisitorAction::AcceptWithNote { .. }, VisitorAction::AcceptWithNote { .. }) => true,
        (VisitorAction::Refuse, VisitorAction::Refuse) => true,
        (VisitorAction::Probation, VisitorAction::Probation) => true,
        _ => false,
    }
}

/// Greeting is deterministic: two visitors with the same name, the same action
/// and, where the action carries a note, ages on the same side of the drinking
/// age, are greeted with the same lines.
pub proof fn lemma_greeting_depends_on_case_and_age(a: Visitor, b: Visitor)
    requires
        a.name@ == b.name@,
        a.action == b.action,
        a.action is AcceptWithNote ==> (a.age < DRINKING_AGE <==> b.age < DRINKING_AGE),
    ensures
        greeting_lines(a) == greeting_lines(b),
{
}

/// Each case is greeted in its own way: two visitors with the same name are
/// greeted with different lines when their actions are different cases, or when
/// both carry a note and only one of them is under the drinking age.
pub proof fn lemma_greetings_distinct(a: Visitor, b: Visitor)
    requires
        a.name@ == b.name@,
        !same_case(a.action, b.action) || (a.action is AcceptWithNote
            && b.action is AcceptWithNote && (a.age < DRINKING_AGE) != (b.age < DRINKING_AGE)),
    ensures
        greeting_lines(a) != greeting_lines(b),
{
    reveal_strlit("Welcome to the treehouse, ");
    reveal_strlit("Do not allow ");
    reveal_strlit(" in!");
    reveal_strlit(" is now a probationary member");
    let la = greeting_lines(a);
    let lb = greeting_lines(b);
    if la.len() == lb.len() {
        assert(la[0].len() != lb[0].len());
    }
}

/// `prefix` followed by `name`.
fn prefixed(prefix: &str, name: &String) -> (r: String)
    ensures
        r@ == prefix@ + name@,
{
    let mut line = String::from_str(prefix);
    line.append(name.as_str());
    line
}

impl Visitor {
    /// A record whose name is the lowercase form of `name`.
    pub fn new(name: &str, action: VisitorAction, age: i8) -> (r: Self)
        ensures
            r.name@ == lower_of(name@),
            r.action == action,
            r.age == age,
    {
        Visitor { name: lowercase(name), action, age }
    }

    /// The lines with which this visitor is greeted, in order.
    pub fn greet_visitor(&self) -> (lines: Vec<String>)
        ensures
            lines.deep_view() == greeting_lines(*self),
    {
        let mut lines: Vec<String> = Vec::new();
        match &self.action {
            VisitorAction::Accept => {
                lines.push(prefixed("Welcome to the treehouse, ", &self.name));
            },
            VisitorAction::AcceptWithNote { note } => {
                lines.push(prefixed("Welcome to the treehouse, ", &self.name));
                lines.push(note.clone());
                if self.age < DRINKING_AGE {
                    lines.push(prefixed("Do not serve alcohol to ", &self.name));
                }
            },
            VisitorAction::Refuse => {
                let mut line = prefixed("Do not allow ", &self.name);
                line.append(" in!");
                lines.push(line);
            },
            VisitorAction::Probation => {
                let mut line = self.name.clone();
                line.append(" is now a probationary member");
                lines.push(line);
            },
        }
        assert(lines.deep_view() =~= greeting_lines(*self));
        lines
    }
}

} // verus!
