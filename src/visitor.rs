use vstd::prelude::*;
use crate::names::{lower_of, lowercase};

verus! {

/// What is done with a visitor who is on the list.
#[derive(Debug, PartialEq, Eq)]
pub enum VisitorAction {
    Accept,
    AcceptWithNote { note: String },
    Refuse,
    Probation,
}

/// The mathematical value of a `VisitorAction`.
pub enum ActionView {
    Accept,
    AcceptWithNote { note: Seq<char> },
    Refuse,
    Probation,
}

impl View for VisitorAction {
    type V = ActionView;

    open spec fn view(&self) -> ActionView {
        match self {
            VisitorAction::Accept => ActionView::Accept,
            VisitorAction::AcceptWithNote { note } => ActionView::AcceptWithNote { note: note@ },
            VisitorAction::Refuse => ActionView::Refuse,
            VisitorAction::Probation => ActionView::Probation,
        }
    }
}

/// One entry of the visitor list. `name` is the lookup key, kept in
/// normalized (lower-case) form.
#[derive(Debug)]
pub struct Visitor {
    pub name: String,
    pub action: VisitorAction,
    pub age: i8,
    pub greeting: String,
}

/// The mathematical value of a `Visitor`.
pub struct VisitorView {
    pub name: Seq<char>,
    pub greeting: Seq<char>,
    pub action: ActionView,
    pub age: i8,
}

impl View for Visitor {
    type V = VisitorView;

    open spec fn view(&self) -> VisitorView {
        VisitorView {
            name: self.name@,
            greeting: self.greeting@,
            action: self.action@,
            age: self.age,
        }
    }
}

/// Visitors younger than this are not served alcohol.
pub const DRINKING_AGE: i8 = 21;

/// Said to every accepted visitor.
pub open spec fn welcome_line(name: Seq<char>) -> Seq<char> {
    "Welcome to the tree house, "@ + name
}

/// Said of a visitor accepted with a note who is under the drinking age.
pub open spec fn no_alcohol_line(name: Seq<char>) -> Seq<char> {
    "Do not serve alcohol to "@ + name
}

/// Said of a visitor on probation.
pub open spec fn probation_line(name: Seq<char>) -> Seq<char> {
    name + " is now a probationary member"@
}

/// Said of a refused visitor.
pub open spec fn refusal_line(name: Seq<char>) -> Seq<char> {
    "Do not allow "@ + name + " in!"@
}

/// The lines said to a visitor found on the list, in order.
pub open spec fn greeting_lines(v: VisitorView) -> Seq<Seq<char>> {
    match v.action {
        ActionView::Accept => seq![v.greeting, welcome_line(v.name)],
        ActionView::AcceptWithNote { note } => if v.age < DRINKING_AGE {
            seq![v.greeting, welcome_line(v.name), note, no_alcohol_line(v.name)]
        } else {
            seq![v.greeting, welcome_line(v.name), note]
        },
        ActionView::Probation => seq![probation_line(v.name)],
        ActionView::Refuse => seq![refusal_line(v.name)],
    }
}

/// The texts held by a sequence of strings.
pub open spec fn texts(lines: Seq<String>) -> Seq<Seq<char>> {
    lines.map_values(|s: String| s@)
}

impl Visitor {
    /// A visitor whose lookup key is `name` lower-cased.
    pub fn new(name: &str, greeting: &str, action: VisitorAction, age: i8) -> (r: Self)
        ensures
            r.name@ == lower_of(name@),
            r.greeting@ == greeting@,
            r.action == action,
            r.age == age,
    {
        Visitor { name: lowercase(name), greeting: greeting.to_owned(), action, age }
    }

    /// The lines to say to this visitor: the greeting and a welcome for
    /// those accepted, followed by the note and, under the drinking age, a
    /// warning for those accepted with a note; a single line for those on
    /// probation or refused.
    pub fn greet_visitor(&self) -> (r: Vec<String>)
        ensures
            texts(r@) == greeting_lines(self@),
    {
        let mut lines: Vec<String> = Vec::new();
        match &self.action {
            VisitorAction::Accept => {
                lines.push(self.greeting.clone());
                lines.push(welcome(&self.name));
            },
            VisitorAction::AcceptWithNote { note } => {
                lines.push(self.greeting.clone());
                lines.push(welcome(&self.name));
                lines.push(note.clone());
                if self.age < DRINKING_AGE {
                    let mut warning = String::from_str("Do not serve alcohol to ");
                    warning.append(self.name.as_str());
                    lines.push(warning);
                }
            },
            VisitorAction::Probation => {
                let mut line = self.name.clone();
                line.append(" is now a probationary member");
                lines.push(line);
            },
            VisitorAction::Refuse => {
                let mut line = String::from_str("Do not allow ");
                line.append(self.name.as_str());
                line.append(" in!");
                lines.push(line);
            },
        }
        assert(texts(lines@) =~= greeting_lines(self@));
        lines
    }
}

fn welcome(name: &String) -> (r: String)
    ensures
        r@ == welcome_line(name@),
{
    let mut line = String::from_str("Welcome to the tree house, ");
    line.append(name.as_str());
    line
}

} // verus!
