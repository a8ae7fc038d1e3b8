use vstd::prelude::*;
use crate::names::lower_of;
use crate::visitor::{greeting_lines, texts, ActionView, Visitor, VisitorAction, VisitorView};

verus! {

/// Index of the first visitor at or after `start` whose name is `key`.
pub open spec fn first_match_from(vs: Seq<VisitorView>, key: Seq<char>, start: int) -> Option<int>
    decreases vs.len() - start,
{
    if start < 0 || start >= vs.len() {
        None
    } else if vs[start].name == key {
        Some(start)
    } else {
        first_match_from(vs, key, start + 1)
    }
}

/// Index of the first visitor, in insertion order, whose name is `key`.
pub open spec fn first_match(vs: Seq<VisitorView>, key: Seq<char>) -> Option<int> {
    first_match_from(vs, key, 0)
}

/// `i` is the position of the first visitor named `key`.
pub open spec fn is_first_match(vs: Seq<VisitorView>, key: Seq<char>, i: int) -> bool {
    &&& 0 <= i < vs.len()
    &&& vs[i].name == key
    &&& forall|j: int| 0 <= j < i ==> vs[j].name != key
}

/// Some visitor is named `key`.
pub open spec fn is_listed(vs: Seq<VisitorView>, key: Seq<char>) -> bool {
    exists|i: int| 0 <= i < vs.len() && vs[i].name == key
}

/// The entry made for someone who is not on the list.
pub open spec fn probation_visitor(key: Seq<char>) -> VisitorView {
    VisitorView {
        name: lower_of(key),
        greeting: "New friend"@,
        action: ActionView::Probation,
        age: 0,
    }
}

/// Said when a non-empty name is not on the list.
pub open spec fn not_listed_line(key: Seq<char>) -> Seq<char> {
    key + " is not on the visitor list."@
}

/// The list after the normalized name `key` was entered.
pub open spec fn next_registry(vs: Seq<VisitorView>, key: Seq<char>) -> Seq<VisitorView> {
    match first_match(vs, key) {
        Some(_) => vs,
        None => if key.len() == 0 {
            vs
        } else {
            vs.push(probation_visitor(key))
        },
    }
}

/// What is said when the normalized name `key` was entered; `None` ends
/// the session.
pub open spec fn response(vs: Seq<VisitorView>, key: Seq<char>) -> Option<Seq<Seq<char>>> {
    match first_match(vs, key) {
        Some(i) => Some(greeting_lines(vs[i])),
        None => if key.len() == 0 {
            None
        } else {
            Some(seq![not_listed_line(key)])
        },
    }
}

/// The list after the same normalized name was entered `n` times.
pub open spec fn after_repeats(vs: Seq<VisitorView>, key: Seq<char>, n: nat) -> Seq<VisitorView>
    decreases n,
{
    if n == 0 {
        vs
    } else {
        next_registry(after_repeats(vs, key, (n - 1) as nat), key)
    }
}

proof fn lemma_first_match_from(vs: Seq<VisitorView>, key: Seq<char>, start: int)
    requires
        0 <= start <= vs.len(),
    ensures
        match first_match_from(vs, key, start) {
            Some(i) => start <= i < vs.len() && vs[i].name == key && forall|j: int|
                start <= j < i ==> vs[j].name != key,
            None => forall|j: int| start <= j < vs.len() ==> vs[j].name != key,
        },
    decreases vs.len() - start,
{
    if start < vs.len() {
        lemma_first_match_from(vs, key, start + 1);
    }
}

/// Lookup finds the first entry, in insertion order, whose name equals the
/// key, and finds nothing exactly when no entry has that name.
pub proof fn lemma_first_match_is_first(vs: Seq<VisitorView>, key: Seq<char>)
    ensures
        match first_match(vs, key) {
            Some(i) => is_first_match(vs, key, i),
            None => !is_listed(vs, key),
        },
{
    lemma_first_match_from(vs, key, 0);
}

/// A non-empty name that is not on the list adds exactly one entry, on
/// probation with the greeting "New friend", age 0 and the name
/// lower-cased, after the entries that were there, which stay unchanged;
/// the one line said reports the name as not on the list.
pub proof fn lemma_unknown_name_is_admitted(vs: Seq<VisitorView>, key: Seq<char>)
    requires
        !is_listed(vs, key),
        key.len() > 0,
    ensures
        next_registry(vs, key).len() == vs.len() + 1,
        next_registry(vs, key).subrange(0, vs.len() as int) == vs,
        next_registry(vs, key).last() == probation_visitor(key),
        response(vs, key) == Some(seq![not_listed_line(key)]),
{
    lemma_first_match_is_first(vs, key);
    assert(next_registry(vs, key).subrange(0, vs.len() as int) =~= vs);
}

/// An empty name that is not on the list ends the session and leaves the
/// list exactly as it was.
pub proof fn lemma_empty_name_ends_session(vs: Seq<VisitorView>, key: Seq<char>)
    requires
        !is_listed(vs, key),
        key.len() == 0,
    ensures
        next_registry(vs, key) == vs,
        response(vs, key) is None,
{
    lemma_first_match_is_first(vs, key);
}

/// Entering a listed name any number of times never changes the list, and
/// each time gets the same lines.
pub proof fn lemma_known_name_is_stable(vs: Seq<VisitorView>, key: Seq<char>, n: nat)
    requires
        is_listed(vs, key),
    ensures
        after_repeats(vs, key, n) == vs,
        response(after_repeats(vs, key, n), key) == response(vs, key),
    decreases n,
{
    lemma_first_match_is_first(vs, key);
    if n > 0 {
        lemma_known_name_is_stable(vs, key, (n - 1) as nat);
    }
}

/// The visitor list: entries in insertion order, only ever appended to.
#[derive(Debug)]
pub struct VisitorRegistry {
    visitors: Vec<Visitor>,
}

impl View for VisitorRegistry {
    type V = Seq<VisitorView>;

    closed spec fn view(&self) -> Seq<VisitorView> {
        self.visitors@.map_values(|v: Visitor| v@)
    }
}

impl VisitorRegistry {
    /// An empty list.
    pub fn new() -> (r: Self)
        ensures
            r@ == Seq::<VisitorView>::empty(),
    {
        let r = VisitorRegistry { visitors: Vec::new() };
        assert(r@ =~= Seq::<VisitorView>::empty());
        r
    }

    /// Appends `v` at the end of the list.
    pub fn add(&mut self, v: Visitor)
        ensures
            final(self)@ == old(self)@.push(v@),
    {
        self.visitors.push(v);
        assert(self@ =~= old(self)@.push(v@));
    }

    /// The entries, in insertion order.
    pub fn visitors(&self) -> (r: &Vec<Visitor>)
        ensures
            r@.map_values(|v: Visitor| v@) == self@,
    {
        &self.visitors
    }

    /// The number of entries.
    pub fn len(&self) -> (r: usize)
        ensures
            r == self@.len(),
    {
        self.visitors.len()
    }

    /// Position of the first entry, in insertion order, whose name equals
    /// `key`; `None` when no entry has that name.
    pub fn lookup(&self, key: &String) -> (r: Option<usize>)
        ensures
            match r {
                Some(i) => is_first_match(self@, key@, i as int),
                None => !is_listed(self@, key@),
            },
            r matches Some(i) ==> first_match(self@, key@) == Some(i as int),
            r is None ==> first_match(self@, key@) is None,
    {
        let mut i: usize = 0;
        while i < self.visitors.len()
            invariant
                i <= self.visitors@.len(),
                self@.len() == self.visitors@.len(),
                forall|j: int| 0 <= j < i ==> self@[j].name != key@,
                first_match(self@, key@) == first_match_from(self@, key@, i as int),
            decreases self.visitors@.len() - i,
        {
            assert(self@[i as int] == self.visitors@[i as int]@);
            if self.visitors[i].name.eq(key) {
                return Some(i);
            }
            i += 1;
        }
        None
    }

    /// One turn of the session, for the normalized name `key`. A listed
    /// name gets the lines of its first entry; an empty unlisted name ends
    /// the session (`None`); any other unlisted name is reported and added
    /// on probation.
    pub fn handle_name(&mut self, key: &String) -> (r: Option<Vec<String>>)
        ensures
            final(self)@ == next_registry(old(self)@, key@),
            match r {
                Some(lines) => response(old(self)@, key@) == Some(texts(lines@)),
                None => response(old(self)@, key@) is None,
            },
    {
        match self.lookup(key) {
            Some(i) => {
                assert(self@[i as int] == self.visitors@[i as int]@);
                Some(self.visitors[i].greet_visitor())
            },
            None => {
                if key.as_str().is_empty() {
                    None
                } else {
                    let mut line = key.clone();
                    line.append(" is not on the visitor list.");
                    self.add(Visitor::new(key.as_str(), "New friend", VisitorAction::Probation, 0));
                    let lines: Vec<String> = vec![line];
                    assert(texts(lines@) =~= seq![not_listed_line(key@)]);
                    Some(lines)
                }
            },
        }
    }

    /// The list a session starts with.
    pub fn seeded() -> (r: Self)
        ensures
            r@ == seq![
                VisitorView {
                    name: lower_of("Bert"@),
                    greeting: "Hello Bert, enjoy your treehouse."@,
                    action: ActionView::Accept,
                    age: 45,
                },
                VisitorView {
                    name: lower_of("steve"@),
                    greeting: "Hi Steve. Your milk is in the fridge."@,
                    action: ActionView::AcceptWithNote { note: "Lactose-free milk is in the fridge"@ },
                    age: 15,
                },
                VisitorView {
                    name: lower_of("fred"@),
                    greeting: "Wow, who invited Fred?"@,
                    action: ActionView::Refuse,
                    age: 30,
                },
            ],
    {
        let mut r = VisitorRegistry::new();
        r.add(Visitor::new("Bert", "Hello Bert, enjoy your treehouse.", VisitorAction::Accept, 45));
        r.add(
            Visitor::new(
                "steve",
                "Hi Steve. Your milk is in the fridge.",
                VisitorAction::AcceptWithNote {
                    note: String::from_str("Lactose-free milk is in the fridge"),
                },
                15,
            ),
        );
        r.add(Visitor::new("fred", "Wow, who invited Fred?", VisitorAction::Refuse, 30));
        assert(r@ =~= seq![
            VisitorView {
                name: lower_of("Bert"@),
                greeting: "Hello Bert, enjoy your treehouse."@,
                action: ActionView::Accept,
                age: 45,
            },
            VisitorView {
                name: lower_of("steve"@),
                greeting: "Hi Steve. Your milk is in the fridge."@,
                action: ActionView::AcceptWithNote { note: "Lactose-free milk is in the fridge"@ },
                age: 15,
            },
            VisitorView {
                name: lower_of("fred"@),
                greeting: "Wow, who invited Fred?"@,
                action: ActionView::Refuse,
                age: 30,
            },
        ]);
        r
    }
}

} // verus!
