use treehouse::{normalize_name, Visitor, VisitorAction, VisitorRegistry};

fn key(s: &str) -> String {
    s.to_string()
}

fn strings(lines: &[&str]) -> Vec<String> {
    lines.iter().map(|s| s.to_string()).collect()
}

#[test]
fn normalize_trims_and_lowercases() {
    assert_eq!(normalize_name("  Bert\n"), "bert");
}

#[test]
fn normalize_blank_line_is_empty() {
    assert_eq!(normalize_name("\n"), "");
    assert_eq!(normalize_name(" \t \r\n"), "");
    assert_eq!(normalize_name(""), "");
}

#[test]
fn normalize_keeps_inner_text() {
    assert_eq!(normalize_name("\tMary Jane!\r\n"), "mary jane!");
}

#[test]
fn new_visitor_lowercases_name_only() {
    let v = Visitor::new("BeRt", "Hello Bert", VisitorAction::Accept, 45);
    assert_eq!(v.name, "bert");
    assert_eq!(v.greeting, "Hello Bert");
    assert_eq!(v.action, VisitorAction::Accept);
    assert_eq!(v.age, 45);
}

#[test]
fn seeded_list_holds_three_visitors() {
    let r = VisitorRegistry::seeded();
    let vs = r.visitors();
    assert_eq!(r.len(), 3);
    assert_eq!(vs[0].name, "bert");
    assert_eq!(vs[0].greeting, "Hello Bert, enjoy your treehouse.");
    assert_eq!(vs[0].action, VisitorAction::Accept);
    assert_eq!(vs[0].age, 45);
    assert_eq!(vs[1].name, "steve");
    assert_eq!(
        vs[1].action,
        VisitorAction::AcceptWithNote { note: "Lactose-free milk is in the fridge".to_string() }
    );
    assert_eq!(vs[1].age, 15);
    assert_eq!(vs[2].name, "fred");
    assert_eq!(vs[2].action, VisitorAction::Refuse);
    assert_eq!(vs[2].age, 30);
}

#[test]
fn lookup_returns_first_match() {
    let mut r = VisitorRegistry::new();
    r.add(Visitor::new("anna", "First", VisitorAction::Accept, 30));
    r.add(Visitor::new("bert", "Second", VisitorAction::Accept, 30));
    r.add(Visitor::new("bert", "Third", VisitorAction::Refuse, 30));
    assert_eq!(r.lookup(&key("bert")), Some(1));
    assert_eq!(r.lookup(&key("anna")), Some(0));
    assert_eq!(r.lookup(&key("carl")), None);
}

#[test]
fn lookup_is_exact_on_the_key() {
    let r = VisitorRegistry::seeded();
    assert_eq!(r.lookup(&key("Bert")), None);
    assert_eq!(r.lookup(&key("bert ")), None);
    assert_eq!(r.lookup(&normalize_name(" BERT\n")), Some(0));
}

#[test]
fn lookup_in_empty_list_finds_nothing() {
    let r = VisitorRegistry::new();
    assert_eq!(r.len(), 0);
    assert_eq!(r.lookup(&key("bert")), None);
    assert_eq!(r.lookup(&key("")), None);
}

#[test]
fn duplicate_names_first_entry_wins() {
    let mut r = VisitorRegistry::new();
    r.add(Visitor::new("bert", "Hi", VisitorAction::Refuse, 30));
    r.add(Visitor::new("bert", "Hello", VisitorAction::Accept, 30));
    assert_eq!(r.handle_name(&key("bert")), Some(strings(&["Do not allow bert in!"])));
}

#[test]
fn steve_gets_note_and_alcohol_warning() {
    let mut r = VisitorRegistry::seeded();
    let lines = r.handle_name(&key("steve"));
    assert_eq!(
        lines,
        Some(strings(&[
            "Hi Steve. Your milk is in the fridge.",
            "Welcome to the tree house, steve",
            "Lactose-free milk is in the fridge",
            "Do not serve alcohol to steve",
        ]))
    );
    assert_eq!(r.len(), 3);
}

#[test]
fn bert_gets_greeting_and_welcome_only() {
    let mut r = VisitorRegistry::seeded();
    let lines = r.handle_name(&key("bert"));
    assert_eq!(
        lines,
        Some(strings(&["Hello Bert, enjoy your treehouse.", "Welcome to the tree house, bert"]))
    );
    assert_eq!(r.len(), 3);
}

#[test]
fn note_without_warning_at_drinking_age() {
    let note = VisitorAction::AcceptWithNote { note: "Bring snacks".to_string() };
    let v = Visitor::new("dora", "Hey Dora", note, 21);
    assert_eq!(
        v.greet_visitor(),
        strings(&["Hey Dora", "Welcome to the tree house, dora", "Bring snacks"])
    );
    let note = VisitorAction::AcceptWithNote { note: "Bring snacks".to_string() };
    let w = Visitor::new("ed", "Hey Ed", note, 20);
    assert_eq!(
        w.greet_visitor(),
        strings(&[
            "Hey Ed",
            "Welcome to the tree house, ed",
            "Bring snacks",
            "Do not serve alcohol to ed",
        ])
    );
}

#[test]
fn note_with_negative_age_gets_warning() {
    let note = VisitorAction::AcceptWithNote { note: "n".to_string() };
    let v = Visitor::new("kid", "g", note, -128);
    assert_eq!(v.greet_visitor().len(), 4);
}

#[test]
fn fred_is_refused_without_welcome() {
    let mut r = VisitorRegistry::seeded();
    let lines = r.handle_name(&key("fred")).unwrap();
    assert_eq!(lines, strings(&["Do not allow fred in!"]));
    assert!(lines.iter().all(|l| !l.starts_with("Welcome")));
    assert_eq!(r.len(), 3);
}

#[test]
fn wilma_is_added_on_probation() {
    let mut r = VisitorRegistry::seeded();
    let lines = r.handle_name(&key("wilma"));
    assert_eq!(lines, Some(strings(&["wilma is not on the visitor list."])));
    assert_eq!(r.len(), 4);
    let vs = r.visitors();
    let w = &vs[3];
    assert_eq!(w.name, "wilma");
    assert_eq!(w.greeting, "New friend");
    assert_eq!(w.action, VisitorAction::Probation);
    assert_eq!(w.age, 0);
    assert_eq!(vs[0].name, "bert");
    assert_eq!(vs[1].name, "steve");
    assert_eq!(vs[2].name, "fred");
    assert_eq!(vs[2].greeting, "Wow, who invited Fred?");
}

#[test]
fn probationary_member_is_recognised_next_time() {
    let mut r = VisitorRegistry::seeded();
    r.handle_name(&key("wilma"));
    let lines = r.handle_name(&key("wilma"));
    assert_eq!(lines, Some(strings(&["wilma is now a probationary member"])));
    assert_eq!(r.len(), 4);
}

#[test]
fn empty_input_ends_session_unchanged() {
    let mut r = VisitorRegistry::seeded();
    assert_eq!(r.handle_name(&key("")), None);
    assert_eq!(r.len(), 3);
    let names: Vec<&str> = r.visitors().iter().map(|v| v.name.as_str()).collect();
    assert_eq!(names, vec!["bert", "steve", "fred"]);
}

#[test]
fn empty_input_after_additions_keeps_order() {
    let mut r = VisitorRegistry::seeded();
    r.handle_name(&key("wilma"));
    r.handle_name(&key("barney"));
    assert_eq!(r.handle_name(&key("")), None);
    let names: Vec<&str> = r.visitors().iter().map(|v| v.name.as_str()).collect();
    assert_eq!(names, vec!["bert", "steve", "fred", "wilma", "barney"]);
}

#[test]
fn repeating_known_name_is_idempotent() {
    let mut r = VisitorRegistry::seeded();
    let first = r.handle_name(&key("steve"));
    for _ in 0..3 {
        assert_eq!(r.handle_name(&key("steve")), first);
        assert_eq!(r.len(), 3);
    }
    let fred = r.handle_name(&key("fred"));
    assert_eq!(r.handle_name(&key("fred")), fred);
    assert_eq!(r.len(), 3);
}
