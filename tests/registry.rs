use treehouse::registry::{GuestRegistry, Reply};
use treehouse::text::normalize_name;
use treehouse::visitor::{Visitor, VisitorAction};

fn said(r: Reply) -> Vec<String> {
    match r {
        Reply::Say(lines) => lines,
        Reply::Quit => panic!("expected lines, got Quit"),
    }
}

#[test]
fn seeded_list_holds_three_lowercase_records() {
    let g = GuestRegistry::seeded();
    assert_eq!(g.len(), 3);
    assert_eq!(g.visitors[0].name, "bert");
    assert!(matches!(g.visitors[0].action, VisitorAction::Accept));
    assert_eq!(g.visitors[0].age, 45);
    assert_eq!(g.visitors[1].name, "steve");
    match &g.visitors[1].action {
        VisitorAction::AcceptWithNote { note } => {
            assert_eq!(note, "Lactose-free milk is in the fridge")
        }
        other => panic!("unexpected action {:?}", other),
    }
    assert_eq!(g.visitors[1].age, 15);
    assert_eq!(g.visitors[2].name, "fred");
    assert!(matches!(g.visitors[2].action, VisitorAction::Refuse));
    assert_eq!(g.visitors[2].age, 30);
}

#[test]
fn classify_finds_bert_and_not_nobody() {
    let g = GuestRegistry::seeded();
    let bert = g.classify("bert").expect("bert is on the list");
    assert_eq!(bert.name, "bert");
    assert_eq!(bert.age, 45);
    assert!(matches!(bert.action, VisitorAction::Accept));
    assert!(g.classify("nobody").is_none());
}

#[test]
fn classify_first_match_wins() {
    let mut g = GuestRegistry::new();
    g.visitors.push(Visitor::new("Ann", VisitorAction::Refuse, 40));
    g.visitors.push(Visitor::new("ann", VisitorAction::Accept, 20));
    assert_eq!(g.position("ann"), Some(0));
    assert!(matches!(g.classify("ann").unwrap().action, VisitorAction::Refuse));
    assert_eq!(g.position("bob"), None);
}

#[test]
fn classify_on_empty_registry_finds_nothing() {
    let g = GuestRegistry::new();
    assert_eq!(g.len(), 0);
    assert!(g.classify("").is_none());
    assert!(g.classify("bert").is_none());
}

#[test]
fn steve_gets_welcome_note_and_warning() {
    let g = GuestRegistry::seeded();
    let lines = g.classify("steve").unwrap().greet_visitor();
    assert_eq!(
        lines,
        vec![
            "Welcome to the treehouse, steve".to_string(),
            "Lactose-free milk is in the fridge".to_string(),
            "Do not serve alcohol to steve".to_string(),
        ]
    );
}

#[test]
fn bert_gets_only_the_welcome() {
    let g = GuestRegistry::seeded();
    let lines = g.classify("bert").unwrap().greet_visitor();
    assert_eq!(lines, vec!["Welcome to the treehouse, bert".to_string()]);
}

#[test]
fn fred_is_refused() {
    let g = GuestRegistry::seeded();
    let lines = g.classify("fred").unwrap().greet_visitor();
    assert_eq!(lines, vec!["Do not allow fred in!".to_string()]);
}

#[test]
fn probation_visitor_greeting() {
    let v = Visitor::new("Zed", VisitorAction::Probation, 0);
    assert_eq!(v.greet_visitor(), vec!["zed is now a probationary member".to_string()]);
}

#[test]
fn note_without_warning_at_drinking_age() {
    let note = "Cake on the shelf".to_string();
    let v = Visitor::new("Kim", VisitorAction::AcceptWithNote { note }, 21);
    assert_eq!(
        v.greet_visitor(),
        vec!["Welcome to the treehouse, kim".to_string(), "Cake on the shelf".to_string()]
    );
    let young = Visitor::new("Kim", VisitorAction::AcceptWithNote { note: "Cake on the shelf".to_string() }, 20);
    assert_eq!(young.greet_visitor().len(), 3);
}

#[test]
fn four_cases_greet_distinctly() {
    let actions = vec![
        VisitorAction::Accept,
        VisitorAction::AcceptWithNote { note: "Hi".to_string() },
        VisitorAction::Refuse,
        VisitorAction::Probation,
    ];
    let mut seen: Vec<Vec<String>> = Vec::new();
    for action in actions {
        let lines = Visitor::new("sam", action, 30).greet_visitor();
        assert!(!seen.contains(&lines));
        seen.push(lines);
    }
    let a = Visitor::new("sam", VisitorAction::Refuse, 30).greet_visitor();
    let b = Visitor::new("sam", VisitorAction::Refuse, 5).greet_visitor();
    assert_eq!(a, b);
}

#[test]
fn new_lowercases_the_name() {
    let v = Visitor::new("MiXeD Case", VisitorAction::Accept, -3);
    assert_eq!(v.name, "mixed case");
    assert_eq!(v.age, -3);
}

#[test]
fn normalize_trims_and_lowercases() {
    assert_eq!(normalize_name("  HeLLo World \n"), "hello world");
    assert_eq!(normalize_name("\t\r\n"), "");
    assert_eq!(normalize_name(""), "");
}

#[test]
fn unknown_name_is_registered_on_probation() {
    let mut g = GuestRegistry::seeded();
    let lines = said(g.submit("  Zed \n"));
    assert_eq!(lines, vec!["zed is not on the visitor list.".to_string()]);
    assert_eq!(g.len(), 4);
    let last = &g.visitors[3];
    assert_eq!(last.name, "zed");
    assert!(matches!(last.action, VisitorAction::Probation));
    assert_eq!(last.age, 0);
    said(g.submit("Amy"));
    assert_eq!(g.len(), 5);
    assert_eq!(g.visitors[0].name, "bert");
    assert_eq!(g.visitors[4].name, "amy");
}

#[test]
fn registered_name_is_known_next_time() {
    let mut g = GuestRegistry::seeded();
    said(g.submit("zed"));
    let lines = said(g.submit("ZED"));
    assert_eq!(lines, vec!["zed is now a probationary member".to_string()]);
    assert_eq!(g.len(), 4);
}

#[test]
fn register_unknown_appends_one_record() {
    let mut g = GuestRegistry::new();
    g.register_unknown("Pat");
    assert_eq!(g.len(), 1);
    assert_eq!(g.visitors[0].name, "pat");
    assert!(matches!(g.visitors[0].action, VisitorAction::Probation));
    assert_eq!(g.visitors[0].age, 0);
}

#[test]
fn empty_line_quits_without_change() {
    let mut g = GuestRegistry::seeded();
    assert!(matches!(g.submit(""), Reply::Quit));
    assert!(matches!(g.submit("   \n"), Reply::Quit));
    assert_eq!(g.len(), 3);
}

#[test]
fn capitals_match_the_seeded_record() {
    let mut g = GuestRegistry::seeded();
    let lines = said(g.submit("BERT"));
    assert_eq!(lines, vec!["Welcome to the treehouse, bert".to_string()]);
    let lines = said(g.submit("  Steve\n"));
    assert_eq!(lines.len(), 3);
    assert_eq!(g.len(), 3);
}
