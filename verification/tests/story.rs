use agent_session::story::{Answer, Node, Step};

fn leaf(text: &str) -> Node {
    Node { text: text.to_string(), a: None, b: None }
}

fn tree() -> Node {
    Node {
        text: "start".to_string(),
        a: Some(Box::new(Node { text: "left".to_string(), a: Some(Box::new(leaf("deep"))), b: None })),
        b: Some(Box::new(leaf("right"))),
    }
}

#[test]
fn answers() {
    assert_eq!(agent_session::story::read_answer("A"), Answer::A);
    assert_eq!(agent_session::story::read_answer("B"), Answer::B);
    assert_eq!(agent_session::story::read_answer("a"), Answer::Invalid);
    assert_eq!(agent_session::story::read_answer(""), Answer::Invalid);
    assert_eq!(agent_session::story::read_answer("AB"), Answer::Invalid);
    assert_eq!(agent_session::story::read_answer(" A"), Answer::Invalid);
}

#[test]
fn an_answer_leads_to_its_branch() {
    let root = tree();
    assert_eq!(root.follow(Answer::A), Step::Move(root.a.as_deref().expect("a branch")));
    assert_eq!(root.follow(Answer::B), Step::Move(&leaf("right")));
    assert_eq!(root.follow(Answer::Invalid), Step::Stay);
}

#[test]
fn a_missing_branch_ends_the_story() {
    let left = Node { text: "left".to_string(), a: Some(Box::new(leaf("deep"))), b: None };
    assert_eq!(left.follow(Answer::B), Step::End);
    assert_eq!(left.follow(Answer::A), Step::Move(&leaf("deep")));
    assert_eq!(leaf("x").follow(Answer::A), Step::End);
    assert_eq!(leaf("x").follow(Answer::Invalid), Step::Stay);
}

#[test]
fn a_passage_without_choices_is_an_ending() {
    assert!(leaf("x").is_ending());
    assert!(!tree().is_ending());
    assert!(!Node { text: String::new(), a: None, b: Some(Box::new(leaf("b"))) }.is_ending());
}
