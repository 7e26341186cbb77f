use vrl_tutorial::lesson::{decimal_string, Lesson};
use vrl_tutorial::session::{classify, Action, Command, LoadError, Mode, Outcome, Session, Verdict};
use vrl_tutorial::value::Value;

fn obj(entries: Vec<(&str, Value)>) -> Value {
    Value::Object(entries.into_iter().map(|(k, v)| (k.to_string(), v)).collect())
}

fn lesson(section: usize, id: usize, target: Value, seed: Value) -> Lesson {
    Lesson {
        section,
        id,
        title: format!("Lesson {}", id),
        help_text: "Do the thing.".to_string(),
        docs: "functions#parse_json".to_string(),
        target,
        working: seed,
    }
}

fn a_is_one() -> Value {
    obj(vec![("a", Value::Integer(1))])
}

fn two_lessons() -> Session {
    let lessons = vec![
        lesson(1, 1, a_is_one(), obj(vec![])),
        lesson(1, 2, obj(vec![("b", Value::Boolean(true))]), obj(vec![("c", Value::Null)])),
    ];
    Session::new(lessons).ok().unwrap()
}

fn three_lessons() -> Session {
    let lessons = vec![
        lesson(1, 1, Value::Null, Value::Null),
        lesson(1, 2, Value::Null, Value::Null),
        lesson(2, 1, Value::Null, Value::Null),
    ];
    Session::new(lessons).ok().unwrap()
}

fn working_is(s: &Session, i: usize, v: &Value) -> bool {
    s.lesson(i).working.deep_eq(v)
}

#[test]
fn classify_recognises_each_command() {
    assert_eq!(classify(""), Command::Blank);
    assert_eq!(classify("exit"), Command::Exit);
    assert_eq!(classify("quit"), Command::Exit);
    assert_eq!(classify("help"), Command::Help);
    assert_eq!(classify("next"), Command::Next);
    assert_eq!(classify("prev"), Command::Prev);
    assert_eq!(classify("docs"), Command::Docs);
    assert_eq!(classify("cheat"), Command::Cheat);
    assert_eq!(classify(".a = 1"), Command::Source);
}

#[test]
fn classify_is_exact_and_case_sensitive() {
    assert_eq!(classify("next "), Command::Source);
    assert_eq!(classify(" next"), Command::Source);
    assert_eq!(classify("Next"), Command::Source);
    assert_eq!(classify("EXIT"), Command::Source);
    assert_eq!(classify("nex"), Command::Source);
}

#[test]
fn empty_curriculum_is_refused() {
    assert!(matches!(Session::new(vec![]), Err(LoadError::NoLessons)));
}

#[test]
fn session_starts_at_first_lesson() {
    let s = three_lessons();
    assert_eq!(s.index(), 0);
    assert_eq!(s.len(), 3);
    assert_eq!(s.mode(), Mode::Browsing);
}

#[test]
fn next_moves_forward_and_ends_after_last() {
    let mut s = three_lessons();
    assert_eq!(s.step("next"), Action::Present(1));
    assert_eq!(s.index(), 1);
    assert_eq!(s.step("next"), Action::Present(2));
    assert_eq!(s.index(), 2);
    assert_eq!(s.step("next"), Action::Complete);
    assert_eq!(s.mode(), Mode::Finished);
    assert_eq!(s.step("next"), Action::End);
}

#[test]
fn prev_moves_back_and_stays_at_first() {
    let mut s = three_lessons();
    s.step("next");
    s.step("next");
    assert_eq!(s.step("prev"), Action::Present(1));
    assert_eq!(s.step("prev"), Action::Present(0));
    assert_eq!(s.step("prev"), Action::AtBeginning);
    assert_eq!(s.index(), 0);
    assert_eq!(s.mode(), Mode::Browsing);
}

#[test]
fn other_commands_keep_the_lesson() {
    let mut s = three_lessons();
    s.step("next");
    assert_eq!(s.step(""), Action::Nothing);
    assert_eq!(s.step("help"), Action::ShowHelp);
    assert_eq!(s.step("docs"), Action::OpenDocs);
    assert_eq!(s.step("cheat"), Action::ShowTarget);
    assert_eq!(s.step(".foo = 2"), Action::Evaluate);
    assert_eq!(s.index(), 1);
    assert_eq!(s.mode(), Mode::Browsing);
}

#[test]
fn exit_at_welcome_ends_session() {
    let mut s = two_lessons();
    assert_eq!(s.step("exit"), Action::End);
    assert_eq!(s.mode(), Mode::Finished);
    let mut t = two_lessons();
    assert_eq!(t.step("quit"), Action::End);
    assert_eq!(t.mode(), Mode::Finished);
}

#[test]
fn single_lesson_solved_completes_course() {
    let lessons = vec![lesson(1, 1, a_is_one(), obj(vec![]))];
    let mut s = Session::new(lessons).ok().unwrap();
    assert_eq!(s.step(".a = 1"), Action::Evaluate);
    let v = s.conclude(Outcome::Success { working: a_is_one(), result: Value::Integer(1) });
    assert!(matches!(v, Verdict::Mastered));
    assert_eq!(s.mode(), Mode::Finished);
    assert!(working_is(&s, 0, &a_is_one()));
}

#[test]
fn solving_first_of_two_gates_and_reports_progress() {
    let mut s = two_lessons();
    assert_eq!(s.step(".a = 1"), Action::Evaluate);
    let v = s.conclude(Outcome::Success { working: a_is_one(), result: Value::Integer(1) });
    match v {
        Verdict::Solved { completed, total } => {
            assert_eq!(completed, 1);
            assert_eq!(total, 2);
        }
        _ => panic!("expected the lesson to be solved"),
    }
    assert_eq!(s.mode(), Mode::Gated);
    assert_eq!(s.index(), 0);
}

#[test]
fn gated_session_rejects_other_input() {
    let mut s = two_lessons();
    s.step(".a = 1");
    s.conclude(Outcome::Success { working: a_is_one(), result: Value::Integer(1) });
    for line in [".b = true", "", "prev", "help", "cheat", "docs", "next "] {
        assert_eq!(s.step(line), Action::Reprompt);
        assert_eq!(s.mode(), Mode::Gated);
        assert_eq!(s.index(), 0);
    }
    assert!(working_is(&s, 1, &obj(vec![("c", Value::Null)])));
    assert_eq!(s.step("next"), Action::Present(1));
    assert_eq!(s.mode(), Mode::Browsing);
    assert_eq!(s.index(), 1);
}

#[test]
fn gated_session_accepts_exit() {
    let mut s = two_lessons();
    s.step(".a = 1");
    s.conclude(Outcome::Success { working: a_is_one(), result: Value::Integer(1) });
    assert_eq!(s.step("quit"), Action::End);
    assert_eq!(s.mode(), Mode::Finished);
}

#[test]
fn failed_attempts_keep_the_working_value() {
    let mut s = two_lessons();
    s.step(".x = 1");
    let partial = obj(vec![("x", Value::Integer(1))]);
    let v = s.conclude(Outcome::Failure { working: obj(vec![("x", Value::Integer(1))]), message: "error[E100]".to_string() });
    match v {
        Verdict::Error(m) => assert_eq!(m, "error[E100]"),
        _ => panic!("expected an error"),
    }
    assert!(working_is(&s, 0, &partial));
    assert!(s.working().deep_eq(&partial));
    assert_eq!(s.mode(), Mode::Browsing);
    s.step(".y = 2");
    let v = s.conclude(Outcome::Failure {
        working: obj(vec![("x", Value::Integer(1)), ("y", Value::Integer(2))]),
        message: "error[E110]".to_string(),
    });
    assert!(matches!(v, Verdict::Error(_)));
    assert!(s.working().deep_eq(&obj(vec![("x", Value::Integer(1)), ("y", Value::Integer(2))])));
    assert!(working_is(&s, 1, &obj(vec![("c", Value::Null)])));
}

#[test]
fn mismatch_shows_result_and_stays() {
    let mut s = two_lessons();
    s.step(".a = 2");
    let v = s.conclude(Outcome::Success { working: obj(vec![("a", Value::Integer(2))]), result: Value::Integer(2) });
    match v {
        Verdict::Result(r) => assert!(r.deep_eq(&Value::Integer(2))),
        _ => panic!("expected the result to be shown"),
    }
    assert_eq!(s.mode(), Mode::Browsing);
    assert_eq!(s.index(), 0);
    assert!(s.working().deep_eq(&obj(vec![("a", Value::Integer(2))])));
}

#[test]
fn equal_values_from_different_expressions_both_succeed() {
    let mut s = two_lessons();
    s.step(".a = 1");
    let v = s.conclude(Outcome::Success { working: a_is_one(), result: Value::Integer(1) });
    assert!(matches!(v, Verdict::Solved { .. }));
    let mut t = two_lessons();
    t.step(". = {\"a\": 1}");
    let v = t.conclude(Outcome::Success { working: a_is_one(), result: a_is_one() });
    assert!(matches!(v, Verdict::Solved { .. }));
}

#[test]
fn deep_equality_compares_structure() {
    let a = Value::Array(vec![Value::Integer(1), Value::Bytes("x".to_string()), a_is_one()]);
    let b = Value::Array(vec![Value::Integer(1), Value::Bytes("x".to_string()), a_is_one()]);
    assert!(a.deep_eq(&b));
    let reordered = Value::Array(vec![Value::Bytes("x".to_string()), Value::Integer(1), a_is_one()]);
    assert!(!a.deep_eq(&reordered));
    let shorter = Value::Array(vec![Value::Integer(1)]);
    assert!(!a.deep_eq(&shorter));
    assert!(!Value::Null.deep_eq(&Value::Boolean(false)));
    assert!(!Value::Integer(0).deep_eq(&Value::Boolean(false)));
    assert!(Value::Null.deep_eq(&Value::Null));
    assert!(!a_is_one().deep_eq(&obj(vec![("b", Value::Integer(1))])));
    assert!(!a_is_one().deep_eq(&obj(vec![("a", Value::Integer(2))])));
    assert!(!a_is_one().deep_eq(&obj(vec![])));
    assert!(!Value::Bytes("x".to_string()).deep_eq(&Value::Bytes("y".to_string())));
}

#[test]
fn lesson_text() {
    let l = lesson(3, 12, Value::Null, Value::Null);
    assert_eq!(l.number(), "3.12");
    assert_eq!(l.heading(), "Tutorial 3.12: Lesson 12");
    assert_eq!(l.docs_url(), "https://vrl.dev/functions#parse_json");
}

#[test]
fn decimal_notation() {
    assert_eq!(decimal_string(0), "0");
    assert_eq!(decimal_string(7), "7");
    assert_eq!(decimal_string(10), "10");
    assert_eq!(decimal_string(1234567890), "1234567890");
    assert_eq!(decimal_string(usize::MAX), usize::MAX.to_string());
}

#[test]
fn mappings_compare_by_key_set_and_values() {
    let ab = obj(vec![("a", Value::Integer(1)), ("b", Value::Array(vec![Value::Null]))]);
    let ba = obj(vec![("b", Value::Array(vec![Value::Null])), ("a", Value::Integer(1))]);
    assert!(ab.deep_eq(&ba));
    assert!(ba.deep_eq(&ab));
    let other_key = obj(vec![("a", Value::Integer(1)), ("c", Value::Array(vec![Value::Null]))]);
    assert!(!ab.deep_eq(&other_key));
    let more = obj(vec![("a", Value::Integer(1)), ("b", Value::Array(vec![Value::Null])), ("c", Value::Null)]);
    assert!(!ab.deep_eq(&more));
    assert!(!more.deep_eq(&ab));
    let nested_x = obj(vec![("o", obj(vec![("x", Value::Integer(1)), ("y", Value::Integer(2))]))]);
    let nested_y = obj(vec![("o", obj(vec![("y", Value::Integer(2)), ("x", Value::Integer(1))]))]);
    assert!(nested_x.deep_eq(&nested_y));
}

#[test]
fn mapping_with_repeated_key_is_no_mapping() {
    let dup = obj(vec![("a", Value::Integer(1)), ("a", Value::Integer(1))]);
    let dup2 = obj(vec![("a", Value::Integer(1)), ("a", Value::Integer(1))]);
    assert!(!dup.deep_eq(&dup2));
    assert!(!dup.deep_eq(&a_is_one()));
}

#[test]
fn reordered_target_still_solves_the_lesson() {
    let target = obj(vec![("x", Value::Integer(1)), ("y", Value::Bytes("z".to_string()))]);
    let lessons = vec![lesson(1, 1, target, obj(vec![])), lesson(1, 2, Value::Null, Value::Null)];
    let mut s = Session::new(lessons).ok().unwrap();
    assert_eq!(s.step(".y = \"z\"; .x = 1"), Action::Evaluate);
    let working = obj(vec![("y", Value::Bytes("z".to_string())), ("x", Value::Integer(1))]);
    let v = s.conclude(Outcome::Success { working, result: Value::Integer(1) });
    assert!(matches!(v, Verdict::Solved { completed: 1, total: 2 }));
}
