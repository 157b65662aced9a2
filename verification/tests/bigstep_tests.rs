use computation::EvalError;
use computation::bigstep::Node;
use computation::smallstep::environment::Environment;

#[test]
fn mod_test_creates_number() {
    let number = Node::number(2);
    assert_eq!(2, number.evaluate(&mut Environment::new()).value().unwrap());
    assert_eq!("2".to_string(), number.to_text());
}

#[test]
fn mod_test_creates_boolean() {
    let val = Node::boolean(true);
    assert_eq!(true, val.evaluate(&mut Environment::new()).condition().unwrap());
    assert_eq!("true".to_string(), val.to_text());
}

#[test]
fn bigstep_value_of_boolean_is_type_mismatch() {
    assert_eq!(Err(EvalError::TypeMismatch), Node::boolean(false).value());
}

#[test]
fn bigstep_condition_of_number_is_type_mismatch() {
    assert_eq!(Err(EvalError::TypeMismatch), Node::number(3).condition());
}

#[test]
fn bigstep_evaluate_leaves_environment_unchanged() {
    let mut env = Environment::new();
    env.add("x".to_string(), computation::smallstep::Node::number(7));
    let val = Node::number(1).evaluate(&mut env);
    assert_eq!(1, val.value().unwrap());
    assert_eq!(7, env.get("x".to_string()).unwrap().value().unwrap());
}

#[test]
fn bigstep_renders_negative_number() {
    assert_eq!("-42".to_string(), Node::number(-42).to_text());
    assert_eq!("false".to_string(), Node::boolean(false).to_text());
}
