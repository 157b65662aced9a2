use computation::smallstep::Node;
use computation::smallstep::environment::Environment;

#[test]
fn test_creates_number() {
    let number = Node::number(2);
    assert_eq!(false, number.reducable());
    assert_eq!(2, number.value().unwrap());
    assert_eq!("2".to_string(), number.to_text());
}

#[test]
fn test_creates_boolean() {
    let val = Node::boolean(true);
    assert_eq!(false, val.reducable());
    assert_eq!(true, val.condition().unwrap());
    assert_eq!("true".to_string(), val.to_text());
}

#[test]
fn test_creates_add_node() {
    let add = Node::add(Node::number(4), Node::number(5));
    assert_eq!(true, add.reducable());
    assert_eq!("4 + 5".to_string(), add.to_text());
}

#[test]
fn test_reduce_add_node() {
    let add = Node::add(Node::number(5), Node::number(10));
    let mut env = Environment::new();
    assert_eq!(15, add.reduce(&mut env).unwrap().value().unwrap());
    assert_eq!("15".to_string(), add.reduce(&mut env).unwrap().to_text());
}

#[test]
fn test_creates_mulitply_node() {
    let mult = Node::multiply(Node::number(10), Node::number(3));
    assert_eq!(true, mult.reducable());
    assert_eq!("10 * 3".to_string(), mult.to_text());
}

#[test]
fn test_reduce_multiply_node() {
    let mult = Node::multiply(Node::number(5), Node::number(7));
    let mut env = Environment::new();
    assert_eq!(35, mult.reduce(&mut env).unwrap().value().unwrap());
    assert_eq!("35".to_string(), mult.reduce(&mut env).unwrap().to_text());
}

#[test]
fn test_creates_less_than_node() {
    let lessthan = Node::less_than(Node::number(12), Node::number(8));
    assert_eq!(true, lessthan.reducable());
    assert_eq!("12 < 8".to_string(), lessthan.to_text());
}

#[test]
fn test_reduce_less_than_node() {
    let less = Node::less_than(Node::number(7), Node::number(8));
    let mut env = Environment::new();
    assert_eq!(true, less.reduce(&mut env).unwrap().condition().unwrap());
    assert_eq!("true".to_string(), less.reduce(&mut env).unwrap().to_text());
}

#[test]
fn test_create_variable() {
    let var = Node::variable("x".to_string());
    assert_eq!("x".to_string(), var.to_text());
}

#[test]
fn test_environment_resolve_variable() {
    let var = Node::variable("y".to_string());
    let mut env = Environment::new();
    env.add("y".to_string(), Node::number(2));
    assert_eq!(2, var.reduce(&mut env).unwrap().value().unwrap());
    assert_eq!("2".to_string(), var.reduce(&mut env).unwrap().to_text());
}

#[test]
fn test_creates_do_nothing_node() {
    let do_nothing = Node::do_nothing();
    assert_eq!(false, do_nothing.reducable());
    assert_eq!("do-nothing".to_string(), do_nothing.to_text());
}

#[test]
fn test_creates_assignment_node() {
    let assign = Node::assign("x".to_string(), Node::number(2));
    assert_eq!(true, assign.reducable());
    assert_eq!("x = 2".to_string(), assign.to_text());
}

#[test]
fn test_reduce_assignment_node() {
    let assign = Node::assign("x".to_string(), Node::number(2));
    let mut env = Environment::new();
    assert_eq!("do-nothing".to_string(), assign.reduce(&mut env).unwrap().to_text());
    assert_eq!(2, env.get("x".to_string()).unwrap().value().unwrap());
}

#[test]
fn test_create_if_conditional() {
    let if_cond = Node::if_else_cond(Node::boolean(true), Node::number(1), Node::number(2));
    assert_eq!(true, if_cond.reducable());
    assert_eq!("if (true) 1 else 2".to_string(), if_cond.to_text());
}

#[test]
fn test_run_if_else_conditional_consequence() {
    let cond = Node::if_else_cond(Node::boolean(true), Node::number(4), Node::number(8));
    let mut env = Environment::new();
    assert_eq!(4, cond.reduce(&mut env).unwrap().value().unwrap());
}

#[test]
fn test_run_if_else_conditional_alternative() {
    let cond = Node::if_else_cond(Node::boolean(false), Node::number(4), Node::number(8));
    let mut env = Environment::new();
    assert_eq!(8, cond.reduce(&mut env).unwrap().value().unwrap());
}

#[test]
fn test_run_if_conditional_with_empty_else() {
    let cond = Node::if_cond(Node::boolean(false), Node::number(1));
    let mut env = Environment::new();
    assert_eq!("do-nothing".to_string(), cond.reduce(&mut env).unwrap().to_text());
}

#[test]
fn test_creates_sequence_node() {
    let seq = Node::sequence(Node::boolean(false), Node::number(2));
    assert_eq!(true, seq.reducable());
    assert_eq!("false; 2".to_string(), seq.to_text());
}
