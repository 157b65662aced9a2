use computation::comp::Add;
use computation::comp::Multiply;
use computation::comp::Number;
use computation::comp::Reducable;

#[test]
fn comp_number_is_not_reducable() {
    let number = Number::new(5);
    assert_eq!(5, number.value);
    assert_eq!(false, number.reducable());
}

#[test]
fn comp_add_is_reducable() {
    let add = Add::new(Number::new(1), Number::new(2));
    assert_eq!(1, add.left.value);
    assert_eq!(2, add.right.value);
    assert_eq!(true, add.reducable());
}

#[test]
fn comp_multiply_is_reducable() {
    let mult = Multiply::new(Number::new(3), Add::new(Number::new(4), Number::new(5)));
    assert_eq!(3, mult.left.value);
    assert_eq!(true, mult.reducable());
    assert_eq!(true, mult.right.reducable());
}
