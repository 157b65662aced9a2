use vstd::prelude::*;

use vstd::string::StringExecFns;

use crate::smallstep::Node;

verus! {

/// The decimal digit for `d`.
pub open spec fn digit_char(d: nat) -> char {
    if d == 0 {
        '0'
    } else if d == 1 {
        '1'
    } else if d == 2 {
        '2'
    } else if d == 3 {
        '3'
    } else if d == 4 {
        '4'
    } else if d == 5 {
        '5'
    } else if d == 6 {
        '6'
    } else if d == 7 {
        '7'
    } else if d == 8 {
        '8'
    } else {
        '9'
    }
}

/// The decimal digits of `n`, most significant first, with no sign and no
/// leading zero except for `n == 0` itself.
pub open spec fn nat_text(n: nat) -> Seq<char>
    decreases n,
{
    if n < 10 {
        seq![digit_char(n)]
    } else {
        nat_text(n / 10).push(digit_char(n % 10))
    }
}

/// The decimal rendering of `v`: a leading `-` for a negative value, then
/// the digits of its magnitude.
pub open spec fn int_text(v: int) -> Seq<char> {
    if v < 0 {
        seq!['-'] + nat_text((-v) as nat)
    } else {
        nat_text(v as nat)
    }
}

/// The rendering of a boolean: `true` or `false`.
pub open spec fn bool_text(b: bool) -> Seq<char> {
    if b {
        seq!['t', 'r', 'u', 'e']
    } else {
        seq!['f', 'a', 'l', 's', 'e']
    }
}

/// The human-readable form of a tree: infix notation for the binary
/// expressions, `name = expr` for assignment, `if (c) t else e` for the
/// conditional, `first; second` for sequencing, `do-nothing` for the empty
/// statement, and bare literals for the terminal values. Display only — not
/// a parseable serialization.
pub open spec fn node_text(n: Node) -> Seq<char>
    decreases n,
{
    match n {
        Node::Number(v) => int_text(v as int),
        Node::Boolean(b) => bool_text(b),
        Node::DoNothing => seq!['d', 'o', '-', 'n', 'o', 't', 'h', 'i', 'n', 'g'],
        Node::Variable(name) => name@,
        Node::Add(l, r) => node_text(*l) + seq![' ', '+', ' '] + node_text(*r),
        Node::Multiply(l, r) => node_text(*l) + seq![' ', '*', ' '] + node_text(*r),
        Node::LessThan(l, r) => node_text(*l) + seq![' ', '<', ' '] + node_text(*r),
        Node::Assign(name, e) => name@ + seq![' ', '=', ' '] + node_text(*e),
        Node::If(c, t, f) => seq!['i', 'f', ' ', '('] + node_text(*c) + seq![')', ' ']
            + node_text(*t) + seq![' ', 'e', 'l', 's', 'e', ' '] + node_text(*f),
        Node::Sequence(a, b) => node_text(*a) + seq![';', ' '] + node_text(*b),
    }
}

/// The one-character string for the decimal digit `d`.
fn digit_str(d: u64) -> (r: &'static str)
    requires
        d < 10,
    ensures
        r@ == seq![digit_char(d as nat)],
{
    proof {
        reveal_strlit("0");
        reveal_strlit("1");
        reveal_strlit("2");
        reveal_strlit("3");
        reveal_strlit("4");
        reveal_strlit("5");
        reveal_strlit("6");
        reveal_strlit("7");
        reveal_strlit("8");
        reveal_strlit("9");
    }
    match d {
        0 => "0",
        1 => "1",
        2 => "2",
        3 => "3",
        4 => "4",
        5 => "5",
        6 => "6",
        7 => "7",
        8 => "8",
        _ => "9",
    }
}

/// The decimal digits of `n`.
fn nat_text_exec(n: u64) -> (r: String)
    ensures
        r@ == nat_text(n as nat),
    decreases n,
{
    if n < 10 {
        digit_str(n).to_owned()
    } else {
        let mut s = nat_text_exec(n / 10);
        s.append(digit_str(n % 10));
        proof {
            assert(nat_text((n as nat) / 10).push(digit_char((n as nat) % 10)) =~= nat_text(
                (n as nat) / 10,
            ) + seq![digit_char((n as nat) % 10)]);
        }
        s
    }
}

/// The decimal rendering of `v`.
pub fn i64_text(v: i64) -> (r: String)
    ensures
        r@ == int_text(v as int),
{
    if v >= 0 {
        nat_text_exec(v as u64)
    } else {
        let magnitude: u64 = (-(v as i128)) as u64;
        let mut s = "-".to_owned();
        proof {
            reveal_strlit("-");
        }
        let digits = nat_text_exec(magnitude);
        s.append(digits.as_str());
        s
    }
}

impl Node {
    /// Renders the tree in the human-readable form that `node_text` states.
    pub fn to_text(&self) -> (r: String)
        ensures
            r@ == node_text(*self),
        decreases self,
    {
        match self {
            Node::Number(v) => i64_text(*v),
            Node::Boolean(b) => {
                proof {
                    reveal_strlit("true");
                    reveal_strlit("false");
                    assert(("true")@ =~= bool_text(true));
                    assert(("false")@ =~= bool_text(false));
                }
                if *b {
                    "true".to_owned()
                } else {
                    "false".to_owned()
                }
            },
            Node::DoNothing => {
                proof {
                    reveal_strlit("do-nothing");
                    assert(("do-nothing")@ =~= node_text(Node::DoNothing));
                }
                "do-nothing".to_owned()
            },
            Node::Variable(name) => name.clone(),
            Node::Add(l, r) => {
                proof {
                    reveal_strlit(" + ");
                    assert((" + ")@ =~= seq![' ', '+', ' ']);
                }
                let mut s = l.to_text();
                s.append(" + ");
                let right = r.to_text();
                s.append(right.as_str());
                s
            },
            Node::Multiply(l, r) => {
                proof {
                    reveal_strlit(" * ");
                    assert((" * ")@ =~= seq![' ', '*', ' ']);
                }
                let mut s = l.to_text();
                s.append(" * ");
                let right = r.to_text();
                s.append(right.as_str());
                s
            },
            Node::LessThan(l, r) => {
                proof {
                    reveal_strlit(" < ");
                    assert((" < ")@ =~= seq![' ', '<', ' ']);
                }
                let mut s = l.to_text();
                s.append(" < ");
                let right = r.to_text();
                s.append(right.as_str());
                s
            },
            Node::Assign(name, e) => {
                proof {
                    reveal_strlit(" = ");
                    assert((" = ")@ =~= seq![' ', '=', ' ']);
                }
                let mut s = name.clone();
                s.append(" = ");
                let expr = e.to_text();
                s.append(expr.as_str());
                s
            },
            Node::If(c, t, f) => {
                proof {
                    reveal_strlit("if (");
                    reveal_strlit(") ");
                    reveal_strlit(" else ");
                    assert(("if (")@ =~= seq!['i', 'f', ' ', '(']);
                    assert((") ")@ =~= seq![')', ' ']);
                    assert((" else ")@ =~= seq![' ', 'e', 'l', 's', 'e', ' ']);
                }
                let mut s = "if (".to_owned();
                let cond = c.to_text();
                s.append(cond.as_str());
                s.append(") ");
                let cons = t.to_text();
                s.append(cons.as_str());
                s.append(" else ");
                let alt = f.to_text();
                s.append(alt.as_str());
                s
            },
            Node::Sequence(a, b) => {
                proof {
                    reveal_strlit("; ");
                    assert(("; ")@ =~= seq![';', ' ']);
                }
                let mut s = a.to_text();
                s.append("; ");
                let second = b.to_text();
                s.append(second.as_str());
                s
            },
        }
    }
}

} // verus!
