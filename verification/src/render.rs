//! The canonical text of a value.

use crate::sexpr::{Sexpr, Value};
use vstd::prelude::*;
use vstd::string::StringExecFns;

verus! {

/// The character of a decimal digit.
pub open spec fn digit(d: int) -> char
    recommends
        0 <= d < 10,
{
    if d == 0 {
        '0'
    } else if d == 1 {
        '1'
    } else if d == 2 {
        '2'
    } else if d == 3 {
        '3'
    } else if d == 4 {
        '4'
    } else if d == 5 {
        '5'
    } else if d == 6 {
        '6'
    } else if d == 7 {
        '7'
    } else if d == 8 {
        '8'
    } else {
        '9'
    }
}

/// The decimal digits of a natural number, most significant first, with no
/// leading zero.
pub open spec fn decimal(n: nat) -> Seq<char>
    decreases n,
{
    if n < 10 {
        seq![digit(n as int)]
    } else {
        decimal(n / 10).push(digit((n % 10) as int))
    }
}

/// An integer in decimal, with a minus sign before a negative one.
pub open spec fn render_integer(i: int) -> Seq<char> {
    if i < 0 {
        seq!['-'] + decimal((-i) as nat)
    } else {
        decimal(i as nat)
    }
}

/// The canonical text of a value: an integer in decimal, text between double
/// quotes as it is, `()` for the empty value, and a pair as its head followed
/// by what `render_rest` gives for its tail, all in parentheses.
pub open spec fn render(v: Value) -> Seq<char>
    decreases v, 0nat,
{
    match v {
        Value::Integer(i) => render_integer(i),
        Value::Text(s) => seq!['"'] + s + seq!['"'],
        Value::Empty => seq!['(', ')'],
        Value::Pair(hd, tl) => seq!['('] + render(*hd) + render_rest(*tl) + seq![')'],
    }
}

/// What follows the first element inside the parentheses of a pair whose tail
/// is `tail`: each further element after a space, and a tail that ends the
/// chain without being empty after a dot between spaces.
pub open spec fn render_rest(tail: Value) -> Seq<char>
    decreases tail, 1nat,
{
    match tail {
        Value::Pair(hd, tl) => seq![' '] + render(*hd) + render_rest(*tl),
        Value::Empty => Seq::empty(),
        _ => seq![' ', '.', ' '] + render(tail),
    }
}

fn push_digit(out: &mut String, d: u32)
    requires
        d < 10,
    ensures
        final(out)@ == old(out)@.push(digit(d as int)),
{
    proof {
        reveal_strlit("0");
        reveal_strlit("1");
        reveal_strlit("2");
        reveal_strlit("3");
        reveal_strlit("4");
        reveal_strlit("5");
        reveal_strlit("6");
        reveal_strlit("7");
        reveal_strlit("8");
        reveal_strlit("9");
    }
    let text = if d == 0 {
        "0"
    } else if d == 1 {
        "1"
    } else if d == 2 {
        "2"
    } else if d == 3 {
        "3"
    } else if d == 4 {
        "4"
    } else if d == 5 {
        "5"
    } else if d == 6 {
        "6"
    } else if d == 7 {
        "7"
    } else if d == 8 {
        "8"
    } else {
        "9"
    };
    out.append(text);
}

fn push_decimal(out: &mut String, n: u32)
    ensures
        final(out)@ == old(out)@ + decimal(n as nat),
    decreases n,
{
    if n >= 10 {
        push_decimal(out, n / 10);
    }
    push_digit(out, n % 10);
}

fn push_integer(out: &mut String, i: i32)
    ensures
        final(out)@ == old(out)@ + render_integer(i as int),
{
    if i < 0 {
        proof {
            reveal_strlit("-");
        }
        out.append("-");
        let magnitude: u32 = if i == i32::MIN {
            2147483648u32
        } else {
            (-i) as u32
        };
        push_decimal(out, magnitude);
    } else {
        push_decimal(out, i as u32);
    }
}

impl Sexpr {
    /// Appends the canonical text of the value to `out`.
    pub fn render_into(&self, out: &mut String)
        ensures
            final(out)@ == old(out)@ + render(self@),
        decreases self@.size(),
    {
        match self {
            Sexpr::Integer(i) => push_integer(out, *i),
            Sexpr::String(s) => {
                proof {
                    reveal_strlit("\"");
                }
                out.append("\"");
                out.append(s.as_str());
                out.append("\"");
            },
            Sexpr::Null => {
                proof {
                    reveal_strlit("()");
                }
                out.append("()");
            },
            Sexpr::Cons(hd, tl) => {
                proof {
                    reveal_strlit("(");
                    reveal_strlit(" . ");
                    reveal_strlit(")");
                }
                out.append("(");
                hd.render_into(out);
                let mut rest: &Sexpr = &**tl;
                loop
                    invariant
                        rest@.size() < self@.size(),
                        old(out)@ + render(self@) == out@ + render_rest(rest@) + seq![')'],
                    ensures
                        !(rest is Cons),
                    decreases rest@.size(),
                {
                    match rest {
                        Sexpr::Cons(next, after) => {
                            proof {
                                reveal_strlit(" ");
                            }
                            out.append(" ");
                            next.render_into(out);
                            rest = &**after;
                        },
                        _ => {
                            break ;
                        },
                    }
                }
                match rest {
                    Sexpr::Null => {},
                    _ => {
                        out.append(" . ");
                        rest.render_into(out);
                    },
                }
                out.append(")");
            },
        }
    }

    /// The canonical text of the value.
    pub fn to_string(&self) -> (text: String)
        ensures
            text@ == render(self@),
    {
        let mut text = String::new();
        self.render_into(&mut text);
        text
    }
}

} // verus!
