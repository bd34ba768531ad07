//! The value type and its mathematical model.

use vstd::prelude::*;

verus! {

/// An S-expression. `Cons` owns its head and its tail.
#[derive(Debug)]
pub enum Sexpr {
    Integer(i32),
    String(String),
    Null,
    Cons(Box<Sexpr>, Box<Sexpr>),
}

/// What an S-expression denotes. Contracts speak of this model, in which a
/// text is the sequence of its characters.
pub enum Value {
    Integer(int),
    Text(Seq<char>),
    Empty,
    Pair(Box<Value>, Box<Value>),
}

impl Sexpr {
    /// The value that the S-expression denotes.
    pub open spec fn value(&self) -> Value
        decreases self,
    {
        match self {
            Sexpr::Integer(i) => Value::Integer(*i as int),
            Sexpr::String(s) => Value::Text(s@),
            Sexpr::Null => Value::Empty,
            Sexpr::Cons(hd, tl) => Value::Pair(
                Box::new((**hd).value()),
                Box::new((**tl).value()),
            ),
        }
    }

    /// The S-expression that chains the given ones into a proper list.
    pub open spec fn list_of(items: Seq<Sexpr>) -> Sexpr
        decreases items.len(),
    {
        if items.len() == 0 {
            Sexpr::Null
        } else {
            Sexpr::Cons(Box::new(items[0]), Box::new(Sexpr::list_of(items.drop_first())))
        }
    }
}

impl View for Sexpr {
    type V = Value;

    open spec fn view(&self) -> Value {
        self.value()
    }
}

/// The pair of `head` and `tail`.
pub open spec fn pair(head: Value, tail: Value) -> Value {
    Value::Pair(Box::new(head), Box::new(tail))
}

/// The proper list of the given values: a chain of pairs, one for each value
/// in order, that ends in the empty value.
pub open spec fn list(items: Seq<Value>) -> Value
    decreases items.len(),
{
    if items.len() == 0 {
        Value::Empty
    } else {
        pair(items[0], list(items.drop_first()))
    }
}

/// The values that a sequence of S-expressions denotes.
pub open spec fn values(items: Seq<Sexpr>) -> Seq<Value> {
    items.map_values(|item: Sexpr| item@)
}

impl Value {
    /// The head of a pair.
    pub open spec fn head(self) -> Value
        recommends
            self is Pair,
    {
        *self->Pair_0
    }

    /// The tail of a pair.
    pub open spec fn tail(self) -> Value
        recommends
            self is Pair,
    {
        *self->Pair_1
    }

    /// The number of nodes of the value.
    pub open spec fn size(self) -> nat
        decreases self,
    {
        match self {
            Value::Pair(hd, tl) => 1 + hd.size() + tl.size(),
            _ => 1,
        }
    }

    /// Whether the value is a proper list: the empty value, or a pair whose
    /// tail is a proper list. A chain of pairs that ends in anything else is
    /// an improper list.
    pub open spec fn is_list(self) -> bool
        decreases self,
    {
        match self {
            Value::Empty => true,
            Value::Pair(_, tl) => tl.is_list(),
            _ => false,
        }
    }
}

/// The head of the pair of `a` and `b` is `a`, and its tail is `b`.
pub proof fn lemma_head_tail_of_pair(a: Value, b: Value)
    ensures
        pair(a, b) is Pair,
        pair(a, b).head() == a,
        pair(a, b).tail() == b,
{
}

/// `Sexpr::list_of` denotes the proper list of what its elements denote, and
/// that is a proper list.
pub proof fn lemma_list_of_denotes_list(items: Seq<Sexpr>)
    ensures
        Sexpr::list_of(items)@ == list(values(items)),
        list(values(items)).is_list(),
    decreases items.len(),
{
    if items.len() > 0 {
        lemma_list_of_denotes_list(items.drop_first());
        assert(values(items).drop_first() =~= values(items.drop_first()));
    }
}

impl Clone for Sexpr {
    /// A deep copy, equal to the value it was made from in every part.
    fn clone(&self) -> (res: Self)
        ensures
            res == *self,
        decreases self,
    {
        match self {
            Sexpr::Integer(i) => Sexpr::Integer(*i),
            Sexpr::String(s) => Sexpr::String(s.clone()),
            Sexpr::Null => Sexpr::Null,
            Sexpr::Cons(hd, tl) => {
                let head = (&**hd).clone();
                let tail = (&**tl).clone();
                Sexpr::Cons(Box::new(head), Box::new(tail))
            },
        }
    }
}

impl From<i32> for Sexpr {
    /// The integer value of the number.
    fn from(value: i32) -> (sexpr: Sexpr) {
        Sexpr::Integer(value)
    }
}

impl vstd::std_specs::convert::FromSpecImpl<i32> for Sexpr {
    open spec fn obeys_from_spec() -> bool {
        true
    }

    open spec fn from_spec(value: i32) -> Sexpr {
        Sexpr::Integer(value)
    }
}

impl From<String> for Sexpr {
    /// The text value of the string.
    fn from(value: String) -> (sexpr: Sexpr) {
        Sexpr::String(value)
    }
}

impl vstd::std_specs::convert::FromSpecImpl<String> for Sexpr {
    open spec fn obeys_from_spec() -> bool {
        true
    }

    open spec fn from_spec(value: String) -> Sexpr {
        Sexpr::String(value)
    }
}

impl From<Vec<Sexpr>> for Sexpr {
    /// The proper list of the given elements, in their order.
    fn from(vec: Vec<Sexpr>) -> (sexpr: Sexpr)
        ensures
            sexpr@ == list(values(vec@)),
            sexpr@.is_list(),
    {
        let mut vec = vec;
        let ghost items = vec@;
        let mut sexpr = Sexpr::Null;
        while vec.len() > 0
            invariant
                vec@.len() <= items.len(),
                vec@ == items.subrange(0, vec@.len() as int),
                sexpr == Sexpr::list_of(items.subrange(vec@.len() as int, items.len() as int)),
            decreases vec@.len(),
        {
            let ghost n = vec@.len() as int;
            let elt = vec.pop().unwrap();
            proof {
                let rest = items.subrange(n, items.len() as int);
                let more = items.subrange(n - 1, items.len() as int);
                assert(more.drop_first() =~= rest);
            }
            sexpr = Sexpr::Cons(Box::new(elt), Box::new(sexpr));
        }
        proof {
            lemma_list_of_denotes_list(items);
        }
        sexpr
    }
}

impl vstd::std_specs::convert::FromSpecImpl<Vec<Sexpr>> for Sexpr {
    open spec fn obeys_from_spec() -> bool {
        true
    }

    open spec fn from_spec(vec: Vec<Sexpr>) -> Sexpr {
        Sexpr::list_of(vec@)
    }
}

} // verus!
