//! Field access through resolved references. A record does not show its
//! layout: for each field a descriptor resolves, at the time of the call, the
//! function that reads the field and the function that writes it.

use crate::sexpr::Sexpr;
use vstd::pervasive::unreached;
use vstd::prelude::*;

verus! {

/// The record type of the protocol. The fields that this library can
/// describe are those of pairs, so a record is an S-expression.
pub type T = Sexpr;

/// A field as a record holds it: an S-expression that the record owns.
pub type U = Box<Sexpr>;

/// A reference to a function that reads one field of a record. A slot holds
/// `Undefined` until a descriptor resolves it.
#[derive(Clone, Copy, Debug, PartialEq, Eq, Structural)]
pub enum Accessor {
    Undefined,
    Car,
    Cdr,
}

/// A reference to a function that returns a record with one field replaced.
/// A slot holds `Undefined` until a descriptor resolves it.
#[derive(Clone, Copy, Debug, PartialEq, Eq, Structural)]
pub enum Mutator {
    Undefined,
    Car,
    Cdr,
}

impl Accessor {
    /// Whether the referenced function accepts the record.
    pub open spec fn defined_on(self, obj: T) -> bool {
        self != Accessor::Undefined && obj is Cons
    }

    /// The field that the referenced function reads.
    pub open spec fn reads(self, obj: T) -> U
        recommends
            self.defined_on(obj),
    {
        match self {
            Accessor::Cdr => obj->Cons_1,
            _ => obj->Cons_0,
        }
    }

    /// Applies the referenced function to a record.
    pub fn call<'a>(self, obj: &'a T) -> (field: &'a U)
        requires
            self.defined_on(*obj),
        ensures
            *field == self.reads(*obj),
    {
        match self {
            Accessor::Undefined => undefined_accessor(obj),
            Accessor::Car => car_accessor(obj),
            Accessor::Cdr => cdr_accessor(obj),
        }
    }
}

impl Mutator {
    /// Whether the referenced function accepts the record.
    pub open spec fn defined_on(self, obj: T) -> bool {
        self != Mutator::Undefined && obj is Cons
    }

    /// The record that the referenced function returns: `obj` with one field
    /// replaced by `val`.
    pub open spec fn writes(self, obj: T, val: U) -> T
        recommends
            self.defined_on(obj),
    {
        match self {
            Mutator::Cdr => Sexpr::Cons(obj->Cons_0, val),
            _ => Sexpr::Cons(val, obj->Cons_1),
        }
    }

    /// Applies the referenced function to a record and a new field.
    pub fn call(self, obj: &T, val: &U) -> (record: Box<T>)
        requires
            self.defined_on(*obj),
        ensures
            *record == self.writes(*obj, *val),
    {
        match self {
            Mutator::Undefined => undefined_mutator(obj, val),
            Mutator::Car => car_mutator(obj, &**val),
            Mutator::Cdr => cdr_mutator(obj, &**val),
        }
    }
}

/// Stands in an accessor slot that no descriptor has resolved. Nothing meets
/// its precondition: to reach it is the fatal condition of an unresolved field.
pub fn undefined_accessor(obj: &T) -> (field: &U)
    requires
        Accessor::Undefined.defined_on(*obj),
    ensures
        *field == Accessor::Undefined.reads(*obj),
{
    unreached()
}

/// Stands in a mutator slot that no descriptor has resolved. Nothing meets
/// its precondition: to reach it is the fatal condition of an unresolved field.
pub fn undefined_mutator(obj: &T, val: &U) -> (record: Box<T>)
    requires
        Mutator::Undefined.defined_on(*obj),
    ensures
        *record == Mutator::Undefined.writes(*obj, *val),
{
    unreached()
}

/// Reads the head of a pair.
pub fn car_accessor(sexpr: &Sexpr) -> (field: &Box<Sexpr>)
    requires
        sexpr is Cons,
    ensures
        *field == sexpr->Cons_0,
{
    match sexpr {
        Sexpr::Cons(hd, _tl) => hd,
        _ => unreached(),
    }
}

/// A new pair with a copy of `new_hd` as its head and a copy of the tail of
/// `sexpr` as its tail. `sexpr` stays as it is.
pub fn car_mutator(sexpr: &Sexpr, new_hd: &Sexpr) -> (record: Box<Sexpr>)
    requires
        sexpr is Cons,
    ensures
        *record == Sexpr::Cons(Box::new(*new_hd), sexpr->Cons_1),
{
    match sexpr {
        Sexpr::Cons(_hd, tl) => Box::new(Sexpr::Cons(Box::new(new_hd.clone()), tl.clone())),
        _ => unreached(),
    }
}

/// The descriptor of the head of a pair: it resolves both slots.
pub fn car_field(accessor: &mut Accessor, mutator: &mut Mutator)
    ensures
        *final(accessor) == Accessor::Car,
        *final(mutator) == Mutator::Car,
{
    *accessor = Accessor::Car;
    *mutator = Mutator::Car;
}

/// Reads the tail of a pair.
pub fn cdr_accessor(sexpr: &Sexpr) -> (field: &Box<Sexpr>)
    requires
        sexpr is Cons,
    ensures
        *field == sexpr->Cons_1,
{
    match sexpr {
        Sexpr::Cons(_hd, tl) => tl,
        _ => unreached(),
    }
}

/// A new pair with a copy of the head of `sexpr` as its head and a copy of
/// `new_tl` as its tail. `sexpr` stays as it is.
pub fn cdr_mutator(sexpr: &Sexpr, new_tl: &Sexpr) -> (record: Box<Sexpr>)
    requires
        sexpr is Cons,
    ensures
        *record == Sexpr::Cons(sexpr->Cons_0, Box::new(*new_tl)),
{
    match sexpr {
        Sexpr::Cons(hd, _tl) => Box::new(Sexpr::Cons(hd.clone(), Box::new(new_tl.clone()))),
        _ => unreached(),
    }
}

/// The descriptor of the tail of a pair: it resolves both slots.
pub fn cdr_field(accessor: &mut Accessor, mutator: &mut Mutator)
    ensures
        *final(accessor) == Accessor::Cdr,
        *final(mutator) == Mutator::Cdr,
{
    *accessor = Accessor::Cdr;
    *mutator = Mutator::Cdr;
}

/// The field of `obj` that `field` describes. The descriptor is called on two
/// unresolved slots, and the accessor that it leaves is applied to the
/// record. The descriptor has to resolve the accessor, to one that accepts
/// the record.
pub fn get<'a, D: FnOnce(&mut Accessor, &mut Mutator)>(obj: &'a T, field: D) -> (value: &'a U)
    requires
        forall|a: &mut Accessor, m: &mut Mutator|
            *a == Accessor::Undefined && *m == Mutator::Undefined ==> call_requires(field, (a, m)),
        forall|a: &mut Accessor, m: &mut Mutator|
            *a == Accessor::Undefined && *m == Mutator::Undefined && call_ensures(field, (a, m), ())
                ==> (*final(a)).defined_on(*obj),
    ensures
        exists|a: &mut Accessor, m: &mut Mutator|
            *a == Accessor::Undefined && *m == Mutator::Undefined && call_ensures(field, (a, m), ())
                && *value == (*final(a)).reads(*obj),
{
    let mut accessor = Accessor::Undefined;
    let mut mutator = Mutator::Undefined;
    field(&mut accessor, &mut mutator);
    accessor.call(obj)
}

/// A new record: `obj` with the field that `field` describes replaced by
/// `val`. The descriptor is called on two unresolved slots, and the mutator
/// that it leaves is applied to the record and the new field. The descriptor
/// has to resolve the mutator, to one that accepts the record.
pub fn put<D: FnOnce(&mut Accessor, &mut Mutator)>(obj: &T, field: D, val: &U) -> (record: Box<T>)
    requires
        forall|a: &mut Accessor, m: &mut Mutator|
            *a == Accessor::Undefined && *m == Mutator::Undefined ==> call_requires(field, (a, m)),
        forall|a: &mut Accessor, m: &mut Mutator|
            *a == Accessor::Undefined && *m == Mutator::Undefined && call_ensures(field, (a, m), ())
                ==> (*final(m)).defined_on(*obj),
    ensures
        exists|a: &mut Accessor, m: &mut Mutator|
            *a == Accessor::Undefined && *m == Mutator::Undefined && call_ensures(field, (a, m), ())
                && *record == (*final(m)).writes(*obj, *val),
{
    let mut accessor = Accessor::Undefined;
    let mut mutator = Mutator::Undefined;
    field(&mut accessor, &mut mutator);
    mutator.call(obj, val)
}

/// As `get`, for a caller that cannot tell beforehand whether the descriptor
/// resolves the accessor: `None` where it leaves the slot unresolved, or
/// resolves an accessor that does not accept the record.
pub fn try_get<'a, D: FnOnce(&mut Accessor, &mut Mutator)>(obj: &'a T, field: D) -> (value: Option<
    &'a U,
>)
    requires
        forall|a: &mut Accessor, m: &mut Mutator|
            *a == Accessor::Undefined && *m == Mutator::Undefined ==> call_requires(field, (a, m)),
    ensures
        exists|a: &mut Accessor, m: &mut Mutator|
            *a == Accessor::Undefined && *m == Mutator::Undefined && call_ensures(field, (a, m), ())
                && value == (if (*final(a)).defined_on(*obj) {
                Some(&(*final(a)).reads(*obj))
            } else {
                None
            }),
{
    let mut accessor = Accessor::Undefined;
    let mut mutator = Mutator::Undefined;
    field(&mut accessor, &mut mutator);
    match (accessor, obj) {
        (Accessor::Undefined, _) => None,
        (_, Sexpr::Cons(_, _)) => Some(accessor.call(obj)),
        _ => None,
    }
}

/// As `put`, for a caller that cannot tell beforehand whether the descriptor
/// resolves the mutator: `None` where it leaves the slot unresolved, or
/// resolves a mutator that does not accept the record.
pub fn try_put<D: FnOnce(&mut Accessor, &mut Mutator)>(obj: &T, field: D, val: &U) -> (record:
    Option<Box<T>>)
    requires
        forall|a: &mut Accessor, m: &mut Mutator|
            *a == Accessor::Undefined && *m == Mutator::Undefined ==> call_requires(field, (a, m)),
    ensures
        exists|a: &mut Accessor, m: &mut Mutator|
            *a == Accessor::Undefined && *m == Mutator::Undefined && call_ensures(field, (a, m), ())
                && record == (if (*final(m)).defined_on(*obj) {
                Some(Box::new((*final(m)).writes(*obj, *val)))
            } else {
                None
            }),
{
    let mut accessor = Accessor::Undefined;
    let mut mutator = Mutator::Undefined;
    field(&mut accessor, &mut mutator);
    match (mutator, obj) {
        (Mutator::Undefined, _) => None,
        (_, Sexpr::Cons(_, _)) => Some(mutator.call(obj, val)),
        _ => None,
    }
}

/// Reading a field of a record in which that field was just written gives
/// what was written, and the other field is the one of the record before.
pub proof fn lemma_read_after_write(obj: T, val: U)
    requires
        obj is Cons,
    ensures
        Accessor::Car.reads(Mutator::Car.writes(obj, val)) == val,
        Accessor::Cdr.reads(Mutator::Car.writes(obj, val)) == Accessor::Cdr.reads(obj),
        Accessor::Cdr.reads(Mutator::Cdr.writes(obj, val)) == val,
        Accessor::Car.reads(Mutator::Cdr.writes(obj, val)) == Accessor::Car.reads(obj),
        Accessor::Car.defined_on(Mutator::Car.writes(obj, val)),
        Accessor::Cdr.defined_on(Mutator::Cdr.writes(obj, val)),
{
}

} // verus!
