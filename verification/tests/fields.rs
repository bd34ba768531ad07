use scheme_core::boundary::{cons, integer, null, string};
use scheme_core::field::{
    car_accessor, car_field, car_mutator, cdr_accessor, cdr_field, cdr_mutator, get, put, try_get,
    try_put, Accessor, Mutator,
};
use scheme_core::sexpr::Sexpr;

#[test]
fn descriptors_resolve_both_slots() {
    let mut accessor = Accessor::Undefined;
    let mut mutator = Mutator::Undefined;
    car_field(&mut accessor, &mut mutator);
    assert_eq!(accessor, Accessor::Car);
    assert_eq!(mutator, Mutator::Car);
    cdr_field(&mut accessor, &mut mutator);
    assert_eq!(accessor, Accessor::Cdr);
    assert_eq!(mutator, Mutator::Cdr);
}

#[test]
fn get_reads_the_field_that_is_there() {
    let p = cons(&integer(1), &string(b"t"));
    assert_eq!(**get(&p, car_field), Sexpr::Integer(1));
    assert_eq!(**get(&p, cdr_field), Sexpr::String("t".to_string()));
}

#[test]
fn get_after_put_gives_what_was_put() {
    let p = cons(&integer(1), null());
    let v = integer(7);
    let q = put(&p, car_field, &v);
    assert_eq!(*get(&q, car_field), v);
    assert_eq!(**get(&q, cdr_field), Sexpr::Null);
    let r = put(&p, cdr_field, &v);
    assert_eq!(*get(&r, cdr_field), v);
    assert_eq!(**get(&r, car_field), Sexpr::Integer(1));
}

#[test]
fn put_leaves_the_record_as_it_was() {
    let p = cons(&integer(1), null());
    let q = put(&p, car_field, &integer(2));
    assert_eq!(p.to_string(), "(1)");
    assert_eq!(q.to_string(), "(2)");
}

#[test]
fn a_descriptor_of_the_caller() {
    let second = |accessor: &mut Accessor, mutator: &mut Mutator| {
        *accessor = Accessor::Cdr;
        *mutator = Mutator::Cdr;
    };
    let p = cons(&integer(1), &integer(2));
    assert_eq!(**get(&p, second), Sexpr::Integer(2));
    assert_eq!(put(&p, second, &integer(3)).to_string(), "(1 . 3)");
}

#[test]
fn a_descriptor_may_resolve_the_reader_alone() {
    let read_only = |accessor: &mut Accessor, _mutator: &mut Mutator| {
        *accessor = Accessor::Car;
    };
    let p = cons(&integer(1), &integer(2));
    assert_eq!(**get(&p, read_only), Sexpr::Integer(1));
}

#[test]
fn resolved_references_apply_the_functions() {
    let p = cons(&integer(1), &integer(2));
    assert_eq!(**Accessor::Car.call(&p), Sexpr::Integer(1));
    assert_eq!(**Accessor::Cdr.call(&p), Sexpr::Integer(2));
    assert_eq!(Mutator::Car.call(&p, &integer(0)).to_string(), "(0 . 2)");
    assert_eq!(Mutator::Cdr.call(&p, &integer(0)).to_string(), "(1 . 0)");
}

#[test]
fn accessors_and_mutators_of_pairs() {
    let p = cons(&integer(1), &integer(2));
    assert_eq!(**car_accessor(&p), Sexpr::Integer(1));
    assert_eq!(**cdr_accessor(&p), Sexpr::Integer(2));
    assert_eq!(car_mutator(&p, &string(b"h")).to_string(), "(\"h\" . 2)");
    assert_eq!(cdr_mutator(&p, null()).to_string(), "(1)");
}

#[test]
fn an_unresolved_field_gives_nothing() {
    let nothing = |_accessor: &mut Accessor, _mutator: &mut Mutator| {};
    let p = cons(&integer(1), &integer(2));
    assert_eq!(try_get(&p, nothing), None);
    assert_eq!(try_put(&p, nothing, &integer(3)), None);
    let read_only = |accessor: &mut Accessor, _mutator: &mut Mutator| {
        *accessor = Accessor::Cdr;
    };
    assert_eq!(try_get(&p, read_only), Some(&integer(2)));
    assert_eq!(try_put(&p, read_only, &integer(3)), None);
}

#[test]
fn a_field_of_what_is_no_pair_gives_nothing() {
    assert_eq!(try_get(&integer(1), car_field), None);
    assert_eq!(try_get(null(), cdr_field), None);
    assert_eq!(try_put(&string(b"s"), car_field, &integer(1)), None);
}

#[test]
fn a_resolved_field_of_a_pair_is_given() {
    let p = cons(&integer(1), null());
    assert_eq!(try_get(&p, car_field), Some(&integer(1)));
    assert_eq!(
        try_put(&p, cdr_field, &integer(2)),
        Some(cons(&integer(1), &integer(2)))
    );
}
