use variants::errors::{settle, Error};
use variants::ops::{Binary, Operation, Unary};
use variants::owner::{BufferHandle, Duplicate, Reference};
use variants::{Value, Variant};

#[test]
fn a_borrowed_duplicate_shares_the_buffer() {
    let h = BufferHandle::new(0x5000, false);
    assert_eq!(h.duplicate(), Duplicate::Share(BufferHandle { address: 0x5000, owned: false }));
    assert!(!h.is_answerable());
}

#[test]
fn an_owned_duplicate_is_a_deep_copy() {
    let h = BufferHandle::new(0x5000, true);
    assert!(h.is_answerable());
    assert_eq!(h.duplicate(), Duplicate::Copy(0x5000));
    // The copy primitive hands back a buffer of its own.
    let copy = BufferHandle::adopt(0x6000);
    assert!(copy.owned);
    assert_ne!(copy.address, h.address);
}

#[test]
fn a_null_handle_is_shared_whoever_owns_it() {
    let h = BufferHandle::new(0, true);
    assert_eq!(h.duplicate(), Duplicate::Share(BufferHandle { address: 0, owned: true }));
    let h = BufferHandle::new(0, false);
    assert_eq!(h.duplicate(), Duplicate::Share(BufferHandle { address: 0, owned: false }));
}

#[test]
fn a_buffer_is_released_once() {
    let mut h = BufferHandle::new(0x5000, true);
    assert_eq!(h.release(), Some(0x5000));
    assert_eq!(h, BufferHandle { address: 0, owned: true });
    assert_eq!(h.release(), None);
    let mut b = BufferHandle::new(0x5000, false);
    assert_eq!(b.release(), None);
    assert_eq!(b, BufferHandle { address: 0x5000, owned: false });
    let mut n = BufferHandle::new(0, true);
    assert_eq!(n.release(), None);
}

#[test]
fn a_created_buffer_is_owned() {
    assert_eq!(BufferHandle::created(0x7000), Ok(BufferHandle { address: 0x7000, owned: true }));
    assert_eq!(BufferHandle::created(0), Err(Error::NullPointer));
}

fn unary(op: Operation) -> (Unary, Variant) {
    match op {
        Operation::Unary(operator, left) => (operator, left.clone()),
        Operation::Binary(..) => panic!("an operator of one operand"),
    }
}

fn binary(op: Operation) -> (Binary, Variant, Variant) {
    match op {
        Operation::Binary(operator, left, right) => (operator, left.clone(), right.clone()),
        Operation::Unary(..) => panic!("an operator of two operands"),
    }
}

#[test]
fn operators_name_their_primitive_and_operands() {
    let a = Variant::from(Value::I4(6));
    let b = Variant::from(Value::R8(1.5f64.to_bits()));
    assert_eq!(unary(a.abs()), (Unary::Abs, a.clone()));
    assert_eq!(unary(a.negate()), (Unary::Negate, a.clone()));
    assert_eq!(unary(a.not()), (Unary::Not, a.clone()));
    assert_eq!(binary(a.add(&b)), (Binary::Add, a.clone(), b.clone()));
    assert_eq!(binary(a.subtract(&b)), (Binary::Subtract, a.clone(), b.clone()));
    assert_eq!(binary(a.multiply(&b)), (Binary::Multiply, a.clone(), b.clone()));
    assert_eq!(binary(a.divide(&b)), (Binary::Divide, a.clone(), b.clone()));
    assert_eq!(binary(a.mod_by(&b)), (Binary::ModBy, a.clone(), b.clone()));
    assert_eq!(binary(a.and(&b)), (Binary::And, a.clone(), b.clone()));
    assert_eq!(binary(a.or(&b)), (Binary::Or, a.clone(), b.clone()));
    assert_eq!(binary(a.xor(&b)), (Binary::Xor, a.clone(), b.clone()));
    assert_eq!(binary(b.subtract(&a)), (Binary::Subtract, b.clone(), a.clone()));
}

#[test]
fn the_outcome_of_an_operator_is_its_result() {
    let sum = Variant::from(Value::R8(7.5f64.to_bits()));
    assert_eq!(settle(Ok(sum.clone())), Ok(sum));
    // Division by zero, as the runtime reports it.
    let failed: Result<Variant, i32> = Err(-2147352558);
    assert_eq!(settle(failed), Err(Error::ExternalError(-2147352558)));
    // A type mismatch, as the runtime reports it.
    let failed: Result<Variant, i32> = Err(-2147352571);
    assert_eq!(settle(failed), Err(Error::ExternalError(-2147352571)));
    assert_eq!(Error::ExternalError(-5).status(), Some(-5));
    assert_eq!(Error::TypeError.status(), None);
    assert_eq!(Error::NullPointer.status(), None);
}

#[test]
fn a_reference_is_copied_counted_and_released_once() {
    let r = Reference::new(0x8000);
    assert_eq!(r.duplicate(), (Some(0x8000), Reference { address: 0x8000 }));
    let mut copy = r.duplicate().1;
    assert_eq!(copy.release(), Some(0x8000));
    assert_eq!(copy, Reference { address: 0 });
    assert_eq!(copy.release(), None);
    let mut null = Reference::new(0);
    assert_eq!(null.duplicate(), (None, Reference { address: 0 }));
    assert_eq!(null.release(), None);
}
