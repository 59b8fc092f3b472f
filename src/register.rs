use vstd::prelude::*;

use crate::errors::RuntimeErrorKind;
use crate::value::Value;

verus! {

/// The registers after writing `v` at index `i`: appended when `i` is the
/// current length, overwritten when below it, `None` when above it.
pub open spec fn written(regs: Seq<Value>, i: u8, v: Value) -> Option<Seq<Value>> {
    if i as int == regs.len() {
        Some(regs.push(v))
    } else if (i as int) < regs.len() {
        Some(regs.update(i as int, v))
    } else {
        None
    }
}

/// The register file: a sequence that only grows at its end or is
/// overwritten in place.
#[derive(Debug)]
pub struct Registers {
    values: Vec<Value>,
}

impl View for Registers {
    type V = Seq<Value>;

    closed spec fn view(&self) -> Seq<Value> {
        self.values@
    }
}

impl Registers {
    pub fn new() -> (r: Registers)
        ensures
            r@ == Seq::<Value>::empty(),
    {
        Registers { values: Vec::new() }
    }

    pub fn len(&self) -> (r: usize)
        ensures
            r == self@.len(),
    {
        self.values.len()
    }

    /// Writes `v` at index `i`: appends when `i` equals the length, overwrites
    /// when it is below; above the length nothing changes and the write fails.
    pub fn insert(&mut self, i: u8, v: Value) -> (r: Result<(), RuntimeErrorKind>)
        ensures
            i as int == old(self)@.len() ==> r is Ok && final(self)@ == old(self)@.push(v),
            (i as int) < old(self)@.len() ==> r is Ok && final(self)@ == old(self)@.update(
                i as int,
                v,
            ),
            (i as int) > old(self)@.len() ==> (r matches Err(
                RuntimeErrorKind::RegisterOutOfRange,
            )) && final(self)@ == old(self)@,
            r is Ok ==> written(old(self)@, i, v) == Some(final(self)@),
    {
        let i = i as usize;
        if self.values.len() == i {
            self.values.push(v);
            Ok(())
        } else if i < self.values.len() {
            self.values.set(i, v);
            Ok(())
        } else {
            Err(RuntimeErrorKind::RegisterOutOfRange)
        }
    }

    /// The value at index `i`, if the file holds one there.
    pub fn get(&self, i: u8) -> (r: Option<&Value>)
        ensures
            (i as int) < self@.len() ==> r == Some(&self@[i as int]),
            (i as int) >= self@.len() ==> r is None,
    {
        self.at(i as usize)
    }

    /// The value at index `i`, for an index of any width.
    pub fn at(&self, i: usize) -> (r: Option<&Value>)
        ensures
            i < self@.len() ==> r == Some(&self@[i as int]),
            i >= self@.len() ==> r is None,
    {
        if i < self.values.len() {
            Some(&self.values[i])
        } else {
            None
        }
    }
}

} // verus!
