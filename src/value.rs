use vstd::prelude::*;

verus! {

/// A runtime datum. A number is held as the IEEE-754 bit pattern of a
/// 64-bit float; the machine moves it around and never reads its bits.
#[derive(Debug, Clone)]
pub enum Value {
    Num(u64),
    Str(String),
}

impl Value {
    /// The bits of a number.
    pub fn num(&self) -> (r: u64)
        requires
            self is Num,
        ensures
            *self == Value::Num(r),
    {
        match self {
            Value::Num(v) => *v,
            Value::Str(_) => 0,
        }
    }

    /// The characters of a string.
    pub fn str(&self) -> (r: &str)
        requires
            self is Str,
        ensures
            r@ == self->Str_0@,
    {
        match self {
            Value::Str(v) => v.as_str(),
            Value::Num(_) => "",
        }
    }

    /// A copy equal to this value.
    pub fn duplicate(&self) -> (r: Value)
        ensures
            r == *self,
    {
        match self {
            Value::Num(v) => Value::Num(*v),
            Value::Str(s) => Value::Str(s.clone()),
        }
    }
}

} // verus!
