//! A greeter with a default value, and a holder that makes its greeter by default.
use crate::decimal::{dec_str, push_u64};
use vstd::prelude::*;

verus! {

/// Something that greets.
pub trait Hello {
    /// The greeting line.
    fn say_hi(&self) -> String;
}

/// A greeter that carries a number.
pub struct TestHello {
    pub v: u16,
}

impl Default for TestHello {
    fn default() -> (r: Self)
        ensures
            r.v == 123,
    {
        TestHello { v: 123 }
    }
}

/// The line that `TestHello::say_hi` gives for the number `v`.
pub open spec fn say_hi_line(v: u16) -> Seq<char> {
    "say_hi:"@ + dec_str(v as nat)
}

impl Hello for TestHello {
    fn say_hi(&self) -> (r: String)
        ensures
            r@ == say_hi_line(self.v),
    {
        let mut s = String::new();
        s.append("say_hi:");
        push_u64(&mut s, self.v as u64);
        assert(s@ =~= say_hi_line(self.v));
        s
    }
}

impl TestHello {
    pub fn new() -> (r: Self)
        ensures
            r.v == 0,
    {
        TestHello { v: 0 }
    }
}

/// Holds a greeter made by default.
pub struct TestTrait<T> {
    pub hello: Box<T>,
}

impl<T> TestTrait<T> where T: Hello + Default {
    pub fn new() -> (r: Self)
        ensures
            call_ensures(T::default, (), *r.hello),
    {
        TestTrait { hello: Box::new(T::default()) }
    }
}

} // verus!
