//! Strategy pattern: a duck delegates its quacking to an exchangeable
//! behaviour.

use vstd::prelude::*;

verus! {

/// How a duck quacks.
pub trait QuackBehavior {
    /// The sound this behaviour makes.
    spec fn sound(&self) -> Seq<char>;

    /// Makes the sound, returned as the line to print.
    fn do_quack(&mut self) -> (r: &'static str)
        ensures
            r@ == old(self).sound(),
            final(self).sound() == old(self).sound(),
    ;
}

/// Quacks.
pub struct Quack;

impl QuackBehavior for Quack {
    open spec fn sound(&self) -> Seq<char> {
        "quack"@
    }

    fn do_quack(&mut self) -> (r: &'static str) {
        "quack"
    }
}

/// Squeaks, as a rubber duck does.
pub struct Squeak;

impl QuackBehavior for Squeak {
    open spec fn sound(&self) -> Seq<char> {
        "squeak"@
    }

    fn do_quack(&mut self) -> (r: &'static str) {
        "squeak"
    }
}

/// A duck of some kind with its quacking behaviour.
pub struct Duck<B: QuackBehavior> {
    kind: &'static str,
    quack_behavior: B,
}

impl<B: QuackBehavior> Duck<B> {
    /// The kind of duck, such as "Rubber Duck".
    pub closed spec fn kind_spec(&self) -> Seq<char> {
        self.kind@
    }

    /// The sound the duck makes.
    pub closed spec fn sound(&self) -> Seq<char> {
        self.quack_behavior.sound()
    }

    pub fn new(kind: &'static str, quack_behavior: B) -> (r: Duck<B>)
        ensures
            r.kind_spec() == kind@,
            r.sound() == quack_behavior.sound(),
    {
        Duck { kind, quack_behavior }
    }

    pub fn kind(&self) -> (r: &'static str)
        ensures
            r@ == self.kind_spec(),
    {
        self.kind
    }

    /// Quacks the way the behaviour says; returns the line to print.
    pub fn quack(&mut self) -> (r: &'static str)
        ensures
            r@ == old(self).sound(),
            final(self).sound() == old(self).sound(),
            final(self).kind_spec() == old(self).kind_spec(),
    {
        self.quack_behavior.do_quack()
    }
}

} // verus!
