//! The capability of being consumed once.
//!
//! Consumption takes the item by value, so an item that was consumed cannot be
//! consumed again: it is gone. What an item does when it is consumed is its
//! own business. This module fixes only the shape of the capability, and
//! gives it to texts, numbers and zero-argument procedures.

use vstd::prelude::*;
use vstd::string::*;
use crate::decimal::{decimal, decimal_text};

verus! {

/// An owned value that can be consumed exactly once.
///
/// An item may refuse to be consumed. It says so through [`Consumable::ready`],
/// which only looks at the item. [`Consumable::finish`] takes the item and
/// cannot fail, so no item is ever lost to a failure.
///
/// What an item may answer and what its consumption may have for an effect is
/// stated by three relations. An implementation that states nothing leaves
/// each of them at `true`: anything may come of such an item.
pub trait Consumable {
    /// Whether the item may say that it is ready.
    open spec fn may_accept(&self) -> bool {
        true
    }

    /// Whether the item may refuse consumption and give `cause` for it.
    open spec fn may_refuse(&self, cause: Seq<char>) -> bool {
        true
    }

    /// Whether consuming the item may have `effect`.
    open spec fn may_yield(&self, effect: Seq<char>) -> bool {
        true
    }

    /// Asks the item whether it can be consumed now. An item that cannot
    /// answers with the cause.
    fn ready(&self) -> (verdict: Result<(), String>)
        ensures
            verdict is Ok ==> self.may_accept(),
            verdict matches Err(cause) ==> self.may_refuse(cause@),
    ;

    /// Consumes the item and returns a description of the effect.
    fn finish(self: Box<Self>) -> (effect: String)
        ensures
            self.may_yield(effect@),
    ;
}

/// A text is always ready. Its effect is the word `String`, a space and the
/// text itself.
impl Consumable for String {
    open spec fn may_refuse(&self, cause: Seq<char>) -> bool {
        false
    }

    open spec fn may_yield(&self, effect: Seq<char>) -> bool {
        effect == "String "@ + self@
    }

    fn ready(&self) -> (verdict: Result<(), String>) {
        Ok(())
    }

    fn finish(self: Box<Self>) -> (effect: String) {
        let mut effect: String = String::from_str("String ");
        effect.append(self.as_str());
        effect
    }
}

/// A number is always ready. Its effect is the word `u64`, a space and the
/// number's decimal numeral.
impl Consumable for u64 {
    open spec fn may_refuse(&self, cause: Seq<char>) -> bool {
        false
    }

    open spec fn may_yield(&self, effect: Seq<char>) -> bool {
        effect == "u64 "@ + decimal_text(*self as nat)
    }

    fn ready(&self) -> (verdict: Result<(), String>) {
        Ok(())
    }

    fn finish(self: Box<Self>) -> (effect: String) {
        let mut effect: String = String::from_str("u64 ");
        let numeral: String = decimal(*self);
        effect.append(numeral.as_str());
        effect
    }
}

/// A zero-argument procedure as a consumable: captured state and a body that
/// runs once. Its effect is whatever text the body returns.
pub struct Procedure<F: FnOnce() -> String> {
    body: F,
}

impl<F: FnOnce() -> String> Procedure<F> {
    #[verifier::type_invariant]
    spec fn callable(self) -> bool {
        call_requires(self.body, ())
    }

    /// Wraps a body that can be called as it stands.
    pub fn new(body: F) -> (procedure: Self)
        requires
            call_requires(body, ()),
        ensures
            procedure.may_accept(),
            forall|cause: Seq<char>| !procedure.may_refuse(cause),
            forall|effect: Seq<char>| #[trigger]
                procedure.may_yield(effect) <==> exists|text: String|
                    text@ == effect && call_ensures(body, (), text),
    {
        Procedure { body }
    }
}

/// A procedure is always ready. Consuming it runs the body.
impl<F: FnOnce() -> String> Consumable for Procedure<F> {
    open spec fn may_refuse(&self, cause: Seq<char>) -> bool {
        false
    }

    closed spec fn may_yield(&self, effect: Seq<char>) -> bool {
        exists|text: String| text@ == effect && call_ensures(self.body, (), text)
    }

    fn ready(&self) -> (verdict: Result<(), String>) {
        Ok(())
    }

    fn finish(self: Box<Self>) -> (effect: String) {
        let procedure: Procedure<F> = *self;
        proof {
            use_type_invariant(&procedure);
        }
        let body: F = procedure.body;
        body()
    }
}

} // verus!
