use vstd::prelude::*;

use crate::value::Any;

verus! {

/// The host callable behind a function value. Clones share it, and it may
/// be handed to another thread.
#[verifier::external_body]
pub struct Callee {
    f: std::sync::Arc<dyn Fn(Any) -> Any + Send + Sync>,
}

/// Relies on `Arc::new`: moves the host callable behind a shared handle.
#[verifier::external_body]
fn share<F: Fn(Any) -> Any + Send + Sync + 'static>(f: F) -> Callee {
    Callee { f: std::sync::Arc::new(f) }
}

/// Relies on `Arc::clone`: the copy is a second handle to the same callable.
#[verifier::external_body]
fn share_again(c: &Callee) -> (r: Callee)
    ensures
        r == *c,
{
    Callee { f: c.f.clone() }
}

/// Relies on the host callable: runs it once on `args`.
#[verifier::external_body]
fn invoke(c: &Callee, args: Any) -> Any {
    (c.f)(args)
}

/// A function value: a shared host callable and its declared number of
/// parameters, which is informational only.
pub struct Function {
    f: Callee,
    args_count: usize,
}

impl Function {
    pub closed spec fn arity(&self) -> usize {
        self.args_count
    }

    /// The callable; two function values with the same callee run the same
    /// host code.
    pub closed spec fn callee(&self) -> Callee {
        self.f
    }

    pub fn new<F: Fn(Any) -> Any + Send + Sync + 'static>(f: F, args_count: usize) -> (r: Function)
        ensures
            r.arity() == args_count,
    {
        Function { f: share(f), args_count }
    }

    /// Runs the shared callable on `args` and hands back what it returned.
    pub fn call(&self, args: Any) -> Any {
        invoke(&self.f, args)
    }

    pub fn args_count(&self) -> (r: usize)
        ensures
            r == self.arity(),
    {
        self.args_count
    }

    /// A second handle to the same callable, with the same arity.
    pub fn share(&self) -> (r: Function)
        ensures
            r.arity() == self.arity(),
            r.callee() == self.callee(),
    {
        Function { f: share_again(&self.f), args_count: self.args_count }
    }
}

impl Clone for Function {
    fn clone(&self) -> (r: Function)
        ensures
            r.arity() == self.arity(),
            r.callee() == self.callee(),
    {
        self.share()
    }
}

} // verus!
