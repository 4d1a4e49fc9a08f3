use vstd::prelude::*;
use std::marker::PhantomData;

use crate::error::WVResult;
use crate::native::Native;
use crate::webview::Window;

verus! {

/// A closure queued to run once on the window's thread.
pub trait Task<T, N: Native>: Send {
    /// Whether `r` is a result that running this closure may give.
    spec fn may_return(&self, r: WVResult) -> bool;

    fn run(self: Box<Self>, view: &mut Window<T, N>) -> (r: WVResult)
        ensures
            self.may_return(r),
    ;
}

/// A dispatched closure, which may be called on any window.
#[verifier::reject_recursive_types(T)]
#[verifier::reject_recursive_types(N)]
pub struct Closure<T, N: Native, F: FnOnce(&mut Window<T, N>) -> WVResult> {
    f: F,
    view: PhantomData<(T, N)>,
}

impl<T, N: Native, F: FnOnce(&mut Window<T, N>) -> WVResult> Closure<T, N, F> {
    /// The closure itself; running the task may give any result it may.
    pub closed spec fn func(&self) -> F {
        self.f
    }

    #[verifier::type_invariant]
    spec fn callable(self) -> bool {
        forall|v: &mut Window<T, N>| self.f.requires((v,))
    }

    pub fn new(f: F) -> (r: Closure<T, N, F>)
        requires
            forall|v: &mut Window<T, N>| f.requires((v,)),
        ensures
            r.func() == f,
    {
        Closure { f, view: PhantomData }
    }
}

impl<T: Send, N: Native + Send, F: FnOnce(&mut Window<T, N>) -> WVResult + Send> Task<T, N> for Closure<T, N, F> {
    open spec fn may_return(&self, r: WVResult) -> bool {
        exists|v: &mut Window<T, N>| self.func().ensures((v,), r)
    }

    fn run(self: Box<Self>, view: &mut Window<T, N>) -> (r: WVResult) {
        let c = *self;
        proof {
            use_type_invariant(&c);
        }
        let ghost g = c.func();
        let Closure { f, view: _ } = c;
        assert(g == f);
        f(view)
    }
}

/// The handler of messages that the page sends.
pub trait Invoke<T, N: Native> {
    /// Whether `r` is a result that the handler may give for the message `arg`.
    spec fn may_return(&self, arg: Seq<char>, r: WVResult) -> bool;

    fn invoke(&self, view: &mut Window<T, N>, arg: &str) -> (r: WVResult)
        ensures
            self.may_return(arg@, r),
    ;
}

/// An invoke handler, which may be called on any window and message.
#[verifier::reject_recursive_types(T)]
#[verifier::reject_recursive_types(N)]
pub struct Handler<T, N: Native, I: Fn(&mut Window<T, N>, &str) -> WVResult> {
    f: I,
    view: PhantomData<(T, N)>,
}

impl<T, N: Native, I: Fn(&mut Window<T, N>, &str) -> WVResult> Handler<T, N, I> {
    /// The handler closure itself.
    pub closed spec fn func(&self) -> I {
        self.f
    }


    #[verifier::type_invariant]
    spec fn callable(self) -> bool {
        forall|v: &mut Window<T, N>, s: &str| self.f.requires((v, s))
    }

    pub fn new(f: I) -> (r: Handler<T, N, I>)
        requires
            forall|v: &mut Window<T, N>, s: &str| f.requires((v, s)),
        ensures
            r.func() == f,
    {
        Handler { f, view: PhantomData }
    }
}

impl<T, N: Native, I: Fn(&mut Window<T, N>, &str) -> WVResult> Invoke<T, N> for Handler<T, N, I> {
    open spec fn may_return(&self, arg: Seq<char>, r: WVResult) -> bool {
        exists|v: &mut Window<T, N>, s: &str| s@ == arg && self.func().ensures((v, s), r)
    }

    fn invoke(&self, view: &mut Window<T, N>, arg: &str) -> (r: WVResult) {
        proof {
            use_type_invariant(self);
        }
        let r = (self.f)(view, arg);
        assert(self.func() == self.f);
        r
    }
}

} // verus!
