//! The handle that a finished acquisition hands out.

use crate::acquisition::{run, Acquisition, Event};
use crate::error::HeadlessError;
use std::rc::Rc;
use vstd::prelude::*;

verus! {

/// Another owner of what `owner` points to. Calls `Rc::clone` of std, which
/// makes a second pointer to the same allocation and copies nothing: what the
/// new pointer refers to is what the old one refers to.
#[verifier::external_body]
fn share<T>(owner: &Rc<T>) -> (shared: Rc<T>)
    ensures
        shared == *owner,
{
    Rc::clone(owner)
}

/// A graphics context that is bound to no window. It bundles the graphics
/// context proper with the platform's render context, which it keeps alive
/// and otherwise leaves alone. Clones share both. There is no handle but of
/// an acquisition that got ready.
pub struct HeadlessContext<G, R> {
    context: Rc<G>,
    render_context: Rc<R>,
    reports: Ghost<Seq<Event>>,
}

impl<G, R> HeadlessContext<G, R> {
    #[verifier::type_invariant]
    spec fn comes_of_a_ready_acquisition(self) -> bool {
        run(self.reports@) is Ready
    }

    /// The graphics context that the handle stands for.
    pub closed spec fn graphics(&self) -> G {
        *self.context
    }

    /// The render context that the handle keeps alive.
    pub closed spec fn kept_alive(&self) -> R {
        *self.render_context
    }

    /// The reports of the acquisition that the handle was made of.
    pub closed spec fn reports(&self) -> Seq<Event> {
        self.reports@
    }

    /// Bundles the handle of a finished acquisition, which is used up: one
    /// acquisition yields one handle, and any further one is a clone of it.
    /// Only an acquisition that is ready yields a handle; at any other stage
    /// the two contexts are dropped and the acquisition's failure is
    /// returned.
    pub fn new(acquisition: Acquisition, context: G, render_context: R) -> (made: Result<
        Self,
        HeadlessError,
    >)
        ensures
            acquisition@ is Ready ==> made is Ok && made->Ok_0.graphics() == context
                && made->Ok_0.kept_alive() == render_context && made->Ok_0.reports()
                == acquisition.reports(),
            !(acquisition@ is Ready) ==> made is Err && acquisition@.failure() == Some(
                made->Err_0,
            ),
    {
        match acquisition.failure() {
            None => Ok(
                HeadlessContext {
                    context: Rc::new(context),
                    render_context: Rc::new(render_context),
                    reports: Ghost(acquisition.reports()),
                },
            ),
            Some(error) => Err(error),
        }
    }

    /// The graphics context, for every call that a windowed context would
    /// take. Whoever holds it holds the outcome of an acquisition that got
    /// ready.
    pub fn context(&self) -> (context: &G)
        ensures
            *context == self.graphics(),
            run(self.reports()) is Ready,
    {
        proof {
            use_type_invariant(self);
        }
        &self.context
    }
}

impl<G, R> Clone for HeadlessContext<G, R> {
    /// A second handle on the same graphics context and the same render
    /// context.
    fn clone(&self) -> (other: Self)
        ensures
            other == *self,
            other.graphics() == self.graphics(),
            other.kept_alive() == self.kept_alive(),
            other.reports() == self.reports(),
    {
        proof {
            use_type_invariant(self);
        }
        HeadlessContext {
            context: share(&self.context),
            render_context: share(&self.render_context),
            reports: self.reports,
        }
    }
}

impl<G, R> std::ops::Deref for HeadlessContext<G, R> {
    type Target = G;

    fn deref(&self) -> (context: &G)
        ensures
            *context == self.graphics(),
    {
        &self.context
    }
}

} // verus!
