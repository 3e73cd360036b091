//! The client and the cheap handle it gives out.
//!
//! The business layer (`B`), its shared handle (`H`) and the connection
//! context (`C`) are supplied by the embedding program; the client only
//! holds and shares them.

use vstd::prelude::*;

use std::sync::Arc;

verus! {

/// `<Arc<T> as Clone>::clone`: another pointer to the same allocation, so it
/// reads the same value.
#[verifier::external_body]
fn arc_clone<T>(a: &Arc<T>) -> (res: Arc<T>)
    ensures
        *res == **a,
{
    a.clone()
}

/// A shareable handle onto a running client.
pub struct ClientHandle<H, C> {
    business: Arc<H>,
    context: Arc<C>,
}

/// A client: its business layer and the handle that shares it.
pub struct Client<B, H, C> {
    business: B,
    handle: ClientHandle<H, C>,
}

impl<H, C> ClientHandle<H, C> {
    /// The business handle this handle shares.
    pub closed spec fn business_of(&self) -> H {
        *self.business
    }

    /// The connection context this handle shares.
    pub closed spec fn context_of(&self) -> C {
        *self.context
    }

    /// A handle sharing `business` and `context`.
    pub fn new(business: Arc<H>, context: Arc<C>) -> (res: Self)
        ensures
            res.business_of() == *business,
            res.context_of() == *context,
    {
        ClientHandle { business, context }
    }

    /// The business handle, to operate the client through.
    pub fn operator(&self) -> (res: Arc<H>)
        ensures
            *res == self.business_of(),
    {
        arc_clone(&self.business)
    }
}

impl<H, C> Clone for ClientHandle<H, C> {
    /// Another handle sharing the same business handle and context.
    fn clone(&self) -> (res: Self)
        ensures
            res.business_of() == self.business_of(),
            res.context_of() == self.context_of(),
    {
        ClientHandle { business: arc_clone(&self.business), context: arc_clone(&self.context) }
    }
}

impl<B, H, C> Client<B, H, C> {
    /// The business layer of the client.
    pub closed spec fn business_layer(&self) -> B {
        self.business
    }

    /// The handle the client gives out.
    pub closed spec fn handle_of(&self) -> ClientHandle<H, C> {
        self.handle
    }

    /// A client from its business layer and the handle that shares it.
    pub fn from_parts(business: B, handle: ClientHandle<H, C>) -> (res: Self)
        ensures
            res.business_layer() == business,
            res.handle_of() == handle,
    {
        Client { business, handle }
    }

    /// A new handle onto this client, sharing its business handle and context.
    pub fn handle(&self) -> (res: ClientHandle<H, C>)
        ensures
            res.business_of() == self.handle_of().business_of(),
            res.context_of() == self.handle_of().context_of(),
    {
        self.handle.clone()
    }

    /// The business layer, to run the client.
    pub fn business_mut(&mut self) -> (res: &mut B)
        ensures
            *res == old(self).business_layer(),
            final(self).handle_of() == old(self).handle_of(),
            final(self).business_layer() == *final(res),
    {
        &mut self.business
    }
}

} // verus!
