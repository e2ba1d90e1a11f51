//! The channel through which an application's own error value crosses the
//! router: one value, found again only under the key of its type.

use vstd::prelude::*;
use vstd::string::*;
use crate::resources::TypeKey;

verus! {

/// Holds one application error value, the key of its type, and the type's
/// name for diagnostics.
#[derive(Debug)]
pub struct HandlerError<E> {
    holder: Option<E>,
    type_key: TypeKey,
    type_label: String,
}

impl<E> HandlerError<E> {
    /// The value that is held, until it is removed.
    pub closed spec fn held(&self) -> Option<E> {
        self.holder
    }

    /// The key of the type of the value that was put in.
    pub closed spec fn key(&self) -> TypeKey {
        self.type_key
    }

    /// The name of the type of the value that was put in.
    pub closed spec fn label(&self) -> Seq<char> {
        self.type_label@
    }

    /// What asking under `key` finds: the held value where `key` is the key
    /// of its type, and nothing under any other key.
    pub open spec fn lookup(&self, key: TypeKey) -> Option<E> {
        if key == self.key() {
            self.held()
        } else {
            None
        }
    }

    /// Boxes `val`, a value of the type with key `type_key` and name `type_label`.
    pub fn new(type_key: TypeKey, type_label: &str, val: E) -> (r: Self)
        ensures
            r.held() == Some(val),
            r.key() == type_key,
            r.label() == type_label@,
    {
        HandlerError { holder: Some(val), type_key, type_label: String::from_str(type_label) }
    }

    /// A reference to the held value, where `key` is the key of its type.
    pub fn get(&self, key: TypeKey) -> (r: Option<&E>)
        ensures
            r is Some == self.lookup(key) is Some,
            r is Some ==> *r->Some_0 == self.lookup(key)->Some_0,
    {
        if key == self.type_key {
            self.holder.as_ref()
        } else {
            None
        }
    }

    /// Takes the held value out, where `key` is the key of its type. Under
    /// any other key nothing is returned and nothing changes.
    pub fn remove(&mut self, key: TypeKey) -> (r: Option<E>)
        ensures
            r == old(self).lookup(key),
            final(self).key() == old(self).key(),
            final(self).label() == old(self).label(),
            final(self).held() == if key == old(self).key() {
                None
            } else {
                old(self).held()
            },
    {
        if key == self.type_key {
            self.holder.take()
        } else {
            None
        }
    }

    /// The name of the type of the value that was put in.
    pub fn get_type_name(&self) -> (r: &String)
        ensures
            r@ == self.label(),
    {
        &self.type_label
    }

    /// The text under which this error goes over the wire: it names the type
    /// of the held value, not the value.
    pub fn to_text(&self) -> (r: String)
        ensures
            r@ == handler_error_text(self.label()),
    {
        let head = String::from_str("RpcHandlerError containing error '");
        let with_label = head.concat(self.type_label.as_str());
        with_label.concat("'")
    }
}

/// The text under which a handler error of a type called `label` goes over the wire.
pub open spec fn handler_error_text(label: Seq<char>) -> Seq<char> {
    "RpcHandlerError containing error '"@ + label + "'"@
}

/// Another name for [`HandlerError`].
pub type RpcHandlerError<E> = HandlerError<E>;

/// A value put in under the key of its type is found under that key, as it
/// was put in, and under no other key.
pub proof fn lemma_handler_error_recovers<E>(e: HandlerError<E>, val: E, key: TypeKey)
    requires
        e.held() == Some(val),
    ensures
        e.lookup(e.key()) == Some(val),
        key != e.key() ==> e.lookup(key) is None,
{
}

} // verus!
