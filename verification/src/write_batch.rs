//! A batch of key-value mutations, applied atomically by the storage engine.
//!
//! Event payloads may encode such a batch; this crate only records the
//! mutations in order and never interprets them.

use vstd::prelude::*;

verus! {

/// One recorded mutation, as contracts speak of it: the key and value bytes
/// of a put, or the key bytes of a delete.
pub enum Mutation {
    Put(Seq<u8>, Seq<u8>),
    Delete(Seq<u8>),
}

enum Op {
    Put(Vec<u8>, Vec<u8>),
    Delete(Vec<u8>),
}

impl Op {
    spec fn view(self) -> Mutation {
        match self {
            Op::Put(key, value) => Mutation::Put(key@, value@),
            Op::Delete(key) => Mutation::Delete(key@),
        }
    }
}

/// An ordered batch of put and delete mutations.
pub struct WriteBatch {
    mutations: Vec<Op>,
}

impl View for WriteBatch {
    type V = Seq<Mutation>;

    /// A batch is modelled by its sequence of mutations, oldest first.
    closed spec fn view(&self) -> Seq<Mutation> {
        self.mutations@.map(|i: int, op: Op| op.view())
    }
}

impl WriteBatch {
    /// An empty batch.
    pub fn new() -> (r: WriteBatch)
        ensures
            r@ =~= Seq::<Mutation>::empty(),
    {
        WriteBatch { mutations: Vec::new() }
    }

    /// How many mutations the batch holds.
    pub fn len(&self) -> (r: usize)
        ensures
            r == self@.len(),
    {
        self.mutations.len()
    }

    /// Record a put of `value` under `key`, after every mutation recorded so
    /// far, and return the batch again for chaining.
    pub fn put(&mut self, key: &[u8], value: &[u8]) -> (r: &mut WriteBatch)
        ensures
            r@ == old(self)@.push(Mutation::Put(key@, value@)),
            *final(self) == *final(r),
    {
        let op = Op::Put(vstd::slice::slice_to_vec(key), vstd::slice::slice_to_vec(value));
        self.mutations.push(op);
        proof {
            assert(self@ =~= old(self)@.push(Mutation::Put(key@, value@)));
        }
        self
    }

    /// Record a delete of `key`, after every mutation recorded so far, and
    /// return the batch again for chaining.
    pub fn delete(&mut self, key: &[u8]) -> (r: &mut WriteBatch)
        ensures
            r@ == old(self)@.push(Mutation::Delete(key@)),
            *final(self) == *final(r),
    {
        let op = Op::Delete(vstd::slice::slice_to_vec(key));
        self.mutations.push(op);
        proof {
            assert(self@ =~= old(self)@.push(Mutation::Delete(key@)));
        }
        self
    }
}

} // verus!
