//! The runtime behaviour of the emitted companion type, stated once and
//! proved for every kind and source type: the generated struct pairs a
//! `kind` discriminant with a `source` cause value, its constructor is a
//! direct field-wise move, its accessors borrow the stored fields and never
//! panic, and its error-trait `source()` method exposes the stored cause
//! exactly when the configuration asked for one.

use vstd::prelude::*;

verus! {

/// A companion error value: the shape shared by every struct the generator
/// emits, with the kind and source types left generic.
pub struct KindError<K, S> {
    pub kind: K,
    pub source: S,
}

impl<K, S> KindError<K, S> {
    /// Field-wise move construction: no validation, no side effects.
    pub fn new(kind: K, source: S) -> (r: Self)
        ensures
            r.kind == kind,
            r.source == source,
    {
        KindError { kind, source }
    }

    /// Borrow the stored kind.
    pub fn kind(&self) -> (r: &K)
        ensures
            *r == self.kind,
    {
        &self.kind
    }

    /// Borrow the stored source.
    pub fn origin(&self) -> (r: &S)
        ensures
            *r == self.source,
    {
        &self.source
    }

    /// The cause exposed by the emitted error-trait implementation:
    /// `source_fn` set yields the stored source itself, `source_fn` unset
    /// yields no cause at all, whatever the source value is.
    pub fn cause(&self, source_fn: bool) -> (r: Option<&S>)
        ensures
            match r {
                Some(c) => source_fn && *c == self.source,
                None => !source_fn,
            },
    {
        if source_fn {
            Some(&self.source)
        } else {
            None
        }
    }
}

} // verus!
