//! The subtype-relation mechanism: a validity predicate registered per
//! (base, subtype) pair, and the checked downcast operations every declared
//! relation receives from it.
use vstd::prelude::*;

verus! {

/// Validity predicate of a declared subtype relation.
///
/// Implementing this trait for a base record type `F` declares that records
/// of `F` may, after a successful check, be treated as the refinement `T`;
/// `E` is the error kind handed to callers when the check rejects a record.
/// The predicate is a pure function of the record's bytes: it never mutates
/// the record, and two checks of the same record agree.
pub trait SubtypeCheck<F, T, E> {
    /// Whether this record may currently be treated as an instance of `T`.
    spec fn spec_valid_subtype(&self) -> bool;

    /// The rejection value reported when the predicate does not hold.
    spec fn spec_rejection(&self) -> E;

    /// Runs the validity predicate: `Ok` exactly when the record satisfies
    /// the relation's predicate, and the declared rejection value otherwise.
    fn check_is_valid_subtype(&self) -> (r: Result<(), E>)
        ensures
            r is Ok <==> self.spec_valid_subtype(),
            r is Err ==> r->Err_0 == self.spec_rejection(),
    ;
}

/// What a consuming downcast of `base` may return: on a record the predicate
/// accepts, the subtype refining exactly that record; on any other record,
/// the record itself, unchanged, beside the relation's rejection value.
pub open spec fn downcast_result<B, S, E>(base: B, r: Result<S, (B, E)>) -> bool where
    B: SubtypeCheck<B, S, E>,
    S: SubtypeOwned<B, E>,
 {
    &&& base.spec_valid_subtype() ==> r is Ok && (r->Ok_0).spec_base() == base
    &&& !base.spec_valid_subtype() ==> r is Err && (r->Err_0).0 == base && (r->Err_0).1
        == base.spec_rejection()
}

/// What a shared-borrow downcast of a record may return: on a record the
/// predicate accepts, a view reading exactly that record; on any other
/// record, the relation's rejection value.
pub open spec fn downcast_ref_result<'a, B, S, E, V>(base: B, r: Result<V, E>) -> bool where
    B: SubtypeCheck<B, S, E>,
    V: SubtypeView<'a, B, S, E>,
 {
    &&& base.spec_valid_subtype() ==> r is Ok && (r->Ok_0).spec_base() == base
    &&& !base.spec_valid_subtype() ==> r is Err && r->Err_0 == base.spec_rejection()
}

/// An owned subtype record: a value of `Self` refines a base record of type
/// `B` and owns the same storage the base record used to own.
///
/// A relation implements `spec_base`, `wrap`, `upcast` and `base_ref`, and
/// receives the checked consuming downcast `downcast` from the provided body.
/// `wrap` is the only way storage is reclassified, and its precondition makes
/// every entry into the subtype pass the relation's validity predicate.
pub trait SubtypeOwned<B, E>: Sized where B: SubtypeCheck<B, Self, E> {
    /// The base record this subtype value refines: same bytes, narrower type.
    spec fn spec_base(&self) -> B;

    /// Reclassifies a record already known to satisfy the predicate.
    fn wrap(base: B) -> (s: Self)
        requires
            base.spec_valid_subtype(),
        ensures
            s.spec_base() == base,
    ;

    /// Upcast: gives the storage back to the caller as the base record,
    /// unchanged.
    fn upcast(self) -> (base: B)
        ensures
            base == self.spec_base(),
    ;

    /// Exposes the base record's shared accessors: every subtype value can be
    /// read as its base.
    fn base_ref(&self) -> (base: &B)
        ensures
            *base == self.spec_base(),
    ;

    /// Consuming downcast. On success the record's storage is reborn as the
    /// subtype; on failure the record comes back to the caller unchanged,
    /// together with the relation's rejection value.
    fn downcast(base: B) -> (r: Result<Self, (B, E)>)
        ensures
            base.spec_valid_subtype() ==> r is Ok && (r->Ok_0).spec_base() == base,
            !base.spec_valid_subtype() ==> r is Err && (r->Err_0).0 == base && (r->Err_0).1
                == base.spec_rejection(),
    {
        match base.check_is_valid_subtype() {
            Ok(()) => Ok(Self::wrap(base)),
            Err(e) => Err((base, e)),
        }
    }
}

/// A shared subtype view: a value of `Self` wraps a shared reference to a
/// base record of type `B` that satisfies the predicate of the relation
/// `(B, S)`, where `S` is the relation's owned subtype.
///
/// Producing the view copies nothing and alters nothing: it derives a
/// narrower-typed reference over the same memory, bounded by the input
/// reference's lifetime. Any number of shared views, of the same or of
/// different subtypes, may coexist over one record.
pub trait SubtypeView<'a, B, S, E>: Sized where B: SubtypeCheck<B, S, E> {
    /// The base record this view reads: the referenced record itself.
    spec fn spec_base(&self) -> B;

    /// Derives the view from a reference already known to satisfy the
    /// predicate.
    fn wrap_ref(base: &'a B) -> (v: Self)
        requires
            base.spec_valid_subtype(),
        ensures
            v.spec_base() == *base,
    ;

    /// Exposes the base record's shared accessors: every subtype view can be
    /// read as its base.
    fn base_ref(&self) -> (base: &B)
        ensures
            *base == self.spec_base(),
    ;

    /// Shared-borrow downcast. On success the view reads the very record the
    /// input reference does; on failure the relation's rejection value comes
    /// back and the input reference stays usable, the record untouched either
    /// way.
    fn downcast_ref(base: &'a B) -> (r: Result<Self, E>)
        ensures
            base.spec_valid_subtype() ==> r is Ok && (r->Ok_0).spec_base() == *base,
            !base.spec_valid_subtype() ==> r is Err && r->Err_0 == base.spec_rejection(),
    {
        match base.check_is_valid_subtype() {
            Ok(()) => Ok(Self::wrap_ref(base)),
            Err(e) => Err(e),
        }
    }
}

/// An exclusive subtype view: a value of `Self` wraps an exclusive reference
/// to a base record of type `B` that satisfies the predicate of the relation
/// `(B, S)`, where `S` is the relation's owned subtype.
///
/// While the view is live it holds the only usable reference to the record,
/// so no other code path can move the discriminant out from under the view's
/// typed accessors. The view exposes only the subtype's own mutators, never
/// the base record's general ones: overwriting the payload region wholesale
/// could break the bytes the subtype's interpretation depends on while the
/// discriminant still claims otherwise.
pub trait SubtypeViewMut<'a, B, S, E>: Sized where B: SubtypeCheck<B, S, E> {
    /// The location of the base record this view writes: the very reference
    /// the view was derived from.
    spec fn spec_loc(self) -> &'a mut B;

    /// Derives the view from a reference already known to satisfy the
    /// predicate.
    fn wrap_mut(base: &'a mut B) -> (v: Self)
        requires
            old(base).spec_valid_subtype(),
        ensures
            *v.spec_loc() == *old(base),
            *final(base) == *final(v.spec_loc()),
    ;

    /// Exposes the base record's shared accessors: even the exclusive view
    /// can be read as its base, though it never mutates as its base.
    fn base_ref(&self) -> (base: &B)
        ensures
            *base == *self.spec_loc(),
    ;

    /// Exclusive-borrow downcast. On success the view writes the very record
    /// the input reference does, and the record is untouched so far; on
    /// failure the relation's rejection value comes back and the record is
    /// untouched for good.
    fn downcast_mut(base: &'a mut B) -> (r: Result<Self, E>)
        ensures
            old(base).spec_valid_subtype() ==> r is Ok && *(r->Ok_0).spec_loc() == *old(base)
                && *final(base) == *final((r->Ok_0).spec_loc()),
            !old(base).spec_valid_subtype() ==> r is Err && r->Err_0 == old(
                base,
            ).spec_rejection() && *final(base) == *old(base),
    {
        let checked = base.check_is_valid_subtype();
        match checked {
            Ok(()) => Ok(Self::wrap_mut(base)),
            Err(e) => Err(e),
        }
    }
}

/// Round-trip identity. A record accepted by the relation's predicate
/// survives the consuming downcast intact: the downcast returns a subtype
/// refining exactly the original record, so the upcast of that subtype — which
/// returns its `spec_base()` — is the original record, byte for byte.
pub proof fn lemma_round_trip_identity<B, S, E>(base: B, r: Result<S, (B, E)>) where
    B: SubtypeCheck<B, S, E>,
    S: SubtypeOwned<B, E>,

    requires
        base.spec_valid_subtype(),
        downcast_result(base, r),
    ensures
        r is Ok,
        (r->Ok_0).spec_base() == base,
{
}

/// Rejection preserves ownership. A record the relation's predicate rejects
/// comes back from the consuming downcast unchanged — never partially
/// transformed — together with the relation's declared rejection value.
pub proof fn lemma_rejection_preserves_ownership<B, S, E>(base: B, r: Result<S, (B, E)>) where
    B: SubtypeCheck<B, S, E>,
    S: SubtypeOwned<B, E>,

    requires
        !base.spec_valid_subtype(),
        downcast_result(base, r),
    ensures
        r is Err,
        (r->Err_0).0 == base,
        (r->Err_0).1 == base.spec_rejection(),
{
}

/// Refinement. A subtype is a refinement of its base: any subtype value that
/// a downcast of an accepted record produces refines a record that satisfies
/// the relation's predicate, so reading it as its base — through `upcast` or
/// `base_ref` — always yields a valid base record of the subtype's kind. The
/// converse does not hold: a base record need satisfy no predicate.
pub proof fn lemma_refinement<B, S, E>(base: B, s: S) where
    B: SubtypeCheck<B, S, E>,
    S: SubtypeOwned<B, E>,

    requires
        base.spec_valid_subtype(),
        s.spec_base() == base,
    ensures
        s.spec_base().spec_valid_subtype(),
{
}

/// Borrow non-interference. The shared-borrow downcast takes only a shared
/// reference, so it cannot alter the record's bytes; on a record the
/// predicate accepts it yields a view reading exactly the record the input
/// reference does, and on any other record it yields the declared rejection —
/// either way the input reference stays usable.
pub proof fn lemma_shared_view_non_interference<'a, B, S, E, V>(base: B, r: Result<V, E>) where
    B: SubtypeCheck<B, S, E>,
    V: SubtypeView<'a, B, S, E>,

    requires
        downcast_ref_result(base, r),
    ensures
        r is Ok <==> base.spec_valid_subtype(),
        r is Ok ==> (r->Ok_0).spec_base() == base,
        r is Err ==> r->Err_0 == base.spec_rejection(),
{
}

} // verus!
