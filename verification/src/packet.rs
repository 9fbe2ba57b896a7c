//! The example packet family: a fixed-size base record with a discriminant
//! byte, and the subtype views declared over it.
use crate::subtype::{downcast_result, SubtypeCheck, SubtypeOwned, SubtypeView, SubtypeViewMut};
use vstd::prelude::*;

verus! {

/// Discriminant value of a status packet.
pub const STATUS_TYPE: u8 = 2;

/// Discriminant value of a ping packet.
pub const PING_TYPE: u8 = 0;

/// A fixed-size tagged base record: one discriminant byte identifying the
/// packet kind, and seven payload bytes whose interpretation depends on it.
#[derive(Debug)]
pub struct Packet {
    // 0x02 is "status"
    packet_type: u8,
    // status: 4 byte big-endian node id, then 3 status bytes
    data: [u8; 7],
}

impl Packet {
    /// The discriminant byte.
    pub closed spec fn spec_packet_type(&self) -> u8 {
        self.packet_type
    }

    /// The payload bytes, as a sequence of length 7.
    pub closed spec fn spec_payload(&self) -> Seq<u8> {
        self.data@
    }

    /// Whether the discriminant currently marks this record as a status
    /// packet.
    pub open spec fn spec_is_status(&self) -> bool {
        self.spec_packet_type() == STATUS_TYPE
    }

    /// Whether the discriminant currently marks this record as a ping packet.
    pub open spec fn spec_is_ping(&self) -> bool {
        self.spec_packet_type() == PING_TYPE
    }

    /// Builds a record from a discriminant byte and raw payload bytes.
    pub fn new(packet_type: u8, data: [u8; 7]) -> (p: Packet)
        ensures
            p.spec_packet_type() == packet_type,
            p.spec_payload() == data@,
    {
        Packet { packet_type, data }
    }

    /// Shared base accessor: the raw payload bytes.
    pub fn get_raw_payload(&self) -> (r: &[u8])
        ensures
            r@ == self.spec_payload(),
    {
        self.data.as_slice()
    }

    /// Exclusive base accessor: overwrites the whole payload region. Only
    /// reachable through a base record, never through a subtype view.
    pub fn set_raw_payload(&mut self, data: [u8; 7])
        ensures
            final(self).spec_packet_type() == old(self).spec_packet_type(),
            final(self).spec_payload() == data@,
    {
        self.data = data;
    }

    /// Derives a shared status view of a record already known to carry the
    /// status discriminant. For a record whose discriminant is not known
    /// beforehand, use the checked `StatusRef::downcast_ref`.
    pub fn get_status_ref(&self) -> (v: StatusRef)
        requires
            self.spec_is_status(),
        ensures
            v.spec_base() == *self,
    {
        StatusRef::wrap_ref(self)
    }

    /// Derives an exclusive status view of a record already known to carry
    /// the status discriminant. For a record whose discriminant is not known
    /// beforehand, use the checked `StatusMutRef::downcast_mut`.
    pub fn get_status_mut_ref(&mut self) -> (v: StatusMutRef)
        requires
            old(self).spec_is_status(),
        ensures
            *v.spec_loc() == *old(self),
            *final(self) == *final(v.spec_loc()),
    {
        StatusMutRef::wrap_mut(self)
    }

    /// Reclassifies an owned record already known to carry the status
    /// discriminant. For a record whose discriminant is not known beforehand,
    /// use the checked `StatusPacket::downcast`.
    pub fn get_status(self) -> (s: StatusPacket)
        requires
            self.spec_is_status(),
        ensures
            s.spec_base() == self,
    {
        StatusPacket::wrap(self)
    }
}

/// The record layout is fixed: every base record carries exactly seven
/// payload bytes after its discriminant byte, and every subtype view reads or
/// writes those same bytes at the same offsets.
pub proof fn lemma_payload_len(p: &Packet)
    ensures
        p.spec_payload().len() == 7,
{
}

/// Error kind of the relations whose predicate inspects the discriminant.
#[derive(Debug, PartialEq, Eq, Structural)]
pub enum ConversionError {
    /// The record's discriminant does not mark it as the requested subtype.
    WrongPacketType,
}

/// A status packet: refines a base record whose discriminant is
/// `STATUS_TYPE`. Owns the storage of the record it was downcast from.
#[derive(Debug)]
pub struct StatusPacket {
    base: Packet,
}

impl SubtypeCheck<Packet, StatusPacket, ConversionError> for Packet {
    open spec fn spec_valid_subtype(&self) -> bool {
        self.spec_is_status()
    }

    open spec fn spec_rejection(&self) -> ConversionError {
        ConversionError::WrongPacketType
    }

    fn check_is_valid_subtype(&self) -> (r: Result<(), ConversionError>) {
        if self.packet_type == STATUS_TYPE {
            Ok(())
        } else {
            Err(ConversionError::WrongPacketType)
        }
    }
}

impl SubtypeOwned<Packet, ConversionError> for StatusPacket {
    closed spec fn spec_base(&self) -> Packet {
        self.base
    }

    fn wrap(base: Packet) -> (s: Self) {
        StatusPacket { base }
    }

    fn upcast(self) -> (base: Packet) {
        self.base
    }

    fn base_ref(&self) -> (base: &Packet) {
        &self.base
    }
}

impl StatusPacket {
    /// The third status byte, the last byte of the payload.
    pub fn get_status_2(&self) -> (v: u8)
        ensures
            v == self.spec_base().spec_payload()[6],
    {
        self.base.data[6]
    }

    /// Overwrites the third status byte and nothing else: every other payload
    /// byte and the discriminant keep their value.
    pub fn set_status_2(&mut self, v: u8)
        ensures
            final(self).spec_base().spec_packet_type() == old(self).spec_base().spec_packet_type(),
            final(self).spec_base().spec_payload() == old(self).spec_base().spec_payload().update(
                6,
                v,
            ),
    {
        self.base.data[6] = v;
    }

    /// Shared base accessor, exposed on the subtype: the raw payload bytes.
    pub fn get_raw_payload(&self) -> (r: &[u8])
        ensures
            r@ == self.spec_base().spec_payload(),
    {
        self.base.get_raw_payload()
    }
}

/// A shared status view: reads an existing base record, known to carry the
/// status discriminant, through a shared reference.
pub struct StatusRef<'a> {
    base: &'a Packet,
}

impl<'a> SubtypeView<'a, Packet, StatusPacket, ConversionError> for StatusRef<'a> {
    closed spec fn spec_base(&self) -> Packet {
        *self.base
    }

    fn wrap_ref(base: &'a Packet) -> (v: Self) {
        StatusRef { base }
    }

    fn base_ref(&self) -> (base: &Packet) {
        self.base
    }
}

impl<'a> StatusRef<'a> {
    /// The third status byte, the last byte of the payload.
    pub fn get_status_2(&self) -> (v: u8)
        ensures
            v == self.spec_base().spec_payload()[6],
    {
        self.base.data[6]
    }

    /// Shared base accessor, exposed on the view: the raw payload bytes.
    pub fn get_raw_payload(&self) -> (r: &[u8])
        ensures
            r@ == self.spec_base().spec_payload(),
    {
        self.base.get_raw_payload()
    }
}

/// An exclusive status view: writes an existing base record, known to carry
/// the status discriminant, through an exclusive reference. It exposes the
/// status packet's own mutators and the base record's shared accessors, but
/// not the base record's general mutators.
pub struct StatusMutRef<'a> {
    base: &'a mut Packet,
}

impl<'a> SubtypeViewMut<'a, Packet, StatusPacket, ConversionError> for StatusMutRef<'a> {
    closed spec fn spec_loc(self) -> &'a mut Packet {
        self.base
    }

    fn wrap_mut(base: &'a mut Packet) -> (v: Self) {
        StatusMutRef { base }
    }

    fn base_ref(&self) -> (base: &Packet) {
        &*self.base
    }
}

impl<'a> StatusMutRef<'a> {
    /// The third status byte, the last byte of the payload.
    pub fn get_status_2(&self) -> (v: u8)
        ensures
            v == (*self.spec_loc()).spec_payload()[6],
    {
        self.base.data[6]
    }

    /// Overwrites the third status byte of the viewed record and nothing
    /// else: every other payload byte and the discriminant keep their value,
    /// and the view keeps writing the same location.
    pub fn set_status_2(&mut self, v: u8)
        ensures
            (*final(self).spec_loc()).spec_packet_type() == (*old(
                self,
            ).spec_loc()).spec_packet_type(),
            (*final(self).spec_loc()).spec_payload() == (*old(
                self,
            ).spec_loc()).spec_payload().update(6, v),
            *final(old(self).spec_loc()) == *final(final(self).spec_loc()),
    {
        self.base.data[6] = v;
    }

    /// Shared base accessor, exposed on the view: the raw payload bytes.
    pub fn get_raw_payload(&self) -> (r: &[u8])
        ensures
            r@ == (*self.spec_loc()).spec_payload(),
    {
        self.base.get_raw_payload()
    }
}

/// Releasing the exclusive view makes the base reference usable again, with
/// exactly the view's writes applied: once the view is resolved — nothing will
/// ever write through it again — the record at its location already holds the
/// value that location resolves to, so the base shows just what the view
/// wrote. While the view is live, Rust's exclusive-borrow discipline makes
/// any other reference to the record unobtainable.
pub proof fn lemma_exclusive_release(v: StatusMutRef)
    requires
        has_resolved(v),
    ensures
        *old(v.spec_loc()) == *final(v.spec_loc()),
{
    assert(has_resolved(v.base));
}

/// A ping packet: refines a base record whose discriminant is `PING_TYPE`.
/// The payload stays opaque; the subtype only witnesses the discriminant.
#[derive(Debug)]
pub struct PingPacket {
    base: Packet,
}

impl SubtypeCheck<Packet, PingPacket, ConversionError> for Packet {
    open spec fn spec_valid_subtype(&self) -> bool {
        self.spec_is_ping()
    }

    open spec fn spec_rejection(&self) -> ConversionError {
        ConversionError::WrongPacketType
    }

    fn check_is_valid_subtype(&self) -> (r: Result<(), ConversionError>) {
        if self.packet_type == PING_TYPE {
            Ok(())
        } else {
            Err(ConversionError::WrongPacketType)
        }
    }
}

impl SubtypeOwned<Packet, ConversionError> for PingPacket {
    closed spec fn spec_base(&self) -> Packet {
        self.base
    }

    fn wrap(base: Packet) -> (s: Self) {
        PingPacket { base }
    }

    fn upcast(self) -> (base: Packet) {
        self.base
    }

    fn base_ref(&self) -> (base: &Packet) {
        &self.base
    }
}

/// A shared ping view: reads an existing base record, known to carry the
/// ping discriminant, through a shared reference. The ping payload is opaque,
/// so the view exposes only the base record's shared accessors.
pub struct PingRef<'a> {
    base: &'a Packet,
}

impl<'a> SubtypeView<'a, Packet, PingPacket, ConversionError> for PingRef<'a> {
    closed spec fn spec_base(&self) -> Packet {
        *self.base
    }

    fn wrap_ref(base: &'a Packet) -> (v: Self) {
        PingRef { base }
    }

    fn base_ref(&self) -> (base: &Packet) {
        self.base
    }
}

/// Error kind of the pong relation, a declared relation of its own.
#[derive(Debug, PartialEq, Eq, Structural)]
pub struct PongConvError {}

/// A pong packet: a subtype the base type declares but whose predicate
/// rejects every record. Declaring a relation and being able to satisfy it
/// are different things; no value of this type can come out of a downcast.
#[derive(Debug)]
pub struct PongPacket {
    base: Packet,
}

impl SubtypeCheck<Packet, PongPacket, PongConvError> for Packet {
    open spec fn spec_valid_subtype(&self) -> bool {
        false
    }

    open spec fn spec_rejection(&self) -> PongConvError {
        PongConvError {}
    }

    fn check_is_valid_subtype(&self) -> (r: Result<(), PongConvError>) {
        Err(PongConvError {})
    }
}

impl SubtypeOwned<Packet, PongConvError> for PongPacket {
    closed spec fn spec_base(&self) -> Packet {
        self.base
    }

    fn wrap(base: Packet) -> (s: Self) {
        PongPacket { base }
    }

    fn upcast(self) -> (base: Packet) {
        self.base
    }

    fn base_ref(&self) -> (base: &Packet) {
        &self.base
    }
}

/// Multi-subtype independence. The three relations declared over the packet
/// base judge one record independently, each by its own predicate and with
/// its own error kind: a status record succeeds the status downcast and is
/// rejected by the ping relation with its declared error kind; a ping record
/// the other way round; and the pong relation rejects every record with its
/// own error kind.
pub proof fn lemma_multi_subtype_independence(
    p: Packet,
    rs: Result<StatusPacket, (Packet, ConversionError)>,
    rp: Result<PingPacket, (Packet, ConversionError)>,
    rq: Result<PongPacket, (Packet, PongConvError)>,
)
    requires
        downcast_result(p, rs),
        downcast_result(p, rp),
        downcast_result(p, rq),
    ensures
        p.spec_is_status() ==> rs is Ok && rp is Err && (rp->Err_0).1
            == ConversionError::WrongPacketType && (rp->Err_0).0 == p,
        p.spec_is_ping() ==> rp is Ok && rs is Err && (rs->Err_0).1
            == ConversionError::WrongPacketType && (rs->Err_0).0 == p,
        rq is Err && (rq->Err_0).1 == (PongConvError {}) && (rq->Err_0).0 == p,
{
}

} // verus!
