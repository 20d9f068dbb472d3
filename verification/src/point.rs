//! Positions on the chain.
//!
//! A [`Point`] is the flat record in which a position is handed to and taken
//! from callers; a [`ChainPoint`] is the tagged form in which the protocol
//! speaks of it.

use crate::bytemap::bytes_equal;
use crate::raw::copy_bytes;
use vstd::prelude::*;

verus! {

/// A position as the protocol names it.
#[derive(Clone, Debug, PartialEq, Eq)]
pub enum ChainPoint {
    /// Before the first block.
    Origin,
    /// The block in the given slot with the given hash.
    Specific(u64, Vec<u8>),
}

/// The mathematical value of a [`ChainPoint`].
pub enum ChainPointView {
    Origin,
    Specific(u64, Seq<u8>),
}

impl View for ChainPoint {
    type V = ChainPointView;

    open spec fn view(&self) -> ChainPointView {
        match *self {
            ChainPoint::Origin => ChainPointView::Origin,
            ChainPoint::Specific(slot, hash) => ChainPointView::Specific(slot, hash@),
        }
    }
}

/// The mathematical value of a [`Point`].
pub struct PointView {
    pub slot: u64,
    pub hash: Seq<u8>,
}

/// Whether a slot and hash make a point: the origin is slot zero with the
/// empty hash, and every other point has a hash.
pub open spec fn is_point(p: PointView) -> bool {
    p.hash.len() == 0 ==> p.slot == 0
}

/// The protocol's form of a point.
pub open spec fn encode_point(p: PointView) -> ChainPointView {
    if p.hash.len() == 0 {
        ChainPointView::Origin
    } else {
        ChainPointView::Specific(p.slot, p.hash)
    }
}

/// The point that the protocol's form stands for; none for a specific
/// position without a hash.
pub open spec fn decode_point(c: ChainPointView) -> Option<PointView> {
    match c {
        ChainPointView::Origin => Some(PointView { slot: 0, hash: Seq::empty() }),
        ChainPointView::Specific(slot, hash) => if hash.len() == 0 {
            None
        } else {
            Some(PointView { slot, hash })
        },
    }
}

/// A position on the chain: the origin, or a slot with the hash of the block
/// in it.
#[derive(Debug, PartialEq, Eq)]
pub struct Point {
    slot: u64,
    hash: Vec<u8>,
}

impl View for Point {
    type V = PointView;

    closed spec fn view(&self) -> PointView {
        PointView { slot: self.slot, hash: self.hash@ }
    }
}

impl Clone for Point {
    fn clone(&self) -> (r: Point)
        ensures
            r@ == self@,
    {
        proof {
            use_type_invariant(self);
        }
        Point { slot: self.slot, hash: copy_bytes(&self.hash) }
    }
}

/// The view of an optional point.
pub open spec fn point_option_view(p: Option<Point>) -> Option<PointView> {
    match p {
        Some(point) => Some(point@),
        None => None,
    }
}

impl Point {
    #[verifier::type_invariant]
    spec fn well_formed(self) -> bool {
        self.hash@.len() == 0 ==> self.slot == 0
    }

    /// The origin.
    pub fn origin() -> (r: Point)
        ensures
            r@ == (PointView { slot: 0, hash: Seq::empty() }),
    {
        Point { slot: 0, hash: Vec::new() }
    }

    /// The point in `slot` with `hash`; none where `hash` is empty.
    pub fn specific(slot: u64, hash: Vec<u8>) -> (r: Option<Point>)
        ensures
            r is Some <==> hash@.len() > 0,
            r matches Some(p) ==> p@ == (PointView { slot, hash: hash@ }),
    {
        if hash.len() == 0 {
            None
        } else {
            Some(Point { slot, hash })
        }
    }

    /// Whether this is the origin.
    pub fn is_origin(&self) -> (r: bool)
        ensures
            r == (self@.hash.len() == 0),
            r ==> self@.slot == 0,
    {
        proof {
            use_type_invariant(self);
        }
        self.hash.len() == 0
    }

    /// The slot; zero for the origin.
    pub fn slot(&self) -> (r: u64)
        ensures
            r == self@.slot,
    {
        self.slot
    }

    /// The block hash; empty for the origin.
    pub fn hash(&self) -> (r: &Vec<u8>)
        ensures
            r@ == self@.hash,
    {
        &self.hash
    }

    /// Whether two points are the same position: the same slot and the same
    /// hash bytes.
    pub fn same_as(&self, other: &Point) -> (r: bool)
        ensures
            r == (self@ == other@),
    {
        self.slot == other.slot && bytes_equal(self.hash.as_slice(), other.hash.as_slice())
    }

    /// The point in the protocol's form.
    pub fn to_chain_point(&self) -> (r: ChainPoint)
        ensures
            r@ == encode_point(self@),
    {
        if self.hash.len() == 0 {
            ChainPoint::Origin
        } else {
            ChainPoint::Specific(self.slot, copy_bytes(&self.hash))
        }
    }

    /// The point that the protocol's form stands for; none for a specific
    /// position without a hash.
    pub fn from_chain_point(c: &ChainPoint) -> (r: Option<Point>)
        ensures
            point_option_view(r) == decode_point(c@),
    {
        match c {
            ChainPoint::Origin => Some(Point::origin()),
            ChainPoint::Specific(slot, hash) => Point::specific(*slot, copy_bytes(hash)),
        }
    }
}

/// A point survives the way into the protocol's form and back unchanged:
/// the same slot and the same hash bytes come out.
pub proof fn lemma_point_round_trip(p: PointView)
    requires
        is_point(p),
    ensures
        decode_point(encode_point(p)) == Some(p),
{
    if p.hash.len() == 0 {
        assert(p.hash =~= Seq::empty());
    }
}

/// For every slot and non-empty hash, the point made of them comes back
/// from the protocol's form with that slot and that hash.
pub proof fn lemma_specific_round_trip(slot: u64, hash: Seq<u8>)
    requires
        hash.len() > 0,
    ensures
        encode_point(PointView { slot, hash }) == ChainPointView::Specific(slot, hash),
        decode_point(encode_point(PointView { slot, hash })) == Some(PointView { slot, hash }),
{
}

/// What the protocol can say of a position and the library accepts, says
/// the same again after the way through a point.
pub proof fn lemma_chain_point_round_trip(c: ChainPointView)
    requires
        decode_point(c) is Some,
    ensures
        is_point(decode_point(c).unwrap()),
        encode_point(decode_point(c).unwrap()) == c,
{
}

} // verus!
