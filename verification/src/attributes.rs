use vstd::prelude::*;

use crate::layout::Direction;

verus! {

/// The attribute keys a stack consults on its node.
#[derive(Clone, Copy, Debug, PartialEq, Eq, Structural)]
pub enum AttributeKey {
    /// Overrides the inherited minimum width.
    MinWidth,
    /// Overrides the inherited minimum height.
    MinHeight,
    /// Tightens the width constraint to an exact value.
    Width,
    /// Tightens the height constraint to an exact value.
    Height,
    /// Selects the positioning order.
    Direction,
}

/// A tagged attribute value.
#[derive(Clone, Copy, Debug, PartialEq, Eq, Structural)]
pub enum AttributeValue {
    Uint(u16),
    Dir(Direction),
}

/// The value stored under `key`, the latest write winning; `None` when the
/// key was never written.
pub open spec fn lookup(
    entries: Seq<(AttributeKey, AttributeValue)>,
    key: AttributeKey,
) -> Option<AttributeValue>
    decreases entries.len(),
{
    if entries.len() == 0 {
        None
    } else if entries.last().0 == key {
        Some(entries.last().1)
    } else {
        lookup(entries.drop_last(), key)
    }
}

/// The unsigned-integer reading of an attribute: `Some` only when the key is
/// present and its value carries that type.
pub open spec fn uint_attr(
    entries: Seq<(AttributeKey, AttributeValue)>,
    key: AttributeKey,
) -> Option<u16> {
    match lookup(entries, key) {
        Some(AttributeValue::Uint(v)) => Some(v),
        _ => None,
    }
}

/// The direction reading of the direction attribute: `Some` only when it is
/// present and carries a direction.
pub open spec fn direction_attr(entries: Seq<(AttributeKey, AttributeValue)>) -> Option<
    Direction,
> {
    match lookup(entries, AttributeKey::Direction) {
        Some(AttributeValue::Dir(d)) => Some(d),
        _ => None,
    }
}

/// The direction a node resolves to: its direction attribute if set, else
/// the default, forward.
pub open spec fn resolved_direction(entries: Seq<(AttributeKey, AttributeValue)>) -> Direction {
    match direction_attr(entries) {
        Some(d) => d,
        None => Direction::Forward,
    }
}

/// A node's attribute map: an unordered store of optional overrides, modelled
/// as a list of key-tagged entries where a later entry for a key shadows an
/// earlier one.
#[derive(Debug)]
pub struct Attributes {
    entries: Vec<(AttributeKey, AttributeValue)>,
}

impl View for Attributes {
    type V = Seq<(AttributeKey, AttributeValue)>;

    closed spec fn view(&self) -> Seq<(AttributeKey, AttributeValue)> {
        self.entries@
    }
}

impl Attributes {
    /// An attribute map with nothing set: every lookup misses.
    pub fn new() -> (r: Attributes)
        ensures
            r@ == Seq::<(AttributeKey, AttributeValue)>::empty(),
    {
        Attributes { entries: Vec::new() }
    }

    /// Writes `value` under `key`, shadowing any earlier write of the key
    /// and leaving every other key's lookup unchanged.
    pub fn set(&mut self, key: AttributeKey, value: AttributeValue)
        ensures
            final(self)@ == old(self)@.push((key, value)),
            lookup(final(self)@, key) == Some(value),
            forall|k: AttributeKey| k != key ==> lookup(final(self)@, k) == lookup(old(self)@, k),
    {
        self.entries.push((key, value));
        proof {
            assert(self@.last() == (key, value));
            assert(self@.drop_last() =~= old(self)@);
        }
    }

    /// The value stored under `key`, if any.
    pub fn get(&self, key: AttributeKey) -> (r: Option<AttributeValue>)
        ensures
            r == lookup(self@, key),
    {
        let mut i: usize = self.entries.len();
        proof {
            assert(self@.take(i as int) =~= self@);
        }
        while i > 0
            invariant
                i <= self.entries.len(),
                lookup(self@, key) == lookup(self@.take(i as int), key),
            decreases i,
        {
            i = i - 1;
            let entry = self.entries[i];
            proof {
                assert(self@.take(i + 1).last() == self@[i as int]);
                assert(self@.take(i + 1).drop_last() =~= self@.take(i as int));
            }
            if entry.0 == key {
                return Some(entry.1);
            }
        }
        None
    }

    /// The unsigned-integer attribute under `key`: `None` when the key is
    /// absent or its value is of another type.
    pub fn get_uint(&self, key: AttributeKey) -> (r: Option<u16>)
        ensures
            r == uint_attr(self@, key),
    {
        match self.get(key) {
            Some(AttributeValue::Uint(v)) => Some(v),
            _ => None,
        }
    }

    /// The direction attribute: `None` when it is absent or of another type.
    pub fn get_direction(&self) -> (r: Option<Direction>)
        ensures
            r == direction_attr(self@),
    {
        match self.get(AttributeKey::Direction) {
            Some(AttributeValue::Dir(d)) => Some(d),
            _ => None,
        }
    }

    /// The node's resolved direction: the attribute if set, else forward.
    pub fn direction(&self) -> (r: Direction)
        ensures
            r == resolved_direction(self@),
    {
        match self.get_direction() {
            Some(d) => d,
            None => Direction::default(),
        }
    }
}

} // verus!
