//! The ledger of positions: each position under an index that is issued
//! once and never again.

use vstd::prelude::*;
use crate::asset::{Asset, AssetInfo};
use crate::error::MintError;
use crate::msg::OrderBy;
use crate::state::Position;

verus! {

/// Whether some record of `s` has the index `k`.
pub open spec fn has_idx(s: Seq<Position>, k: u128) -> bool {
    exists|i: int| 0 <= i < s.len() && #[trigger] s[i].idx == k
}

/// The place in `s` of the record with the index `k`.
pub open spec fn slot_of(s: Seq<Position>, k: u128) -> int {
    choose|i: int| 0 <= i < s.len() && #[trigger] s[i].idx == k
}

/// The records stand in strictly ascending order of their indices.
pub open spec fn ascending(s: Seq<Position>) -> bool {
    forall|i: int, j: int| 0 <= i < j < s.len() ==> #[trigger] s[i].idx < #[trigger] s[j].idx
}

/// The records of `s`, each under its index.
pub open spec fn records(s: Seq<Position>) -> Map<u128, Position> {
    Map::new(|k: u128| has_idx(s, k), |k: u128| s[slot_of(s, k)])
}

/// In records that stand in ascending order, each record is the one kept
/// under its index.
pub proof fn lemma_record_at(s: Seq<Position>, i: int)
    requires
        ascending(s),
        0 <= i < s.len(),
    ensures
        records(s).contains_key(s[i].idx),
        records(s)[s[i].idx] == s[i],
{
    lemma_slot(s, i);
}

/// In records that stand in ascending order, the place of a record is the
/// place of its index.
proof fn lemma_slot(s: Seq<Position>, i: int)
    requires
        ascending(s),
        0 <= i < s.len(),
    ensures
        has_idx(s, s[i].idx),
        slot_of(s, s[i].idx) == i,
{
    let j = slot_of(s, s[i].idx);
    assert(0 <= j < s.len() && s[j].idx == s[i].idx);
    if j < i {
        assert(s[j].idx < s[i].idx);
    } else if i < j {
        assert(s[i].idx < s[j].idx);
    }
}

/// The positions, each under an index that is issued once and never again.
#[derive(Debug)]
pub struct PositionLedger {
    positions: Vec<Position>,
    next_idx: u128,
}

impl PositionLedger {
    /// The records are in ascending order of index, each is kept under its
    /// own index, and every index in use is below the next one to be issued.
    pub closed spec fn wf(&self) -> bool {
        &&& ascending(self.positions@)
        &&& forall|i: int|
            0 <= i < self.positions@.len() ==> (#[trigger] self.positions@[i]).idx < self.next_idx
        &&& self.next_idx >= 1
    }

    /// The positions by index.
    pub closed spec fn view(&self) -> Map<u128, Position> {
        records(self.positions@)
    }

    /// The index that the next new position gets.
    pub closed spec fn next(&self) -> u128 {
        self.next_idx
    }

    /// Every record is kept under its own index, and no index that is yet to
    /// be issued is in use.
    pub proof fn lemma_indices(&self)
        requires
            self.wf(),
        ensures
            self.next() >= 1,
            forall|k: u128| #[trigger] self@.contains_key(k) ==> self@[k].idx == k && k < self.next(),
    {
        let s = self.positions@;
        assert forall|k: u128| #[trigger] self@.contains_key(k) implies self@[k].idx == k && k
            < self.next() by {
            let i = slot_of(s, k);
            assert(0 <= i < s.len() && s[i].idx == k);
        }
    }

    /// An empty ledger, whose first position gets the index 1.
    pub fn new() -> (r: PositionLedger)
        ensures
            r.wf(),
            r@ == Map::<u128, Position>::empty(),
            r.next() == 1,
    {
        let r = PositionLedger { positions: Vec::new(), next_idx: 1 };
        assert(r@ =~= Map::<u128, Position>::empty());
        r
    }

    /// The index that the next new position gets.
    pub fn read_position_idx(&self) -> (r: u128)
        ensures
            r == self.next(),
    {
        self.next_idx
    }

    /// The place of the record under `idx`, where there is one.
    fn find(&self, idx: u128) -> (r: Option<usize>)
        requires
            self.wf(),
        ensures
            match r {
                Some(i) => i < self.positions@.len() && self.positions@[i as int].idx == idx,
                None => !has_idx(self.positions@, idx),
            },
    {
        let mut i: usize = 0;
        while i < self.positions.len()
            invariant
                i <= self.positions@.len(),
                forall|j: int| 0 <= j < i ==> (#[trigger] self.positions@[j]).idx != idx,
            decreases self.positions@.len() - i,
        {
            if self.positions[i].idx == idx {
                return Some(i);
            }
            i += 1;
        }
        None
    }

    /// The position under `idx`.
    pub fn read_position(&self, idx: u128) -> (r: Result<&Position, MintError>)
        requires
            self.wf(),
        ensures
            match r {
                Ok(p) => self@.contains_key(idx) && *p == self@[idx] && p.idx == idx,
                Err(e) => e == MintError::NotFound && !self@.contains_key(idx),
            },
    {
        match self.find(idx) {
            Some(i) => {
                proof {
                    lemma_slot(self.positions@, i as int);
                }
                Ok(&self.positions[i])
            },
            None => Err(MintError::NotFound),
        }
    }

    /// Puts a new position into the ledger under the next index, which is
    /// then used up. Fails, and changes nothing, where no index is left.
    pub fn create_position(&mut self, owner: String, collateral: Asset, asset: Asset) -> (r: Result<
        u128,
        MintError,
    >)
        requires
            old(self).wf(),
        ensures
            final(self).wf(),
            match r {
                Ok(idx) => {
                    &&& idx == old(self).next()
                    &&& !old(self)@.contains_key(idx)
                    &&& final(self).next() == idx + 1
                    &&& final(self)@ == old(self)@.insert(
                        idx,
                        (Position { idx, owner, collateral, asset }),
                    )
                },
                Err(e) => {
                    &&& e == MintError::Overflow
                    &&& old(self).next() == u128::MAX
                    &&& *final(self) == *old(self)
                },
            },
    {
        if self.next_idx == u128::MAX {
            return Err(MintError::Overflow);
        }
        let idx: u128 = self.next_idx;
        let ghost before = self.positions@;
        let position = Position { idx, owner, collateral, asset };
        self.positions.push(position);
        self.next_idx = idx + 1;
        proof {
            let after = self.positions@;
            let last = before.len() as int;
            assert(after == before.push(position));
            assert(ascending(after));
            assert(!has_idx(before, idx));
            lemma_slot(after, last);
            assert forall|k: u128| has_idx(after, k) <==> (k == idx || has_idx(before, k)) by {
                if has_idx(before, k) {
                    let i = slot_of(before, k);
                    assert(after[i].idx == k);
                }
                if has_idx(after, k) && k != idx {
                    let i = slot_of(after, k);
                    assert(before[i].idx == k);
                }
            }
            assert forall|k: u128| has_idx(before, k) && k != idx implies after[slot_of(after, k)]
                == before[slot_of(before, k)] by {
                let i = slot_of(before, k);
                assert(after[i].idx == k);
                lemma_slot(after, i);
            }
            assert(records(after) =~= records(before).insert(idx, position));
        }
        Ok(idx)
    }

    /// Replaces the position that is kept under the index of `position`.
    /// Fails, and changes nothing, where there is none.
    pub fn store_position(&mut self, position: Position) -> (r: Result<(), MintError>)
        requires
            old(self).wf(),
        ensures
            final(self).wf(),
            final(self).next() == old(self).next(),
            match r {
                Ok(_) => old(self)@.contains_key(position.idx) && final(self)@ == old(self)@.insert(
                    position.idx,
                    position,
                ),
                Err(e) => e == MintError::NotFound && !old(self)@.contains_key(position.idx)
                    && *final(self) == *old(self),
            },
    {
        let idx: u128 = position.idx;
        match self.find(idx) {
            None => Err(MintError::NotFound),
            Some(at) => {
                let ghost before = self.positions@;
                self.positions.set(at, position);
                proof {
                    let after = self.positions@;
                    assert(after == before.update(at as int, position));
                    assert forall|i: int| 0 <= i < after.len() implies (#[trigger] after[i]).idx
                        == before[i].idx by {}
                    assert(ascending(after)) by {
                        assert forall|i: int, j: int| 0 <= i < j < after.len() implies (
                        #[trigger] after[i]).idx < (#[trigger] after[j]).idx by {
                            assert(before[i].idx < before[j].idx);
                        }
                    }
                    lemma_slot(before, at as int);
                    lemma_slot(after, at as int);
                    assert forall|k: u128| has_idx(after, k) <==> has_idx(before, k) by {
                        if has_idx(before, k) {
                            let i = slot_of(before, k);
                            assert(after[i].idx == k);
                        }
                        if has_idx(after, k) {
                            let i = slot_of(after, k);
                            assert(before[i].idx == k);
                        }
                    }
                    assert forall|k: u128| has_idx(before, k) && k != idx implies after[slot_of(
                        after,
                        k,
                    )] == before[slot_of(before, k)] by {
                        let i = slot_of(before, k);
                        assert(after[i].idx == k);
                        lemma_slot(after, i);
                    }
                    assert(records(after) =~= records(before).insert(idx, position));
                }
                Ok(())
            },
        }
    }

    /// Takes the position under `idx` out of the ledger. Its index is not
    /// issued again. Fails, and changes nothing, where there is none.
    pub fn remove_position(&mut self, idx: u128) -> (r: Result<(), MintError>)
        requires
            old(self).wf(),
        ensures
            final(self).wf(),
            final(self).next() == old(self).next(),
            match r {
                Ok(_) => old(self)@.contains_key(idx) && final(self)@ == old(self)@.remove(idx),
                Err(e) => e == MintError::NotFound && !old(self)@.contains_key(idx) && *final(self)
                    == *old(self),
            },
    {
        match self.find(idx) {
            None => Err(MintError::NotFound),
            Some(at) => {
                let ghost before = self.positions@;
                let _ = self.positions.remove(at);
                proof {
                    let after = self.positions@;
                    assert(after == before.remove(at as int));
                    assert forall|i: int| 0 <= i < after.len() implies #[trigger] after[i] == (if i
                        < at {
                        before[i]
                    } else {
                        before[i + 1]
                    }) by {}
                    assert(ascending(after)) by {
                        assert forall|i: int, j: int| 0 <= i < j < after.len() implies (
                        #[trigger] after[i]).idx < (#[trigger] after[j]).idx by {
                            let bi = if i < at { i } else { i + 1 };
                            let bj = if j < at { j } else { j + 1 };
                            assert(before[bi].idx < before[bj].idx);
                        }
                    }
                    lemma_slot(before, at as int);
                    assert(!has_idx(after, idx)) by {
                        if has_idx(after, idx) {
                            let i = slot_of(after, idx);
                            let bi = if i < at { i } else { i + 1 };
                            lemma_slot(before, bi);
                        }
                    }
                    assert forall|k: u128| has_idx(after, k) <==> (has_idx(before, k) && k
                        != idx) by {
                        if has_idx(before, k) && k != idx {
                            let i = slot_of(before, k);
                            let ai = if i < at { i } else { i - 1 };
                            assert(after[ai].idx == k);
                        }
                        if has_idx(after, k) {
                            let i = slot_of(after, k);
                            let bi = if i < at { i } else { i + 1 };
                            assert(before[bi].idx == k);
                        }
                    }
                    assert forall|k: u128| has_idx(after, k) implies after[slot_of(after, k)]
                        == before[slot_of(before, k)] by {
                        let i = slot_of(after, k);
                        let bi = if i < at { i } else { i + 1 };
                        assert(before[bi].idx == k);
                        lemma_slot(before, bi);
                    }
                    assert(records(after) =~= records(before).remove(idx));
                }
                Ok(())
            },
        }
    }
}

/// Whether a listing shows the position: it is of the owner, where one is
/// named, its asset is the token, where one is named, and it lies beyond the
/// cursor, where there is one, in the direction of the listing.
pub open spec fn selected(
    position: Position,
    owner: Option<String>,
    asset_token: Option<String>,
    start_after: Option<u128>,
    order_by: OrderBy,
) -> bool {
    &&& owner matches Some(o) ==> position.owner@ == o@
    &&& asset_token matches Some(t) ==> position.asset.info.same(
        AssetInfo::Token { contract_addr: t },
    )
    &&& start_after matches Some(cursor) ==> (if order_by == OrderBy::Asc {
        position.idx > cursor
    } else {
        position.idx < cursor
    })
}

/// The first `limit` positions of `s[from..]` that `shows` accepts, in the
/// order of `s`.
pub open spec fn page_up(
    s: Seq<Position>,
    shows: spec_fn(Position) -> bool,
    from: int,
    limit: nat,
) -> Seq<Position>
    decreases s.len() - from,
{
    if from < 0 || from >= s.len() || limit == 0 {
        Seq::<Position>::empty()
    } else if shows(s[from]) {
        seq![s[from]] + page_up(s, shows, from + 1, (limit - 1) as nat)
    } else {
        page_up(s, shows, from + 1, limit)
    }
}

/// The last `limit` positions of `s[..until]` that `shows` accepts, in the
/// reverse of the order of `s`.
pub open spec fn page_down(
    s: Seq<Position>,
    shows: spec_fn(Position) -> bool,
    until: int,
    limit: nat,
) -> Seq<Position>
    decreases until,
{
    if until <= 0 || until > s.len() || limit == 0 {
        Seq::<Position>::empty()
    } else if shows(s[until - 1]) {
        seq![s[until - 1]] + page_down(s, shows, until - 1, (limit - 1) as nat)
    } else {
        page_down(s, shows, until - 1, limit)
    }
}

/// One page of a listing of `s`, which is in ascending order of index.
pub open spec fn page(
    s: Seq<Position>,
    owner: Option<String>,
    asset_token: Option<String>,
    start_after: Option<u128>,
    limit: nat,
    order_by: OrderBy,
) -> Seq<Position> {
    let shows = |p: Position| selected(p, owner, asset_token, start_after, order_by);
    if order_by == OrderBy::Asc {
        page_up(s, shows, 0, limit)
    } else {
        page_down(s, shows, s.len() as int, limit)
    }
}

/// Tests whether a listing shows the position.
fn is_selected(
    position: &Position,
    owner: &Option<String>,
    asset_token: &Option<String>,
    start_after: Option<u128>,
    order_by: OrderBy,
) -> (r: bool)
    ensures
        r == selected(*position, *owner, *asset_token, start_after, order_by),
{
    let of_owner = match owner {
        Some(o) => position.owner == *o,
        None => true,
    };
    let of_asset = match asset_token {
        Some(t) => match &position.asset.info {
            AssetInfo::Token { contract_addr } => *contract_addr == *t,
            AssetInfo::NativeToken { .. } => false,
        },
        None => true,
    };
    let beyond = match start_after {
        Some(cursor) => match order_by {
            OrderBy::Asc => position.idx > cursor,
            OrderBy::Desc => position.idx < cursor,
        },
        None => true,
    };
    of_owner && of_asset && beyond
}

impl PositionLedger {
    /// The positions in ascending order of index.
    pub closed spec fn ordered(&self) -> Seq<Position> {
        self.positions@
    }

    /// The listing holds the ledger's positions, each once, in strictly
    /// ascending order of index.
    pub proof fn lemma_ordered(&self)
        requires
            self.wf(),
        ensures
            ascending(self.ordered()),
            self@ == records(self.ordered()),
    {
    }

    /// One page of the positions: those of `owner`, where one is named,
    /// whose asset is `asset_token`, where one is named, beyond the cursor
    /// `start_after`, where there is one; at most `limit` of them, by
    /// ascending or descending index.
    pub fn read_positions(
        &self,
        owner: &Option<String>,
        asset_token: &Option<String>,
        start_after: Option<u128>,
        limit: usize,
        order_by: OrderBy,
    ) -> (r: Vec<Position>)
        ensures
            r@ == page(self.ordered(), *owner, *asset_token, start_after, limit as nat, order_by),
    {
        let ghost s = self.positions@;
        let ghost shows = |p: Position| selected(p, *owner, *asset_token, start_after, order_by);
        let mut out: Vec<Position> = Vec::new();
        match order_by {
            OrderBy::Asc => {
                let mut i: usize = 0;
                while i < self.positions.len() && out.len() < limit
                    invariant
                        s == self.positions@,
                        i <= s.len(),
                        out@.len() <= limit,
                        shows == (|p: Position|
                            selected(p, *owner, *asset_token, start_after, order_by)),
                        out@ + page_up(s, shows, i as int, (limit - out@.len()) as nat) == page_up(
                            s,
                            shows,
                            0,
                            limit as nat,
                        ),
                    decreases s.len() - i,
                {
                    let ghost before = out@;
                    let ghost rest = page_up(s, shows, i as int + 1, (limit - out@.len() - 1) as nat);
                    if is_selected(&self.positions[i], owner, asset_token, start_after, order_by) {
                        assert(shows(s[i as int]));
                        out.push(self.positions[i].clone());
                        assert(out@ + rest =~= before + (seq![s[i as int]] + rest));
                    } else {
                        assert(!shows(s[i as int]));
                    }
                    i += 1;
                }
                assert(out@ + Seq::<Position>::empty() =~= out@);
            },
            OrderBy::Desc => {
                let mut i: usize = self.positions.len();
                while i > 0 && out.len() < limit
                    invariant
                        s == self.positions@,
                        i <= s.len(),
                        out@.len() <= limit,
                        shows == (|p: Position|
                            selected(p, *owner, *asset_token, start_after, order_by)),
                        out@ + page_down(s, shows, i as int, (limit - out@.len()) as nat)
                            == page_down(s, shows, s.len() as int, limit as nat),
                    decreases i,
                {
                    let ghost before = out@;
                    let ghost rest = page_down(
                        s,
                        shows,
                        i as int - 1,
                        (limit - out@.len() - 1) as nat,
                    );
                    i -= 1;
                    if is_selected(&self.positions[i], owner, asset_token, start_after, order_by) {
                        assert(shows(s[i as int]));
                        out.push(self.positions[i].clone());
                        assert(out@ + rest =~= before + (seq![s[i as int]] + rest));
                    } else {
                        assert(!shows(s[i as int]));
                    }
                }
                assert(out@ + Seq::<Position>::empty() =~= out@);
            },
        }
        out
    }
}


/// Records and a counter make up a ledger where the records stand in
/// strictly ascending order of index and the counter, which is at least 1,
/// is above every index.
pub open spec fn makes_ledger(positions: Seq<Position>, next_idx: u128) -> bool {
    &&& ascending(positions)
    &&& forall|i: int| 0 <= i < positions.len() ==> (#[trigger] positions[i]).idx < next_idx
    &&& next_idx >= 1
}

impl PositionLedger {
    /// The ledger that holds the given records and issues `next_idx` as its
    /// next index. Fails where they do not make up a ledger.
    pub fn restore(positions: Vec<Position>, next_idx: u128) -> (r: Result<
        PositionLedger,
        MintError,
    >)
        ensures
            match r {
                Ok(ledger) => {
                    &&& makes_ledger(positions@, next_idx)
                    &&& ledger.wf()
                    &&& ledger.ordered() == positions@
                    &&& ledger@ == records(positions@)
                    &&& ledger.next() == next_idx
                },
                Err(e) => e == MintError::InvalidLedger && !makes_ledger(positions@, next_idx),
            },
    {
        if next_idx < 1 {
            return Err(MintError::InvalidLedger);
        }
        let mut i: usize = 0;
        while i < positions.len()
            invariant
                i <= positions@.len(),
                forall|a: int, b: int|
                    0 <= a < b < i ==> (#[trigger] positions@[a]).idx < (
                    #[trigger] positions@[b]).idx,
                forall|a: int| 0 <= a < i ==> (#[trigger] positions@[a]).idx < next_idx,
            decreases positions@.len() - i,
        {
            if positions[i].idx >= next_idx {
                return Err(MintError::InvalidLedger);
            }
            if i > 0 && positions[i - 1].idx >= positions[i].idx {
                assert(!(positions@[i - 1].idx < positions@[i as int].idx));
                return Err(MintError::InvalidLedger);
            }
            assert forall|a: int, b: int| 0 <= a < b < i + 1 implies (#[trigger] positions@[a]).idx
                < (#[trigger] positions@[b]).idx by {
                if b == i && a < i - 1 {
                    assert(positions@[a].idx < positions@[i - 1].idx);
                }
            }
            i += 1;
        }
        Ok(PositionLedger { positions, next_idx })
    }
}

} // verus!
