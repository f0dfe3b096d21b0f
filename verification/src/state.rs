//! The durable snapshot: the risk state and the book of open positions.

use vstd::prelude::*;
use crate::position::{Position, PositionView};
use crate::risk::{BotMode, RiskParams, RiskState, RiskView};

verus! {

/// The schema version that this library writes and reads.
pub const SNAPSHOT_VERSION: u32 = 1;

#[derive(Debug, Clone)]
pub struct PersistedState {
    pub version: u32,
    /// A copy of `risk.mode`, kept for readers of the snapshot. `risk.mode` is
    /// the source of truth.
    pub mode: BotMode,
    pub risk: RiskState,
    /// Open positions, oldest first.
    pub positions: Vec<Position>,
}

/// The snapshot as mathematics.
pub struct SnapshotView {
    pub version: int,
    pub mode: BotMode,
    pub risk: RiskView,
    pub positions: Seq<PositionView>,
}

/// The positions of a book, each as mathematics.
pub open spec fn book_view(positions: Seq<Position>) -> Seq<PositionView> {
    Seq::new(positions.len(), |i: int| positions[i]@)
}

impl View for PersistedState {
    type V = SnapshotView;

    open spec fn view(&self) -> SnapshotView {
        SnapshotView {
            version: self.version as int,
            mode: self.mode,
            risk: self.risk@,
            positions: book_view(self.positions@),
        }
    }
}

/// No two positions of the book share an identity.
pub open spec fn ids_unique(book: Seq<PositionView>) -> bool {
    forall|i: int, j: int| 0 <= i < j < book.len() ==> book[i].id != book[j].id
}

/// Some position of the book has the identity `id`.
pub open spec fn holds_id(book: Seq<PositionView>, id: Seq<char>) -> bool {
    exists|i: int| 0 <= i < book.len() && book[i].id == id
}

/// Every position of the book has its peak at or above its entry.
pub open spec fn all_valid(book: Seq<PositionView>) -> bool {
    forall|i: int| 0 <= i < book.len() ==> (#[trigger] book[i]).is_valid()
}

impl SnapshotView {
    /// What holds of every snapshot that this library hands to the store.
    pub open spec fn is_consistent(self) -> bool {
        &&& self.version == SNAPSHOT_VERSION
        &&& self.mode == self.risk.mode
        &&& ids_unique(self.positions)
        &&& all_valid(self.positions)
    }
}

/// What `validate` answers: the schema version is looked at first, then the
/// peaks, then the identities.
pub open spec fn validation_outcome(snapshot: SnapshotView) -> Result<(), SnapshotError> {
    if snapshot.version != SNAPSHOT_VERSION {
        Err(SnapshotError::UnsupportedVersion)
    } else if !all_valid(snapshot.positions) {
        Err(SnapshotError::PeakBelowEntry)
    } else if !ids_unique(snapshot.positions) {
        Err(SnapshotError::DuplicatePosition)
    } else {
        Ok(())
    }
}

/// What `open_position` answers: the governor is asked first, then the book
/// is searched for the identity, then the position itself is looked at.
pub open spec fn open_outcome(snapshot: SnapshotView, params: RiskParams, position: PositionView)
    -> Result<(), OpenError> {
    if !(snapshot.risk.mode == BotMode::Trading && snapshot.positions.len()
        < params.max_open_positions) {
        Err(OpenError::NotAllowed)
    } else if holds_id(snapshot.positions, position.id) {
        Err(OpenError::DuplicatePosition)
    } else if !position.is_valid() {
        Err(OpenError::PeakBelowEntry)
    } else {
        Ok(())
    }
}

/// A position with its peak at its entry where the peak lay below it.
pub open spec fn peak_raised(position: PositionView) -> PositionView {
    if position.peak_price < position.entry_price {
        PositionView { peak_price: position.entry_price, ..position }
    } else {
        position
    }
}

/// The book with every peak that lay below its entry raised to the entry.
pub open spec fn peaks_raised(book: Seq<PositionView>) -> Seq<PositionView> {
    Seq::new(book.len(), |i: int| peak_raised(book[i]))
}

/// Why a snapshot read from the store cannot be used.
#[derive(Debug, Clone, Copy, PartialEq, Eq, Structural)]
pub enum SnapshotError {
    /// The snapshot was written under another schema.
    UnsupportedVersion,
    /// Two positions share an identity.
    DuplicatePosition,
    /// A position has its peak below its entry.
    PeakBelowEntry,
}

/// Why a position was not added to the book.
#[derive(Debug, Clone, Copy, PartialEq, Eq, Structural)]
pub enum OpenError {
    /// The mode is not `Trading`, or the book is full.
    NotAllowed,
    /// The book already holds a position of that identity.
    DuplicatePosition,
    /// The position's peak is below its entry.
    PeakBelowEntry,
}

impl PersistedState {
    /// A snapshot of the given risk state with no open position.
    pub fn new(risk: RiskState) -> (state: Self)
        ensures
            state.risk == risk,
            state@ == (SnapshotView {
                version: SNAPSHOT_VERSION as int,
                mode: risk.mode,
                risk: risk@,
                positions: Seq::empty(),
            }),
            state@.is_consistent(),
    {
        let state = PersistedState {
            version: SNAPSHOT_VERSION,
            mode: risk.mode,
            risk,
            positions: Vec::new(),
        };
        assert(book_view(state.positions@) =~= Seq::empty());
        state
    }

    /// Brings the copied `mode` back in line with `risk.mode`.
    pub fn sync_mode_from_risk(&mut self)
        ensures
            final(self)@ == (SnapshotView { mode: old(self).risk.mode, ..old(self)@ }),
            final(self).mode == final(self).risk.mode,
    {
        self.mode = self.risk.mode;
    }

    /// The index of the first position of identity `id`, if the book holds
    /// one.
    pub fn find_position(&self, id: &String) -> (found: Option<usize>)
        ensures
            found is Some <==> holds_id(self@.positions, id@),
            found matches Some(i) ==> i < self.positions.len() && self@.positions[i as int].id
                == id@ && forall|j: int| 0 <= j < i ==> self@.positions[j].id != id@,
    {
        let mut i: usize = 0;
        while i < self.positions.len()
            invariant
                i <= self.positions.len(),
                forall|j: int| 0 <= j < i ==> self@.positions[j].id != id@,
            decreases self.positions.len() - i,
        {
            if self.positions[i].id == *id {
                assert(self@.positions[i as int].id == id@);
                return Some(i);
            }
            i += 1;
        }
        None
    }

    /// Whether the risk governor lets a position be added to this book.
    pub fn can_open(&self, params: &RiskParams) -> (allowed: bool)
        ensures
            allowed == (self.risk.mode == BotMode::Trading && self.positions.len()
                < params.max_open_positions),
    {
        self.risk.can_open_new_position(params, self.positions.len())
    }

    /// Adds a newly entered position at the end of the book, where the
    /// governor allows it and the book stays well formed.
    pub fn open_position(&mut self, params: &RiskParams, position: Position) -> (outcome: Result<
        (),
        OpenError,
    >)
        ensures
            outcome == open_outcome(old(self)@, *params, position@),
            outcome is Ok ==> final(self)@ == (SnapshotView {
                positions: old(self)@.positions.push(position@),
                ..old(self)@
            }),
            outcome is Err ==> final(self)@ == old(self)@,
            old(self)@.is_consistent() ==> final(self)@.is_consistent(),
    {
        if !self.can_open(params) {
            return Err(OpenError::NotAllowed);
        }
        if self.find_position(&position.id).is_some() {
            return Err(OpenError::DuplicatePosition);
        }
        if position.peak_price < position.entry_price {
            return Err(OpenError::PeakBelowEntry);
        }
        let ghost before = self@.positions;
        self.positions.push(position);
        assert(self@.positions =~= before.push(position@));
        Ok(())
    }

    /// Mends a book read from the store: a peak that lies below its entry is
    /// raised to the entry, which is the lowest peak that the position can
    /// have seen. Nothing else changes. Says whether anything was raised.
    pub fn raise_peaks(&mut self) -> (raised: bool)
        ensures
            final(self)@ == (SnapshotView {
                positions: peaks_raised(old(self)@.positions),
                ..old(self)@
            }),
            all_valid(final(self)@.positions),
            raised == !all_valid(old(self)@.positions),
            ids_unique(old(self)@.positions) ==> ids_unique(final(self)@.positions),
    {
        let ghost before = self@;
        let n = self.positions.len();
        let mut raised = false;
        let mut i: usize = 0;
        while i < n
            invariant
                n == self.positions.len(),
                n == before.positions.len(),
                i <= n,
                self@ == (SnapshotView { positions: self@.positions, ..before }),
                forall|k: int| 0 <= k < i ==> self@.positions[k] == peak_raised(before.positions[k]),
                forall|k: int| i <= k < n ==> self@.positions[k] == before.positions[k],
                raised == exists|k: int| 0 <= k < i && !(#[trigger] before.positions[k]).is_valid(),
            decreases n - i,
        {
            let ghost held = self@.positions;
            if self.positions[i].peak_price < self.positions[i].entry_price {
                let entry = self.positions[i].entry_price;
                let mut position = self.positions.remove(i);
                position.peak_price = entry;
                self.positions.insert(i, position);
                raised = true;
                assert(!before.positions[i as int].is_valid());
                assert(self@.positions =~= held.update(i as int, peak_raised(held[i as int])));
            } else {
                assert(before.positions[i as int].is_valid());
            }
            i += 1;
        }
        assert(self@.positions =~= peaks_raised(before.positions));
        assert(all_valid(self@.positions)) by {
            assert forall|k: int| 0 <= k < n implies (#[trigger] self@.positions[k]).is_valid() by {
                assert(self@.positions[k] == peak_raised(before.positions[k]));
            }
        }
        assert(raised == !all_valid(before.positions)) by {
            if !all_valid(before.positions) {
                let k = choose|k: int|
                    0 <= k < before.positions.len() && !(#[trigger] before.positions[k]).is_valid();
                assert(0 <= k < i && !before.positions[k].is_valid());
            }
        }
        raised
    }

    /// Checks a snapshot read from the store before it is acted on.
    pub fn validate(&self) -> (outcome: Result<(), SnapshotError>)
        ensures
            outcome == validation_outcome(self@),
            outcome is Ok ==> (SnapshotView { mode: self@.risk.mode, ..self@ }).is_consistent(),
    {
        if self.version != SNAPSHOT_VERSION {
            return Err(SnapshotError::UnsupportedVersion);
        }
        let n = self.positions.len();
        let mut i: usize = 0;
        while i < n
            invariant
                n == self.positions.len(),
                self.version == SNAPSHOT_VERSION,
                i <= n,
                forall|k: int| 0 <= k < i ==> (#[trigger] self@.positions[k]).is_valid(),
            decreases n - i,
        {
            if self.positions[i].peak_price < self.positions[i].entry_price {
                assert(!self@.positions[i as int].is_valid());
                assert(!all_valid(self@.positions));
                return Err(SnapshotError::PeakBelowEntry);
            }
            i += 1;
        }
        assert(all_valid(self@.positions));
        let mut i: usize = 0;
        while i < n
            invariant
                n == self.positions.len(),
                self.version == SNAPSHOT_VERSION,
                i <= n,
                all_valid(self@.positions),
                forall|a: int, b: int| 0 <= a < b < n && a < i ==> self@.positions[a].id
                    != self@.positions[b].id,
            decreases n - i,
        {
            let mut j: usize = i + 1;
            while j < n
                invariant
                    n == self.positions.len(),
                    self.version == SNAPSHOT_VERSION,
                    i < j <= n,
                    all_valid(self@.positions),
                    forall|b: int| i < b < j ==> self@.positions[i as int].id
                        != self@.positions[b].id,
                decreases n - j,
            {
                if self.positions[i].id == self.positions[j].id {
                    assert(self@.positions[i as int].id == self@.positions[j as int].id);
                    assert(!ids_unique(self@.positions));
                    return Err(SnapshotError::DuplicatePosition);
                }
                j += 1;
            }
            i += 1;
        }
        Ok(())
    }
}

/// Where the snapshot is kept.
pub struct StateStore {
    path: String,
}

impl StateStore {
    /// The path of the snapshot.
    pub closed spec fn spec_path(&self) -> Seq<char> {
        self.path@
    }

    pub fn new(path: &str) -> (store: Self)
        ensures
            store.spec_path() == path@,
    {
        StateStore { path: path.to_owned() }
    }

    /// The path of the snapshot.
    pub fn path(&self) -> (path: &String)
        ensures
            path@ == self.spec_path(),
    {
        &self.path
    }

    /// The path that a new snapshot is written to before it replaces the old
    /// one, so that a reader never finds a half-written snapshot: the
    /// snapshot's path followed by `.tmp`.
    pub fn temp_path(&self) -> (path: String)
        ensures
            path@ == self.spec_path() + ".tmp"@,
    {
        let mut path = self.path.clone();
        path.append(".tmp");
        path
    }
}

} // verus!
