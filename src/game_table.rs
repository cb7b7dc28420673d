use vstd::prelude::*;

verus! {

/// Number of client slots in the shared instance table.
pub const GAME_INSTANCE_COUNT: usize = 8;

/// Size in bytes of one slot as the BWAPI library lays it out: a `u32`
/// process id at offset 0, a one-byte flag at offset 4 followed by padding,
/// and a `u32` keep-alive time at offset 8.
pub const GAME_INSTANCE_SIZE: usize = 12;

/// Size in bytes of the whole shared instance table.
pub const GAME_TABLE_SIZE: usize = 96;

/// One slot of the shared instance table, written only by the BWAPI library.
#[derive(Clone, Copy, Debug, PartialEq, Eq, Structural)]
pub struct GameInstance {
    pub server_process_id: u32,
    pub is_connected: bool,
    pub last_keep_alive_time: u32,
}

/// The eight slots of the shared instance table.
#[derive(Clone, Copy, Debug)]
pub struct GameTable {
    pub game_instances: [GameInstance; 8],
}

impl GameInstance {
    /// A client process exists for the slot but has not attached yet: the
    /// only state in which a launcher may claim the slot.
    pub open spec fn is_reserved(self) -> bool {
        self.server_process_id != 0 && !self.is_connected
    }
}

/// Number of reserved slots among `s`.
pub open spec fn count_reserved(s: Seq<GameInstance>) -> nat
    decreases s.len(),
{
    if s.len() == 0 {
        0
    } else {
        count_reserved(s.drop_last()) + if s.last().is_reserved() {
            1nat
        } else {
            0nat
        }
    }
}

impl GameTable {
    /// Some slot of the table is reserved.
    pub open spec fn has_reserved(self) -> bool {
        exists|i: int| 0 <= i < 8 && (#[trigger] self.game_instances@[i]).is_reserved()
    }

    /// Whether some slot of the table is reserved.
    pub fn any_reserved(&self) -> (r: bool)
        ensures
            r == self.has_reserved(),
    {
        let mut i: usize = 0;
        while i < GAME_INSTANCE_COUNT
            invariant
                i <= 8,
                forall|j: int| 0 <= j < i ==> !(#[trigger] self.game_instances@[j]).is_reserved(),
            decreases 8 - i,
        {
            let g = self.game_instances[i];
            if g.server_process_id != 0 && !g.is_connected {
                return true;
            }
            i = i + 1;
        }
        false
    }
}

/// Little-endian `u32` held by four bytes.
pub open spec fn le_u32(b0: u8, b1: u8, b2: u8, b3: u8) -> int {
    b0 as int + 256 * (b1 as int) + 65536 * (b2 as int) + 16777216 * (b3 as int)
}

/// The slot laid out at byte offset `at` of `bytes`.
pub open spec fn instance_at(bytes: Seq<u8>, at: int) -> GameInstance {
    GameInstance {
        server_process_id: le_u32(bytes[at], bytes[at + 1], bytes[at + 2], bytes[at + 3]) as u32,
        is_connected: bytes[at + 4] != 0,
        last_keep_alive_time: le_u32(bytes[at + 8], bytes[at + 9], bytes[at + 10], bytes[at + 11])
            as u32,
    }
}

/// The table that a byte image of the shared segment holds, slot `i` at
/// offset `12 * i`.
pub open spec fn table_of_bytes(bytes: Seq<u8>) -> Seq<GameInstance> {
    Seq::new(8, |i: int| instance_at(bytes, 12 * i))
}

fn read_u32_le(bytes: &[u8], at: usize) -> (r: u32)
    requires
        at + 4 <= bytes@.len(),
    ensures
        r as int == le_u32(bytes@[at as int], bytes@[at + 1], bytes@[at + 2], bytes@[at + 3]),
{
    let b0 = bytes[at] as u32;
    let b1 = bytes[at + 1] as u32;
    let b2 = bytes[at + 2] as u32;
    let b3 = bytes[at + 3] as u32;
    assert(b0 + 256 * b1 + 65536 * b2 + 16777216 * b3 <= 0xFFFF_FFFF) by (nonlinear_arith)
        requires
            b0 <= 255,
            b1 <= 255,
            b2 <= 255,
            b3 <= 255,
    ;
    b0 + 256 * b1 + 65536 * b2 + 16777216 * b3
}

fn read_instance(bytes: &[u8], at: usize) -> (r: GameInstance)
    requires
        at + GAME_INSTANCE_SIZE <= bytes@.len(),
    ensures
        r == instance_at(bytes@, at as int),
{
    let len = bytes.len();
    assert(at + 8 <= len);
    let pid = read_u32_le(bytes, at);
    let keep_alive = read_u32_le(bytes, at + 8);
    GameInstance {
        server_process_id: pid,
        is_connected: bytes[at + 4] != 0,
        last_keep_alive_time: keep_alive,
    }
}

impl GameTable {
    /// Decodes a byte image of the shared segment; `None` unless it is exactly
    /// the size of the table.
    pub fn from_bytes(bytes: &[u8]) -> (r: Option<GameTable>)
        ensures
            bytes@.len() == GAME_TABLE_SIZE <==> r is Some,
            r matches Some(t) ==> t.game_instances@ == table_of_bytes(bytes@),
    {
        if bytes.len() != GAME_TABLE_SIZE {
            return None;
        }
        let table = GameTable {
            game_instances: [
                read_instance(bytes, 0),
                read_instance(bytes, 12),
                read_instance(bytes, 24),
                read_instance(bytes, 36),
                read_instance(bytes, 48),
                read_instance(bytes, 60),
                read_instance(bytes, 72),
                read_instance(bytes, 84),
            ],
        };
        assert(table.game_instances@ =~= table_of_bytes(bytes@));
        Some(table)
    }
}

/// Read-only view of the shared instance table: the last snapshot taken of
/// it, or nothing while the segment could not be read.
pub struct GameTableAccess {
    game_table: Option<GameTable>,
}

impl GameTableAccess {
    /// The snapshot held, if any.
    pub closed spec fn snapshot(&self) -> Option<GameTable> {
        self.game_table
    }

    /// Some slot can be claimed: the table is readable and a slot is reserved.
    pub open spec fn spec_has_free_slot(&self) -> bool {
        self.snapshot() matches Some(t) && t.has_reserved()
    }

    /// Every slot is settled: the table is readable and no slot is reserved.
    pub open spec fn spec_all_slots_filled(&self) -> bool {
        self.snapshot() matches Some(t) && !t.has_reserved()
    }

    /// An access that has not read the segment yet.
    pub fn new() -> (r: Self)
        ensures
            r.snapshot() is None,
    {
        GameTableAccess { game_table: None }
    }

    /// Records what was read from the shared segment: `None` when it could
    /// not be opened, else its byte image.
    pub fn record(&mut self, image: Option<&[u8]>)
        ensures
            image is None ==> final(self).snapshot() is None,
            image matches Some(bytes) ==> (final(self).snapshot() is Some <==> bytes@.len()
                == GAME_TABLE_SIZE),
            image matches Some(bytes) ==> (final(self).snapshot() matches Some(t)
                ==> t.game_instances@ == table_of_bytes(bytes@)),
    {
        self.game_table = match image {
            Some(bytes) => GameTable::from_bytes(bytes),
            None => None,
        };
    }

    /// A copy of the last snapshot taken of the table.
    pub fn get_game_table(&self) -> (r: Option<GameTable>)
        ensures
            r == self.snapshot(),
    {
        self.game_table
    }

    /// True when the table is readable and no slot is reserved; false when it
    /// cannot be read.
    pub fn all_slots_filled(&self) -> (r: bool)
        ensures
            r == self.spec_all_slots_filled(),
    {
        match &self.game_table {
            Some(table) => !table.any_reserved(),
            None => false,
        }
    }

    /// True when the table is readable and some slot is reserved; false when
    /// it cannot be read.
    pub fn has_free_slot(&self) -> (r: bool)
        ensures
            r == self.spec_has_free_slot(),
    {
        match &self.game_table {
            Some(table) => table.any_reserved(),
            None => false,
        }
    }
}

/// Some slot of `s` is reserved exactly when the number of reserved slots is
/// positive.
pub proof fn lemma_count_reserved_positive(s: Seq<GameInstance>)
    ensures
        count_reserved(s) > 0 <==> exists|i: int| 0 <= i < s.len() && (#[trigger] s[i]).is_reserved(),
    decreases s.len(),
{
    if s.len() > 0 {
        let init = s.drop_last();
        lemma_count_reserved_positive(init);
        if count_reserved(init) > 0 {
            let i = choose|i: int| 0 <= i < init.len() && (#[trigger] init[i]).is_reserved();
            assert(s[i] == init[i]);
        }
        if exists|i: int| 0 <= i < s.len() && (#[trigger] s[i]).is_reserved() {
            let i = choose|i: int| 0 <= i < s.len() && (#[trigger] s[i]).is_reserved();
            if i < s.len() - 1 {
                assert(init[i] == s[i]);
            }
        }
    }
}

/// For a readable table with exactly `k` reserved slots, a free slot is
/// reported exactly when `k > 0`, and all slots are reported filled exactly
/// when `k == 0`.
pub proof fn lemma_free_slots_follow_count(access: GameTableAccess)
    requires
        access.snapshot() is Some,
    ensures
        access.spec_has_free_slot() == (count_reserved(access.snapshot()->0.game_instances@) > 0),
        access.spec_all_slots_filled() == (count_reserved(access.snapshot()->0.game_instances@)
            == 0),
{
    let t = access.snapshot()->0;
    lemma_count_reserved_positive(t.game_instances@);
    assert(t.game_instances@.len() == 8);
}

/// While the table cannot be read, neither a free slot nor a full table is
/// reported.
pub proof fn lemma_unreadable_table_claims_nothing(access: GameTableAccess)
    requires
        access.snapshot() is None,
    ensures
        !access.spec_has_free_slot(),
        !access.spec_all_slots_filled(),
{
}

/// A free slot and a full table are never reported together.
pub proof fn lemma_never_free_and_filled(access: GameTableAccess)
    ensures
        !(access.spec_has_free_slot() && access.spec_all_slots_filled()),
{
}

} // verus!
