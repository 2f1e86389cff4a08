use crate::block::BlockType;
use crate::fault::ParseError;
use vstd::prelude::*;

verus! {

/// How far a run, or one block of it, has come. `Succeeded` and `Errored`
/// are terminal.
#[derive(Clone, Copy, Debug, PartialEq, Eq, Structural)]
pub enum Status {
    Running,
    Succeeded,
    Errored,
}

impl Status {
    /// The token that stands for a status.
    pub open spec fn rendered(self) -> Seq<char> {
        match self {
            Status::Running => "running"@,
            Status::Succeeded => "succeeded"@,
            Status::Errored => "errored"@,
        }
    }

    /// The status that a token stands for, if any.
    pub open spec fn parsed(token: Seq<char>) -> Option<Status> {
        if token == "running"@ {
            Some(Status::Running)
        } else if token == "succeeded"@ {
            Some(Status::Succeeded)
        } else if token == "errored"@ {
            Some(Status::Errored)
        } else {
            None
        }
    }

    /// Renders the status; the rendering always succeeds.
    pub fn to_string(&self) -> (r: String)
        ensures
            r@ == self.rendered(),
    {
        match self {
            Status::Running => "running".to_owned(),
            Status::Succeeded => "succeeded".to_owned(),
            Status::Errored => "errored".to_owned(),
        }
    }

    /// Reads a status from its token. Any other text is a fault, never a
    /// default.
    pub fn from_str(s: &str) -> (r: Result<Status, ParseError>)
        ensures
            match r {
                Ok(status) => Status::parsed(s@) == Some(status),
                Err(e) => Status::parsed(s@) is None && e@ == "Unknown Status"@,
            },
    {
        let token = s.to_owned();
        if token == "running".to_owned() {
            Ok(Status::Running)
        } else if token == "succeeded".to_owned() {
            Ok(Status::Succeeded)
        } else if token == "errored".to_owned() {
            Ok(Status::Errored)
        } else {
            Err(ParseError::with_message("Unknown Status"))
        }
    }
}

impl std::str::FromStr for Status {
    type Err = ParseError;

    fn from_str(s: &str) -> (r: Result<Status, ParseError>)
        ensures
            match r {
                Ok(status) => Status::parsed(s@) == Some(status),
                Err(e) => Status::parsed(s@) is None && e@ == "Unknown Status"@,
            },
    {
        Status::from_str(s)
    }
}

/// Rendering a status and reading the token back gives the status again.
pub proof fn status_token_round_trip(status: Status)
    ensures
        Status::parsed(status.rendered()) == Some(status),
{
    reveal_strlit("running");
    reveal_strlit("succeeded");
    reveal_strlit("errored");
    assert("running"@.len() == 7);
    assert("succeeded"@.len() == 9);
    assert("errored"@.len() == 7);
    assert("running"@[0] == 'r');
    assert("errored"@[0] == 'e');
}

/// The aggregate of one block of a run: where it stands and how many of its
/// executions succeeded and failed. The pair of type and name is its key.
#[derive(Debug, PartialEq)]
pub struct BlockStatus {
    pub block_type: BlockType,
    pub name: String,
    pub status: Status,
    pub success_count: usize,
    pub error_count: usize,
}

/// What a [`BlockStatus`] holds, as a mathematical value.
pub ghost struct BlockStatusView {
    pub block_type: BlockType,
    pub name: Seq<char>,
    pub status: Status,
    pub success_count: usize,
    pub error_count: usize,
}

impl View for BlockStatus {
    type V = BlockStatusView;

    open spec fn view(&self) -> BlockStatusView {
        BlockStatusView {
            block_type: self.block_type,
            name: self.name@,
            status: self.status,
            success_count: self.success_count,
            error_count: self.error_count,
        }
    }
}

impl Clone for BlockStatus {
    fn clone(&self) -> (r: Self)
        ensures
            r@ == self@,
    {
        BlockStatus {
            block_type: self.block_type,
            name: self.name.clone(),
            status: self.status,
            success_count: self.success_count,
            error_count: self.error_count,
        }
    }
}

/// Whether an entry is the one of the block `name` of type `block_type`.
pub open spec fn has_key(entry: BlockStatusView, block_type: BlockType, name: Seq<char>) -> bool {
    entry.block_type == block_type && entry.name == name
}

/// The place of the first entry of a ledger with the given key, if any.
pub open spec fn position(blocks: Seq<BlockStatusView>, block_type: BlockType, name: Seq<char>) -> Option<int>
    decreases blocks.len(),
{
    if blocks.len() == 0 {
        None
    } else if has_key(blocks[0], block_type, name) {
        Some(0)
    } else {
        match position(blocks.drop_first(), block_type, name) {
            Some(i) => Some(i + 1),
            None => None,
        }
    }
}

/// A ledger after an entry is recorded in it: the entry takes the place of
/// the one with its key, or the end of the ledger where there is none.
pub open spec fn upserted(blocks: Seq<BlockStatusView>, entry: BlockStatusView) -> Seq<BlockStatusView> {
    match position(blocks, entry.block_type, entry.name) {
        Some(i) => blocks.update(i, entry),
        None => blocks.push(entry),
    }
}

/// No two entries of a ledger have the same key.
pub open spec fn keys_unique(blocks: Seq<BlockStatusView>) -> bool {
    forall|i: int, j: int|
        0 <= i < j < blocks.len() ==> !has_key(
            #[trigger] blocks[i],
            (#[trigger] blocks[j]).block_type,
            blocks[j].name,
        )
}

/// `position` gives the first entry with the key, and nothing only where no
/// entry has it.
pub proof fn position_is_first(blocks: Seq<BlockStatusView>, block_type: BlockType, name: Seq<char>)
    ensures
        match position(blocks, block_type, name) {
            Some(i) => 0 <= i < blocks.len() && has_key(blocks[i], block_type, name) && forall|j: int|
                0 <= j < i ==> !has_key(#[trigger] blocks[j], block_type, name),
            None => forall|j: int| 0 <= j < blocks.len() ==> !has_key(#[trigger] blocks[j], block_type, name),
        },
    decreases blocks.len(),
{
    if blocks.len() > 0 && !has_key(blocks[0], block_type, name) {
        let rest = blocks.drop_first();
        position_is_first(rest, block_type, name);
        match position(rest, block_type, name) {
            Some(i) => {
                assert forall|j: int| 0 <= j < i + 1 implies !has_key(#[trigger] blocks[j], block_type, name) by {
                    if j > 0 {
                        assert(blocks[j] == rest[j - 1]);
                    }
                }
            },
            None => {
                assert forall|j: int| 0 <= j < blocks.len() implies !has_key(
                    #[trigger] blocks[j],
                    block_type,
                    name,
                ) by {
                    if j > 0 {
                        assert(blocks[j] == rest[j - 1]);
                    }
                }
            },
        }
    }
}

/// Where no entry before `i` has the key, `position` is `i` if the entry at
/// `i` has it, and nothing if `i` is the end of the ledger.
pub proof fn position_at(blocks: Seq<BlockStatusView>, block_type: BlockType, name: Seq<char>, i: int)
    requires
        0 <= i <= blocks.len(),
        forall|j: int| 0 <= j < i ==> !has_key(#[trigger] blocks[j], block_type, name),
    ensures
        i < blocks.len() && has_key(blocks[i], block_type, name) ==> position(blocks, block_type, name) == Some(i),
        i == blocks.len() ==> position(blocks, block_type, name) is None,
    decreases blocks.len(),
{
    if blocks.len() > 0 && i > 0 {
        let rest = blocks.drop_first();
        assert(!has_key(blocks[0], block_type, name));
        assert forall|j: int| 0 <= j < i - 1 implies !has_key(#[trigger] rest[j], block_type, name) by {
            assert(rest[j] == blocks[j + 1]);
        }
        position_at(rest, block_type, name, i - 1);
    }
}

/// The status of a run: that of the run as a whole, and the ledger of its
/// blocks in the order in which they were first recorded.
#[derive(Debug, PartialEq)]
pub struct RunStatus {
    run: Status,
    blocks: Vec<BlockStatus>,
}

/// What a [`RunStatus`] holds, as a mathematical value.
pub ghost struct RunStatusView {
    pub run: Status,
    pub blocks: Seq<BlockStatusView>,
}

impl View for RunStatus {
    type V = RunStatusView;

    closed spec fn view(&self) -> RunStatusView {
        RunStatusView { run: self.run, blocks: self.blocks@.map_values(|b: BlockStatus| b@) }
    }
}

impl RunStatus {
    /// At most one entry stands in the ledger for each block.
    pub open spec fn well_formed(&self) -> bool {
        keys_unique(self@.blocks)
    }

    /// The status of a run that has just begun: running, with an empty
    /// ledger.
    pub fn new() -> (r: Self)
        ensures
            r@.run == Status::Running,
            r@.blocks == Seq::<BlockStatusView>::empty(),
            r.well_formed(),
    {
        let r = RunStatus { run: Status::Running, blocks: Vec::new() };
        proof {
            assert(r@.blocks =~= Seq::<BlockStatusView>::empty());
        }
        r
    }

    /// A status made of the given parts as they are, unchecked.
    pub fn from_parts(run: Status, blocks: Vec<BlockStatus>) -> (r: Self)
        ensures
            r@.run == run,
            r@.blocks == blocks@.map_values(|b: BlockStatus| b@),
    {
        RunStatus { run, blocks }
    }

    /// The ledger, entry by entry.
    pub fn blocks(&self) -> (r: &Vec<BlockStatus>)
        ensures
            r@.map_values(|b: BlockStatus| b@) == self@.blocks,
    {
        &self.blocks
    }

    fn find(&self, block_type: BlockType, name: &String) -> (r: Option<usize>)
        ensures
            match r {
                Some(i) => position(self@.blocks, block_type, name@) == Some(i as int) && i < self.blocks@.len(),
                None => position(self@.blocks, block_type, name@) is None,
            },
    {
        let mut i: usize = 0;
        while i < self.blocks.len()
            invariant
                i <= self.blocks.len(),
                forall|j: int| 0 <= j < i ==> !has_key(#[trigger] self@.blocks[j], block_type, name@),
            decreases self.blocks.len() - i,
        {
            if self.blocks[i].block_type == block_type && self.blocks[i].name == *name {
                proof {
                    position_at(self@.blocks, block_type, name@, i as int);
                }
                return Some(i);
            }
            i += 1;
        }
        proof {
            position_at(self@.blocks, block_type, name@, i as int);
        }
        None
    }

    /// Records the status of a block: in the place of the entry with its
    /// key, or at the end of the ledger where the block is new. Nothing
    /// else changes.
    pub fn set_block_status(&mut self, status: BlockStatus)
        ensures
            final(self)@.run == old(self)@.run,
            final(self)@.blocks == upserted(old(self)@.blocks, status@),
            old(self).well_formed() ==> final(self).well_formed(),
    {
        proof {
            if self.well_formed() {
                upsert_keeps_unique(self@.blocks, status@);
            }
        }
        match self.find(status.block_type, &status.name) {
            Some(i) => {
                self.blocks.set(i, status);
                proof {
                    assert(self@.blocks =~= old(self)@.blocks.update(i as int, status@));
                }
            },
            None => {
                self.blocks.push(status);
                proof {
                    assert(self@.blocks =~= old(self)@.blocks.push(status@));
                }
            },
        }
    }

    /// Sets the status of the run as a whole, whatever it was.
    pub fn set_run_status(&mut self, status: Status)
        ensures
            final(self)@.run == status,
            final(self)@.blocks == old(self)@.blocks,
    {
        self.run = status;
    }

    /// The status of the run as a whole.
    pub fn run_status(&self) -> (r: Status)
        ensures
            r == self@.run,
    {
        self.run
    }
}

impl Clone for RunStatus {
    fn clone(&self) -> (r: Self)
        ensures
            r@ == self@,
    {
        let mut blocks: Vec<BlockStatus> = Vec::new();
        let mut i: usize = 0;
        while i < self.blocks.len()
            invariant
                i <= self.blocks.len(),
                blocks@.len() == i,
                forall|k: int| 0 <= k < i ==> blocks@[k]@ == self.blocks@[k]@,
            decreases self.blocks.len() - i,
        {
            blocks.push(self.blocks[i].clone());
            i += 1;
        }
        let r = RunStatus { run: self.run, blocks };
        proof {
            assert(r@.blocks =~= self@.blocks);
        }
        r
    }
}

/// Recording an entry keeps a ledger free of doubled keys.
pub proof fn upsert_keeps_unique(blocks: Seq<BlockStatusView>, entry: BlockStatusView)
    requires
        keys_unique(blocks),
    ensures
        keys_unique(upserted(blocks, entry)),
{
    position_is_first(blocks, entry.block_type, entry.name);
    let after = upserted(blocks, entry);
    assert forall|i: int, j: int| 0 <= i < j < after.len() implies !has_key(
        #[trigger] after[i],
        (#[trigger] after[j]).block_type,
        after[j].name,
    ) by {
        match position(blocks, entry.block_type, entry.name) {
            Some(p) => {
                assert(has_key(blocks[p], entry.block_type, entry.name));
                if i == p {
                    assert(!has_key(blocks[i], blocks[j].block_type, blocks[j].name));
                } else if j == p {
                    assert(!has_key(blocks[i], blocks[j].block_type, blocks[j].name));
                } else {
                    assert(!has_key(blocks[i], blocks[j].block_type, blocks[j].name));
                }
            },
            None => {
                if j == blocks.len() {
                    assert(!has_key(blocks[i], entry.block_type, entry.name));
                } else {
                    assert(!has_key(blocks[i], blocks[j].block_type, blocks[j].name));
                }
            },
        }
    }
}

/// Recording two entries with one key, one after the other, leaves what
/// recording the second alone leaves: in a ledger without doubled keys,
/// exactly one entry for that key, which is the second, with every other
/// entry where it was.
pub proof fn upsert_twice_keeps_latest(blocks: Seq<BlockStatusView>, first: BlockStatusView, second: BlockStatusView)
    requires
        keys_unique(blocks),
        first.block_type == second.block_type,
        first.name == second.name,
    ensures
        upserted(upserted(blocks, first), second) == upserted(blocks, second),
        keys_unique(upserted(blocks, second)),
        ({
            let after = upserted(upserted(blocks, first), second);
            match position(after, second.block_type, second.name) {
                Some(p) => {
                    &&& 0 <= p < after.len()
                    &&& after[p] == second
                    &&& forall|j: int|
                        0 <= j < after.len() && j != p ==> !has_key(
                            #[trigger] after[j],
                            second.block_type,
                            second.name,
                        )
                    &&& forall|j: int|
                        0 <= j < blocks.len() && !has_key(blocks[j], second.block_type, second.name) ==> j
                            < after.len() && #[trigger] after[j] == blocks[j]
                    &&& after.len() == blocks.len() + (if position(
                        blocks,
                        second.block_type,
                        second.name,
                    ) is None {
                        1int
                    } else {
                        0int
                    })
                },
                None => false,
            }
        }),
{
    let t = second.block_type;
    let n = second.name;
    position_is_first(blocks, t, n);
    let once = upserted(blocks, first);
    let p: int = match position(blocks, t, n) {
        Some(i) => i,
        None => blocks.len() as int,
    };
    assert(has_key(once[p], t, n));
    assert forall|j: int| 0 <= j < p implies !has_key(#[trigger] once[j], t, n) by {
        assert(once[j] == blocks[j]);
    }
    position_at(once, t, n, p);
    let after = upserted(once, second);
    assert(after =~= upserted(blocks, second));
    upsert_keeps_unique(blocks, second);
    assert(has_key(after[p], t, n));
    assert forall|j: int| 0 <= j < p implies !has_key(#[trigger] after[j], t, n) by {
        assert(after[j] == blocks[j]);
    }
    position_at(after, t, n, p);
    assert forall|j: int| 0 <= j < after.len() && j != p implies !has_key(#[trigger] after[j], t, n) by {
        if j < p {
            assert(after[j] == blocks[j]);
        } else {
            assert(!has_key(after[p], after[j].block_type, after[j].name));
        }
    }
}

} // verus!
