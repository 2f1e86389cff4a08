use crate::block::BlockType;
use crate::json::{as_u64, duplicate, json_member, json_u64, member};
use serde_json::Value;
use vstd::prelude::*;

verus! {

/// The configuration of a run: for each configured block, by name, a
/// structured blob. Names are meant to be unique; where one occurs twice
/// the first entry is the block's configuration.
#[derive(Debug, PartialEq)]
pub struct RunConfig {
    pub blocks: Vec<(String, Value)>,
}

impl View for RunConfig {
    type V = Seq<(Seq<char>, Value)>;

    open spec fn view(&self) -> Seq<(Seq<char>, Value)> {
        Seq::new(self.blocks@.len(), |i: int| (self.blocks@[i].0@, self.blocks@[i].1))
    }
}

/// The blob that a list of named blobs holds for `name`: that of the first
/// entry of that name.
pub open spec fn lookup(entries: Seq<(Seq<char>, Value)>, name: Seq<char>) -> Option<Value>
    decreases entries.len(),
{
    if entries.len() == 0 {
        None
    } else if entries[0].0 == name {
        Some(entries[0].1)
    } else {
        lookup(entries.drop_first(), name)
    }
}

/// The concurrency limit that a configuration names for a block: the
/// unsigned integer under `"concurrency"` in the block's blob, if the block
/// is configured and its blob is an object that has one.
pub open spec fn configured_concurrency(entries: Seq<(Seq<char>, Value)>, name: Seq<char>) -> Option<u64> {
    match lookup(entries, name) {
        Some(blob) => match json_member(blob, "concurrency"@) {
            Some(limit) => json_u64(limit),
            None => None,
        },
        None => None,
    }
}

/// The limit in effect for a block of type `block_type`: the configured
/// one where there is one, verbatim, else the default of the block type.
pub open spec fn resolved_concurrency(block_type: BlockType, configured: Option<u64>) -> usize {
    match configured {
        Some(n) => n as usize,
        None => block_type.default_concurrency(),
    }
}

/// Resolves the concurrency limit of a block from its type and the limit
/// that its configuration names, if any. Any configured limit is accepted,
/// zero included.
pub fn resolve_concurrency(block_type: BlockType, configured: Option<u64>) -> (r: usize)
    ensures
        r == resolved_concurrency(block_type, configured),
{
    match configured {
        Some(n) => n as usize,
        None => match block_type {
            BlockType::Input => 64,
            BlockType::Data => 64,
            BlockType::Code => 64,
            BlockType::LLM => 8,
            BlockType::MapBlock => 64,
            BlockType::Reduce => 64,
        },
    }
}

/// A limit that the configuration names for a block is the limit in effect
/// whatever the type of the block; without one, the limit is the default of
/// the type, which is 8 for model inference and 64 for every other type.
pub proof fn configured_limit_overrides_type(
    entries: Seq<(Seq<char>, Value)>,
    name: Seq<char>,
    block_type: BlockType,
)
    ensures
        configured_concurrency(entries, name) matches Some(n) ==> resolved_concurrency(
            block_type,
            configured_concurrency(entries, name),
        ) == n as usize,
        lookup(entries, name) is None ==> resolved_concurrency(
            block_type,
            configured_concurrency(entries, name),
        ) == (if block_type == BlockType::LLM {
            8usize
        } else {
            64usize
        }),
{
}

/// Where no entry before `i` has the name, `lookup` gives the blob of the
/// entry at `i` if that has the name, and nothing if `i` is the end.
proof fn lookup_finds(entries: Seq<(Seq<char>, Value)>, name: Seq<char>, i: int)
    requires
        0 <= i <= entries.len(),
        forall|j: int| 0 <= j < i ==> (#[trigger] entries[j]).0 != name,
    ensures
        i < entries.len() && entries[i].0 == name ==> lookup(entries, name) == Some(entries[i].1),
        i == entries.len() ==> lookup(entries, name) is None,
    decreases entries.len(),
{
    if entries.len() > 0 && i > 0 {
        let rest = entries.drop_first();
        assert(entries[0].0 != name);
        assert forall|j: int| 0 <= j < i - 1 implies (#[trigger] rest[j]).0 != name by {
            assert(rest[j] == entries[j + 1]);
        }
        lookup_finds(rest, name, i - 1);
    }
}

/// A new blob in the place of the first entry of a name is what `lookup`
/// gives for that name, and changes nothing for another.
proof fn lookup_after_replace(entries: Seq<(Seq<char>, Value)>, i: int, blob: Value, other: Seq<char>)
    requires
        0 <= i < entries.len(),
        forall|j: int| 0 <= j < i ==> (#[trigger] entries[j]).0 != entries[i].0,
    ensures
        lookup(entries.update(i, (entries[i].0, blob)), other) == (if other == entries[i].0 {
            Some(blob)
        } else {
            lookup(entries, other)
        }),
    decreases entries.len(),
{
    let after = entries.update(i, (entries[i].0, blob));
    if i > 0 {
        let rest = entries.drop_first();
        assert(entries[0].0 != entries[i].0);
        assert(rest[i - 1] == entries[i]);
        assert forall|j: int| 0 <= j < i - 1 implies (#[trigger] rest[j]).0 != rest[i - 1].0 by {
            assert(rest[j] == entries[j + 1]);
        }
        lookup_after_replace(rest, i - 1, blob, other);
        assert(after.drop_first() =~= rest.update(i - 1, (rest[i - 1].0, blob)));
    } else {
        assert(after.drop_first() =~= entries.drop_first());
    }
}

/// An entry appended under a name that no entry has is what `lookup` gives
/// for that name, and changes nothing for another.
proof fn lookup_after_append(entries: Seq<(Seq<char>, Value)>, name: Seq<char>, blob: Value, other: Seq<char>)
    requires
        forall|j: int| 0 <= j < entries.len() ==> (#[trigger] entries[j]).0 != name,
    ensures
        lookup(entries.push((name, blob)), other) == (if other == name {
            Some(blob)
        } else {
            lookup(entries, other)
        }),
    decreases entries.len(),
{
    let after = entries.push((name, blob));
    if entries.len() > 0 {
        let rest = entries.drop_first();
        assert(entries[0].0 != name);
        assert forall|j: int| 0 <= j < rest.len() implies (#[trigger] rest[j]).0 != name by {
            assert(rest[j] == entries[j + 1]);
        }
        lookup_after_append(rest, name, blob, other);
        assert(after.drop_first() =~= rest.push((name, blob)));
    } else {
        assert(after.drop_first() =~= Seq::<(Seq<char>, Value)>::empty());
        assert(lookup(after.drop_first(), other) is None);
    }
}

impl RunConfig {
    /// No two entries configure the same block.
    pub open spec fn well_formed(&self) -> bool {
        forall|i: int, j: int|
            0 <= i < j < self@.len() ==> (#[trigger] self@[i]).0 != (#[trigger] self@[j]).0
    }

    /// The configuration blob of the block `name`, if it has one.
    pub fn config_for_block(&self, name: &str) -> (r: Option<&Value>)
        ensures
            match r {
                Some(blob) => lookup(self@, name@) == Some(*blob),
                None => lookup(self@, name@) is None,
            },
    {
        let key = name.to_owned();
        let mut i: usize = 0;
        proof {
            assert(self@.skip(0) =~= self@);
        }
        while i < self.blocks.len()
            invariant
                i <= self.blocks.len(),
                key@ == name@,
                lookup(self@, name@) == lookup(self@.skip(i as int), name@),
            decreases self.blocks.len() - i,
        {
            if self.blocks[i].0 == key {
                return Some(&self.blocks[i].1);
            }
            proof {
                assert(self@.skip(i as int).drop_first() =~= self@.skip(i + 1));
            }
            i += 1;
        }
        None
    }

    /// A configuration without entries.
    pub fn new() -> (r: Self)
        ensures
            r@ == Seq::<(Seq<char>, Value)>::empty(),
            r.well_formed(),
    {
        let r = RunConfig { blocks: Vec::new() };
        proof {
            assert(r@ =~= Seq::<(Seq<char>, Value)>::empty());
        }
        r
    }

    /// Configures the block `name` with `blob`, in place of the blob it had
    /// if it had one. Every other block keeps its configuration.
    pub fn insert(&mut self, name: String, blob: Value)
        ensures
            forall|other: Seq<char>|
                #[trigger] lookup(final(self)@, other) == (if other == name@ {
                    Some(blob)
                } else {
                    lookup(old(self)@, other)
                }),
            final(self)@.len() == old(self)@.len() + (if lookup(old(self)@, name@) is None {
                1int
            } else {
                0int
            }),
            old(self).well_formed() ==> final(self).well_formed(),
    {
        let ghost before = self@;
        let ghost key = name@;
        let mut i: usize = 0;
        while i < self.blocks.len()
            invariant
                i <= self.blocks.len(),
                self@ == before,
                before == old(self)@,
                key == name@,
                forall|j: int| 0 <= j < i ==> (#[trigger] before[j]).0 != key,
            decreases self.blocks.len() - i,
        {
            proof {
                assert(before[i as int].0 == self.blocks@[i as int].0@);
            }
            if self.blocks[i].0 == name {
                proof {
                    assert(before[i as int].0 == key);
                }
                self.blocks.set(i, (name, blob));
                proof {
                    assert(self@ =~= before.update(i as int, (key, blob)));
                    assert forall|other: Seq<char>|
                        #[trigger] lookup(self@, other) == (if other == key {
                            Some(blob)
                        } else {
                            lookup(before, other)
                        }) by {
                        lookup_after_replace(before, i as int, blob, other);
                    }
                    lookup_finds(before, key, i as int);
                    if old(self).well_formed() {
                        assert forall|a: int, b: int| 0 <= a < b < self@.len() implies (#[trigger] self@[a]).0
                            != (#[trigger] self@[b]).0 by {
                            assert(self@[a].0 == before[a].0);
                            assert(self@[b].0 == before[b].0);
                        }
                    }
                }
                return ;
            }
            i += 1;
        }
        self.blocks.push((name, blob));
        proof {
            assert(self@ =~= before.push((key, blob)));
            assert forall|other: Seq<char>|
                #[trigger] lookup(self@, other) == (if other == key {
                    Some(blob)
                } else {
                    lookup(before, other)
                }) by {
                lookup_after_append(before, key, blob, other);
            }
            lookup_finds(before, key, i as int);
        }
    }

    /// The greatest number of executions of the block `name` that may be in
    /// flight at once: the limit its configuration names, else the default
    /// of its type.
    pub fn concurrency_for_block(&self, block_type: BlockType, name: &str) -> (r: usize)
        ensures
            r == resolved_concurrency(block_type, configured_concurrency(self@, name@)),
            lookup(self@, name@) is None ==> r == block_type.default_concurrency(),
            configured_concurrency(self@, name@) matches Some(n) ==> r == n as usize,
    {
        let configured = match self.config_for_block(name) {
            Some(blob) => match member(blob, "concurrency") {
                Some(limit) => as_u64(limit),
                None => None,
            },
            None => None,
        };
        resolve_concurrency(block_type, configured)
    }
}

impl Clone for RunConfig {
    fn clone(&self) -> (r: Self)
        ensures
            r@ == self@,
    {
        let mut blocks: Vec<(String, Value)> = Vec::new();
        let mut i: usize = 0;
        while i < self.blocks.len()
            invariant
                i <= self.blocks.len(),
                blocks@.len() == i,
                forall|k: int| 0 <= k < i ==> blocks@[k] == self.blocks@[k],
            decreases self.blocks.len() - i,
        {
            let name = self.blocks[i].0.clone();
            let blob = duplicate(&self.blocks[i].1);
            blocks.push((name, blob));
            i += 1;
        }
        let r = RunConfig { blocks };
        proof {
            assert(r@ =~= self@);
        }
        r
    }
}

} // verus!
