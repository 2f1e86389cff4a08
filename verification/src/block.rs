use crate::fault::ParseError;
use vstd::prelude::*;

verus! {

/// The kind of a pipeline stage.
#[derive(Clone, Copy, Debug, PartialEq, Eq, Structural, Hash)]
pub enum BlockType {
    Input,
    Data,
    Code,
    LLM,
    MapBlock,
    Reduce,
}

impl BlockType {
    /// The stable lower-case rendering of a block type.
    pub open spec fn rendered(self) -> Seq<char> {
        match self {
            BlockType::Input => "input"@,
            BlockType::Data => "data"@,
            BlockType::Code => "code"@,
            BlockType::LLM => "llm"@,
            BlockType::MapBlock => "map"@,
            BlockType::Reduce => "reduce"@,
        }
    }

    /// The number of executions of a block of this type that may be in
    /// flight when its configuration names no limit. Model inference is
    /// the costly operation and gets the low limit.
    pub open spec fn default_concurrency(self) -> usize {
        match self {
            BlockType::LLM => 8,
            _ => 64,
        }
    }

    /// The block type that a token stands for, if any.
    pub open spec fn parsed(token: Seq<char>) -> Option<BlockType> {
        if token == "input"@ {
            Some(BlockType::Input)
        } else if token == "data"@ {
            Some(BlockType::Data)
        } else if token == "code"@ {
            Some(BlockType::Code)
        } else if token == "llm"@ {
            Some(BlockType::LLM)
        } else if token == "map"@ {
            Some(BlockType::MapBlock)
        } else if token == "reduce"@ {
            Some(BlockType::Reduce)
        } else {
            None
        }
    }

    /// Reads a block type from its token. Any other text is a fault.
    pub fn from_str(s: &str) -> (r: Result<BlockType, ParseError>)
        ensures
            match r {
                Ok(block_type) => BlockType::parsed(s@) == Some(block_type),
                Err(e) => BlockType::parsed(s@) is None && e@ == "Unknown BlockType"@,
            },
    {
        let token = s.to_owned();
        if token == "input".to_owned() {
            Ok(BlockType::Input)
        } else if token == "data".to_owned() {
            Ok(BlockType::Data)
        } else if token == "code".to_owned() {
            Ok(BlockType::Code)
        } else if token == "llm".to_owned() {
            Ok(BlockType::LLM)
        } else if token == "map".to_owned() {
            Ok(BlockType::MapBlock)
        } else if token == "reduce".to_owned() {
            Ok(BlockType::Reduce)
        } else {
            Err(ParseError::with_message("Unknown BlockType"))
        }
    }

    /// Renders the block type; the rendering always succeeds.
    pub fn to_string(&self) -> (r: String)
        ensures
            r@ == self.rendered(),
    {
        match self {
            BlockType::Input => "input".to_owned(),
            BlockType::Data => "data".to_owned(),
            BlockType::Code => "code".to_owned(),
            BlockType::LLM => "llm".to_owned(),
            BlockType::MapBlock => "map".to_owned(),
            BlockType::Reduce => "reduce".to_owned(),
        }
    }
}

impl std::str::FromStr for BlockType {
    type Err = ParseError;

    fn from_str(s: &str) -> (r: Result<BlockType, ParseError>)
        ensures
            match r {
                Ok(block_type) => BlockType::parsed(s@) == Some(block_type),
                Err(e) => BlockType::parsed(s@) is None && e@ == "Unknown BlockType"@,
            },
    {
        BlockType::from_str(s)
    }
}

/// Rendering a block type and reading the token back gives the block type
/// again.
pub proof fn block_type_token_round_trip(block_type: BlockType)
    ensures
        BlockType::parsed(block_type.rendered()) == Some(block_type),
{
    reveal_strlit("input");
    reveal_strlit("data");
    reveal_strlit("code");
    reveal_strlit("llm");
    reveal_strlit("map");
    reveal_strlit("reduce");
    assert("input"@.len() == 5);
    assert("data"@.len() == 4);
    assert("code"@.len() == 4);
    assert("llm"@.len() == 3);
    assert("map"@.len() == 3);
    assert("reduce"@.len() == 6);
    assert("data"@[0] == 'd');
    assert("code"@[0] == 'c');
    assert("llm"@[0] == 'l');
    assert("map"@[0] == 'm');
}

} // verus!
