//! Values shared by several parts of the API.
use vstd::prelude::*;
use crate::lua::{LuaModel, LuaValue};

verus! {

/// A buffer, window or tab page: the current one, or the one with the given
/// number.
#[derive(Clone, Debug, PartialEq, Eq, Structural)]
pub enum Index {
    Current,
    Index(i64),
}

impl Index {
    /// The number that Neovim receives for this index: `0` stands for the
    /// current buffer, window or tab page.
    pub open spec fn number(self) -> int {
        match self {
            Index::Current => 0,
            Index::Index(i) => i as int,
        }
    }

    /// The Lua value of this index.
    pub fn to_lua<H>(&self) -> (v: LuaValue<H>)
        ensures
            v.model() == LuaModel::<H>::Integer(self.number()),
    {
        match self {
            Index::Current => LuaValue::Integer(0),
            Index::Index(i) => LuaValue::Integer(*i),
        }
    }
}

/// The index made from a number stands for that number, and the buffer
/// (window, tab page) numbered `0` is, for Neovim, the current one.
pub proof fn lemma_index_number(i: i64)
    ensures
        Index::Index(i).number() == i,
        Index::Index(0).number() == Index::Current.number(),
{
}

impl From<i64> for Index {
    fn from(i: i64) -> (r: Index) {
        Index::Index(i)
    }
}

impl vstd::std_specs::convert::FromSpecImpl<i64> for Index {
    open spec fn obeys_from_spec() -> bool {
        true
    }

    open spec fn from_spec(i: i64) -> Index {
        Index::Index(i)
    }
}

} // verus!
