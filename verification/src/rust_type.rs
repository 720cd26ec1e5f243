//! Paths and type expressions of the generated Rust API.

use vstd::prelude::*;
use crate::string_utils::join_segments;
use crate::string_utils::joined;

verus! {

/// Full name of an entity of the generated crate: an ordered sequence of
/// name segments, the first of which is the crate name.
#[derive(Debug, PartialEq, Eq, Hash)]
pub struct RustPath {
    pub parts: Vec<String>,
}

impl View for RustPath {
    type V = Seq<Seq<char>>;

    open spec fn view(&self) -> Seq<Seq<char>> {
        self.parts.deep_view()
    }
}

impl Clone for RustPath {
    /// The clone carries the same segments.
    fn clone(&self) -> (r: Self)
        ensures
            r@ == self@,
            r.parts@.len() == self.parts@.len(),
    {
        let parts = self.parts.clone();
        proof {
            assert(parts@ =~= self.parts@);
        }
        RustPath { parts }
    }
}

impl RustPath {
    /// Builds a path from its segments; a path has at least the crate-name
    /// segment.
    pub fn from_parts(parts: Vec<String>) -> (r: RustPath)
        requires
            parts@.len() >= 1,
        ensures
            r.parts == parts,
    {
        RustPath { parts }
    }

    /// The last segment.
    pub fn last(&self) -> (r: &String)
        requires
            self@.len() >= 1,
        ensures
            r@ == self@.last(),
    {
        &self.parts[self.parts.len() - 1]
    }

    /// The crate-name segment.
    pub fn crate_name(&self) -> (r: &String)
        requires
            self@.len() >= 1,
        ensures
            r@ == self@[0],
    {
        &self.parts[0]
    }

    /// The path of the parent entity, when there is one.
    pub fn parent(&self) -> (r: Option<RustPath>)
        ensures
            match r {
                Option::Some(p) => self@.len() > 1 && p@ == self@.drop_last(),
                Option::None => self@.len() <= 1,
            },
    {
        if self.parts.len() <= 1 {
            None
        } else {
            let mut p = self.clone();
            let _last = p.parts.pop();
            proof {
                assert(p@ =~= self@.drop_last());
            }
            Some(p)
        }
    }

    /// The path extended by one more segment.
    pub fn join(&self, last: String) -> (r: RustPath)
        ensures
            r@ == self@.push(last@),
    {
        let mut p = self.clone();
        p.parts.push(last);
        proof {
            assert(p@ =~= self@.push(last@));
        }
        p
    }

    /// Both paths consist of the same segments.
    pub fn same_as(&self, other: &RustPath) -> (r: bool)
        ensures
            r == (self@ == other@),
    {
        if self.parts.len() != other.parts.len() {
            proof {
                assert(self@.len() != other@.len());
            }
            return false;
        }
        let mut i: usize = 0;
        while i < self.parts.len()
            invariant
                0 <= i <= self.parts.len(),
                self.parts.len() == other.parts.len(),
                forall|j: int| 0 <= j < i ==> self@[j] == other@[j],
            decreases self.parts.len() - i,
        {
            if !(self.parts[i] == other.parts[i]) {
                proof {
                    assert(self@[i as int] != other@[i as int]);
                }
                return false;
            }
            i = i + 1;
        }
        proof {
            assert(self@ =~= other@);
        }
        true
    }

    /// The segments joined with `::`.
    pub fn full_name(&self) -> (r: String)
        ensures
            r@ == joined(self@, "::"@),
    {
        join_segments(&self.parts, "::")
    }
}

/// Kind of pointer-like indirection of a Rust type.
#[derive(Debug, Clone, Copy, PartialEq, Eq, Structural)]
pub enum RustPointerLikeTypeKind {
    Pointer,
    Reference,
}

/// A Rust type expression of the generated API.
#[derive(Debug, PartialEq, Eq)]
pub enum RustType {
    Unit,
    Common { path: RustPath },
    PointerLike { kind: RustPointerLikeTypeKind, is_const: bool, target: Box<RustType> },
    FunctionPointer { return_type: Box<RustType>, arguments: Vec<RustType> },
}

/// A Rust type together with its role at the API level; the full generator
/// also tracks the FFI-level type and the conversion between the two.
#[derive(Debug, PartialEq, Eq)]
pub struct RustFinalType {
    pub api_type: RustType,
}

impl RustFinalType {
    /// The API-level type.
    pub fn api_type(&self) -> (r: &RustType)
        ensures
            r == &self.api_type,
    {
        &self.api_type
    }
}

} // verus!
