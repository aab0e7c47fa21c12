//! Cache identities: the one comparable value that every supported key
//! reduces to.

use vstd::prelude::*;

verus! {

/// The identifier that the cache uses to tell resources apart.
///
/// Every supported key shape has a variant of its own, so keys of different
/// shapes never collide even where their numeric values agree.
#[derive(Debug, Hash)]
pub enum CacheId {
    USize(usize),
    U32(u32),
    U64(u64),
    ISize(isize),
    I32(i32),
    I64(i64),
    Str(String),
}

/// The mathematical value of a [`CacheId`]: the same variants, with text
/// taken by its characters rather than by the allocation that holds them.
pub enum CacheIdView {
    USize(usize),
    U32(u32),
    U64(u64),
    ISize(isize),
    I32(i32),
    I64(i64),
    Str(Seq<char>),
}

impl View for CacheId {
    type V = CacheIdView;

    open spec fn view(&self) -> CacheIdView {
        match *self {
            CacheId::USize(n) => CacheIdView::USize(n),
            CacheId::U32(n) => CacheIdView::U32(n),
            CacheId::U64(n) => CacheIdView::U64(n),
            CacheId::ISize(n) => CacheIdView::ISize(n),
            CacheId::I32(n) => CacheIdView::I32(n),
            CacheId::I64(n) => CacheIdView::I64(n),
            CacheId::Str(s) => CacheIdView::Str(s@),
        }
    }
}

impl CacheId {
    /// Whether two identifiers denote the same identity: same variant, same
    /// number or same text.
    pub fn same(&self, other: &CacheId) -> (b: bool)
        ensures
            b == (self@ == other@),
    {
        match (self, other) {
            (CacheId::USize(a), CacheId::USize(b)) => *a == *b,
            (CacheId::U32(a), CacheId::U32(b)) => *a == *b,
            (CacheId::U64(a), CacheId::U64(b)) => *a == *b,
            (CacheId::ISize(a), CacheId::ISize(b)) => *a == *b,
            (CacheId::I32(a), CacheId::I32(b)) => *a == *b,
            (CacheId::I64(a), CacheId::I64(b)) => *a == *b,
            (CacheId::Str(a), CacheId::Str(b)) => *a == *b,
            _ => false,
        }
    }
}

impl Clone for CacheId {
    fn clone(&self) -> (res: CacheId)
        ensures
            res@ == self@,
    {
        match self {
            CacheId::USize(n) => CacheId::USize(*n),
            CacheId::U32(n) => CacheId::U32(*n),
            CacheId::U64(n) => CacheId::U64(*n),
            CacheId::ISize(n) => CacheId::ISize(*n),
            CacheId::I32(n) => CacheId::I32(*n),
            CacheId::I64(n) => CacheId::I64(*n),
            CacheId::Str(s) => CacheId::Str(s.clone()),
        }
    }
}

impl PartialEq for CacheId {
    fn eq(&self, other: &CacheId) -> (b: bool) {
        self.same(other)
    }
}

impl vstd::std_specs::cmp::PartialEqSpecImpl for CacheId {
    open spec fn obeys_eq_spec() -> bool {
        true
    }

    open spec fn eq_spec(&self, other: &CacheId) -> bool {
        self@ == other@
    }
}

impl Eq for CacheId {

}

/// Something that can be used to find or create a resource.
pub trait Key {
    /// The identity that this key stands for. It depends on the key's value
    /// alone, so equal keys always share one identity.
    spec fn identity(&self) -> CacheIdView;

    /// Reduces the key to its cache identifier.
    fn as_cache_id(&self) -> (id: CacheId)
        ensures
            id@ == self.identity(),
    ;
}

impl Key for u32 {
    open spec fn identity(&self) -> CacheIdView {
        CacheIdView::U32(*self)
    }

    fn as_cache_id(&self) -> (id: CacheId) {
        CacheId::U32(*self)
    }
}

impl Key for u64 {
    open spec fn identity(&self) -> CacheIdView {
        CacheIdView::U64(*self)
    }

    fn as_cache_id(&self) -> (id: CacheId) {
        CacheId::U64(*self)
    }
}

impl Key for usize {
    open spec fn identity(&self) -> CacheIdView {
        CacheIdView::USize(*self)
    }

    fn as_cache_id(&self) -> (id: CacheId) {
        CacheId::USize(*self)
    }
}

impl Key for i32 {
    open spec fn identity(&self) -> CacheIdView {
        CacheIdView::I32(*self)
    }

    fn as_cache_id(&self) -> (id: CacheId) {
        CacheId::I32(*self)
    }
}

impl Key for i64 {
    open spec fn identity(&self) -> CacheIdView {
        CacheIdView::I64(*self)
    }

    fn as_cache_id(&self) -> (id: CacheId) {
        CacheId::I64(*self)
    }
}

impl Key for isize {
    open spec fn identity(&self) -> CacheIdView {
        CacheIdView::ISize(*self)
    }

    fn as_cache_id(&self) -> (id: CacheId) {
        CacheId::ISize(*self)
    }
}

impl Key for String {
    open spec fn identity(&self) -> CacheIdView {
        CacheIdView::Str(self@)
    }

    fn as_cache_id(&self) -> (id: CacheId) {
        CacheId::Str(self.clone())
    }
}

} // verus!
