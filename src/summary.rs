use vstd::prelude::*;

verus! {

/// One container as the engine's listing reports it; every field may be absent.
#[derive(Debug, Clone, PartialEq, Eq, Default)]
pub struct ContainerSummary {
    pub id: Option<String>,
    pub image: Option<String>,
    pub image_id: Option<String>,
    pub command: Option<String>,
    pub state: Option<String>,
    pub status: Option<String>,
    pub created: Option<i64>,
    pub size_rw: Option<i64>,
    pub size_root_fs: Option<i64>,
}

/// The text an optional string holds, if any.
pub open spec fn opt_text(o: Option<String>) -> Option<Seq<char>> {
    match o {
        Some(s) => Some(s@),
        None => None,
    }
}

pub(crate) fn clone_text(o: &Option<String>) -> (r: Option<String>)
    ensures
        opt_text(r) == opt_text(*o),
{
    match o {
        Some(s) => Some(s.clone()),
        None => None,
    }
}

} // verus!
