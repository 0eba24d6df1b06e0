use vstd::prelude::*;

verus! {

/// The one Postgres schema that every context of this crate is pinned to.
pub const ORG_SCHEMA: &'static str = "zed_pkg";

/// The characters of [`ORG_SCHEMA`].
pub open spec fn org_schema() -> Seq<char> {
    ORG_SCHEMA@
}

} // verus!
