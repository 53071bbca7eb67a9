//! Values bound to the `$n` placeholders of the SQL queries.

use crate::time::Timestamp;
use vstd::prelude::*;

verus! {

/// A value bound to one placeholder of a query.
#[derive(Debug, Clone)]
pub enum QueryParam {
    I32(i32),
    Text(String),
    Bool(bool),
    DateTime(Timestamp),
}

/// What a query parameter holds, with its text as characters.
pub enum QueryParamView {
    I32(i32),
    Text(Seq<char>),
    Bool(bool),
    DateTime(Timestamp),
}

impl View for QueryParam {
    type V = QueryParamView;

    open spec fn view(&self) -> QueryParamView {
        match self {
            QueryParam::I32(v) => QueryParamView::I32(*v),
            QueryParam::Text(t) => QueryParamView::Text(t@),
            QueryParam::Bool(b) => QueryParamView::Bool(*b),
            QueryParam::DateTime(d) => QueryParamView::DateTime(*d),
        }
    }
}

/// The views of a list of parameters.
pub open spec fn params_view(params: Seq<QueryParam>) -> Seq<QueryParamView> {
    params.map_values(|p: QueryParam| p@)
}

/// The integer of an `I32` parameter (0 for any other).
pub open spec fn int_of(p: QueryParamView) -> i32 {
    match p {
        QueryParamView::I32(v) => v,
        _ => 0,
    }
}

/// The text of a `Text` parameter (empty for any other).
pub open spec fn text_of(p: QueryParamView) -> Seq<char> {
    match p {
        QueryParamView::Text(t) => t,
        _ => Seq::empty(),
    }
}

/// An identifier written into an `I32` parameter (`id as i32`) and read back (`as u64`) is
/// the identifier itself exactly when it is at most `i32::MAX` or one of the `2^31` largest
/// `u64` values; any other identifier wraps.
pub proof fn lemma_id_round_trip(id: u64)
    ensures
        (int_of(QueryParamView::I32(#[verifier::truncate] (id as i32))) as u64 == id) <==> (id
            <= 0x7fff_ffffu64 || id >= 0xffff_ffff_8000_0000u64),
{
    assert(((#[verifier::truncate] (id as i32)) as u64 == id) <==> (id <= 0x7fff_ffffu64 || id
        >= 0xffff_ffff_8000_0000u64)) by (bit_vector);
}

impl QueryParam {
    /// The integer of an `I32` parameter.
    pub fn as_i32(&self) -> (v: i32)
        requires
            self is I32,
        ensures
            self@ == QueryParamView::I32(v),
    {
        match self {
            QueryParam::I32(v) => *v,
            _ => 0,
        }
    }

    /// The text of a `Text` parameter.
    pub fn as_text(&self) -> (t: &str)
        requires
            self is Text,
        ensures
            self@ == QueryParamView::Text(t@),
    {
        match self {
            QueryParam::Text(t) => t.as_str(),
            _ => "",
        }
    }
}

} // verus!
