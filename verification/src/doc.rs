//! The generic document model: a tree of scalar values, arrays and tables,
//! as a structured-text parser hands them back, together with its
//! mathematical view.

use vstd::prelude::*;
use vstd::string::StringExecFns;

verus! {

/// One value of a structured configuration document. A table keeps its
/// key/value pairs in source order; a parser for a format with unique keys
/// hands back at most one pair per key. A floating-point scalar is carried
/// as the bit pattern of its 64-bit binary representation, so that the
/// value travels through the library exactly as it stood in the document.
pub enum DocValue {
    Str(String),
    Int(i64),
    Float(u64),
    Bool(bool),
    Datetime(String),
    Arr(Vec<DocValue>),
    Table(Vec<(String, DocValue)>),
}

/// The mathematical view of a `DocValue`.
pub enum SpecDoc {
    Str(Seq<char>),
    Int(i64),
    Float(u64),
    Bool(bool),
    Datetime(Seq<char>),
    Arr(Seq<SpecDoc>),
    Table(Seq<(Seq<char>, SpecDoc)>),
}

pub open spec fn doc_view(d: DocValue) -> SpecDoc
    decreases d, 1int,
{
    match d {
        DocValue::Str(s) => SpecDoc::Str(s@),
        DocValue::Int(i) => SpecDoc::Int(i),
        DocValue::Float(bits) => SpecDoc::Float(bits),
        DocValue::Bool(b) => SpecDoc::Bool(b),
        DocValue::Datetime(s) => SpecDoc::Datetime(s@),
        DocValue::Arr(items) => SpecDoc::Arr(docs_view(items@)),
        DocValue::Table(pairs) => SpecDoc::Table(pairs_view(pairs@)),
    }
}

pub open spec fn docs_view(items: Seq<DocValue>) -> Seq<SpecDoc>
    decreases items, 0int,
{
    if items.len() == 0 {
        Seq::empty()
    } else {
        seq![doc_view(items[0])] + docs_view(items.drop_first())
    }
}

pub open spec fn pairs_view(pairs: Seq<(String, DocValue)>) -> Seq<(Seq<char>, SpecDoc)>
    decreases pairs, 0int,
{
    if pairs.len() == 0 {
        Seq::empty()
    } else {
        seq![(pairs[0].0@, doc_view(pairs[0].1))] + pairs_view(pairs.drop_first())
    }
}

/// The shape of a document value, as named in error reports. `Str` through
/// `Table` classify values that actually occur in a document; `UInt` and
/// `Num` only ever name an expectation: a non-negative integer, or a number
/// in either integer or floating-point form.
#[derive(Clone, Copy, Debug, PartialEq, Eq, Structural)]
pub enum ValueKind {
    Str,
    Int,
    Float,
    Bool,
    Datetime,
    Arr,
    Table,
    UInt,
    Num,
}

pub open spec fn spec_kind(d: SpecDoc) -> ValueKind {
    match d {
        SpecDoc::Str(_) => ValueKind::Str,
        SpecDoc::Int(_) => ValueKind::Int,
        SpecDoc::Float(_) => ValueKind::Float,
        SpecDoc::Bool(_) => ValueKind::Bool,
        SpecDoc::Datetime(_) => ValueKind::Datetime,
        SpecDoc::Arr(_) => ValueKind::Arr,
        SpecDoc::Table(_) => ValueKind::Table,
    }
}

impl DocValue {
    /// The shape of this value, for error reports.
    pub fn kind(&self) -> (k: ValueKind)
        ensures
            k == spec_kind(doc_view(*self)),
    {
        match self {
            DocValue::Str(_) => ValueKind::Str,
            DocValue::Int(_) => ValueKind::Int,
            DocValue::Float(_) => ValueKind::Float,
            DocValue::Bool(_) => ValueKind::Bool,
            DocValue::Datetime(_) => ValueKind::Datetime,
            DocValue::Arr(_) => ValueKind::Arr,
            DocValue::Table(_) => ValueKind::Table,
        }
    }
}

/// The value under `key` in a table, going by the first pair that carries
/// the key (a parser for a format with unique keys never hands back two).
pub open spec fn lookup(t: Seq<(Seq<char>, SpecDoc)>, key: Seq<char>) -> Option<SpecDoc>
    decreases t.len(),
{
    if t.len() == 0 {
        None
    } else if t[0].0 == key {
        Some(t[0].1)
    } else {
        lookup(t.drop_first(), key)
    }
}

/// Finds the value under `key` in a table's pair list.
pub fn lookup_field<'a>(pairs: &'a Vec<(String, DocValue)>, key: &str) -> (r: Option<
    &'a DocValue,
>)
    ensures
        match r {
            Some(v) => lookup(pairs_view(pairs@), key@) == Some(doc_view(*v)),
            None => lookup(pairs_view(pairs@), key@) is None,
        },
{
    let ghost t = pairs_view(pairs@);
    proof {
        lemma_pairs_view(pairs@);
    }
    let k = String::from_str(key);
    let n = pairs.len();
    let mut i: usize = 0;
    proof {
        assert(t.skip(0) =~= t);
    }
    while i < n
        invariant
            n == pairs.len(),
            i <= n,
            t == pairs_view(pairs@),
            t.len() == n,
            k@ == key@,
            lookup(t, key@) == lookup(t.skip(i as int), key@),
            forall|j: int|
                0 <= j < pairs.len() ==> #[trigger] t[j] == (pairs@[j].0@, doc_view(pairs@[j].1)),
        decreases n - i,
    {
        proof {
            assert(t.skip(i as int)[0] == t[i as int]);
        }
        if pairs[i].0 == k {
            return Some(&pairs[i].1);
        }
        proof {
            assert(t.skip(i as int).drop_first() =~= t.skip(i as int + 1));
        }
        i = i + 1;
    }
    proof {
        assert(t.skip(n as int) =~= Seq::<(Seq<char>, SpecDoc)>::empty());
    }
    None
}

pub proof fn lemma_docs_view(items: Seq<DocValue>)
    ensures
        docs_view(items).len() == items.len(),
        forall|i: int|
            0 <= i < items.len() ==> #[trigger] docs_view(items)[i] == doc_view(items[i]),
    decreases items.len(),
{
    if items.len() > 0 {
        lemma_docs_view(items.drop_first());
    }
}

pub proof fn lemma_pairs_view(pairs: Seq<(String, DocValue)>)
    ensures
        pairs_view(pairs).len() == pairs.len(),
        forall|i: int|
            0 <= i < pairs.len() ==> #[trigger] pairs_view(pairs)[i] == (
                pairs[i].0@,
                doc_view(pairs[i].1),
            ),
    decreases pairs.len(),
{
    if pairs.len() > 0 {
        lemma_pairs_view(pairs.drop_first());
    }
}

} // verus!
