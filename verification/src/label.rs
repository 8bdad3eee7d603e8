//! Metric labels: a key and a value, both text.
use vstd::prelude::*;

verus! {

/// What a label is in contracts: its key and its value.
pub type LabelView = (Seq<char>, Seq<char>);

/// A key-value pair attached to a recorded metric.
#[derive(Clone, Debug, PartialEq, Eq)]
pub struct MetricLabel {
    pub key: String,
    pub value: String,
}

impl View for MetricLabel {
    type V = LabelView;

    open spec fn view(&self) -> LabelView {
        (self.key@, self.value@)
    }
}

impl MetricLabel {
    /// A label with the given key and value.
    pub fn new(key: String, value: String) -> (res: MetricLabel)
        ensures
            res@ == (key@, value@),
    {
        MetricLabel { key, value }
    }

    /// A label whose key and value are copied from text.
    pub fn from_parts(key: &str, value: &str) -> (res: MetricLabel)
        ensures
            res@ == (key@, value@),
    {
        MetricLabel { key: String::from_str(key), value: String::from_str(value) }
    }
}

/// The labels of `v`, in order, as key-value pairs.
pub open spec fn label_views(v: Seq<MetricLabel>) -> Seq<LabelView> {
    v.map_values(|l: MetricLabel| l@)
}

/// The one-element sequence holding the label of `o`, or the empty sequence.
pub open spec fn present(o: Option<LabelView>) -> Seq<LabelView> {
    match o {
        Some(l) => seq![l],
        None => Seq::empty(),
    }
}

/// Appends the label of `o` to `v`, if there is one.
pub fn push_present(v: &mut Vec<MetricLabel>, o: Option<MetricLabel>)
    ensures
        label_views(final(v)@) == label_views(old(v)@) + present(
            match o {
                Some(l) => Some(l@),
                None => None,
            },
        ),
{
    match o {
        Some(l) => {
            v.push(l);
        },
        None => {},
    }
    assert(label_views(v@) =~= label_views(old(v)@) + present(
        match o {
            Some(l) => Some(l@),
            None => None,
        },
    ));
}

/// Whether `a` and `b` are the same text.
pub fn text_eq(a: &String, b: &str) -> (res: bool)
    ensures
        res == (a@ == b@),
{
    let other = String::from_str(b);
    *a == other
}

} // verus!
