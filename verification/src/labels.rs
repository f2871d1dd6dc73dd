//! Reading `label=value` arguments.

use vstd::prelude::*;
use vstd::string::*;
use crate::manifest::{labels_view, Label, LabelView};
use crate::text::{first_of, first_of_is_first, join2, parts_at, split_at_first};

verus! {

/// The pair that a text stands for: what is before its first `=` is the
/// label, what is after it the value. A text without `=` stands for none.
pub open spec fn label_of(s: Seq<char>) -> Option<LabelView> {
    match parts_at(s, '=') {
        Some(p) => Some(LabelView { key: p.0, value: p.1 }),
        None => None,
    }
}

/// A text that stands for a pair is the label, an `=` and the value, and the
/// label holds no `=`.
pub proof fn label_splits_at_first_equals(s: Seq<char>)
    ensures
        label_of(s) matches Some(l) ==> s == l.key + seq!['='] + l.value && !l.key.contains('='),
        label_of(s) is None <==> !s.contains('='),
{
    first_of_is_first(s, '=', 0);
    match first_of(s, '=', 0) {
        Some(k) => {
            let l = label_of(s)->0;
            assert(s =~= l.key + seq!['='] + l.value);
            assert(s.contains('='));
        },
        None => {},
    }
}

/// Why a list of arguments stands for no list of pairs.
#[derive(Debug, Clone, PartialEq, Eq)]
pub enum LabelError {
    /// The argument at this place holds no `=`.
    Malformed { index: usize, argument: String },
}

/// The first argument of the list that stands for no pair is at `index` and
/// reads `argument`.
pub open spec fn first_malformed(args: Seq<String>, index: usize, argument: String) -> bool {
    &&& index < args.len()
    &&& argument@ == args[index as int]@
    &&& label_of(args[index as int]@) is None
    &&& forall|j: int| 0 <= j < index ==> label_of(#[trigger] args[j]@) is Some
}

/// The words for an argument that stands for no pair.
pub open spec fn malformed_text(argument: Seq<char>) -> Seq<char> {
    "Expected label=value, found "@ + argument
}

/// The description of a label error for the user.
pub open spec fn error_text(e: LabelError) -> Seq<char> {
    match e {
        LabelError::Malformed { argument, .. } => malformed_text(argument@),
    }
}

/// A list has one first argument that stands for no pair, at most: any two
/// findings name the same place and the same text.
pub proof fn first_malformed_is_unique(
    args: Seq<String>,
    index: usize,
    argument: String,
    other_index: usize,
    other_argument: String,
)
    requires
        first_malformed(args, index, argument),
        first_malformed(args, other_index, other_argument),
    ensures
        index == other_index,
        argument@ == other_argument@,
{
    if index < other_index {
        assert(label_of(args[index as int]@) is Some);
    } else if other_index < index {
        assert(label_of(args[other_index as int]@) is Some);
    }
}

impl LabelError {
    /// The description of this error for the user; it quotes the argument.
    pub fn message(&self) -> (m: String)
        ensures
            m@ == error_text(*self),
    {
        match self {
            LabelError::Malformed { argument, .. } => join2(
                "Expected label=value, found ",
                argument.as_str(),
            ),
        }
    }
}

/// Every argument of the list stands for a pair.
pub open spec fn all_well_formed(args: Seq<String>) -> bool {
    forall|i: int| 0 <= i < args.len() ==> label_of(#[trigger] args[i]@) is Some
}

/// The pairs that the arguments stand for, in the order of the arguments.
pub open spec fn labels_of(args: Seq<String>) -> Seq<LabelView> {
    Seq::new(args.len(), |i: int| label_of(args[i]@)->0)
}

/// Reads one `label=value` argument, split at its first `=`.
pub fn parse_label(arg: &str) -> (r: Option<Label>)
    ensures
        match r {
            Some(l) => label_of(arg@) == Some(l@),
            None => label_of(arg@) is None,
        },
{
    match split_at_first(arg, '=') {
        Some((key, value)) => Some(Label { key, value }),
        None => None,
    }
}

/// Reads a list of `label=value` arguments. The pairs come in the order of
/// the arguments; the first argument without `=` fails the whole list.
pub fn parse_labels(args: &Vec<String>) -> (r: Result<Vec<Label>, LabelError>)
    ensures
        match r {
            Ok(labels) => all_well_formed(args@) && labels_view(labels@) == labels_of(args@),
            Err(LabelError::Malformed { index, argument }) => first_malformed(
                args@,
                index,
                argument,
            ),
        },
{
    let mut labels: Vec<Label> = Vec::new();
    let mut i: usize = 0;
    while i < args.len()
        invariant
            i <= args.len(),
            labels@.len() == i,
            forall|j: int| 0 <= j < i ==> label_of(#[trigger] args@[j]@) == Some(labels@[j]@),
        decreases args.len() - i,
    {
        match parse_label(args[i].as_str()) {
            Some(l) => labels.push(l),
            None => {
                return Err(LabelError::Malformed { index: i, argument: args[i].clone() });
            },
        }
        i = i + 1;
    }
    assert(labels_view(labels@) =~= labels_of(args@));
    Ok(labels)
}

/// The value that a list of pairs gives a label: that of the last pair with
/// the label, or none where no pair has it.
pub open spec fn lookup(labels: Seq<LabelView>, key: Seq<char>) -> Option<Seq<char>>
    decreases labels.len(),
{
    if labels.len() == 0 {
        None
    } else if labels.last().key == key {
        Some(labels.last().value)
    } else {
        lookup(labels.drop_last(), key)
    }
}

/// No two pairs of the list have the same label.
pub open spec fn distinct_keys(labels: Seq<LabelView>) -> bool {
    forall|i: int, j: int| 0 <= i < j < labels.len() ==> labels[i].key != labels[j].key
}

/// The place of the first pair with the label at or after `from`, if any.
pub open spec fn position(labels: Seq<LabelView>, key: Seq<char>, from: int) -> Option<int>
    decreases labels.len() - from,
{
    if from < 0 || from >= labels.len() {
        None
    } else if labels[from].key == key {
        Some(from)
    } else {
        position(labels, key, from + 1)
    }
}

/// The list with one more pair taken in: it replaces the pair with the same
/// label where there is one, and is added at the end where there is none.
pub open spec fn with_label(labels: Seq<LabelView>, label: LabelView) -> Seq<LabelView> {
    match position(labels, label.key, 0) {
        Some(i) => labels.update(i, label),
        None => labels.push(label),
    }
}

/// The pairs of a list taken in one after the other: each label once, at the
/// place of its first pair and with the value of its last.
pub open spec fn merged(labels: Seq<LabelView>) -> Seq<LabelView>
    decreases labels.len(),
{
    if labels.len() == 0 {
        Seq::empty()
    } else {
        with_label(merged(labels.drop_last()), labels.last())
    }
}

/// Where `position` finds a place, the label stands there; where it finds
/// none, no pair from `from` on has the label.
pub proof fn position_finds_the_label(labels: Seq<LabelView>, key: Seq<char>, from: int)
    requires
        0 <= from,
    ensures
        match position(labels, key, from) {
            Some(i) => from <= i < labels.len() && labels[i].key == key,
            None => forall|j: int| from <= j < labels.len() ==> labels[j].key != key,
        },
    decreases labels.len() - from,
{
    if from < labels.len() && labels[from].key != key {
        position_finds_the_label(labels, key, from + 1);
    }
}

/// Replacing a pair of a list without repeated labels by one with the same
/// label changes the value of that label and of no other.
pub proof fn lookup_after_replacing(
    labels: Seq<LabelView>,
    i: int,
    label: LabelView,
    key: Seq<char>,
)
    requires
        distinct_keys(labels),
        0 <= i < labels.len(),
        labels[i].key == label.key,
    ensures
        lookup(labels.update(i, label), key) == if key == label.key {
            Some(label.value)
        } else {
            lookup(labels, key)
        },
    decreases labels.len(),
{
    let changed = labels.update(i, label);
    if i == labels.len() - 1 {
        assert(changed.drop_last() =~= labels.drop_last());
    } else {
        assert(changed.drop_last() =~= labels.drop_last().update(i, label));
        assert(changed.last() == labels.last());
        assert(labels.last().key != label.key);
        lookup_after_replacing(labels.drop_last(), i, label, key);
    }
}

/// Taking a pair into a list without repeated labels leaves it without
/// repeated labels, gives the pair's label the pair's value and leaves every
/// other label as it was.
pub proof fn with_label_keeps_a_mapping(labels: Seq<LabelView>, label: LabelView, key: Seq<char>)
    requires
        distinct_keys(labels),
    ensures
        distinct_keys(with_label(labels, label)),
        lookup(with_label(labels, label), key) == if key == label.key {
            Some(label.value)
        } else {
            lookup(labels, key)
        },
{
    position_finds_the_label(labels, label.key, 0);
    match position(labels, label.key, 0) {
        Some(i) => {
            lookup_after_replacing(labels, i, label, key);
        },
        None => {
            assert(labels.push(label).drop_last() =~= labels);
        },
    }
}

/// Merging leaves no label twice.
pub proof fn merged_has_distinct_keys(labels: Seq<LabelView>)
    ensures
        distinct_keys(merged(labels)),
    decreases labels.len(),
{
    if labels.len() > 0 {
        merged_has_distinct_keys(labels.drop_last());
        with_label_keeps_a_mapping(merged(labels.drop_last()), labels.last(), labels.last().key);
    }
}

/// Merging changes the value of no label: each keeps the value of its last
/// pair.
pub proof fn merged_is_the_same_mapping(labels: Seq<LabelView>, key: Seq<char>)
    ensures
        lookup(merged(labels), key) == lookup(labels, key),
    decreases labels.len(),
{
    if labels.len() > 0 {
        merged_has_distinct_keys(labels.drop_last());
        merged_is_the_same_mapping(labels.drop_last(), key);
        with_label_keeps_a_mapping(merged(labels.drop_last()), labels.last(), key);
    }
}

/// Takes one pair into a list: it replaces the pair with the same label
/// where there is one, and is added at the end where there is none.
pub fn put_label(labels: &mut Vec<Label>, label: Label)
    ensures
        labels_view(final(labels)@) == with_label(labels_view(old(labels)@), label@),
{
    let ghost before = labels_view(labels@);
    let mut i: usize = 0;
    while i < labels.len()
        invariant
            i <= labels.len(),
            labels_view(labels@) == before,
            *labels == *old(labels),
            position(before, label.key@, 0) == position(before, label.key@, i as int),
        decreases labels.len() - i,
    {
        if labels[i].key == label.key {
            assert(before[i as int].key == label.key@);
            labels.set(i, label);
            assert(labels_view(labels@) =~= before.update(i as int, label@));
            return ;
        }
        assert(before[i as int].key != label.key@);
        i = i + 1;
    }
    labels.push(label);
    assert(labels_view(labels@) =~= before.push(label@));
}

/// The mapping that a list of pairs stands for, as a list without repeated
/// labels: each label once, at the place of its first pair and with the value
/// of its last.
pub fn merge_labels(labels: Vec<Label>) -> (r: Vec<Label>)
    ensures
        labels_view(r@) == merged(labels_view(labels@)),
{
    let mut r: Vec<Label> = Vec::new();
    let ghost all = labels_view(labels@);
    let mut i: usize = 0;
    assert(labels_view(r@) =~= merged(all.take(0)));
    while i < labels.len()
        invariant
            i <= labels.len(),
            all == labels_view(labels@),
            labels_view(r@) == merged(all.take(i as int)),
        decreases labels.len() - i,
    {
        let label = Label { key: labels[i].key.clone(), value: labels[i].value.clone() };
        assert(all.take(i + 1).drop_last() =~= all.take(i as int));
        assert(all.take(i + 1).last() == label@);
        put_label(&mut r, label);
        i = i + 1;
    }
    assert(all.take(labels.len() as int) =~= all);
    r
}

/// Reads a list of `label=value` arguments as a mapping: where a label comes
/// more than once, the last value counts. The first argument without `=`
/// fails the whole list.
pub fn parse_mapping(args: &Vec<String>) -> (r: Result<Vec<Label>, LabelError>)
    ensures
        match r {
            Ok(labels) => all_well_formed(args@) && labels_view(labels@) == merged(labels_of(args@)),
            Err(LabelError::Malformed { index, argument }) => first_malformed(
                args@,
                index,
                argument,
            ),
        },
{
    match parse_labels(args) {
        Ok(labels) => Ok(merge_labels(labels)),
        Err(e) => Err(e),
    }
}

} // verus!
