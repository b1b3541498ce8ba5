//! The wire value representation exchanged with integration scripts.
//!
//! Scripts hand results back as dynamically typed values (booleans, integers,
//! strings, sequences and string-keyed records).  [`WireValue`] is the host-side
//! image of that representation; every entity of the data model is encoded to
//! and decoded from a `WireValue`.  The mathematical model of a value is
//! [`WireModel`], reached through `deep_view`.

use vstd::prelude::*;

verus! {

/// A dynamically typed value crossing the script boundary.
#[derive(Debug, PartialEq, Eq)]
pub enum WireValue {
    /// The absent value; an optional result that the script did not produce.
    Null,
    /// A boolean.
    Bool(bool),
    /// An integer.  Fractional numbers are not part of the wire contract.
    Number(i64),
    /// A text value.
    Str(String),
    /// An ordered sequence of values.
    List(Vec<WireValue>),
    /// A record of named fields.  Field order carries no meaning; the
    /// decoders look fields up by name.
    Record(Vec<(String, WireValue)>),
}

/// The mathematical model of a [`WireValue`].
pub enum WireModel {
    Null,
    Bool(bool),
    Int(int),
    Str(Seq<char>),
    List(Seq<WireModel>),
    Record(Seq<(Seq<char>, WireModel)>),
}

/// Model of a sequence of wire values, element by element.
pub open spec fn wire_list_view(items: Seq<WireValue>) -> Seq<WireModel>
    decreases items,
{
    if items.len() == 0 {
        Seq::empty()
    } else {
        seq![items[0].deep_view()] + wire_list_view(items.skip(1))
    }
}

/// Model of a record's field list, field by field.
pub open spec fn wire_record_view(fields: Seq<(String, WireValue)>) -> Seq<(Seq<char>, WireModel)>
    decreases fields,
{
    if fields.len() == 0 {
        Seq::empty()
    } else {
        seq![(fields[0].0@, fields[0].1.deep_view())] + wire_record_view(fields.skip(1))
    }
}

impl DeepView for WireValue {
    type V = WireModel;

    open spec fn deep_view(&self) -> WireModel
        decreases self,
    {
        match self {
            WireValue::Null => WireModel::Null,
            WireValue::Bool(b) => WireModel::Bool(*b),
            WireValue::Number(n) => WireModel::Int(*n as int),
            WireValue::Str(s) => WireModel::Str(s@),
            WireValue::List(items) => WireModel::List(wire_list_view(items@)),
            WireValue::Record(fields) => WireModel::Record(wire_record_view(fields@)),
        }
    }
}

/// The model of a value list is pointwise: as long as the list, with the
/// model of element `i` at index `i`.
pub proof fn lemma_wire_list_view(items: Seq<WireValue>)
    ensures
        wire_list_view(items).len() == items.len(),
        forall|i: int|
            0 <= i < items.len() ==> wire_list_view(items)[i] == #[trigger] items[i].deep_view(),
    decreases items,
{
    if items.len() > 0 {
        lemma_wire_list_view(items.skip(1));
        assert(wire_list_view(items) == seq![items[0].deep_view()] + wire_list_view(items.skip(1)));
        assert(wire_list_view(items).len() == items.len());
        assert forall|i: int| 0 <= i < items.len() implies wire_list_view(items)[i] == #[trigger] items[i]
            .deep_view() by {
            if i == 0 {
                assert(wire_list_view(items)[0] == items[0].deep_view());
            } else {
                assert(items.skip(1)[i - 1] == items[i]);
                assert(wire_list_view(items)[i] == wire_list_view(items.skip(1))[i - 1]);
            }
        }
    }
}

/// The model of a field list is pointwise: field `i` keeps its name's view
/// and carries the model of its value.
pub proof fn lemma_wire_record_view(fields: Seq<(String, WireValue)>)
    ensures
        wire_record_view(fields).len() == fields.len(),
        forall|i: int|
            0 <= i < fields.len() ==> #[trigger] wire_record_view(fields)[i] == (
            fields[i].0@,
            fields[i].1.deep_view(),
            ),
    decreases fields,
{
    if fields.len() > 0 {
        lemma_wire_record_view(fields.skip(1));
        assert(wire_record_view(fields).len() == fields.len());
        assert forall|i: int|
            0 <= i < fields.len() implies #[trigger] wire_record_view(fields)[i] == (
            fields[i].0@,
            fields[i].1.deep_view(),
        ) by {
            if i == 0 {
                assert(wire_record_view(fields)[0] == (fields[0].0@, fields[0].1.deep_view()));
            } else {
                assert(fields.skip(1)[i - 1] == fields[i]);
                assert(wire_record_view(fields)[i] == wire_record_view(fields.skip(1))[i - 1]);
            }
        }
    }
}

/// First field of `fields` named `key`, if any.
pub open spec fn wire_lookup(fields: Seq<(Seq<char>, WireModel)>, key: Seq<char>) -> Option<WireModel>
    decreases fields.len(),
{
    if fields.len() == 0 {
        None
    } else if fields[0].0 == key {
        Some(fields[0].1)
    } else {
        wire_lookup(fields.skip(1), key)
    }
}

/// If the first `i` fields all miss `key` and field `i` matches it, the
/// lookup lands on field `i`.
pub proof fn lemma_wire_lookup_hit(fields: Seq<(Seq<char>, WireModel)>, key: Seq<char>, i: int)
    requires
        0 <= i < fields.len(),
        forall|j: int| 0 <= j < i ==> (#[trigger] fields[j]).0 != key,
        fields[i].0 == key,
    ensures
        wire_lookup(fields, key) == Some(fields[i].1),
    decreases i,
{
    if i > 0 {
        lemma_wire_lookup_hit(fields.skip(1), key, i - 1);
    }
}

/// If no field is named `key`, the lookup misses.
pub proof fn lemma_wire_lookup_miss(fields: Seq<(Seq<char>, WireModel)>, key: Seq<char>)
    requires
        forall|j: int| 0 <= j < fields.len() ==> (#[trigger] fields[j]).0 != key,
    ensures
        wire_lookup(fields, key) is None,
    decreases fields.len(),
{
    if fields.len() > 0 {
        lemma_wire_lookup_miss(fields.skip(1), key);
    }
}

/// The string stored under `key`, if the field exists and is a string.
pub fn get_str_field(fields: &Vec<(String, WireValue)>, key: &String) -> (r: Option<String>)
    ensures
        ({
            let looked = wire_lookup(wire_record_view(fields@), key@);
            match r {
                Some(s) => looked == Some(WireModel::Str(s@)),
                None => !(looked matches Some(WireModel::Str(_))),
            }
        }),
{
    match record_get(fields, key) {
        Some(WireValue::Str(s)) => Some(s.clone()),
        _ => None,
    }
}

/// The boolean stored under `key`, if the field exists and is a boolean.
pub fn get_bool_field(fields: &Vec<(String, WireValue)>, key: &String) -> (r: Option<bool>)
    ensures
        ({
            let looked = wire_lookup(wire_record_view(fields@), key@);
            match r {
                Some(b) => looked == Some(WireModel::Bool(b)),
                None => !(looked matches Some(WireModel::Bool(_))),
            }
        }),
{
    match record_get(fields, key) {
        Some(WireValue::Bool(b)) => Some(*b),
        _ => None,
    }
}

/// The integer stored under `key`, if the field exists and is a number.
pub fn get_number_field(fields: &Vec<(String, WireValue)>, key: &String) -> (r: Option<i64>)
    ensures
        ({
            let looked = wire_lookup(wire_record_view(fields@), key@);
            match r {
                Some(n) => looked == Some(WireModel::Int(n as int)),
                None => !(looked matches Some(WireModel::Int(_))),
            }
        }),
{
    match record_get(fields, key) {
        Some(WireValue::Number(n)) => Some(*n),
        _ => None,
    }
}

/// The list stored under `key`, if the field exists and is a list.
pub fn get_list_field<'a>(fields: &'a Vec<(String, WireValue)>, key: &String) -> (r: Option<
    &'a Vec<WireValue>,
>)
    ensures
        ({
            let looked = wire_lookup(wire_record_view(fields@), key@);
            match r {
                Some(items) => looked == Some(WireModel::List(wire_list_view(items@))),
                None => !(looked matches Some(WireModel::List(_))),
            }
        }),
{
    match record_get(fields, key) {
        Some(WireValue::List(items)) => Some(items),
        _ => None,
    }
}

/// What decoding a wire list as a list of strings yields, if anything.
pub open spec fn spec_decode_str_list(items: Seq<WireModel>) -> Option<Seq<Seq<char>>>
    decreases items.len(),
{
    if items.len() == 0 {
        Some(Seq::empty())
    } else {
        match (items[0], spec_decode_str_list(items.skip(1))) {
            (WireModel::Str(s), Some(rest)) => Some(seq![s] + rest),
            _ => None,
        }
    }
}

/// The wire shape of a list of strings.
pub open spec fn spec_encode_str_list(items: Seq<Seq<char>>) -> Seq<WireModel>
    decreases items.len(),
{
    if items.len() == 0 {
        Seq::empty()
    } else {
        seq![WireModel::Str(items[0])] + spec_encode_str_list(items.skip(1))
    }
}

/// Round trip: decoding an encoded string list restores it exactly.
pub proof fn lemma_str_list_round_trip(items: Seq<Seq<char>>)
    ensures
        spec_decode_str_list(spec_encode_str_list(items)) == Some(items),
    decreases items.len(),
{
    if items.len() == 0 {
        assert(items =~= Seq::<Seq<char>>::empty());
    } else {
        lemma_str_list_round_trip(items.skip(1));
        let enc = spec_encode_str_list(items);
        assert(enc.skip(1) =~= spec_encode_str_list(items.skip(1)));
        assert(seq![items[0]] + items.skip(1) =~= items);
    }
}

/// Decode a wire list as a list of strings; any non-string element is a
/// shape mismatch.
pub fn decode_str_list(items: &Vec<WireValue>) -> (r: Option<Vec<String>>)
    ensures
        match r {
            Some(out) => spec_decode_str_list(wire_list_view(items@)) == Some(out.deep_view()),
            None => spec_decode_str_list(wire_list_view(items@)) is None,
        },
{
    proof {
        lemma_wire_list_view(items@);
    }
    let ghost model = wire_list_view(items@);
    let mut out: Vec<String> = Vec::new();
    for i in 0..items.len()
        invariant
            out@.len() == i,
            model == wire_list_view(items@),
            model.len() == items@.len(),
            forall|j: int| 0 <= j < items@.len() ==> model[j] == #[trigger] items@[j].deep_view(),
            spec_decode_str_list(model.take(i as int)) == Some(out.deep_view()),
    {
        let ghost prefix = model.take(i as int);
        let ghost out_dv = out.deep_view();
        match &items[i] {
            WireValue::Str(s) => {
                out.push(s.clone());
            },
            _ => {
                proof {
                    assert(model[i as int] == items@[i as int].deep_view());
                    assert(!(model[i as int] matches WireModel::Str(_)));
                    lemma_decode_str_list_stuck(model, i as int);
                }
                return None;
            },
        }
        proof {
            assert(model[i as int] == items@[i as int].deep_view());
            assert(model[i as int] == WireModel::Str(items@[i as int]->Str_0@));
            lemma_decode_str_list_snoc(prefix, items@[i as int]->Str_0@);
            assert(prefix.push(model[i as int]) =~= model.take(i + 1));
            assert(out.deep_view() =~= out_dv.push(items@[i as int]->Str_0@));
        }
    }
    proof {
        assert(model.take(items@.len() as int) =~= model);
    }
    Some(out)
}

/// Appending one string value extends the decoded list by that string.
proof fn lemma_decode_str_list_snoc(items: Seq<WireModel>, s: Seq<char>)
    ensures
        spec_decode_str_list(items.push(WireModel::Str(s))) == match spec_decode_str_list(items) {
            Some(d) => Some(d.push(s)),
            None => None,
        },
    decreases items.len(),
{
    if items.len() == 0 {
        assert(items.push(WireModel::Str(s)).skip(1) =~= Seq::<WireModel>::empty());
        assert(items.push(WireModel::Str(s))[0] == WireModel::Str(s));
        assert(spec_decode_str_list(Seq::<WireModel>::empty()) == Some(Seq::<Seq<char>>::empty()));
        assert(spec_decode_str_list(items.push(WireModel::Str(s))) == Some(
            seq![s] + Seq::<Seq<char>>::empty(),
        ));
        assert(seq![s] + Seq::<Seq<char>>::empty() =~= Seq::<Seq<char>>::empty().push(s));
        assert(items =~= Seq::<WireModel>::empty());
    } else {
        lemma_decode_str_list_snoc(items.skip(1), s);
        assert(items.push(WireModel::Str(s)).skip(1) =~= items.skip(1).push(WireModel::Str(s)));
        assert(items.push(WireModel::Str(s))[0] == items[0]);
        match items[0] {
            WireModel::Str(h) => {
                match spec_decode_str_list(items.skip(1)) {
                    Some(rest) => {
                        assert(seq![h] + rest.push(s) =~= (seq![h] + rest).push(s));
                    },
                    None => {},
                }
            },
            _ => {},
        }
    }
}

/// A non-string at position `i` makes the whole string-list decode fail.
proof fn lemma_decode_str_list_stuck(items: Seq<WireModel>, i: int)
    requires
        0 <= i < items.len(),
        !(items[i] matches WireModel::Str(_)),
    ensures
        spec_decode_str_list(items.skip(i)) is None,
        spec_decode_str_list(items) is None,
    decreases i + items.len(),
{
    if i > 0 {
        assert(items.skip(1)[i - 1] == items[i]);
        lemma_decode_str_list_stuck(items.skip(1), i - 1);
        assert(items.skip(1).skip(i - 1) =~= items.skip(i));
    } else {
        assert(items.skip(0) =~= items);
    }
}

/// Encode a list of strings for the script boundary.
pub fn encode_str_list(items: &Vec<String>) -> (r: Vec<WireValue>)
    ensures
        wire_list_view(r@) == spec_encode_str_list(items.deep_view()),
{
    let mut out: Vec<WireValue> = Vec::new();
    for i in 0..items.len()
        invariant
            out@.len() == i,
            wire_list_view(out@) =~= spec_encode_str_list(items.deep_view().take(i as int)),
    {
        let ghost before = out@;
        out.push(WireValue::Str(items[i].clone()));
        proof {
            lemma_wire_list_view_push(before, WireValue::Str(items@[i as int]));
            lemma_encode_str_list_snoc(items.deep_view().take(i as int), items@[i as int]@);
            assert(items.deep_view().take(i as int).push(items@[i as int]@) =~= items.deep_view()
                .take(i + 1));
        }
    }
    proof {
        assert(items.deep_view().take(items@.len() as int) =~= items.deep_view());
    }
    out
}

/// Appending one value extends the list model by its model.
pub proof fn lemma_wire_list_view_push(items: Seq<WireValue>, v: WireValue)
    ensures
        wire_list_view(items.push(v)) =~= wire_list_view(items).push(v.deep_view()),
{
    lemma_wire_list_view(items.push(v));
    lemma_wire_list_view(items);
    assert forall|i: int| 0 <= i < items.len() + 1 implies wire_list_view(items.push(v))[i]
        == wire_list_view(items).push(v.deep_view())[i] by {
        if i < items.len() {
            assert(items.push(v)[i] == items[i]);
            assert(wire_list_view(items.push(v))[i] == items.push(v)[i].deep_view());
            assert(wire_list_view(items).push(v.deep_view())[i] == wire_list_view(items)[i]);
            assert(wire_list_view(items)[i] == items[i].deep_view());
        } else {
            assert(items.push(v)[i] == v);
            assert(wire_list_view(items.push(v))[i] == items.push(v)[i].deep_view());
            assert(wire_list_view(items).push(v.deep_view())[i] == v.deep_view());
        }
    }
}

/// Appending one string extends the encoded list by one string value.
proof fn lemma_encode_str_list_snoc(items: Seq<Seq<char>>, s: Seq<char>)
    ensures
        spec_encode_str_list(items.push(s)) =~= spec_encode_str_list(items).push(WireModel::Str(s)),
    decreases items.len(),
{
    if items.len() == 0 {
        assert(items.push(s).skip(1) =~= Seq::<Seq<char>>::empty());
        assert(items.push(s)[0] == s);
        assert(spec_encode_str_list(Seq::<Seq<char>>::empty()) == Seq::<WireModel>::empty());
        assert(spec_encode_str_list(items.push(s)) =~= seq![WireModel::Str(s)]);
        assert(spec_encode_str_list(items).push(WireModel::Str(s)) =~= seq![WireModel::Str(s)]);
    } else {
        lemma_encode_str_list_snoc(items.skip(1), s);
        assert(items.push(s).skip(1) =~= items.skip(1).push(s));
        assert(items.push(s)[0] == items[0]);
        assert(spec_encode_str_list(items.push(s)) =~= seq![WireModel::Str(items[0])]
            + spec_encode_str_list(items.skip(1)).push(WireModel::Str(s)));
        assert(spec_encode_str_list(items).push(WireModel::Str(s)) =~= (seq![WireModel::Str(items[0])]
            + spec_encode_str_list(items.skip(1))).push(WireModel::Str(s)));
    }
}

/// Field access on a record's field list: the first field named `key`.
pub fn record_get<'a>(fields: &'a Vec<(String, WireValue)>, key: &String) -> (r: Option<&'a WireValue>)
    ensures
        match r {
            Some(v) => wire_lookup(wire_record_view(fields@), key@) == Some(v.deep_view()),
            None => wire_lookup(wire_record_view(fields@), key@) is None,
        },
{
    let ghost model = wire_record_view(fields@);
    proof {
        lemma_wire_record_view(fields@);
    }
    for i in 0..fields.len()
        invariant
            model == wire_record_view(fields@),
            model.len() == fields@.len(),
            forall|j: int|
                0 <= j < fields@.len() ==> #[trigger] model[j] == (
                fields@[j].0@,
                fields@[j].1.deep_view(),
                ),
            forall|j: int| 0 <= j < i ==> (#[trigger] model[j]).0 != key@,
    {
        if fields[i].0 == *key {
            proof {
                lemma_wire_lookup_hit(model, key@, i as int);
            }
            return Some(&fields[i].1);
        }
    }
    proof {
        lemma_wire_lookup_miss(model, key@);
    }
    None
}

} // verus!
