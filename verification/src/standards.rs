//! The versioned wire-contract standards: the typed data model and its
//! codecs.
//!
//! Each entity is a plain struct or enum, a mathematical model reached by
//! `deep_view`, and a pair of codecs `to_table` / `from_table` between the
//! entity and the wire [`crate::wire::WireValue`] representation.  The codecs
//! are exact: decoding is characterised by a spec function, and every
//! encoder round-trips through its decoder.

use vstd::prelude::*;

pub mod addons;
pub mod game;
pub mod manifest;

use crate::error::IntegrationError;
use crate::wire::{WireValue, WireModel, wire_list_view, lemma_wire_list_view, lemma_wire_list_view_push};

verus! {

/// The wire-contract standard a script was authored against.  Dispatch over
/// standards is a closed match: adding a standard extends this enum and
/// every match over it, and cannot disturb drivers bound to older ones.
#[derive(Debug, Clone, Copy, PartialEq, Eq, Structural)]
pub enum IntegrationStandard {
    V1,
}

/// An entity of the data model that crosses the script boundary.
///
/// An implementation fixes the entity's wire shape: a spec encoder and
/// decoder over models, an executable codec pair agreeing with them, and a
/// proof that every well-formed entity round-trips.
pub trait WireEntity: Sized + DeepView {
    /// Which models are valid values of the entity.
    spec fn wf(m: Self::V) -> bool;

    /// The wire shape of a model.
    spec fn spec_encode(m: Self::V) -> WireModel;

    /// What decoding a wire value as this entity yields, if anything.
    spec fn spec_decode(v: WireModel) -> Option<Self::V>;

    /// Round trip: decoding an encoded well-formed model restores it.
    proof fn lemma_round_trip(m: Self::V)
        requires
            Self::wf(m),
        ensures
            Self::spec_decode(Self::spec_encode(m)) == Some(m),
    ;

    /// Encode for the script boundary.
    fn encode_value(&self, standard: IntegrationStandard) -> (r: WireValue)
        requires
            Self::wf(self.deep_view()),
        ensures
            r.deep_view() == Self::spec_encode(self.deep_view()),
    ;

    /// Decode from the script boundary.
    fn decode_value(v: &WireValue, standard: IntegrationStandard) -> (r: Result<
        Self,
        IntegrationError,
    >)
        ensures
            match r {
                Ok(e) => Self::spec_decode(v.deep_view()) == Some(e.deep_view()),
                Err(er) => Self::spec_decode(v.deep_view()) is None && er is Marshal,
            },
    ;
}

/// What decoding a wire list as a list of entities yields, if anything:
/// every element decodes, in order, or the whole list fails.
pub open spec fn spec_decode_entity_list<T: WireEntity>(items: Seq<WireModel>) -> Option<
    Seq<T::V>,
>
    decreases items.len(),
{
    if items.len() == 0 {
        Some(Seq::empty())
    } else {
        match (T::spec_decode(items[0]), spec_decode_entity_list::<T>(items.skip(1))) {
            (Some(e), Some(rest)) => Some(seq![e] + rest),
            _ => None,
        }
    }
}

/// The wire shape of a list of entities.
pub open spec fn spec_encode_entity_list<T: WireEntity>(items: Seq<T::V>) -> Seq<WireModel>
    decreases items.len(),
{
    if items.len() == 0 {
        Seq::empty()
    } else {
        seq![T::spec_encode(items[0])] + spec_encode_entity_list::<T>(items.skip(1))
    }
}

/// An element that does not decode at position `i` makes the whole entity
/// list fail.
proof fn lemma_decode_entity_list_stuck<T: WireEntity>(items: Seq<WireModel>, i: int)
    requires
        0 <= i < items.len(),
        T::spec_decode(items[i]) is None,
    ensures
        spec_decode_entity_list::<T>(items) is None,
    decreases i,
{
    if i > 0 {
        assert(items.skip(1)[i - 1] == items[i]);
        lemma_decode_entity_list_stuck::<T>(items.skip(1), i - 1);
    }
}

/// Appending one decodable value extends the decoded entity list by its
/// model; appending an undecodable one fails the whole list.
proof fn lemma_decode_entity_list_snoc<T: WireEntity>(items: Seq<WireModel>, w: WireModel)
    ensures
        spec_decode_entity_list::<T>(items.push(w)) == match (
            spec_decode_entity_list::<T>(items),
            T::spec_decode(w),
        ) {
            (Some(d), Some(e)) => Some(d.push(e)),
            _ => None,
        },
    decreases items.len(),
{
    if items.len() == 0 {
        assert(items.push(w).skip(1) =~= Seq::<WireModel>::empty());
        assert(items.push(w)[0] == w);
        assert(spec_decode_entity_list::<T>(Seq::<WireModel>::empty()) == Some(Seq::<T::V>::empty()));
        match T::spec_decode(w) {
            Some(e) => {
                assert(seq![e] + Seq::<T::V>::empty() =~= Seq::<T::V>::empty().push(e));
            },
            None => {},
        }
    } else {
        lemma_decode_entity_list_snoc::<T>(items.skip(1), w);
        assert(items.push(w).skip(1) =~= items.skip(1).push(w));
        assert(items.push(w)[0] == items[0]);
        match (T::spec_decode(items[0]), spec_decode_entity_list::<T>(items.skip(1)), T::spec_decode(
            w,
        )) {
            (Some(h), Some(rest), Some(e)) => {
                assert(seq![h] + rest.push(e) =~= (seq![h] + rest).push(e));
            },
            _ => {},
        }
    }
}

/// Appending one model extends the encoded entity list by its wire shape.
proof fn lemma_encode_entity_list_snoc<T: WireEntity>(items: Seq<T::V>, m: T::V)
    ensures
        spec_encode_entity_list::<T>(items.push(m)) =~= spec_encode_entity_list::<T>(items).push(
            T::spec_encode(m),
        ),
    decreases items.len(),
{
    if items.len() == 0 {
        assert(items.push(m).skip(1) =~= Seq::<T::V>::empty());
        assert(items.push(m)[0] == m);
        assert(spec_encode_entity_list::<T>(Seq::<T::V>::empty()) == Seq::<WireModel>::empty());
        assert(spec_encode_entity_list::<T>(items.push(m)) =~= seq![T::spec_encode(m)]);
        assert(spec_encode_entity_list::<T>(items).push(T::spec_encode(m)) =~= seq![T::spec_encode(
            m,
        )]);
    } else {
        lemma_encode_entity_list_snoc::<T>(items.skip(1), m);
        assert(items.push(m).skip(1) =~= items.skip(1).push(m));
        assert(items.push(m)[0] == items[0]);
        assert(spec_encode_entity_list::<T>(items.push(m)) =~= seq![T::spec_encode(items[0])]
            + spec_encode_entity_list::<T>(items.skip(1)).push(T::spec_encode(m)));
        assert(spec_encode_entity_list::<T>(items).push(T::spec_encode(m)) =~= (seq![T::spec_encode(
            items[0],
        )] + spec_encode_entity_list::<T>(items.skip(1))).push(T::spec_encode(m)));
    }
}

/// Round trip: decoding an encoded list of well-formed models restores it.
pub proof fn lemma_entity_list_round_trip<T: WireEntity>(items: Seq<T::V>)
    requires
        forall|i: int| 0 <= i < items.len() ==> T::wf(#[trigger] items[i]),
    ensures
        spec_decode_entity_list::<T>(spec_encode_entity_list::<T>(items)) == Some(items),
    decreases items.len(),
{
    if items.len() == 0 {
        assert(items =~= Seq::<T::V>::empty());
    } else {
        lemma_entity_list_round_trip::<T>(items.skip(1));
        T::lemma_round_trip(items[0]);
        let enc = spec_encode_entity_list::<T>(items);
        assert(enc.skip(1) =~= spec_encode_entity_list::<T>(items.skip(1)));
        assert(seq![items[0]] + items.skip(1) =~= items);
    }
}

/// Decode a wire list as a list of entities; the first element that fails
/// to decode fails the whole list.
pub fn decode_entity_list<T: WireEntity>(items: &Vec<WireValue>, standard: IntegrationStandard) -> (r:
    Result<Vec<T>, IntegrationError>)
    ensures
        match r {
            Ok(out) => spec_decode_entity_list::<T>(wire_list_view(items@)) == Some(
                out.deep_view(),
            ),
            Err(er) => spec_decode_entity_list::<T>(wire_list_view(items@)) is None
                && er is Marshal,
        },
{
    proof {
        lemma_wire_list_view(items@);
    }
    let ghost model = wire_list_view(items@);
    let mut out: Vec<T> = Vec::new();
    for i in 0..items.len()
        invariant
            out@.len() == i,
            model == wire_list_view(items@),
            model.len() == items@.len(),
            forall|j: int| 0 <= j < items@.len() ==> model[j] == #[trigger] items@[j].deep_view(),
            spec_decode_entity_list::<T>(model.take(i as int)) == Some(out.deep_view()),
    {
        let ghost prefix = model.take(i as int);
        let ghost out_dv = out.deep_view();
        match T::decode_value(&items[i], standard) {
            Ok(e) => {
                proof {
                    lemma_decode_entity_list_snoc::<T>(prefix, model[i as int]);
                    assert(prefix.push(model[i as int]) =~= model.take(i + 1));
                }
                let ghost ev = e.deep_view();
                out.push(e);
                proof {
                    assert(out.deep_view() =~= out_dv.push(ev));
                }
            },
            Err(er) => {
                proof {
                    lemma_decode_entity_list_stuck::<T>(model, i as int);
                }
                return Err(er);
            },
        }
    }
    proof {
        assert(model.take(items@.len() as int) =~= model);
    }
    Ok(out)
}

/// Encode a list of entities for the script boundary.
pub fn encode_entity_list<T: WireEntity>(items: &Vec<T>, standard: IntegrationStandard) -> (r: Vec<
    WireValue,
>)
    requires
        forall|i: int| 0 <= i < items@.len() ==> T::wf(#[trigger] items@[i].deep_view()),
    ensures
        wire_list_view(r@) == spec_encode_entity_list::<T>(items.deep_view()),
{
    let mut out: Vec<WireValue> = Vec::new();
    for i in 0..items.len()
        invariant
            out@.len() == i,
            forall|j: int| 0 <= j < items@.len() ==> T::wf(#[trigger] items@[j].deep_view()),
            wire_list_view(out@) =~= spec_encode_entity_list::<T>(items.deep_view().take(i as int)),
    {
        let ghost before = out@;
        let v = items[i].encode_value(standard);
        let ghost vv = v.deep_view();
        out.push(v);
        proof {
            lemma_wire_list_view_push(before, out@[i as int]);
            lemma_encode_entity_list_snoc::<T>(
                items.deep_view().take(i as int),
                items@[i as int].deep_view(),
            );
            assert(items.deep_view().take(i as int).push(items@[i as int].deep_view())
                =~= items.deep_view().take(i + 1));
        }
    }
    proof {
        assert(items.deep_view().take(items@.len() as int) =~= items.deep_view());
    }
    out
}

/// Take a wire value as a string, or fail the marshal.
pub fn as_str_value(v: WireValue) -> (r: Result<String, IntegrationError>)
    ensures
        match r {
            Ok(s) => v.deep_view() == WireModel::Str(s@),
            Err(e) => !(v.deep_view() matches WireModel::Str(_)) && e is Marshal,
        },
{
    match v {
        WireValue::Str(s) => Ok(s),
        _ => Err(IntegrationError::Marshal),
    }
}

/// Take a wire value as a boolean, or fail the marshal.
pub fn as_bool_value(v: WireValue) -> (r: Result<bool, IntegrationError>)
    ensures
        match r {
            Ok(b) => v.deep_view() == WireModel::Bool(b),
            Err(e) => !(v.deep_view() matches WireModel::Bool(_)) && e is Marshal,
        },
{
    match v {
        WireValue::Bool(b) => Ok(b),
        _ => Err(IntegrationError::Marshal),
    }
}

/// Take a wire value as an optional string: the absent value is `None`.
pub fn as_opt_str_value(v: WireValue) -> (r: Result<Option<String>, IntegrationError>)
    ensures
        match r {
            Ok(Some(s)) => v.deep_view() == WireModel::Str(s@),
            Ok(None) => v.deep_view() is Null,
            Err(e) => !(v.deep_view() matches WireModel::Str(_)) && !(v.deep_view() is Null)
                && e is Marshal,
        },
{
    match v {
        WireValue::Null => Ok(None),
        WireValue::Str(s) => Ok(Some(s)),
        _ => Err(IntegrationError::Marshal),
    }
}

/// Take a wire value as a list of strings, or fail the marshal: the value
/// was no list, or held a non-string element.
pub fn as_str_list_value(v: WireValue) -> (r: Result<Vec<String>, IntegrationError>)
    ensures
        match r {
            Ok(out) => v.deep_view() matches WireModel::List(w)
                && crate::wire::spec_decode_str_list(w) == Some(out.deep_view()),
            Err(e) => e is Marshal && (match v.deep_view() {
                WireModel::List(w) => crate::wire::spec_decode_str_list(w) is None,
                _ => true,
            }),
        },
{
    match v {
        WireValue::List(items) => match crate::wire::decode_str_list(&items) {
            Some(out) => Ok(out),
            None => Err(IntegrationError::Marshal),
        },
        _ => Err(IntegrationError::Marshal),
    }
}

/// Take a wire value as a list of entities, or fail the marshal: the value
/// was no list, or held an element that does not decode.
pub fn as_entity_list_value<T: WireEntity>(v: WireValue, standard: IntegrationStandard) -> (r:
    Result<Vec<T>, IntegrationError>)
    ensures
        match r {
            Ok(out) => v.deep_view() matches WireModel::List(w) && spec_decode_entity_list::<T>(w)
                == Some(out.deep_view()),
            Err(e) => e is Marshal && (match v.deep_view() {
                WireModel::List(w) => spec_decode_entity_list::<T>(w) is None,
                _ => true,
            }),
        },
{
    match v {
        WireValue::List(items) => decode_entity_list::<T>(&items, standard),
        _ => Err(IntegrationError::Marshal),
    }
}

/// Take a wire value as an optional entity: the absent value is `None`;
/// any other value must decode as the entity, or the marshal fails.
pub fn as_opt_entity_value<T: WireEntity>(v: WireValue, standard: IntegrationStandard) -> (r:
    Result<Option<T>, IntegrationError>)
    ensures
        match r {
            Ok(Some(e)) => T::spec_decode(v.deep_view()) == Some(e.deep_view()),
            Ok(None) => v.deep_view() is Null,
            Err(er) => er is Marshal && !(v.deep_view() is Null) && T::spec_decode(v.deep_view())
                is None,
        },
{
    match v {
        WireValue::Null => Ok(None),
        other => match T::decode_value(&other, standard) {
            Ok(e) => Ok(Some(e)),
            Err(er) => Err(er),
        },
    }
}

/// Copy a vector of strings, element by element.
pub fn clone_string_vec(v: &Vec<String>) -> (r: Vec<String>)
    ensures
        r@ == v@,
{
    let mut out: Vec<String> = Vec::new();
    for i in 0..v.len()
        invariant
            out@.len() == i,
            forall|j: int| 0 <= j < i ==> out@[j] == v@[j],
    {
        out.push(v[i].clone());
    }
    proof {
        assert(out@ =~= v@);
    }
    out
}

} // verus!
