//! What holds of every builder, whatever its fields and its values.
//!
//! The statements are about the states of a builder and the steps between
//! them, which the methods of `BuilderInstance` are verified to take.

use crate::classify::Category;
use crate::instance::{
    lemma_first_missing_from, FieldLayout, FieldValueView, InstanceView, ValueView,
};
use crate::words::not_set_message;
use vstd::prelude::*;

verus! {

/// Whether `field` is the first mandatory field of `layout`.
pub open spec fn is_first_mandatory(layout: Seq<FieldLayout>, field: int) -> bool {
    &&& 0 <= field < layout.len()
    &&& layout[field].category is Mandatory
    &&& forall|earlier: int| 0 <= earlier < field ==> !(layout[earlier].category is Mandatory)
}

/// Where at least one field is mandatory, `build` on a builder on which no
/// setter was called fails, and the error names a mandatory field: the first
/// one of the schema.
pub proof fn lemma_fresh_build_fails<V>(layout: Seq<FieldLayout>)
    requires
        exists|i: int| 0 <= i < layout.len() && (#[trigger] layout[i]).category is Mandatory,
    ensures
        exists|field: int| #[trigger]
            is_first_mandatory(layout, field) && InstanceView::<V>::fresh(layout).outcome()
                == Err::<Seq<FieldValueView<V>>, Seq<char>>(
                not_set_message(layout[field].name),
            ),
{
    let state = InstanceView::<V>::fresh(layout);
    lemma_first_missing_from(state, 0);
    let witness = choose|i: int|
        0 <= i < layout.len() && (#[trigger] layout[i]).category is Mandatory;
    assert(state.is_missing(witness));
    let first = state.first_missing()->0;
    assert forall|earlier: int| 0 <= earlier < first implies !(layout[earlier].category
        is Mandatory) by {
        assert(!state.is_missing(earlier));
    }
    assert(is_first_mandatory(layout, first));
}

/// Where no field is mandatory, `build` on a builder on which no setter was
/// called succeeds: every optional field of the structure is absent, and
/// every repeated field is an empty collection.
pub proof fn lemma_fresh_build_defaults<V>(layout: Seq<FieldLayout>)
    requires
        forall|i: int| 0 <= i < layout.len() ==> !((#[trigger] layout[i]).category is Mandatory),
    ensures
        InstanceView::<V>::fresh(layout).outcome() matches Ok(values) && values.len()
            == layout.len() && forall|i: int|
            0 <= i < layout.len() ==> #[trigger] values[i] == match layout[i].category {
                Category::Optional => FieldValueView::<V>::Optional(None),
                _ => FieldValueView::<V>::Repeated(ValueView::Many(Seq::empty())),
            },
{
    let state = InstanceView::<V>::fresh(layout);
    lemma_first_missing_from(state, 0);
}

/// `build` leaves the builder as it was, so a second `build` right after the
/// first returns what the first returned.
pub proof fn lemma_rebuild_is_the_same<V>(state: InstanceView<V>)
    ensures
        state.build().0 == state,
        state.build().0.build().1 == state.build().1,
{
}

/// A setter overwrites: after two calls of the same setter the builder is as
/// if only the second had been made, and where `build` then succeeds, the
/// field holds the second value, in the form of the field's kind.
pub proof fn lemma_last_set_wins<V>(
    state: InstanceView<V>,
    field: int,
    first: ValueView<V>,
    second: ValueView<V>,
)
    requires
        state.layout.len() == state.slots.len(),
        0 <= field < state.layout.len(),
    ensures
        state.set(field, first).set(field, second) == state.set(field, second),
        state.set(field, first).set(field, second).outcome() matches Ok(values) ==> values[field]
            == match state.layout[field].category {
            Category::Mandatory => FieldValueView::Mandatory(second),
            Category::Optional => FieldValueView::Optional(Some(second)),
            Category::Repeated => FieldValueView::Repeated(second),
        },
{
    assert(state.set(field, first).set(field, second).slots =~= state.set(field, second).slots);
}

/// A setter touches one slot: every other slot, and the fields themselves,
/// stay as they were.
pub proof fn lemma_set_keeps_the_rest<V>(state: InstanceView<V>, field: int, value: ValueView<V>)
    requires
        0 <= field < state.slots.len(),
    ensures
        state.set(field, value).layout == state.layout,
        state.set(field, value).slots.len() == state.slots.len(),
        state.set(field, value).slots[field] == Some(value),
        forall|other: int|
            0 <= other < state.slots.len() && other != field ==> #[trigger] state.set(
                field,
                value,
            ).slots[other] == state.slots[other],
{
}

/// `build` succeeds exactly where every mandatory field is set.
pub proof fn lemma_build_succeeds_iff_complete<V>(state: InstanceView<V>)
    ensures
        state.outcome() is Ok <==> forall|i: int|
            0 <= i < state.layout.len() && (#[trigger] state.layout[i]).category is Mandatory
                ==> state.slots[i] is Some,
{
    lemma_first_missing_from(state, 0);
    if state.outcome() is Ok {
        assert forall|i: int|
            0 <= i < state.layout.len() && (#[trigger] state.layout[i]).category
                is Mandatory implies state.slots[i] is Some by {
            assert(!state.is_missing(i));
        }
    }
}

} // verus!
