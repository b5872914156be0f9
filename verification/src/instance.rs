//! How a generated builder behaves, as a value of its own.
//!
//! A [`BuilderInstance`] holds one slot per field of a classified schema and
//! goes through the steps that the generated methods go through: the factory
//! makes it with every slot empty, a setter fills one slot, and `build` checks
//! the mandatory fields in order and assembles the structure's fields from
//! copies of the slots. The builder never looks inside a value; it only keeps
//! and copies it.

use crate::builder_spec::{BuilderSpec, FieldModel};
use crate::classify::Category;
use crate::ident::Identifier;
use crate::words::not_set_message;
use vstd::prelude::*;
use vstd::string::*;

verus! {

/// A value that a setter stores: one item, or a whole collection.
#[derive(Debug, PartialEq, Eq)]
pub enum Value<V> {
    One(V),
    Many(Vec<V>),
}

pub ghost enum ValueView<V> {
    One(V),
    Many(Seq<V>),
}

impl<V> View for Value<V> {
    type V = ValueView<V>;

    open spec fn view(&self) -> ValueView<V> {
        match self {
            Value::One(item) => ValueView::One(*item),
            Value::Many(items) => ValueView::Many(items@),
        }
    }
}

/// One field of the structure that `build` returns.
#[derive(Debug, PartialEq, Eq)]
pub enum FieldValue<V> {
    /// A mandatory field: the value that was set.
    Mandatory(Value<V>),
    /// An optional field: the value that was set, or nothing.
    Optional(Option<Value<V>>),
    /// A repeated field: the collection that was set, or an empty one.
    Repeated(Value<V>),
}

pub ghost enum FieldValueView<V> {
    Mandatory(ValueView<V>),
    Optional(Option<ValueView<V>>),
    Repeated(ValueView<V>),
}

impl<V> View for FieldValue<V> {
    type V = FieldValueView<V>;

    open spec fn view(&self) -> FieldValueView<V> {
        match self {
            FieldValue::Mandatory(value) => FieldValueView::Mandatory(value@),
            FieldValue::Optional(Some(value)) => FieldValueView::Optional(Some(value@)),
            FieldValue::Optional(None) => FieldValueView::Optional(None),
            FieldValue::Repeated(value) => FieldValueView::Repeated(value@),
        }
    }
}

/// The views of `values`, in order.
pub open spec fn field_value_views<V>(values: Seq<FieldValue<V>>) -> Seq<FieldValueView<V>> {
    Seq::new(values.len(), |i: int| values[i]@)
}

/// What a builder knows of one field: its name and its kind.
pub ghost struct FieldLayout {
    pub name: Seq<char>,
    pub category: Category,
}

/// What a builder knows of the fields `fields`.
pub open spec fn layout_of(fields: Seq<FieldModel>) -> Seq<FieldLayout> {
    Seq::new(
        fields.len(),
        |i: int| FieldLayout { name: fields[i].name, category: fields[i].class.category() },
    )
}

/// The state of a builder: its fields, and what each slot holds.
pub ghost struct InstanceView<V> {
    pub layout: Seq<FieldLayout>,
    pub slots: Seq<Option<ValueView<V>>>,
}

impl<V> InstanceView<V> {
    /// The builder as the factory makes it: every slot is empty.
    pub open spec fn fresh(layout: Seq<FieldLayout>) -> InstanceView<V> {
        InstanceView { layout, slots: Seq::new(layout.len(), |i: int| None) }
    }

    /// The builder after the setter of field `field` was called with `value`:
    /// the slot holds `value`, whatever it held before.
    pub open spec fn set(self, field: int, value: ValueView<V>) -> InstanceView<V> {
        InstanceView { layout: self.layout, slots: self.slots.update(field, Some(value)) }
    }

    /// Whether field `field` is mandatory and not set.
    pub open spec fn is_missing(self, field: int) -> bool {
        &&& 0 <= field < self.layout.len()
        &&& self.layout[field].category is Mandatory
        &&& self.slots[field] is None
    }

    /// Whether every mandatory field is set.
    pub open spec fn is_complete(self) -> bool {
        forall|field: int| !self.is_missing(field)
    }

    /// The first field from `from` on that is mandatory and not set.
    pub open spec fn first_missing_from(self, from: int) -> Option<int>
        decreases self.layout.len() - from,
    {
        if from < 0 || from >= self.layout.len() {
            None
        } else if self.is_missing(from) {
            Some(from)
        } else {
            self.first_missing_from(from + 1)
        }
    }

    /// The first field that is mandatory and not set.
    pub open spec fn first_missing(self) -> Option<int> {
        self.first_missing_from(0)
    }

    /// The field `field` of the structure, made from its slot.
    pub open spec fn assembled(self, field: int) -> FieldValueView<V> {
        match self.layout[field].category {
            Category::Mandatory => FieldValueView::Mandatory(self.slots[field]->0),
            Category::Optional => FieldValueView::Optional(self.slots[field]),
            Category::Repeated => FieldValueView::Repeated(
                match self.slots[field] {
                    Some(value) => value,
                    None => ValueView::Many(Seq::empty()),
                },
            ),
        }
    }

    /// What `build` returns: the error that names the first mandatory field
    /// that is not set, or else the fields of the structure.
    pub open spec fn outcome(self) -> Result<Seq<FieldValueView<V>>, Seq<char>> {
        match self.first_missing() {
            Some(field) => Err(not_set_message(self.layout[field].name)),
            None => Ok(Seq::new(self.layout.len(), |i: int| self.assembled(i))),
        }
    }

    /// The builder after `build`, and what `build` returned: the builder is
    /// as it was.
    pub open spec fn build(self) -> (InstanceView<V>, Result<Seq<FieldValueView<V>>, Seq<char>>) {
        (self, self.outcome())
    }
}

/// `first_missing_from` finds a missing field, and the first one: none
/// stands between `from` and it; and it finds none only where there is none.
pub proof fn lemma_first_missing_from<V>(state: InstanceView<V>, from: int)
    requires
        0 <= from,
    ensures
        match state.first_missing_from(from) {
            Some(field) => from <= field && state.is_missing(field) && forall|j: int|
                from <= j < field ==> !state.is_missing(j),
            None => forall|j: int| from <= j ==> !state.is_missing(j),
        },
    decreases state.layout.len() - from,
{
    if from < state.layout.len() && !state.is_missing(from) {
        lemma_first_missing_from(state, from + 1);
    }
}

/// One field of a builder: what the builder knows of it, and what its slot
/// holds.
struct Slot<V> {
    name: Identifier,
    category: Category,
    content: Option<Value<V>>,
}

/// A builder for the fields of one classified schema.
pub struct BuilderInstance<V> {
    slots: Vec<Slot<V>>,
}

impl<V> View for BuilderInstance<V> {
    type V = InstanceView<V>;

    closed spec fn view(&self) -> InstanceView<V> {
        InstanceView {
            layout: Seq::new(
                self.slots@.len(),
                |i: int|
                    FieldLayout { name: self.slots@[i].name@, category: self.slots@[i].category },
            ),
            slots: Seq::new(
                self.slots@.len(),
                |i: int|
                    match self.slots@[i].content {
                        Some(value) => Some(value@),
                        None => None,
                    },
            ),
        }
    }
}

/// A copy of `value`.
fn copy_value<V: Copy>(value: &Value<V>) -> (copy: Value<V>)
    ensures
        copy@ == value@,
{
    match value {
        Value::One(item) => Value::One(*item),
        Value::Many(items) => {
            let mut copied: Vec<V> = Vec::new();
            let n: usize = items.len();
            let mut i: usize = 0;
            while i < n
                invariant
                    n == items@.len(),
                    i <= n,
                    copied@ == items@.take(i as int),
                decreases n - i,
            {
                copied.push(items[i]);
                i = i + 1;
            }
            assert(items@.take(n as int) =~= items@);
            Value::Many(copied)
        },
    }
}

impl<V: Copy> BuilderInstance<V> {
    /// The builder that the factory returns: one slot per field of `spec`,
    /// every slot empty.
    pub fn new(spec: &BuilderSpec) -> (made: BuilderInstance<V>)
        ensures
            made@ == InstanceView::<V>::fresh(layout_of(spec@.fields)),
    {
        let mut slots: Vec<Slot<V>> = Vec::new();
        let n: usize = spec.fields.len();
        let mut i: usize = 0;
        while i < n
            invariant
                n == spec.fields@.len(),
                i <= n,
                slots@.len() == i,
                forall|j: int|
                    0 <= j < i ==> (#[trigger] slots@[j]).name@ == spec.fields@[j]@.name
                        && slots@[j].category == spec.fields@[j]@.class.category()
                        && slots@[j].content is None,
            decreases n - i,
        {
            let field = &spec.fields[i];
            slots.push(
                Slot {
                    name: field.descriptor.name.duplicate(),
                    category: field.classification.category(),
                    content: None,
                },
            );
            i = i + 1;
        }
        let made = BuilderInstance { slots };
        assert(made@.layout =~= layout_of(spec@.fields));
        assert(made@.slots =~= InstanceView::<V>::fresh(layout_of(spec@.fields)).slots);
        made
    }

    /// The number of fields.
    pub fn len(&self) -> (n: usize)
        ensures
            n == self@.layout.len(),
            n == self@.slots.len(),
    {
        self.slots.len()
    }

    /// The place of the first field called `name`, if there is one.
    pub fn position(&self, name: &str) -> (found: Option<usize>)
        ensures
            match found {
                Some(field) => field < self@.layout.len() && self@.layout[field as int].name
                    == name@ && forall|j: int|
                    0 <= j < field ==> (#[trigger] self@.layout[j]).name != name@,
                None => forall|j: int|
                    0 <= j < self@.layout.len() ==> (#[trigger] self@.layout[j]).name != name@,
            },
    {
        let n: usize = self.slots.len();
        let mut i: usize = 0;
        while i < n
            invariant
                n == self.slots@.len(),
                i <= n,
                forall|j: int| 0 <= j < i ==> (#[trigger] self@.layout[j]).name != name@,
            decreases n - i,
        {
            if self.slots[i].name.is(name) {
                return Some(i);
            }
            i = i + 1;
        }
        None
    }

    /// The setter of field `field`: stores `value` in the slot, in place of
    /// what the slot held.
    pub fn set(&mut self, field: usize, value: Value<V>)
        requires
            field < old(self)@.layout.len(),
        ensures
            final(self)@ == old(self)@.set(field as int, value@),
    {
        let name = self.slots[field].name.duplicate();
        let category = self.slots[field].category;
        self.slots.set(field, Slot { name, category, content: Some(value) });
        assert(self@.slots =~= old(self)@.set(field as int, value@).slots);
        assert(self@.layout =~= old(self)@.layout);
    }

    /// `build`: the error that names the first mandatory field that is not
    /// set, or else the fields of the structure, made from copies of the
    /// slots. The builder stays as it was, and can be built again.
    pub fn build(&mut self) -> (result: Result<Vec<FieldValue<V>>, String>)
        ensures
            final(self)@ == old(self)@,
            result is Ok <==> old(self)@.is_complete(),
            match result {
                Ok(values) => old(self)@.outcome() == Ok::<
                    Seq<FieldValueView<V>>,
                    Seq<char>,
                >(field_value_views(values@)),
                Err(message) => old(self)@.outcome() == Err::<
                    Seq<FieldValueView<V>>,
                    Seq<char>,
                >(message@),
            },
            result matches Ok(values) ==> values@.len() == old(self)@.layout.len() && forall|
                field: int,
            |
                0 <= field < values@.len() ==> (#[trigger] values@[field])@ == old(
                    self,
                )@.assembled(field),
            result matches Err(message) ==> exists|field: int|
                #![trigger old(self)@.is_missing(field)]
                old(self)@.is_missing(field) && (forall|earlier: int|
                    0 <= earlier < field ==> !old(self)@.is_missing(earlier)) && message@
                    == not_set_message(old(self)@.layout[field].name),
    {
        proof {
            lemma_first_missing_from(self@, 0);
        }
        let n: usize = self.slots.len();
        let mut i: usize = 0;
        while i < n
            invariant
                n == self.slots@.len(),
                i <= n,
                forall|j: int| 0 <= j < i ==> !self@.is_missing(j),
            decreases n - i,
        {
            let missing = match self.slots[i].category {
                Category::Mandatory => self.slots[i].content.is_none(),
                _ => false,
            };
            assert(missing == self@.is_missing(i as int));
            if missing {
                let mut message = String::from_str("field ");
                message.append(self.slots[i].name.as_str());
                message.append(" is not set");
                proof {
                    lemma_first_missing_from(self@, 0);
                }
                return Err(message);
            }
            i = i + 1;
        }
        let mut values: Vec<FieldValue<V>> = Vec::new();
        let mut k: usize = 0;
        while k < n
            invariant
                n == self.slots@.len(),
                k <= n,
                forall|j: int| 0 <= j < n ==> !self@.is_missing(j),
                values@.len() == k,
                forall|j: int| 0 <= j < k ==> (#[trigger] values@[j])@ == self@.assembled(j),
            decreases n - k,
        {
            assert(!self@.is_missing(k as int));
            let slot = &self.slots[k];
            let value = match slot.category {
                Category::Mandatory => match &slot.content {
                    Some(stored) => FieldValue::Mandatory(copy_value(stored)),
                    None => vstd::pervasive::unreached(),
                },
                Category::Optional => match &slot.content {
                    Some(stored) => FieldValue::Optional(Some(copy_value(stored))),
                    None => FieldValue::Optional(None),
                },
                Category::Repeated => match &slot.content {
                    Some(stored) => FieldValue::Repeated(copy_value(stored)),
                    None => FieldValue::Repeated(Value::Many(Vec::new())),
                },
            };
            values.push(value);
            k = k + 1;
        }
        assert(field_value_views(values@) =~= Seq::new(
            self@.layout.len(),
            |i: int| self@.assembled(i),
        ));
        Ok(values)
    }
}

} // verus!
