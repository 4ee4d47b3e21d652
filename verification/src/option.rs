//! Options that shape a request: which fields of a resource the response is
//! to hold, which related resources it is to bring along, and how a
//! collection is to be ordered and paged.
//!
//! An option for the resource `T` takes descriptors of fields of `T` only,
//! so a query cannot name a field that its resource does not have.

use crate::resource::{ResourceFieldOf, ResourceFieldTypeOf};
use crate::text::{decimal_digits, push_decimal};
use core::marker::PhantomData;
use vstd::prelude::*;
use vstd::string::StringExecFns;

verus! {

/// The parts, in order, with `separator` between each two.
pub open spec fn join(parts: Seq<Seq<char>>, separator: char) -> Seq<char>
    decreases parts.len(),
{
    if parts.len() == 0 {
        Seq::empty()
    } else if parts.len() == 1 {
        parts[0]
    } else {
        join(parts.drop_last(), separator).push(separator) + parts.last()
    }
}

/// The texts that a sequence of strings holds.
pub open spec fn texts_of(strings: Seq<String>) -> Seq<Seq<char>> {
    Seq::new(strings.len(), |i: int| strings[i]@)
}

/// The wire names of a sequence of field descriptors.
pub open spec fn names_of<T>(fields: Seq<&dyn ResourceFieldOf<T>>) -> Seq<Seq<char>> {
    Seq::new(fields.len(), |i: int| fields[i].wire_name())
}

/// Joins the strings of `parts`, with `separator` between each two.
fn join_strings(parts: &Vec<String>, separator: char) -> (out: String)
    ensures
        out@ == join(texts_of(parts@), separator),
{
    let mut out = String::new();
    let mut i: usize = 0;
    while i < parts.len()
        invariant
            i <= parts.len(),
            out@ == join(texts_of(parts@).take(i as int), separator),
        decreases parts.len() - i,
    {
        let ghost all = texts_of(parts@);
        assert(all.take(i + 1).drop_last() =~= all.take(i as int));
        assert(all.take(i + 1).last() == parts@[i as int]@);
        if i > 0 {
            out.push(separator);
        }
        out.append(parts[i].as_str());
        assert(out@ =~= join(all.take(i + 1), separator));
        i += 1;
    }
    assert(texts_of(parts@).take(parts.len() as int) =~= texts_of(parts@));
    out
}

/// The options of a request for one object, as they go into the query.
pub struct ObjectOptionView {
    /// The wire names of the selected fields, in the order of selection.
    pub select: Seq<Seq<char>>,
    /// The expanded fields, in the order of expansion: each the wire name of
    /// the field, followed in brackets by its own options where it has some.
    pub expand: Seq<Seq<char>>,
}

/// One parameter of a query: its name and its value.
pub type Param = (Seq<char>, Seq<char>);

impl ObjectOptionView {
    /// The query parameters: `$select` with the selected names joined by
    /// commas, then `$expand` with the expansions joined by commas; each only
    /// where there is something to name.
    pub open spec fn params(self) -> Seq<Param> {
        let select = if self.select.len() > 0 {
            seq![("$select"@, join(self.select, ','))]
        } else {
            Seq::<Param>::empty()
        };
        let expand = if self.expand.len() > 0 {
            seq![("$expand"@, join(self.expand, ','))]
        } else {
            Seq::<Param>::empty()
        };
        select + expand
    }

    /// The options as they stand in the brackets behind an expanded field:
    /// the parameters, each as name, `=` and value, joined by `;`.
    pub open spec fn nested(self) -> Seq<char> {
        join(Seq::new(self.params().len(), |i: int| self.params()[i].0.push('=') + self.params()[i].1), ';')
    }

    /// The expansion of the field named `field`: the name and in brackets
    /// the options for the resource behind the field, or the name alone
    /// where there are no options or they ask for nothing.
    pub open spec fn expansion(field: Seq<char>, options: Option<ObjectOptionView>) -> Seq<char> {
        match options {
            Some(options) if options.params().len() > 0 => (field.push('(') + options.nested()).push(
                ')',
            ),
            _ => field,
        }
    }
}

/// The parameters that a vector of string pairs holds.
pub open spec fn params_of(pairs: Seq<(String, String)>) -> Seq<Param> {
    Seq::new(pairs.len(), |i: int| (pairs[i].0@, pairs[i].1@))
}

/// Options of a request for one object of the resource `T`.
#[derive(Debug)]
pub struct ObjectOption<T> {
    select: Vec<String>,
    expand: Vec<String>,
    marker: PhantomData<T>,
}

impl<T> View for ObjectOption<T> {
    type V = ObjectOptionView;

    closed spec fn view(&self) -> ObjectOptionView {
        ObjectOptionView { select: texts_of(self.select@), expand: texts_of(self.expand@) }
    }
}

impl<T> ObjectOption<T> {
    /// No option: the response is what the service gives by default.
    pub fn new() -> (option: Self)
        ensures
            option@ == (ObjectOptionView { select: Seq::empty(), expand: Seq::empty() }),
    {
        let option = ObjectOption { select: Vec::new(), expand: Vec::new(), marker: PhantomData };
        assert(option@.select =~= Seq::empty());
        assert(option@.expand =~= Seq::empty());
        option
    }

    /// Selects the given fields, after those selected before.
    pub fn select(self, fields: &[&dyn ResourceFieldOf<T>]) -> (option: Self)
        ensures
            option@ == (ObjectOptionView { select: self@.select + names_of(fields@), ..self@ }),
    {
        let mut option = self;
        let mut i: usize = 0;
        while i < fields.len()
            invariant
                i <= fields.len(),
                option@.select == self@.select + names_of(fields@).take(i as int),
                option@.expand == self@.expand,
            decreases fields.len() - i,
        {
            let ghost before = option@.select;
            let name = fields[i].api_field_name();
            option.select.push(name);
            assert(option@.select =~= before.push(name@));
            assert(names_of(fields@).take(i + 1) =~= names_of(fields@).take(i as int).push(name@));
            i += 1;
        }
        assert(names_of(fields@).take(fields.len() as int) =~= names_of(fields@));
        option
    }

    /// Expands the given field, after those expanded before. The related
    /// resource comes as the service gives it by default, or shaped by
    /// `options` where they are given.
    pub fn expand<F: ResourceFieldTypeOf<T>>(self, field: &F, options: Option<&ObjectOption<F::Type>>) -> (option: Self)
        ensures
            option@ == (ObjectOptionView {
                expand: self@.expand.push(
                    ObjectOptionView::expansion(
                        field.wire_name(),
                        match options {
                            None => None,
                            Some(options) => Some(options@),
                        },
                    ),
                ),
                ..self@
            }),
    {
        let mut option = self;
        let mut text = field.api_field_name();
        match options {
            None => {},
            Some(options) => {
                if options.select.len() > 0 || options.expand.len() > 0 {
                    text.push('(');
                    let inner = options.nested_text();
                    text.append(inner.as_str());
                    text.push(')');
                }
            },
        }
        option.expand.push(text);
        assert(option@.expand =~= self@.expand.push(text@));
        assert(option@.select =~= self@.select);
        option
    }

    /// The query parameters, each as a pair of name and value.
    pub fn params(&self) -> (pairs: Vec<(String, String)>)
        ensures
            params_of(pairs@) == self@.params(),
    {
        let mut pairs: Vec<(String, String)> = Vec::new();
        if self.select.len() > 0 {
            pairs.push((String::from_str("$select"), join_strings(&self.select, ',')));
        }
        if self.expand.len() > 0 {
            pairs.push((String::from_str("$expand"), join_strings(&self.expand, ',')));
        }
        assert(params_of(pairs@) =~= self@.params());
        pairs
    }

    /// The options as they stand in the brackets behind an expanded field.
    fn nested_text(&self) -> (text: String)
        ensures
            text@ == self@.nested(),
    {
        let pairs = self.params();
        let mut parts: Vec<String> = Vec::new();
        let mut i: usize = 0;
        while i < pairs.len()
            invariant
                i <= pairs.len(),
                params_of(pairs@) == self@.params(),
                parts.len() == i,
                forall|j: int|
                    0 <= j < i ==> (#[trigger] parts@[j])@ == self@.params()[j].0.push('=')
                        + self@.params()[j].1,
            decreases pairs.len() - i,
        {
            let mut part = pairs[i].0.clone();
            part.push('=');
            part.append(pairs[i].1.as_str());
            assert(params_of(pairs@)[i as int] == (pairs@[i as int].0@, pairs@[i as int].1@));
            parts.push(part);
            i += 1;
        }
        assert(params_of(pairs@).len() == pairs.len());
        assert(texts_of(parts@) =~= Seq::new(
            self@.params().len(),
            |i: int| self@.params()[i].0.push('=') + self@.params()[i].1,
        ));
        join_strings(&parts, ';')
    }
}

/// The order in which a collection is listed.
#[derive(Clone, Copy, Debug, PartialEq, Eq, Structural)]
pub enum Order {
    /// From the least value to the greatest.
    Ascending,
    /// From the greatest value to the least.
    Descending,
}

impl Order {
    /// The word for the order in a query.
    pub open spec fn keyword(self) -> Seq<char> {
        match self {
            Order::Ascending => "asc"@,
            Order::Descending => "desc"@,
        }
    }
}

/// The options of a request for a collection, as they go into the query.
pub struct CollectionOptionView {
    /// What to select and expand in each item.
    pub object: ObjectOptionView,
    /// The field to order by and the order, if one was asked for.
    pub order_by: Option<(Seq<char>, Order)>,
    /// The number of items wanted in a page, if one was asked for.
    pub page_size: Option<u64>,
}

impl CollectionOptionView {
    /// The query parameters: those of the object options, then `$orderby`
    /// with the field's name, a space and `asc` or `desc`, then `$top` with
    /// the page size in decimal; each only where it was asked for.
    pub open spec fn params(self) -> Seq<Param> {
        let order_by = match self.order_by {
            Some((field, order)) => seq![("$orderby"@, field.push(' ') + order.keyword())],
            None => Seq::<Param>::empty(),
        };
        let top = match self.page_size {
            Some(size) => seq![("$top"@, decimal_digits(size as nat))],
            None => Seq::<Param>::empty(),
        };
        self.object.params() + order_by + top
    }
}

/// Options of a request for a collection of the resource `T`.
#[derive(Debug)]
pub struct CollectionOption<T> {
    object: ObjectOption<T>,
    order_by: Option<(String, Order)>,
    page_size: Option<u64>,
}

impl<T> View for CollectionOption<T> {
    type V = CollectionOptionView;

    closed spec fn view(&self) -> CollectionOptionView {
        CollectionOptionView {
            object: self.object@,
            order_by: match self.order_by {
                Some((field, order)) => Some((field@, order)),
                None => None,
            },
            page_size: self.page_size,
        }
    }
}

impl<T> CollectionOption<T> {
    /// No option: the collection comes as the service gives it by default.
    pub fn new() -> (option: Self)
        ensures
            option@ == (CollectionOptionView {
                object: ObjectOptionView { select: Seq::empty(), expand: Seq::empty() },
                order_by: None,
                page_size: None,
            }),
    {
        CollectionOption { object: ObjectOption::new(), order_by: None, page_size: None }
    }

    /// Selects the given fields of each item, after those selected before.
    pub fn select(self, fields: &[&dyn ResourceFieldOf<T>]) -> (option: Self)
        ensures
            option@ == (CollectionOptionView {
                object: ObjectOptionView {
                    select: self@.object.select + names_of(fields@),
                    ..self@.object
                },
                ..self@
            }),
    {
        let CollectionOption { object, order_by, page_size } = self;
        CollectionOption { object: object.select(fields), order_by, page_size }
    }

    /// Expands the given field of each item, after those expanded before.
    pub fn expand<F: ResourceFieldTypeOf<T>>(self, field: &F, options: Option<&ObjectOption<F::Type>>) -> (option: Self)
        ensures
            option@ == (CollectionOptionView {
                object: ObjectOptionView {
                    expand: self@.object.expand.push(
                        ObjectOptionView::expansion(
                            field.wire_name(),
                            match options {
                                None => None,
                                Some(options) => Some(options@),
                            },
                        ),
                    ),
                    ..self@.object
                },
                ..self@
            }),
    {
        let CollectionOption { object, order_by, page_size } = self;
        CollectionOption { object: object.expand(field, options), order_by, page_size }
    }

    /// Asks for the collection in the given order of the given field. A
    /// later call takes the place of an earlier one.
    pub fn order_by(self, field: &dyn ResourceFieldOf<T>, order: Order) -> (option: Self)
        ensures
            option@ == (CollectionOptionView {
                order_by: Some((field.wire_name(), order)),
                ..self@
            }),
    {
        let CollectionOption { object, order_by: _, page_size } = self;
        CollectionOption { object, order_by: Some((field.api_field_name(), order)), page_size }
    }

    /// Asks for pages of the given number of items: a hint, which the
    /// service may not follow. A later call takes the place of an earlier one.
    pub fn page_size(self, size: u64) -> (option: Self)
        ensures
            option@ == (CollectionOptionView { page_size: Some(size), ..self@ }),
    {
        let CollectionOption { object, order_by, page_size: _ } = self;
        CollectionOption { object, order_by, page_size: Some(size) }
    }

    /// The query parameters, each as a pair of name and value.
    pub fn params(&self) -> (pairs: Vec<(String, String)>)
        ensures
            params_of(pairs@) == self@.params(),
    {
        let mut pairs = self.object.params();
        match &self.order_by {
            None => {},
            Some((field, order)) => {
                let mut value = field.clone();
                value.push(' ');
                match order {
                    Order::Ascending => value.append("asc"),
                    Order::Descending => value.append("desc"),
                }
                pairs.push((String::from_str("$orderby"), value));
            },
        }
        match self.page_size {
            None => {},
            Some(size) => {
                let mut value = String::new();
                push_decimal(&mut value, size);
                assert(value@ =~= decimal_digits(size as nat));
                pairs.push((String::from_str("$top"), value));
            },
        }
        assert(params_of(pairs@) =~= self@.params());
        pairs
    }
}

} // verus!
