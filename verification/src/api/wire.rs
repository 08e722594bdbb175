//! What is sent to clients: bodies of named fields, broadcasts, pages.
use vstd::prelude::*;
use crate::api::error::{ApiError, DaoError, dao_answer, dao_error};
use crate::oid::{ObjectId, oid_hex};

verus! {

/// The value of one field of a body.
#[derive(Debug)]
pub enum Field {
    /// No value.
    Null,
    /// A truth value.
    Flag(bool),
    /// A number.
    Number(u64),
    /// A text.
    Text(String),
    /// A JSON document, as its text.
    Document(String),
}

/// What a field says.
pub enum FieldView {
    /// No value.
    Null,
    /// A truth value.
    Flag(bool),
    /// A number.
    Number(nat),
    /// A text.
    Text(Seq<char>),
    /// A JSON document, as its text.
    Document(Seq<char>),
}

impl View for Field {
    type V = FieldView;

    open spec fn view(&self) -> FieldView {
        match *self {
            Field::Null => FieldView::Null,
            Field::Flag(b) => FieldView::Flag(b),
            Field::Number(n) => FieldView::Number(n as nat),
            Field::Text(s) => FieldView::Text(s@),
            Field::Document(s) => FieldView::Document(s@),
        }
    }
}

/// What an optional text says.
pub open spec fn opt_text(s: Option<Seq<char>>) -> FieldView {
    match s {
        Some(t) => FieldView::Text(t),
        None => FieldView::Null,
    }
}

/// A JSON object: its fields in order, each with its name.
#[derive(Debug)]
pub struct Body {
    /// The fields.
    pub fields: Vec<(&'static str, Field)>,
}

impl View for Body {
    type V = Seq<(Seq<char>, FieldView)>;

    open spec fn view(&self) -> Seq<(Seq<char>, FieldView)> {
        self.fields@.map_values(|f: (&'static str, Field)| (f.0@, f.1@))
    }
}

impl Body {
    /// An object without fields.
    pub fn new() -> (r: Body)
        ensures
            r@ == Seq::<(Seq<char>, FieldView)>::empty(),
    {
        let r = Body { fields: Vec::new() };
        proof {
            assert(r@ =~= Seq::empty());
        }
        r
    }

    /// The object with one more field.
    pub fn with(self, name: &'static str, value: Field) -> (r: Body)
        ensures
            r@ == self@.push((name@, value@)),
    {
        let mut fields = self.fields;
        fields.push((name, value));
        let r = Body { fields };
        proof {
            assert(r@ =~= self@.push((name@, value@)));
        }
        r
    }

    /// The object with one more text.
    pub fn text(self, name: &'static str, value: &str) -> (r: Body)
        ensures
            r@ == self@.push((name@, FieldView::Text(value@))),
    {
        self.with(name, Field::Text(value.to_owned()))
    }

    /// The object with one more id.
    pub fn id(self, name: &'static str, value: ObjectId) -> (r: Body)
        ensures
            r@ == self@.push((name@, FieldView::Text(oid_hex(value)))),
    {
        self.with(name, Field::Text(value.to_hex()))
    }

    /// The object with one more truth value.
    pub fn flag(self, name: &'static str, value: bool) -> (r: Body)
        ensures
            r@ == self@.push((name@, FieldView::Flag(value))),
    {
        self.with(name, Field::Flag(value))
    }

    /// The object with one more number.
    pub fn number(self, name: &'static str, value: u64) -> (r: Body)
        ensures
            r@ == self@.push((name@, FieldView::Number(value as nat))),
    {
        self.with(name, Field::Number(value))
    }

    /// The object with one more text, or none.
    pub fn opt_text(self, name: &'static str, value: Option<String>) -> (r: Body)
        ensures
            r@ == self@.push((name@, opt_text(crate::text::opt_view(value)))),
    {
        match value {
            Some(s) => self.with(name, Field::Text(s)),
            None => self.with(name, Field::Null),
        }
    }

    /// The object with one more JSON document.
    pub fn document(self, name: &'static str, value: String) -> (r: Body)
        ensures
            r@ == self@.push((name@, FieldView::Document(value@))),
    {
        self.with(name, Field::Document(value))
    }
}

/// The object with a single truth value.
pub open spec fn said(name: Seq<char>, value: bool) -> Seq<(Seq<char>, FieldView)> {
    seq![(name, FieldView::Flag(value))]
}

/// The object with a single truth value.
pub fn say(name: &'static str, value: bool) -> (r: Body)
    ensures
        r@ == said(name@, value),
{
    Body::new().flag(name, value)
}

/// The object with a single truth value once what was to be done is done, or
/// the answer to the database's error.
pub fn done(name: &'static str, outcome: Result<(), DaoError>) -> (r: Result<Body, ApiError>)
    ensures
        match outcome {
            Ok(()) => r matches Ok(b) && b@ == said(name@, true),
            Err(e) => r matches Err(a) && a@ == dao_answer(e),
        },
{
    match outcome {
        Ok(()) => Ok(say(name, true)),
        Err(e) => Err(dao_error(e)),
    }
}

/// An event for users: whom it goes to, what it is called and what it carries.
#[derive(Debug)]
pub struct Broadcast<P> {
    /// The users.
    pub to: Vec<ObjectId>,
    /// The event's type.
    pub kind: &'static str,
    /// The event's data.
    pub data: P,
}

/// A broadcast, unless there is nobody to hear it.
pub fn unless_nobody(to: Vec<ObjectId>, kind: &'static str, data: Body) -> (r: Option<
    Broadcast<Body>,
>)
    ensures
        to@.len() == 0 ==> r is None,
        to@.len() > 0 ==> (r matches Some(b) && b.to == to && b.kind == kind && b.data == data),
{
    if to.is_empty() {
        None
    } else {
        Some(Broadcast { to, kind, data })
    }
}

/// One page of a listing.
#[derive(Debug)]
#[allow(missing_docs)]
pub struct Paginated<T> {
    pub items: Vec<T>,
    pub total: u64,
    pub page: u64,
    pub per_page: u64,
    pub total_pages: u64,
}

/// Two pages that stand at the same place of listings of the same size.
pub open spec fn same_place<T, U>(a: Paginated<T>, b: Paginated<U>) -> bool {
    a.total == b.total && a.page == b.page && a.per_page == b.per_page && a.total_pages
        == b.total_pages
}

/// Names by user.
pub open spec fn entry<V>(list: Seq<(ObjectId, V)>, id: ObjectId) -> Option<V>
    decreases list.len(),
{
    if list.len() == 0 {
        None
    } else if list.last().0 == id {
        Some(list.last().1)
    } else {
        entry(list.drop_last(), id)
    }
}

/// What a list of entries holds for an id; of two entries, the later.
pub fn find_entry<'a, V>(list: &'a Vec<(ObjectId, V)>, id: ObjectId) -> (r: Option<&'a V>)
    ensures
        match r {
            Some(v) => entry(list@, id) == Some(*v),
            None => entry(list@, id) is None,
        },
{
    let mut i: usize = list.len();
    proof {
        assert(list@.take(list@.len() as int) =~= list@);
    }
    while i > 0
        invariant
            i <= list@.len(),
            entry(list@, id) == entry(list@.take(i as int), id),
        decreases i,
    {
        proof {
            assert(list@.take(i as int).last() == list@[i - 1]);
            assert(list@.take(i as int).drop_last() =~= list@.take(i - 1));
        }
        if list[i - 1].0 == id {
            return Some(&list[i - 1].1);
        }
        i = i - 1;
    }
    None
}

/// The name of a user, or the id in hexadecimal where there is none.
pub open spec fn name_or_id(names: Seq<(ObjectId, String)>, id: ObjectId) -> Seq<char> {
    match entry(names, id) {
        Some(n) => n@,
        None => oid_hex(id),
    }
}

/// The name of a user, or the id in hexadecimal where there is none.
pub fn display_name(names: &Vec<(ObjectId, String)>, id: ObjectId) -> (r: String)
    ensures
        r@ == name_or_id(names@, id),
{
    match find_entry(names, id) {
        Some(n) => n.as_str().to_owned(),
        None => id.to_hex(),
    }
}

/// The hexadecimal form of an optional id.
pub open spec fn opt_hex(id: Option<ObjectId>) -> Option<Seq<char>> {
    match id {
        Some(o) => Some(oid_hex(o)),
        None => None,
    }
}

/// The hexadecimal form of an optional id.
pub fn hex_of(id: Option<ObjectId>) -> (r: Option<String>)
    ensures
        crate::text::opt_view(r) == opt_hex(id),
{
    match id {
        Some(o) => Some(o.to_hex()),
        None => None,
    }
}

} // verus!
