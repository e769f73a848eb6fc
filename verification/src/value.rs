//! Untyped configuration: the tree of tables, lists and scalars that a
//! declaration carries for its task, before any task type has read it.

use crate::error::{TaskError, TaskErrorView};
use crate::text::views;
use vstd::prelude::*;

verus! {

/// One node of an untyped configuration tree.
#[derive(Debug, PartialEq, Eq)]
pub enum ConfigValue {
    /// The absent value.
    Null,
    Bool(bool),
    Integer(i64),
    Text(String),
    /// An ordered list of values.
    List(Vec<ConfigValue>),
    /// Named values, in the order in which they were written. Where a name
    /// occurs twice, the first occurrence is the one that is read.
    Table(Vec<(String, ConfigValue)>),
    /// A value of a kind that no task reads.
    Unsupported,
}

/// The mathematical value of a [`ConfigValue`].
pub enum ConfigView {
    Null,
    Bool(bool),
    Integer(int),
    Text(Seq<char>),
    List(Seq<ConfigView>),
    Table(Seq<EntryView>),
    Unsupported,
}

/// One named value of a table.
pub struct EntryView {
    pub name: Seq<char>,
    pub value: ConfigView,
}

impl View for ConfigValue {
    type V = ConfigView;

    open spec fn view(&self) -> ConfigView
        decreases self,
    {
        match self {
            ConfigValue::Null => ConfigView::Null,
            ConfigValue::Bool(b) => ConfigView::Bool(*b),
            ConfigValue::Integer(n) => ConfigView::Integer(*n as int),
            ConfigValue::Text(t) => ConfigView::Text(t@),
            ConfigValue::List(items) => ConfigView::List(
                Seq::new(
                    items@.len(),
                    |i: int|
                        if 0 <= i < items@.len() {
                            items@[i].view()
                        } else {
                            ConfigView::Null
                        },
                ),
            ),
            ConfigValue::Table(entries) => ConfigView::Table(
                Seq::new(
                    entries@.len(),
                    |i: int|
                        if 0 <= i < entries@.len() {
                            EntryView { name: entries@[i].0@, value: entries@[i].1.view() }
                        } else {
                            EntryView { name: Seq::empty(), value: ConfigView::Null }
                        },
                ),
            ),
            ConfigValue::Unsupported => ConfigView::Unsupported,
        }
    }
}

/// The value that `entries` gives to `name`: that of the first entry so
/// named, if there is one.
pub open spec fn lookup(entries: Seq<EntryView>, name: Seq<char>) -> Option<ConfigView>
    decreases entries.len(),
{
    if entries.len() == 0 {
        None
    } else if entries[0].name == name {
        Some(entries[0].value)
    } else {
        lookup(entries.drop_first(), name)
    }
}

impl ConfigView {
    /// The value of the field `name`, where this is a table that has one.
    pub open spec fn field(self, name: Seq<char>) -> Option<ConfigView> {
        match self {
            ConfigView::Table(entries) => lookup(entries, name),
            _ => None,
        }
    }
}

/// The detail of the error that meets a table without the field `name`.
pub open spec fn missing_field(name: Seq<char>) -> Seq<char> {
    "missing field `"@ + name + "`"@
}

/// The detail of the error that meets a field `name` that is no text.
pub open spec fn not_text(name: Seq<char>) -> Seq<char> {
    "field `"@ + name + "` must be text"@
}

/// The detail of the error that meets a field `name` that is no list
/// of texts.
pub open spec fn not_texts(name: Seq<char>) -> Seq<char> {
    "field `"@ + name + "` must be a list of texts"@
}

/// The texts of `items`, where every item is a text.
pub open spec fn texts_of(items: Seq<ConfigView>) -> Option<Seq<Seq<char>>> {
    if forall|i: int| 0 <= i < items.len() ==> items[i] is Text {
        Some(Seq::new(items.len(), |i: int| items[i]->Text_0))
    } else {
        None
    }
}

impl ConfigView {
    /// What the field `name` holds, an absent field and a null one
    /// holding nothing.
    pub open spec fn optional(self, name: Seq<char>) -> Option<ConfigView> {
        match self.field(name) {
            None => None,
            Some(ConfigView::Null) => None,
            Some(value) => Some(value),
        }
    }

    /// The text that the field `name` holds. A field that is absent, and
    /// one that holds anything but a text, is an error.
    pub open spec fn required_text(self, name: Seq<char>) -> Result<Seq<char>, TaskErrorView> {
        match self.field(name) {
            Some(ConfigView::Text(text)) => Ok(text),
            Some(_) => Err(TaskErrorView::InvalidConfiguration(not_text(name))),
            None => Err(TaskErrorView::InvalidConfiguration(missing_field(name))),
        }
    }

    /// The text that the field `name` holds, or nothing where the field
    /// is absent or null. A field that holds anything else is an error.
    pub open spec fn optional_text(self, name: Seq<char>) -> Result<
        Option<Seq<char>>,
        TaskErrorView,
    > {
        match self.optional(name) {
            None => Ok(None),
            Some(ConfigView::Text(text)) => Ok(Some(text)),
            Some(_) => Err(TaskErrorView::InvalidConfiguration(not_text(name))),
        }
    }

    /// The texts that the field `name` lists, or nothing where the field
    /// is absent or null. A field that holds anything but a list of
    /// texts is an error.
    pub open spec fn optional_texts(self, name: Seq<char>) -> Result<
        Option<Seq<Seq<char>>>,
        TaskErrorView,
    > {
        match self.optional(name) {
            None => Ok(None),
            Some(ConfigView::List(items)) => match texts_of(items) {
                Some(texts) => Ok(Some(texts)),
                None => Err(TaskErrorView::InvalidConfiguration(not_texts(name))),
            },
            Some(_) => Err(TaskErrorView::InvalidConfiguration(not_texts(name))),
        }
    }
}

/// The values that the entries of a table stand for, entry by entry.
pub open spec fn entry_views(entries: Seq<(String, ConfigValue)>) -> Seq<EntryView> {
    Seq::new(entries.len(), |i: int| EntryView { name: entries[i].0@, value: entries[i].1@ })
}

/// The value of a list is the list of its items' values.
pub proof fn lemma_list_view(items: Vec<ConfigValue>)
    ensures
        ConfigValue::List(items)@ == ConfigView::List(views(items@)),
{
    assert(ConfigValue::List(items)@->List_0 =~= views(items@));
}

/// The value of a table is the list of its entries' names and values.
pub proof fn lemma_table_view(entries: Vec<(String, ConfigValue)>)
    ensures
        ConfigValue::Table(entries)@ == ConfigView::Table(entry_views(entries@)),
{
    assert(ConfigValue::Table(entries)@->Table_0 =~= entry_views(entries@));
}

/// Finds the value that `entries` gives to `name`.
pub fn find_entry<'a>(entries: &'a Vec<(String, ConfigValue)>, name: &str) -> (found: Option<
    &'a ConfigValue,
>)
    ensures
        match found {
            Some(value) => lookup(entry_views(entries@), name@) == Some(value@),
            None => lookup(entry_views(entries@), name@) is None,
        },
{
    let ghost all = entry_views(entries@);
    let wanted = String::from_str(name);
    let mut at: usize = 0;
    assert(all.skip(0) =~= all);
    while at < entries.len()
        invariant
            at <= entries.len(),
            wanted@ == name@,
            all == entry_views(entries@),
            lookup(all, name@) == lookup(all.skip(at as int), name@),
        decreases entries.len() - at,
    {
        let ghost rest = all.skip(at as int);
        assert(rest[0] == all[at as int]);
        assert(rest.drop_first() =~= all.skip(at + 1));
        if entries[at].0 == wanted {
            return Some(&entries[at].1);
        }
        at += 1;
    }
    None
}

fn read_texts(items: &Vec<ConfigValue>) -> (texts: Option<Vec<String>>)
    ensures
        match texts {
            Some(texts) => texts_of(views(items@)) == Some(views(texts@)),
            None => texts_of(views(items@)) is None,
        },
{
    let mut texts: Vec<String> = Vec::new();
    let mut at: usize = 0;
    while at < items.len()
        invariant
            at <= items.len(),
            texts.len() == at,
            forall|i: int| 0 <= i < at ==> views(items@)[i] == ConfigView::Text(texts@[i]@),
        decreases items.len() - at,
    {
        match &items[at] {
            ConfigValue::Text(text) => {
                texts.push(text.clone());
            },
            _ => {
                assert(!(views(items@)[at as int] is Text));
                return None;
            },
        }
        at += 1;
    }
    assert(views(texts@) =~= texts_of(views(items@))->0);
    Some(texts)
}

impl ConfigValue {
    /// The value of the field `name`, where this is a table that has one.
    pub fn field(&self, name: &str) -> (found: Option<&ConfigValue>)
        ensures
            match found {
                Some(value) => self@.field(name@) == Some(value@),
                None => self@.field(name@) is None,
            },
    {
        match self {
            ConfigValue::Table(entries) => {
                proof {
                    lemma_table_view(*entries);
                }
                find_entry(entries, name)
            },
            _ => None,
        }
    }

    /// Whether this is a table.
    pub fn is_table(&self) -> (table: bool)
        ensures
            table == (self@ is Table),
    {
        match self {
            ConfigValue::Table(_) => true,
            _ => false,
        }
    }

    /// What the field `name` holds, an absent field and a null one
    /// holding nothing.
    pub fn optional(&self, name: &str) -> (found: Option<&ConfigValue>)
        ensures
            match found {
                Some(value) => self@.optional(name@) == Some(value@),
                None => self@.optional(name@) is None,
            },
    {
        match self.field(name) {
            None => None,
            Some(ConfigValue::Null) => None,
            Some(value) => Some(value),
        }
    }

    /// The text that the field `name` holds.
    pub fn required_text(&self, name: &str) -> (read: Result<&String, TaskError>)
        ensures
            match read {
                Ok(text) => self@.required_text(name@) == Ok::<Seq<char>, TaskErrorView>(text@),
                Err(error) => self@.required_text(name@) == Err::<Seq<char>, TaskErrorView>(
                    error@,
                ),
            },
    {
        match self.field(name) {
            Some(ConfigValue::Text(text)) => Ok(text),
            Some(_) => Err(
                TaskError::InvalidConfiguration(
                    String::from_str("field `").concat(name).concat("` must be text"),
                ),
            ),
            None => Err(
                TaskError::InvalidConfiguration(
                    String::from_str("missing field `").concat(name).concat("`"),
                ),
            ),
        }
    }

    /// The text that the field `name` holds, or nothing where the field
    /// is absent or null.
    pub fn optional_text(&self, name: &str) -> (read: Result<Option<&String>, TaskError>)
        ensures
            match read {
                Ok(Some(text)) => self@.optional_text(name@) == Ok::<
                    Option<Seq<char>>,
                    TaskErrorView,
                >(Some(text@)),
                Ok(None) => self@.optional_text(name@) == Ok::<Option<Seq<char>>, TaskErrorView>(
                    None,
                ),
                Err(error) => self@.optional_text(name@) == Err::<
                    Option<Seq<char>>,
                    TaskErrorView,
                >(error@),
            },
    {
        match self.optional(name) {
            None => Ok(None),
            Some(ConfigValue::Text(text)) => Ok(Some(text)),
            Some(_) => Err(
                TaskError::InvalidConfiguration(
                    String::from_str("field `").concat(name).concat("` must be text"),
                ),
            ),
        }
    }

    /// The texts that the field `name` lists, or nothing where the
    /// field is absent or null.
    pub fn optional_texts(&self, name: &str) -> (read: Result<Option<Vec<String>>, TaskError>)
        ensures
            match read {
                Ok(Some(texts)) => self@.optional_texts(name@) == Ok::<
                    Option<Seq<Seq<char>>>,
                    TaskErrorView,
                >(Some(views(texts@))),
                Ok(None) => self@.optional_texts(name@) == Ok::<
                    Option<Seq<Seq<char>>>,
                    TaskErrorView,
                >(None),
                Err(error) => self@.optional_texts(name@) == Err::<
                    Option<Seq<Seq<char>>>,
                    TaskErrorView,
                >(error@),
            },
    {
        let texts = match self.optional(name) {
            None => {
                return Ok(None);
            },
            Some(ConfigValue::List(items)) => {
                proof {
                    lemma_list_view(*items);
                }
                read_texts(items)
            },
            Some(_) => None,
        };
        match texts {
            Some(texts) => Ok(Some(texts)),
            None => Err(
                TaskError::InvalidConfiguration(
                    String::from_str("field `").concat(name).concat("` must be a list of texts"),
                ),
            ),
        }
    }

    /// An independent copy of this value.
    pub fn duplicate(&self) -> (copy: ConfigValue)
        ensures
            copy@ == self@,
        decreases self,
    {
        match self {
            ConfigValue::Null => ConfigValue::Null,
            ConfigValue::Bool(b) => ConfigValue::Bool(*b),
            ConfigValue::Integer(n) => ConfigValue::Integer(*n),
            ConfigValue::Text(t) => ConfigValue::Text(t.clone()),
            ConfigValue::List(items) => {
                let mut copies: Vec<ConfigValue> = Vec::new();
                let mut at: usize = 0;
                while at < items.len()
                    invariant
                        at <= items.len(),
                        copies.len() == at,
                        *self == ConfigValue::List(*items),
                        forall|i: int| 0 <= i < at ==> copies@[i]@ == items@[i]@,
                    decreases items.len() - at,
                {
                    proof {
                        assert(decreases_to!(*self => self->List_0@[at as int]));
                    }
                    copies.push(items[at].duplicate());
                    at += 1;
                }
                let copy = ConfigValue::List(copies);
                proof {
                    lemma_list_view(copies);
                    lemma_list_view(*items);
                    assert(views(copies@) =~= views(items@));
                }
                copy
            },
            ConfigValue::Table(entries) => {
                let mut copies: Vec<(String, ConfigValue)> = Vec::new();
                let mut at: usize = 0;
                while at < entries.len()
                    invariant
                        at <= entries.len(),
                        copies.len() == at,
                        *self == ConfigValue::Table(*entries),
                        forall|i: int|
                            0 <= i < at ==> copies@[i].0@ == entries@[i].0@ && copies@[i].1@
                                == entries@[i].1@,
                    decreases entries.len() - at,
                {
                    proof {
                        assert(decreases_to!(*self => self->Table_0@[at as int].1));
                    }
                    copies.push((entries[at].0.clone(), entries[at].1.duplicate()));
                    at += 1;
                }
                let copy = ConfigValue::Table(copies);
                proof {
                    lemma_table_view(copies);
                    lemma_table_view(*entries);
                    assert(entry_views(copies@) =~= entry_views(entries@));
                }
                copy
            },
            ConfigValue::Unsupported => ConfigValue::Unsupported,
        }
    }
}

} // verus!
