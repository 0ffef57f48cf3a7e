//! MessagePack values as the library reads and builds them.

use vstd::prelude::*;
use vstd::string::*;

verus! {

/// A MessagePack value.
#[derive(Debug)]
pub enum Value {
    Nil,
    Boolean(bool),
    /// An integer: as an unsigned number where it is not negative, and as a
    /// signed number where it fits one. The unsigned number, where there is
    /// one, is the integer; one without either is read as 0.
    Integer(Option<u64>, Option<i64>),
    /// A single-precision number, by its bits.
    Single(u32),
    /// A double-precision number, by its bits.
    Double(u64),
    /// A string; nothing where its bytes are not valid UTF-8.
    String(Option<String>),
    Binary(Vec<u8>),
    Array(Vec<Value>),
    /// The entries of a map, in their order on the wire.
    Table(Vec<(Value, Value)>),
    /// An extension: its type and its bytes.
    Ext(i8, Vec<u8>),
}

/// The mathematical value of a [`Value`].
pub ghost enum ValueView {
    Nil,
    Boolean(bool),
    Integer(int),
    Single(u32),
    Double(u64),
    String(Option<Seq<char>>),
    Binary(Seq<u8>),
    Array(Seq<ValueView>),
    Table(Seq<(ValueView, ValueView)>),
    Ext(i8, Seq<u8>),
}

/// The values of the first `n` items of `items`.
pub open spec fn leading_item_views(items: Seq<Value>, n: nat) -> Seq<ValueView>
    decreases items, n,
{
    if n == 0 || n > items.len() {
        Seq::empty()
    } else {
        leading_item_views(items, (n - 1) as nat).push(items[n - 1].view())
    }
}

/// The values of the first `n` entries of `entries`.
pub open spec fn leading_entry_views(entries: Seq<(Value, Value)>, n: nat) -> Seq<
    (ValueView, ValueView),
>
    decreases entries, n,
{
    if n == 0 || n > entries.len() {
        Seq::empty()
    } else {
        leading_entry_views(entries, (n - 1) as nat).push(
            (entries[n - 1].0.view(), entries[n - 1].1.view()),
        )
    }
}

impl View for Value {
    type V = ValueView;

    open spec fn view(&self) -> ValueView
        decreases self,
    {
        match self {
            Value::Nil => ValueView::Nil,
            Value::Boolean(b) => ValueView::Boolean(*b),
            Value::Integer(Some(n), _) => ValueView::Integer(*n as int),
            Value::Integer(None, Some(n)) => ValueView::Integer(*n as int),
            Value::Integer(None, None) => ValueView::Integer(0),
            Value::Single(bits) => ValueView::Single(*bits),
            Value::Double(bits) => ValueView::Double(*bits),
            Value::String(text) => ValueView::String(
                match text {
                    Some(text) => Some(text@),
                    None => None,
                },
            ),
            Value::Binary(bytes) => ValueView::Binary(bytes@),
            Value::Array(items) => ValueView::Array(leading_item_views(items@, items@.len())),
            Value::Table(entries) => ValueView::Table(
                leading_entry_views(entries@, entries@.len()),
            ),
            Value::Ext(kind, bytes) => ValueView::Ext(*kind, bytes@),
        }
    }
}

/// The values of the items of an array.
pub open spec fn item_views(items: Seq<Value>) -> Seq<ValueView> {
    Seq::new(items.len(), |i: int| items[i]@)
}

/// The values of the entries of a map.
pub open spec fn entry_views(entries: Seq<(Value, Value)>) -> Seq<(ValueView, ValueView)> {
    Seq::new(entries.len(), |i: int| (entries[i].0@, entries[i].1@))
}

proof fn lemma_leading_item_views(items: Seq<Value>, n: nat)
    requires
        n <= items.len(),
    ensures
        leading_item_views(items, n) == item_views(items.take(n as int)),
    decreases n,
{
    if n > 0 {
        lemma_leading_item_views(items, (n - 1) as nat);
        assert(item_views(items.take(n as int)) =~= item_views(items.take(n - 1)).push(
            items[n - 1]@,
        ));
    } else {
        assert(item_views(items.take(0)) =~= Seq::empty());
    }
}

proof fn lemma_leading_entry_views(entries: Seq<(Value, Value)>, n: nat)
    requires
        n <= entries.len(),
    ensures
        leading_entry_views(entries, n) == entry_views(entries.take(n as int)),
    decreases n,
{
    if n > 0 {
        lemma_leading_entry_views(entries, (n - 1) as nat);
        assert(entry_views(entries.take(n as int)) =~= entry_views(entries.take(n - 1)).push(
            (entries[n - 1].0@, entries[n - 1].1@),
        ));
    } else {
        assert(entry_views(entries.take(0)) =~= Seq::empty());
    }
}

/// The value of an array is the array of the values of its items.
pub proof fn lemma_array_view(items: Vec<Value>)
    ensures
        Value::Array(items)@ == ValueView::Array(item_views(items@)),
{
    lemma_leading_item_views(items@, items@.len());
    assert(items@.take(items@.len() as int) =~= items@);
}

/// The value of a map is the map of the values of its entries.
pub proof fn lemma_table_view(entries: Vec<(Value, Value)>)
    ensures
        Value::Table(entries)@ == ValueView::Table(entry_views(entries@)),
{
    lemma_leading_entry_views(entries@, entries@.len());
    assert(entries@.take(entries@.len() as int) =~= entries@);
}

/// The string value of a text.
pub open spec fn text_value(text: Seq<char>) -> ValueView {
    ValueView::String(Some(text))
}

/// The value of an optional text: nil where there is none.
pub open spec fn optional_text_value(text: Option<Seq<char>>) -> ValueView {
    match text {
        Some(text) => text_value(text),
        None => ValueView::Nil,
    }
}

/// The value under the first entry, from the index `start` on, whose key
/// is the string `key`.
pub open spec fn lookup(entries: Seq<(ValueView, ValueView)>, start: int, key: Seq<char>) -> Option<
    ValueView,
>
    decreases entries.len() - start,
{
    if start < 0 || start >= entries.len() {
        None
    } else if entries[start].0 == text_value(key) {
        Some(entries[start].1)
    } else {
        lookup(entries, start + 1, key)
    }
}

/// How many entries, from the index `start` on, have the string `key` as
/// their key.
pub open spec fn occurrences(entries: Seq<(ValueView, ValueView)>, start: int, key: Seq<char>) -> nat
    decreases entries.len() - start,
{
    if start < 0 || start >= entries.len() {
        0
    } else if entries[start].0 == text_value(key) {
        1 + occurrences(entries, start + 1, key)
    } else {
        occurrences(entries, start + 1, key)
    }
}

/// Whether more than one entry, from the index `start` on, has the string
/// `key` as its key. A map that gives a field twice is refused.
pub open spec fn repeated(entries: Seq<(ValueView, ValueView)>, start: int, key: Seq<char>) -> bool {
    occurrences(entries, start, key) > 1
}

/// The value under the one entry, from the index `start` on, whose key is
/// the string `key`; nothing where no entry or more than one has that key.
pub open spec fn single(entries: Seq<(ValueView, ValueView)>, start: int, key: Seq<char>) -> Option<
    ValueView,
> {
    if repeated(entries, start, key) {
        None
    } else {
        lookup(entries, start, key)
    }
}

impl ValueView {
    /// The text of a string value.
    pub open spec fn as_text(self) -> Option<Seq<char>> {
        match self {
            ValueView::String(Some(text)) => Some(text),
            _ => None,
        }
    }

    /// The text of a string value, nothing for nil.
    pub open spec fn as_optional_text(self) -> Option<Option<Seq<char>>> {
        match self {
            ValueView::Nil => Some(None),
            ValueView::String(Some(text)) => Some(Some(text)),
            _ => None,
        }
    }

    /// The number of an integer value between `low` and `high`.
    pub open spec fn as_integer(self, low: int, high: int) -> Option<int> {
        match self {
            ValueView::Integer(n) => if low <= n <= high {
                Some(n)
            } else {
                None
            },
            _ => None,
        }
    }

    /// The entries of a map value.
    pub open spec fn as_entries(self) -> Option<Seq<(ValueView, ValueView)>> {
        match self {
            ValueView::Table(entries) => Some(entries),
            _ => None,
        }
    }

    /// The items of an array value.
    pub open spec fn as_items(self) -> Option<Seq<ValueView>> {
        match self {
            ValueView::Array(items) => Some(items),
            _ => None,
        }
    }
}

impl Value {
    /// The string value of `text`.
    pub fn text(text: &str) -> (result: Value)
        ensures
            result@ == text_value(text@),
    {
        Value::String(Some(String::from_str(text)))
    }

    /// The string value of `text`.
    pub fn from_string(text: String) -> (result: Value)
        ensures
            result@ == text_value(text@),
    {
        Value::String(Some(text))
    }

    /// The value of an optional text: nil where there is none.
    pub fn from_optional_string(text: Option<String>) -> (result: Value)
        ensures
            result@ == optional_text_value(
                match text {
                    Some(text) => Some(text@),
                    None => None,
                },
            ),
    {
        match text {
            Some(text) => Value::String(Some(text)),
            None => Value::Nil,
        }
    }

    /// The integer value of `n`.
    pub fn from_i64(n: i64) -> (result: Value)
        ensures
            result@ == ValueView::Integer(n as int),
    {
        if n < 0 {
            Value::Integer(None, Some(n))
        } else {
            Value::Integer(Some(n as u64), Some(n))
        }
    }

    /// The integer value of `n`.
    pub fn from_u64(n: u64) -> (result: Value)
        ensures
            result@ == ValueView::Integer(n as int),
    {
        if n <= 0x7fff_ffff_ffff_ffff {
            Value::Integer(Some(n), Some(n as i64))
        } else {
            Value::Integer(Some(n), None)
        }
    }

    /// The array of `items`.
    pub fn array(items: Vec<Value>) -> (result: Value)
        ensures
            result@ == ValueView::Array(item_views(items@)),
    {
        proof {
            lemma_array_view(items);
        }
        Value::Array(items)
    }

    /// The map of `entries`.
    pub fn table(entries: Vec<(Value, Value)>) -> (result: Value)
        ensures
            result@ == ValueView::Table(entry_views(entries@)),
    {
        proof {
            lemma_table_view(entries);
        }
        Value::Table(entries)
    }

    /// The text of a string value.
    pub fn as_text(&self) -> (result: Option<&String>)
        ensures
            match result {
                Some(text) => self@.as_text() == Some(text@),
                None => self@.as_text() is None,
            },
    {
        match self {
            Value::String(Some(text)) => Some(text),
            _ => None,
        }
    }

    /// The number of an integer value between `low` and `high`.
    pub fn as_integer(&self, low: i128, high: i128) -> (result: Option<i128>)
        ensures
            match result {
                Some(n) => self@.as_integer(low as int, high as int) == Some(n as int),
                None => self@.as_integer(low as int, high as int) is None,
            },
    {
        let n: i128 = match self {
            Value::Integer(Some(n), _) => *n as i128,
            Value::Integer(None, Some(n)) => *n as i128,
            Value::Integer(None, None) => 0,
            _ => {
                return None;
            },
        };
        if low <= n && n <= high {
            Some(n)
        } else {
            None
        }
    }

    /// The entries of a map value.
    pub fn as_entries(&self) -> (result: Option<&Vec<(Value, Value)>>)
        ensures
            match result {
                Some(entries) => self@.as_entries() == Some(entry_views(entries@)),
                None => self@.as_entries() is None,
            },
    {
        match self {
            Value::Table(entries) => {
                proof {
                    lemma_table_view(*entries);
                }
                Some(entries)
            },
            _ => None,
        }
    }

    /// The items of an array value.
    pub fn as_items(&self) -> (result: Option<&Vec<Value>>)
        ensures
            match result {
                Some(items) => self@.as_items() == Some(item_views(items@)),
                None => self@.as_items() is None,
            },
    {
        match self {
            Value::Array(items) => {
                proof {
                    lemma_array_view(*items);
                }
                Some(items)
            },
            _ => None,
        }
    }

    /// The value under the first entry, from the index `start` on, whose
    /// key is the string `key`.
    pub fn lookup<'a>(entries: &'a Vec<(Value, Value)>, start: usize, key: &str) -> (result:
        Option<&'a Value>)
        ensures
            match result {
                Some(value) => lookup(entry_views(entries@), start as int, key@) == Some(value@),
                None => lookup(entry_views(entries@), start as int, key@) is None,
            },
    {
        let name = String::from_str(key);
        let ghost views = entry_views(entries@);
        let mut i: usize = start;
        while i < entries.len()
            invariant
                start <= i,
                name@ == key@,
                views == entry_views(entries@),
                lookup(views, start as int, key@) == lookup(views, i as int, key@),
            decreases entries.len() - i,
        {
            let found = match &entries[i].0 {
                Value::String(Some(text)) => *text == name,
                _ => false,
            };
            if found {
                let value = &entries[i].1;
                proof {
                    assert(views[i as int].0 == text_value(key@));
                    assert(lookup(views, i as int, key@) == Some(views[i as int].1));
                    assert(views[i as int].1 == value@);
                }
                return Some(value);
            }
            i += 1;
        }
        None
    }

    /// The value under the entry, from the index `start` on, whose key is
    /// the string `key`, if there is one; nothing at all where more than
    /// one entry has that key.
    pub fn field<'a>(entries: &'a Vec<(Value, Value)>, start: usize, key: &str) -> (result: Option<
        Option<&'a Value>,
    >)
        ensures
            match result {
                Some(Some(value)) => !repeated(entry_views(entries@), start as int, key@) && lookup(
                    entry_views(entries@),
                    start as int,
                    key@,
                ) == Some(value@),
                Some(None) => !repeated(entry_views(entries@), start as int, key@) && lookup(
                    entry_views(entries@),
                    start as int,
                    key@,
                ) is None,
                None => repeated(entry_views(entries@), start as int, key@),
            },
    {
        let name = String::from_str(key);
        let ghost views = entry_views(entries@);
        let mut found: Option<&'a Value> = None;
        let mut i: usize = start;
        while i < entries.len()
            invariant
                start <= i,
                name@ == key@,
                views == entry_views(entries@),
                occurrences(views, start as int, key@) == (if found is Some {
                    1nat
                } else {
                    0nat
                }) + occurrences(views, i as int, key@),
                match found {
                    Some(value) => lookup(views, start as int, key@) == Some(value@),
                    None => lookup(views, start as int, key@) == lookup(views, i as int, key@),
                },
            decreases entries.len() - i,
        {
            let here = match &entries[i].0 {
                Value::String(Some(text)) => *text == name,
                _ => false,
            };
            proof {
                assert(here <==> views[i as int].0 == text_value(key@));
            }
            if here {
                if found.is_some() {
                    return None;
                }
                let value = &entries[i].1;
                proof {
                    assert(lookup(views, i as int, key@) == Some(views[i as int].1));
                    assert(views[i as int].1 == value@);
                }
                found = Some(value);
            }
            i += 1;
        }
        Some(found)
    }

    /// The value under the one entry, from the index `start` on, whose key
    /// is the string `key`; nothing where no entry or more than one has
    /// that key.
    pub fn single<'a>(entries: &'a Vec<(Value, Value)>, start: usize, key: &str) -> (result:
        Option<&'a Value>)
        ensures
            match result {
                Some(value) => single(entry_views(entries@), start as int, key@) == Some(value@),
                None => single(entry_views(entries@), start as int, key@) is None,
            },
    {
        match Value::field(entries, start, key) {
            Some(found) => found,
            None => None,
        }
    }
}

/// The text under the key `key`, from the index `start` on; nothing where
/// the key is missing or given twice, or its value is not a string.
pub open spec fn text_field(entries: Seq<(ValueView, ValueView)>, start: int, key: Seq<char>) -> Option<
    Seq<char>,
> {
    match single(entries, start, key) {
        Some(value) => value.as_text(),
        None => None,
    }
}

/// The optional text under the key `key`, from the index `start` on: no
/// text where the key is missing or its value is nil; nothing where the
/// key is given twice or its value is neither nil nor a string.
pub open spec fn optional_text_field(
    entries: Seq<(ValueView, ValueView)>,
    start: int,
    key: Seq<char>,
) -> Option<Option<Seq<char>>> {
    if repeated(entries, start, key) {
        None
    } else {
        match lookup(entries, start, key) {
            Some(value) => value.as_optional_text(),
            None => Some(None),
        }
    }
}

/// The number under the key `key`, from the index `start` on; nothing
/// where the key is missing or given twice, or its value is not an integer
/// between `low` and `high`.
pub open spec fn integer_field(
    entries: Seq<(ValueView, ValueView)>,
    start: int,
    key: Seq<char>,
    low: int,
    high: int,
) -> Option<int> {
    match single(entries, start, key) {
        Some(value) => value.as_integer(low, high),
        None => None,
    }
}

/// The optional number under the key `key`, from the index `start` on: no
/// number where the key is missing or its value is nil; nothing where the
/// key is given twice or its value is neither nil nor an integer between
/// `low` and `high`.
pub open spec fn optional_integer_field(
    entries: Seq<(ValueView, ValueView)>,
    start: int,
    key: Seq<char>,
    low: int,
    high: int,
) -> Option<Option<int>> {
    if repeated(entries, start, key) {
        None
    } else {
        match lookup(entries, start, key) {
            Some(ValueView::Nil) => Some(None),
            Some(value) => match value.as_integer(low, high) {
                Some(n) => Some(Some(n)),
                None => None,
            },
            None => Some(None),
        }
    }
}

/// An entry of a map with a string key.
pub fn entry(key: &str, value: Value) -> (result: (Value, Value))
    ensures
        result.0@ == text_value(key@),
        result.1@ == value@,
{
    (Value::text(key), value)
}

/// The text under the key `key`.
pub fn get_text(entries: &Vec<(Value, Value)>, start: usize, key: &str) -> (result: Option<String>)
    ensures
        match result {
            Some(text) => text_field(entry_views(entries@), start as int, key@) == Some(text@),
            None => text_field(entry_views(entries@), start as int, key@) is None,
        },
{
    match Value::single(entries, start, key) {
        Some(value) => match value.as_text() {
            Some(text) => Some(text.clone()),
            None => None,
        },
        None => None,
    }
}

/// The optional text under the key `key`.
pub fn get_optional_text(entries: &Vec<(Value, Value)>, start: usize, key: &str) -> (result:
    Option<Option<String>>)
    ensures
        match result {
            Some(Some(text)) => optional_text_field(entry_views(entries@), start as int, key@)
                == Some(Some(text@)),
            Some(None) => optional_text_field(entry_views(entries@), start as int, key@) == Some(
                None::<Seq<char>>,
            ),
            None => optional_text_field(entry_views(entries@), start as int, key@) is None,
        },
{
    match Value::field(entries, start, key) {
        Some(Some(value)) => match value {
            Value::Nil => Some(None),
            Value::String(Some(text)) => Some(Some(text.clone())),
            _ => None,
        },
        Some(None) => Some(None),
        None => None,
    }
}

/// The number under the key `key`.
pub fn get_integer(entries: &Vec<(Value, Value)>, start: usize, key: &str, low: i128, high: i128) -> (result:
    Option<i128>)
    ensures
        match result {
            Some(n) => integer_field(
                entry_views(entries@),
                start as int,
                key@,
                low as int,
                high as int,
            ) == Some(n as int),
            None => integer_field(
                entry_views(entries@),
                start as int,
                key@,
                low as int,
                high as int,
            ) is None,
        },
{
    match Value::single(entries, start, key) {
        Some(value) => value.as_integer(low, high),
        None => None,
    }
}

/// The optional number under the key `key`.
pub fn get_optional_integer(
    entries: &Vec<(Value, Value)>,
    start: usize,
    key: &str,
    low: i128,
    high: i128,
) -> (result: Option<Option<i128>>)
    ensures
        match result {
            Some(Some(n)) => optional_integer_field(
                entry_views(entries@),
                start as int,
                key@,
                low as int,
                high as int,
            ) == Some(Some(n as int)),
            Some(None) => optional_integer_field(
                entry_views(entries@),
                start as int,
                key@,
                low as int,
                high as int,
            ) == Some(None::<int>),
            None => optional_integer_field(
                entry_views(entries@),
                start as int,
                key@,
                low as int,
                high as int,
            ) is None,
        },
{
    match Value::field(entries, start, key) {
        Some(Some(value)) => match value {
            Value::Nil => Some(None),
            _ => match value.as_integer(low, high) {
                Some(n) => Some(Some(n)),
                None => None,
            },
        },
        Some(None) => Some(None),
        None => None,
    }
}

/// An entry of a map with a string key.
pub open spec fn field(key: Seq<char>, value: ValueView) -> (ValueView, ValueView) {
    (text_value(key), value)
}

/// The value of a tagged body: a map whose first entry carries the tag
/// under the key `t`, followed by the fields.
pub open spec fn tagged(tag: int, fields: Seq<(ValueView, ValueView)>) -> ValueView {
    ValueView::Table(seq![field("t"@, ValueView::Integer(tag))] + fields)
}

/// The value of an optional number: nil where there is none.
pub open spec fn optional_integer_value(n: Option<int>) -> ValueView {
    match n {
        Some(n) => ValueView::Integer(n),
        None => ValueView::Nil,
    }
}

/// Why a value is not a message.
#[derive(Clone, Copy, Debug, PartialEq, Eq, Structural)]
pub enum DecodeError {
    /// The envelope is not a map, or lacks a correlation id or an opcode
    /// that is one.
    Envelope,
    /// The body is not a map.
    NotAMap,
    /// The body is a map without entries.
    NoElements,
}

impl DecodeError {
    pub open spec fn spec_description(self) -> Seq<char> {
        match self {
            DecodeError::Envelope => "Invalid envelope"@,
            DecodeError::NotAMap => "Not a Map"@,
            DecodeError::NoElements => "There are no elements in payload"@,
        }
    }

    /// What the error says.
    pub fn description(self) -> (result: &'static str)
        ensures
            result@ == self.spec_description(),
    {
        match self {
            DecodeError::Envelope => "Invalid envelope",
            DecodeError::NotAMap => "Not a Map",
            DecodeError::NoElements => "There are no elements in payload",
        }
    }
}

/// The map that starts with the tag `tag` under the key `t` and goes on
/// with `fields`.
pub fn tagged_table(tag: u64, fields: Vec<(Value, Value)>) -> (result: Value)
    ensures
        result@ == tagged(tag as int, entry_views(fields@)),
{
    let mut entries: Vec<(Value, Value)> = Vec::new();
    entries.push(entry("t", Value::from_u64(tag)));
    let mut fields = fields;
    let ghost tail = entry_views(fields@);
    entries.append(&mut fields);
    proof {
        assert(entry_views(entries@) =~= seq![field("t"@, ValueView::Integer(tag as int))] + tail);
    }
    Value::table(entries)
}

} // verus!
