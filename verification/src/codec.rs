//! How values are read out of JSON documents and written into them.
//!
//! A record is a JSON object. A member that is absent takes the field's
//! default, and a member that no field is named after is passed over; a
//! member that is present has to hold a value of the field's kind, and
//! `null` stands only for a field that may be left out.

use crate::docker::errors::JsonError;
use crate::json::find;
use crate::json::items_view;
use crate::json::lemma_array_view;
use crate::json::lemma_object_view;
use crate::json::lookup;
use crate::json::members_view;
use crate::json::Json;
use crate::json::JsonView;
use crate::json::Member;
use vstd::prelude::*;
use vstd::string::StringExecFns;

verus! {

/// A value that can be read out of a JSON document.
pub trait Decode: DeepView + Sized {
    /// The value that a document holds, `None` where it holds none of this kind.
    spec fn decoded(document: JsonView) -> Option<Self::V>;

    /// Reads the value.
    fn from_json(document: &Json) -> (r: Result<Self, JsonError>)
        ensures
            match r {
                Ok(value) => Self::decoded(document@) == Some(value.deep_view()),
                Err(e) => Self::decoded(document@) is None && e is UnexpectedShape,
            },
    ;
}

/// A value that can be written as a JSON document.
pub trait Encode: DeepView {
    /// The document that stands for a value.
    spec fn encoded(value: Self::V) -> JsonView;

    /// Writes the value.
    fn to_json(&self) -> (document: Json)
        ensures
            document@ == Self::encoded(self.deep_view()),
    ;
}

/// A value that comes back unchanged when it is written as a document and
/// the document is read again.
pub trait RoundTrip: Decode + Encode {
    /// Whether a plain value can be that of something of this type.
    spec fn valid(value: Self::V) -> bool;

    /// Reading what was written gives the value that was written, and no
    /// value is written as `null`.
    proof fn round_trip(value: Self::V)
        requires
            Self::valid(value),
        ensures
            Self::decoded(Self::encoded(value)) == Some(value),
            !(Self::encoded(value) is Null),
    ;
}

// ---------------------------------------------------------------------------
// Texts, truth values and numbers
// ---------------------------------------------------------------------------
impl Decode for String {
    open spec fn decoded(document: JsonView) -> Option<Seq<char>> {
        match document {
            JsonView::Text(text) => Some(text),
            _ => None,
        }
    }

    fn from_json(document: &Json) -> (r: Result<String, JsonError>) {
        match document {
            Json::Text(text) => Ok(text.clone()),
            _ => Err(JsonError::UnexpectedShape),
        }
    }
}

impl Encode for String {
    open spec fn encoded(value: Seq<char>) -> JsonView {
        JsonView::Text(value)
    }

    fn to_json(&self) -> (document: Json) {
        Json::Text(self.clone())
    }
}

impl RoundTrip for String {
    open spec fn valid(value: Seq<char>) -> bool {
        true
    }

    proof fn round_trip(value: Seq<char>) {
    }
}

impl Decode for bool {
    open spec fn decoded(document: JsonView) -> Option<bool> {
        match document {
            JsonView::Bool(b) => Some(b),
            _ => None,
        }
    }

    fn from_json(document: &Json) -> (r: Result<bool, JsonError>) {
        match document {
            Json::Bool(b) => Ok(*b),
            _ => Err(JsonError::UnexpectedShape),
        }
    }
}

impl Encode for bool {
    open spec fn encoded(value: bool) -> JsonView {
        JsonView::Bool(value)
    }

    fn to_json(&self) -> (document: Json) {
        Json::Bool(*self)
    }
}

impl RoundTrip for bool {
    open spec fn valid(value: bool) -> bool {
        true
    }

    proof fn round_trip(value: bool) {
    }
}

impl Decode for u64 {
    open spec fn decoded(document: JsonView) -> Option<u64> {
        match document {
            JsonView::PosInt(n) => Some(n),
            _ => None,
        }
    }

    fn from_json(document: &Json) -> (r: Result<u64, JsonError>) {
        match document {
            Json::PosInt(n) => Ok(*n),
            _ => Err(JsonError::UnexpectedShape),
        }
    }
}

impl Encode for u64 {
    open spec fn encoded(value: u64) -> JsonView {
        JsonView::PosInt(value)
    }

    fn to_json(&self) -> (document: Json) {
        Json::PosInt(*self)
    }
}

impl RoundTrip for u64 {
    open spec fn valid(value: u64) -> bool {
        true
    }

    proof fn round_trip(value: u64) {
    }
}

impl Decode for u32 {
    open spec fn decoded(document: JsonView) -> Option<u32> {
        match document {
            JsonView::PosInt(n) => if n <= u32::MAX {
                Some(n as u32)
            } else {
                None
            },
            _ => None,
        }
    }

    fn from_json(document: &Json) -> (r: Result<u32, JsonError>) {
        match document {
            Json::PosInt(n) => if *n <= 0xffff_ffff {
                Ok(*n as u32)
            } else {
                Err(JsonError::UnexpectedShape)
            },
            _ => Err(JsonError::UnexpectedShape),
        }
    }
}

impl Encode for u32 {
    open spec fn encoded(value: u32) -> JsonView {
        JsonView::PosInt(value as u64)
    }

    fn to_json(&self) -> (document: Json) {
        Json::PosInt(*self as u64)
    }
}

impl RoundTrip for u32 {
    open spec fn valid(value: u32) -> bool {
        true
    }

    proof fn round_trip(value: u32) {
    }
}

impl Decode for i64 {
    open spec fn decoded(document: JsonView) -> Option<i64> {
        match document {
            JsonView::PosInt(n) => if n <= i64::MAX {
                Some(n as i64)
            } else {
                None
            },
            JsonView::NegInt(n) => Some(n),
            _ => None,
        }
    }

    fn from_json(document: &Json) -> (r: Result<i64, JsonError>) {
        match document {
            Json::PosInt(n) => if *n <= 0x7fff_ffff_ffff_ffff {
                Ok(*n as i64)
            } else {
                Err(JsonError::UnexpectedShape)
            },
            Json::NegInt(n) => Ok(*n),
            _ => Err(JsonError::UnexpectedShape),
        }
    }
}

impl Encode for i64 {
    open spec fn encoded(value: i64) -> JsonView {
        if value >= 0 {
            JsonView::PosInt(value as u64)
        } else {
            JsonView::NegInt(value)
        }
    }

    fn to_json(&self) -> (document: Json) {
        if *self >= 0 {
            Json::PosInt(*self as u64)
        } else {
            Json::NegInt(*self)
        }
    }
}

impl RoundTrip for i64 {
    open spec fn valid(value: i64) -> bool {
        true
    }

    proof fn round_trip(value: i64) {
    }
}

impl Decode for i32 {
    open spec fn decoded(document: JsonView) -> Option<i32> {
        match document {
            JsonView::PosInt(n) => if n <= i32::MAX {
                Some(n as i32)
            } else {
                None
            },
            JsonView::NegInt(n) => if i32::MIN <= n <= i32::MAX {
                Some(n as i32)
            } else {
                None
            },
            _ => None,
        }
    }

    fn from_json(document: &Json) -> (r: Result<i32, JsonError>) {
        match document {
            Json::PosInt(n) => if *n <= 0x7fff_ffff {
                Ok(*n as i32)
            } else {
                Err(JsonError::UnexpectedShape)
            },
            Json::NegInt(n) => if -0x8000_0000 <= *n && *n <= 0x7fff_ffff {
                Ok(*n as i32)
            } else {
                Err(JsonError::UnexpectedShape)
            },
            _ => Err(JsonError::UnexpectedShape),
        }
    }
}

impl Encode for i32 {
    open spec fn encoded(value: i32) -> JsonView {
        if value >= 0 {
            JsonView::PosInt(value as u64)
        } else {
            JsonView::NegInt(value as i64)
        }
    }

    fn to_json(&self) -> (document: Json) {
        if *self >= 0 {
            Json::PosInt(*self as u64)
        } else {
            Json::NegInt(*self as i64)
        }
    }
}

impl RoundTrip for i32 {
    open spec fn valid(value: i32) -> bool {
        true
    }

    proof fn round_trip(value: i32) {
    }
}

// ---------------------------------------------------------------------------
// Lists
// ---------------------------------------------------------------------------
/// The values that the items of an array hold, `None` where one of them
/// holds none.
pub open spec fn decoded_items<T: Decode>(items: Seq<JsonView>) -> Option<Seq<T::V>> {
    if forall|i: int| 0 <= i < items.len() ==> (#[trigger] T::decoded(items[i])) is Some {
        Some(Seq::new(items.len(), |i: int| T::decoded(items[i])->Some_0))
    } else {
        None
    }
}

/// The documents that stand for the values of a list.
pub open spec fn encoded_items<T: Encode>(values: Seq<T::V>) -> Seq<JsonView> {
    Seq::new(values.len(), |i: int| T::encoded(values[i]))
}

impl<T: Decode> Decode for Vec<T> {
    open spec fn decoded(document: JsonView) -> Option<Seq<T::V>> {
        match document {
            JsonView::Array(items) => decoded_items::<T>(items),
            _ => None,
        }
    }

    fn from_json(document: &Json) -> (r: Result<Vec<T>, JsonError>) {
        match document {
            Json::Array(items) => {
                proof {
                    lemma_array_view(*items);
                }
                let ghost views = items_view(items@);
                let mut values: Vec<T> = Vec::new();
                let mut i: usize = 0;
                while i < items.len()
                    invariant
                        i <= items@.len(),
                        values@.len() == i,
                        views == items_view(items@),
                        document@ == JsonView::Array(views),
                        forall|k: int|
                            0 <= k < i ==> (#[trigger] T::decoded(views[k])) == Some(
                                values@[k].deep_view(),
                            ),
                    decreases items@.len() - i,
                {
                    match T::from_json(&items[i]) {
                        Ok(value) => {
                            values.push(value);
                        },
                        Err(e) => {
                            assert(T::decoded(views[i as int]) is None);
                            return Err(e);
                        },
                    }
                    i = i + 1;
                }
                assert(decoded_items::<T>(views)->Some_0 =~= values.deep_view());
                Ok(values)
            },
            _ => Err(JsonError::UnexpectedShape),
        }
    }
}

impl<T: Encode> Encode for Vec<T> {
    open spec fn encoded(value: Seq<T::V>) -> JsonView {
        JsonView::Array(encoded_items::<T>(value))
    }

    fn to_json(&self) -> (document: Json) {
        let mut items: Vec<Json> = Vec::new();
        let mut i: usize = 0;
        while i < self.len()
            invariant
                i <= self@.len(),
                items@.len() == i,
                forall|k: int|
                    0 <= k < i ==> (#[trigger] items@[k])@ == T::encoded(self@[k].deep_view()),
            decreases self@.len() - i,
        {
            items.push(self[i].to_json());
            i = i + 1;
        }
        proof {
            lemma_array_view(items);
            assert(items_view(items@) =~= encoded_items::<T>(self.deep_view()));
        }
        Json::Array(items)
    }
}

impl<T: RoundTrip> RoundTrip for Vec<T> {
    open spec fn valid(value: Seq<T::V>) -> bool {
        forall|i: int| 0 <= i < value.len() ==> T::valid(#[trigger] value[i])
    }

    proof fn round_trip(value: Seq<T::V>) {
        let items = encoded_items::<T>(value);
        assert forall|i: int| 0 <= i < items.len() implies (#[trigger] T::decoded(items[i]))
            == Some(value[i]) by {
            T::round_trip(value[i]);
        }
        assert(decoded_items::<T>(items)->Some_0 =~= value);
    }
}

// ---------------------------------------------------------------------------
// Texts by name
// ---------------------------------------------------------------------------
/// Whether no name stands twice among the entries.
pub open spec fn names_differ(entries: Seq<(Seq<char>, Seq<char>)>) -> bool {
    forall|i: int, j: int|
        #![trigger entries[i], entries[j]]
        0 <= i < j < entries.len() ==> entries[i].0 != entries[j].0
}

/// Whether an entry has the name.
pub open spec fn has_name(entries: Seq<(Seq<char>, Seq<char>)>, name: Seq<char>) -> bool {
    exists|i: int| 0 <= i < entries.len() && (#[trigger] entries[i]).0 == name
}

/// Where the entry with the name stands.
pub open spec fn place_of(entries: Seq<(Seq<char>, Seq<char>)>, name: Seq<char>) -> int {
    choose|i: int| 0 <= i < entries.len() && (#[trigger] entries[i]).0 == name
}

/// The entries once `value` has been put under `name`: in the place of the
/// entry that had the name, or behind all others where none had it.
pub open spec fn inserted(
    entries: Seq<(Seq<char>, Seq<char>)>,
    name: Seq<char>,
    value: Seq<char>,
) -> Seq<(Seq<char>, Seq<char>)> {
    if has_name(entries, name) {
        entries.update(place_of(entries, name), (name, value))
    } else {
        entries.push((name, value))
    }
}

/// Texts under names, each name once, in the order in which the names came.
#[derive(Debug)]
pub struct StringMap {
    entries: Vec<(String, String)>,
}

impl DeepView for StringMap {
    type V = Seq<(Seq<char>, Seq<char>)>;

    closed spec fn deep_view(&self) -> Seq<(Seq<char>, Seq<char>)> {
        self.entries.deep_view()
    }
}

impl StringMap {
    #[verifier::type_invariant]
    spec fn well_formed(self) -> bool {
        names_differ(self.entries.deep_view())
    }

    /// The map without entries.
    pub fn new() -> (map: StringMap)
        ensures
            map.deep_view() == Seq::<(Seq<char>, Seq<char>)>::empty(),
    {
        let map = StringMap { entries: Vec::new() };
        assert(map.entries.deep_view() =~= Seq::empty());
        map
    }

    /// The entries, in their order. No name stands twice.
    pub fn entries(&self) -> (entries: &Vec<(String, String)>)
        ensures
            entries.deep_view() == self.deep_view(),
            names_differ(self.deep_view()),
    {
        proof {
            use_type_invariant(self);
        }
        &self.entries
    }

    /// The number of entries.
    pub fn len(&self) -> (n: usize)
        ensures
            n == self.deep_view().len(),
    {
        self.entries.len()
    }

    /// The text under `name`.
    pub fn get(&self, name: &str) -> (r: Option<&String>)
        ensures
            match r {
                Some(value) => has_name(self.deep_view(), name@) && self.deep_view()[place_of(
                    self.deep_view(),
                    name@,
                )].1 == value@,
                None => !has_name(self.deep_view(), name@),
            },
    {
        proof {
            use_type_invariant(self);
        }
        let wanted = String::from_str(name);
        let ghost view = self.entries.deep_view();
        let mut i: usize = 0;
        while i < self.entries.len()
            invariant
                i <= self.entries@.len(),
                wanted@ == name@,
                view == self.entries.deep_view(),
                names_differ(view),
                forall|k: int| 0 <= k < i ==> (#[trigger] view[k]).0 != name@,
            decreases self.entries@.len() - i,
        {
            if self.entries[i].0 == wanted {
                assert(view[i as int].0 == name@);
                assert(place_of(view, name@) == i) by {
                    let p = place_of(view, name@);
                    if p < i {
                        assert(view[p].0 != name@);
                    } else if p > i {
                        assert(view[i as int].0 != view[p].0);
                    }
                }
                return Some(&self.entries[i].1);
            }
            i = i + 1;
        }
        None
    }

    /// Puts `value` under `name` and says whether the name was there before.
    pub fn insert(&mut self, name: String, value: String) -> (replaced: bool)
        ensures
            final(self).deep_view() == inserted(old(self).deep_view(), name@, value@),
            replaced == has_name(old(self).deep_view(), name@),
    {
        proof {
            use_type_invariant(&*self);
        }
        let ghost view = self.entries.deep_view();
        let mut entries: Vec<(String, String)> = Vec::new();
        assert(entries.deep_view() =~= Seq::empty());
        core::mem::swap(&mut self.entries, &mut entries);
        let mut i: usize = 0;
        while i < entries.len()
            invariant
                i <= entries@.len(),
                view == entries.deep_view(),
                forall|k: int| 0 <= k < i ==> (#[trigger] view[k]).0 != name@,
            ensures
                i < entries@.len() ==> view[i as int].0 == name@,
            decreases entries@.len() - i,
        {
            if entries[i].0 == name {
                break ;
            }
            i = i + 1;
        }
        let ghost put = (name@, value@);
        let replaced = i < entries.len();
        if replaced {
            assert(view[i as int].0 == name@);
            assert(place_of(view, name@) == i) by {
                let p = place_of(view, name@);
                if p < i {
                    assert(view[p].0 != name@);
                } else if p > i {
                    assert(view[i as int].0 != view[p].0);
                }
            }
            entries.set(i, (name, value));
            proof {
                let after = entries.deep_view();
                assert(after =~= view.update(i as int, put));
                assert forall|a: int, b: int| 0 <= a < b < after.len() implies after[a].0
                    != after[b].0 by {
                    assert(view[a].0 != view[b].0);
                }
            }
        } else {
            entries.push((name, value));
            proof {
                let after = entries.deep_view();
                assert(after =~= view.push(put));
                assert forall|a: int, b: int| 0 <= a < b < after.len() implies after[a].0
                    != after[b].0 by {
                    if b < view.len() {
                        assert(view[a].0 != view[b].0);
                    } else {
                        assert(view[a].0 != name@);
                    }
                }
            }
        }
        self.entries = entries;
        replaced
    }
}

/// Whether no name stands twice among the members.
pub open spec fn member_names_differ(members: Seq<(Seq<char>, JsonView)>) -> bool {
    forall|i: int, j: int|
        #![trigger members[i], members[j]]
        0 <= i < j < members.len() ==> members[i].0 != members[j].0
}

/// The entries that the members of an object give, `None` where a member
/// holds something else than a text or a name stands twice.
pub open spec fn decoded_entries(members: Seq<(Seq<char>, JsonView)>) -> Option<
    Seq<(Seq<char>, Seq<char>)>,
> {
    if (forall|i: int| 0 <= i < members.len() ==> (#[trigger] members[i]).1 is Text)
        && member_names_differ(members) {
        Some(Seq::new(members.len(), |i: int| (members[i].0, members[i].1->Text_0)))
    } else {
        None
    }
}

/// The members that stand for entries.
pub open spec fn encoded_entries(entries: Seq<(Seq<char>, Seq<char>)>) -> Seq<
    (Seq<char>, JsonView),
> {
    Seq::new(entries.len(), |i: int| (entries[i].0, JsonView::Text(entries[i].1)))
}

impl Decode for StringMap {
    open spec fn decoded(document: JsonView) -> Option<Seq<(Seq<char>, Seq<char>)>> {
        match document {
            JsonView::Object(members) => decoded_entries(members),
            _ => None,
        }
    }

    fn from_json(document: &Json) -> (r: Result<StringMap, JsonError>) {
        match document {
            Json::Object(members) => {
                proof {
                    lemma_object_view(*members);
                }
                let ghost views = members_view(members@);
                let mut entries: Vec<(String, String)> = Vec::new();
                let mut i: usize = 0;
                while i < members.len()
                    invariant
                        i <= members@.len(),
                        entries@.len() == i,
                        views == members_view(members@),
                        document@ == JsonView::Object(views),
                        forall|k: int|
                            0 <= k < i ==> (#[trigger] views[k]).1 == JsonView::Text(
                                entries@[k].1@,
                            ) && views[k].0 == entries@[k].0@,
                        forall|a: int, b: int|
                            #![trigger views[a], views[b]]
                            0 <= a < b < i ==> views[a].0 != views[b].0,
                    decreases members@.len() - i,
                {
                    let text = match &members[i].value {
                        Json::Text(text) => text,
                        _ => {
                            assert(!(views[i as int].1 is Text));
                            return Err(JsonError::UnexpectedShape);
                        },
                    };
                    let mut k: usize = 0;
                    while k < i
                        invariant
                            k <= i < members@.len(),
                            entries@.len() == i,
                            views == members_view(members@),
                            document@ == JsonView::Object(views),
                            forall|n: int|
                                0 <= n < i ==> (#[trigger] views[n]).0 == entries@[n].0@,
                            forall|n: int| 0 <= n < k ==> (#[trigger] views[n]).0 != views[i as int].0,
                        decreases i - k,
                    {
                        if entries[k].0 == members[i].key {
                            assert(views[k as int].0 == views[i as int].0);
                            return Err(JsonError::UnexpectedShape);
                        }
                        k = k + 1;
                    }
                    entries.push((members[i].key.clone(), text.clone()));
                    i = i + 1;
                }
                assert(entries.deep_view() =~= decoded_entries(views)->Some_0);
                Ok(StringMap { entries })
            },
            _ => Err(JsonError::UnexpectedShape),
        }
    }
}

impl Encode for StringMap {
    open spec fn encoded(value: Seq<(Seq<char>, Seq<char>)>) -> JsonView {
        JsonView::Object(encoded_entries(value))
    }

    fn to_json(&self) -> (document: Json) {
        let mut members: Vec<Member> = Vec::new();
        let mut i: usize = 0;
        while i < self.entries.len()
            invariant
                i <= self.entries@.len(),
                members@.len() == i,
                forall|k: int|
                    0 <= k < i ==> (#[trigger] members@[k]).key@ == self.entries@[k].0@
                        && members@[k].value@ == JsonView::Text(self.entries@[k].1@),
            decreases self.entries@.len() - i,
        {
            members.push(
                Member { key: self.entries[i].0.clone(), value: Json::Text(self.entries[i].1.clone()) },
            );
            i = i + 1;
        }
        proof {
            lemma_object_view(members);
            assert(members_view(members@) =~= encoded_entries(self.deep_view()));
        }
        Json::Object(members)
    }
}

impl RoundTrip for StringMap {
    open spec fn valid(value: Seq<(Seq<char>, Seq<char>)>) -> bool {
        names_differ(value)
    }

    proof fn round_trip(value: Seq<(Seq<char>, Seq<char>)>) {
        let members = encoded_entries(value);
        assert forall|i: int| 0 <= i < members.len() implies (#[trigger] members[i]).1 is Text by {
        }
        assert forall|i: int, j: int| 0 <= i < j < members.len() implies members[i].0
            != members[j].0 by {
            assert(value[i].0 != value[j].0);
        }
        assert(decoded_entries(members)->Some_0 =~= value);
    }
}

// ---------------------------------------------------------------------------
// The members of a record
// ---------------------------------------------------------------------------
/// The field that the member called `key` gives: the default where there
/// is no such member, else what the member holds.
pub open spec fn member_or<T: Decode>(
    members: Seq<(Seq<char>, JsonView)>,
    key: Seq<char>,
    default: T::V,
) -> Option<T::V> {
    match lookup(members, key) {
        None => Some(default),
        Some(value) => T::decoded(value),
    }
}

/// The field that may be left out: nothing where there is no member called
/// `key` or it holds `null`, else what the member holds.
pub open spec fn optional_member<T: Decode>(
    members: Seq<(Seq<char>, JsonView)>,
    key: Seq<char>,
) -> Option<Option<T::V>> {
    match lookup(members, key) {
        None => Some(None),
        Some(JsonView::Null) => Some(None),
        Some(value) => match T::decoded(value) {
            Some(v) => Some(Some(v)),
            None => None,
        },
    }
}

/// Reads the field that the member called `key` gives.
pub fn read_member<T: Decode>(members: &Vec<Member>, key: &str, default: T) -> (r: Result<
    T,
    JsonError,
>)
    ensures
        match r {
            Ok(value) => member_or::<T>(members_view(members@), key@, default.deep_view()) == Some(
                value.deep_view(),
            ),
            Err(e) => member_or::<T>(members_view(members@), key@, default.deep_view()) is None
                && e is UnexpectedShape,
        },
{
    match find(members, key) {
        None => Ok(default),
        Some(value) => T::from_json(value),
    }
}

/// Reads a field that may be left out.
pub fn read_optional_member<T: Decode>(members: &Vec<Member>, key: &str) -> (r: Result<
    Option<T>,
    JsonError,
>)
    ensures
        match r {
            Ok(value) => optional_member::<T>(members_view(members@), key@) == Some(
                value.deep_view(),
            ),
            Err(e) => optional_member::<T>(members_view(members@), key@) is None
                && e is UnexpectedShape,
        },
{
    match find(members, key) {
        None => Ok(None),
        Some(Json::Null) => Ok(None),
        Some(value) => match T::from_json(value) {
            Ok(v) => Ok(Some(v)),
            Err(e) => Err(e),
        },
    }
}

/// The document that stands for a field that may be left out: `null` for
/// nothing.
pub open spec fn encoded_optional<T: Encode>(value: Option<T::V>) -> JsonView {
    match value {
        Some(v) => T::encoded(v),
        None => JsonView::Null,
    }
}

/// Writes a field that may be left out.
pub fn optional_to_json<T: Encode>(value: &Option<T>) -> (document: Json)
    ensures
        document@ == encoded_optional::<T>(value.deep_view()),
{
    match value {
        Some(v) => v.to_json(),
        None => Json::Null,
    }
}

/// What holds of a field that may be left out.
pub open spec fn valid_optional<T: RoundTrip>(value: Option<T::V>) -> bool {
    match value {
        Some(v) => T::valid(v),
        None => true,
    }
}

/// A field that was written is the field that is read.
pub proof fn lemma_member_round_trip<T: RoundTrip>(
    members: Seq<(Seq<char>, JsonView)>,
    key: Seq<char>,
    at: int,
    value: T::V,
    default: T::V,
)
    requires
        0 <= at < members.len(),
        members[at] == (key, T::encoded(value)),
        forall|k: int| 0 <= k < at ==> (#[trigger] members[k]).0 != key,
        T::valid(value),
    ensures
        member_or::<T>(members, key, default) == Some(value),
{
    crate::json::lemma_lookup_found(members, key, at);
    T::round_trip(value);
}

/// A field that may be left out and was written is the field that is read.
pub proof fn lemma_optional_round_trip<T: RoundTrip>(
    members: Seq<(Seq<char>, JsonView)>,
    key: Seq<char>,
    at: int,
    value: Option<T::V>,
)
    requires
        0 <= at < members.len(),
        members[at] == (key, encoded_optional::<T>(value)),
        forall|k: int| 0 <= k < at ==> (#[trigger] members[k]).0 != key,
        valid_optional::<T>(value),
    ensures
        optional_member::<T>(members, key) == Some(value),
{
    crate::json::lemma_lookup_found(members, key, at);
    match value {
        Some(v) => {
            T::round_trip(v);
        },
        None => {},
    }
}

/// Makes the member called `key`.
pub fn member(key: &str, value: Json) -> (m: Member)
    ensures
        m.key@ == key@,
        m.value == value,
{
    Member { key: String::from_str(key), value }
}

} // verus!
