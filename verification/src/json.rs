//! JSON values as plain data, and the one place where text becomes a value.
//!
//! The parser is `serde_json`. Its result is copied, node for node, into
//! `Json`, so that everything that reads a parsed frame is verified code on a
//! type of this crate.

use vstd::prelude::*;

verus! {

/// A JSON number: its value as an unsigned integer where it is one that fits
/// 64 bits, and its text.
#[derive(Debug, PartialEq, Eq)]
pub struct JsonNumber {
    pub unsigned: Option<u64>,
    pub text: String,
}

/// A parsed JSON value.
#[derive(Debug, PartialEq, Eq)]
pub enum Json {
    Null,
    Bool(bool),
    Number(JsonNumber),
    Str(String),
    Array(Vec<Json>),
    /// The members of an object; no name occurs twice.
    Object(Vec<(String, Json)>),
}

/// What a `Json` holds.
pub ghost enum JsonView {
    Null,
    Bool(bool),
    Number { unsigned: Option<u64>, text: Seq<char> },
    Str(Seq<char>),
    Array(Seq<JsonView>),
    Object(Seq<(Seq<char>, JsonView)>),
}

/// The value of the first member called `name`, if there is one.
pub open spec fn find_member(members: Seq<(Seq<char>, JsonView)>, name: Seq<char>) -> Option<
    JsonView,
>
    decreases members.len(),
{
    if members.len() == 0 {
        None
    } else if members[0].0 == name {
        Some(members[0].1)
    } else {
        find_member(members.drop_first(), name)
    }
}

impl JsonView {
    /// The member `name` of an object; `None` for any other value and for an
    /// object without it.
    pub open spec fn field(self, name: Seq<char>) -> Option<JsonView> {
        match self {
            JsonView::Object(members) => find_member(members, name),
            _ => None,
        }
    }

    /// The number as an unsigned integer.
    pub open spec fn as_u64(self) -> Option<u64> {
        match self {
            JsonView::Number { unsigned, text } => unsigned,
            _ => None,
        }
    }

    pub open spec fn as_str(self) -> Option<Seq<char>> {
        match self {
            JsonView::Str(s) => Some(s),
            _ => None,
        }
    }

    pub open spec fn as_bool(self) -> Option<bool> {
        match self {
            JsonView::Bool(b) => Some(b),
            _ => None,
        }
    }

    pub open spec fn as_array(self) -> Option<Seq<JsonView>> {
        match self {
            JsonView::Array(items) => Some(items),
            _ => None,
        }
    }

    /// The member `name`, where it is an unsigned integer.
    pub open spec fn u64_field(self, name: Seq<char>) -> Option<u64> {
        match self.field(name) {
            Some(v) => v.as_u64(),
            None => None,
        }
    }

    /// The member `name`, where it is a string.
    pub open spec fn str_field(self, name: Seq<char>) -> Option<Seq<char>> {
        match self.field(name) {
            Some(v) => v.as_str(),
            None => None,
        }
    }

    /// The member `name`, where it is a boolean.
    pub open spec fn bool_field(self, name: Seq<char>) -> Option<bool> {
        match self.field(name) {
            Some(v) => v.as_bool(),
            None => None,
        }
    }

    /// The member `name`, where it is an array.
    pub open spec fn array_field(self, name: Seq<char>) -> Option<Seq<JsonView>> {
        match self.field(name) {
            Some(v) => v.as_array(),
            None => None,
        }
    }

    /// Whether the member `name` is missing or null.
    pub open spec fn lacks(self, name: Seq<char>) -> bool {
        self.field(name).is_none() || self.field(name) == Some(JsonView::Null)
    }
}

impl Json {
    /// The items of an array; none for any other value.
    pub open spec fn items(self) -> Seq<Json> {
        match self {
            Json::Array(items) => items@,
            _ => Seq::empty(),
        }
    }

    /// The members of an object; none for any other value.
    pub open spec fn members(self) -> Seq<(String, Json)> {
        match self {
            Json::Object(members) => members@,
            _ => Seq::empty(),
        }
    }

    /// What the first `n` items hold.
    pub open spec fn item_views(self, n: nat) -> Seq<JsonView>
        decreases self, 0nat, n,
    {
        if n == 0 || n > self.items().len() {
            Seq::empty()
        } else {
            self.item_views((n - 1) as nat).push(self.items()[n - 1].model())
        }
    }

    /// What the first `n` members hold.
    pub open spec fn member_views(self, n: nat) -> Seq<(Seq<char>, JsonView)>
        decreases self, 0nat, n,
    {
        if n == 0 || n > self.members().len() {
            Seq::empty()
        } else {
            self.member_views((n - 1) as nat).push(
                (self.members()[n - 1].0@, self.members()[n - 1].1.model()),
            )
        }
    }

    /// What the value holds.
    pub open spec fn model(self) -> JsonView
        decreases self, 1nat, 0nat,
    {
        match self {
            Json::Null => JsonView::Null,
            Json::Bool(b) => JsonView::Bool(b),
            Json::Number(n) => JsonView::Number { unsigned: n.unsigned, text: n.text@ },
            Json::Str(s) => JsonView::Str(s@),
            Json::Array(items) => JsonView::Array(self.item_views(items@.len())),
            Json::Object(members) => JsonView::Object(self.member_views(members@.len())),
        }
    }

    /// The first `n` items hold, one for one, what `item_views` says.
    pub proof fn lemma_item_views(self, n: nat)
        requires
            n <= self.items().len(),
        ensures
            self.item_views(n).len() == n,
            forall|i: int| 0 <= i < n ==> self.item_views(n)[i] == (#[trigger] self.items()[i])@,
        decreases n,
    {
        if n > 0 {
            self.lemma_item_views((n - 1) as nat);
        }
    }

    /// The first `n` members hold, one for one, what `member_views` says.
    pub proof fn lemma_member_views(self, n: nat)
        requires
            n <= self.members().len(),
        ensures
            self.member_views(n).len() == n,
            forall|i: int|
                0 <= i < n ==> self.member_views(n)[i] == (
                    (#[trigger] self.members()[i]).0@,
                    self.members()[i].1@,
                ),
        decreases n,
    {
        if n > 0 {
            self.lemma_member_views((n - 1) as nat);
        }
    }
}

impl View for Json {
    type V = JsonView;

    open spec fn view(&self) -> JsonView {
        self.model()
    }
}

/// Looking through the members from `k` on finds what looking through all
/// of them finds, where none of the first `k` has the name.
proof fn lemma_find_member_skips(members: Seq<(Seq<char>, JsonView)>, name: Seq<char>, k: int)
    requires
        0 <= k <= members.len(),
        forall|j: int| 0 <= j < k ==> (#[trigger] members[j]).0 != name,
    ensures
        find_member(members, name) == find_member(members.subrange(k, members.len() as int), name),
    decreases k,
{
    if k == 0 {
        assert(members.subrange(0, members.len() as int) == members);
    } else {
        let rest = members.drop_first();
        assert forall|j: int| 0 <= j < k - 1 implies (#[trigger] rest[j]).0 != name by {
            assert(rest[j] == members[j + 1]);
        }
        lemma_find_member_skips(rest, name, k - 1);
        assert(rest.subrange(k - 1, rest.len() as int) == members.subrange(
            k,
            members.len() as int,
        ));
        assert(members[0].0 != name);
    }
}

impl Json {
    /// The member `name` of an object.
    pub fn get(&self, name: &str) -> (value: Option<&Json>)
        ensures
            match value {
                Some(v) => self@.field(name@) == Some(v@),
                None => self@.field(name@).is_none(),
            },
    {
        match self {
            Json::Object(members) => {
                let key = name.to_owned();
                let ghost all = self.member_views(members@.len());
                proof {
                    self.lemma_member_views(members@.len());
                }
                let mut k: usize = 0;
                while k < members.len()
                    invariant
                        k <= members@.len(),
                        key@ == name@,
                        self.members() == members@,
                        all == self.member_views(members@.len()),
                        all.len() == members@.len(),
                        forall|i: int|
                            0 <= i < members@.len() ==> all[i] == (
                                (#[trigger] self.members()[i]).0@,
                                self.members()[i].1@,
                            ),
                        forall|j: int| 0 <= j < k ==> (#[trigger] all[j]).0 != name@,
                    decreases members@.len() - k,
                {
                    if members[k].0 == key {
                        proof {
                            lemma_find_member_skips(all, name@, k as int);
                            let rest = all.subrange(k as int, all.len() as int);
                            assert(rest[0] == all[k as int]);
                            assert(self.members()[k as int] == members@[k as int]);
                        }
                        return Some(&members[k].1);
                    }
                    proof {
                        assert(self.members()[k as int] == members@[k as int]);
                    }
                    k = k + 1;
                }
                proof {
                    lemma_find_member_skips(all, name@, k as int);
                    assert(all.subrange(k as int, all.len() as int).len() == 0);
                }
                None
            },
            _ => None,
        }
    }

    /// The number as an unsigned integer.
    pub fn as_u64(&self) -> (value: Option<u64>)
        ensures
            value == self@.as_u64(),
    {
        match self {
            Json::Number(n) => n.unsigned,
            _ => None,
        }
    }

    /// The text of a string.
    pub fn as_str(&self) -> (value: Option<&String>)
        ensures
            match value {
                Some(s) => self@.as_str() == Some(s@),
                None => self@.as_str().is_none(),
            },
    {
        match self {
            Json::Str(s) => Some(s),
            _ => None,
        }
    }

    /// The value of a boolean.
    pub fn as_bool(&self) -> (value: Option<bool>)
        ensures
            value == self@.as_bool(),
    {
        match self {
            Json::Bool(b) => Some(*b),
            _ => None,
        }
    }

    /// The items of an array.
    pub fn as_array(&self) -> (value: Option<&Vec<Json>>)
        ensures
            match value {
                Some(items) => self@.as_array() matches Some(views) && views.len() == items@.len()
                    && forall|i: int|
                    0 <= i < items@.len() ==> views[i] == (#[trigger] items@[i])@,
                None => self@.as_array().is_none(),
            },
    {
        match self {
            Json::Array(items) => {
                proof {
                    self.lemma_item_views(items@.len());
                }
                Some(items)
            },
            _ => None,
        }
    }

    /// Whether the value is null.
    pub fn is_null(&self) -> (null: bool)
        ensures
            null == (self@ == JsonView::Null),
    {
        match self {
            Json::Null => true,
            _ => false,
        }
    }

    /// The member `name`, where it is an unsigned integer.
    pub fn u64_field(&self, name: &str) -> (value: Option<u64>)
        ensures
            value == self@.u64_field(name@),
    {
        match self.get(name) {
            Some(v) => v.as_u64(),
            None => None,
        }
    }

    /// The member `name`, where it is a string.
    pub fn str_field(&self, name: &str) -> (value: Option<&String>)
        ensures
            match value {
                Some(s) => self@.str_field(name@) == Some(s@),
                None => self@.str_field(name@).is_none(),
            },
    {
        match self.get(name) {
            Some(v) => v.as_str(),
            None => None,
        }
    }

    /// The member `name`, where it is a boolean.
    pub fn bool_field(&self, name: &str) -> (value: Option<bool>)
        ensures
            value == self@.bool_field(name@),
    {
        match self.get(name) {
            Some(v) => v.as_bool(),
            None => None,
        }
    }
}

#[verifier::external_type_specification]
#[verifier::external_body]
pub struct ExValue(serde_json::Value);

#[verifier::external_type_specification]
#[verifier::external_body]
pub struct ExError(serde_json::Error);

/// What `serde_json` makes of a text: the value it parses to, or `None` where
/// the parser rejects it.
pub uninterp spec fn json_of_text(text: Seq<char>) -> Option<JsonView>;

/// Copies a `serde_json::Value` into a `Json`, node for node: a number with
/// what `Number::as_u64` and its `Display` give, an object's members in the
/// order its map yields them. Nothing is claimed of the copy here;
/// `from_str` names what parsing and copying give together.
#[verifier::external_body]
fn from_value(value: &serde_json::Value) -> Json {
    match value {
        serde_json::Value::Null => Json::Null,
        serde_json::Value::Bool(b) => Json::Bool(*b),
        serde_json::Value::Number(n) => Json::Number(
            JsonNumber { unsigned: n.as_u64(), text: n.to_string() },
        ),
        serde_json::Value::String(s) => Json::Str(s.clone()),
        serde_json::Value::Array(items) => Json::Array(items.iter().map(from_value).collect()),
        serde_json::Value::Object(members) => Json::Object(
            members.iter().map(|(name, v)| (name.clone(), from_value(v))).collect(),
        ),
    }
}

/// Calls `serde_json::from_str` for a `serde_json::Value`. The contract says
/// only that the outcome is a function of the text: the value parsed, or the
/// parser's error where it rejects the text.
#[verifier::external_body]
fn from_str(text: &str) -> (parsed: Result<Json, serde_json::Error>)
    ensures
        match parsed {
            Ok(value) => json_of_text(text@) == Some(value@),
            Err(_) => json_of_text(text@).is_none(),
        },
{
    match serde_json::from_str::<serde_json::Value>(text) {
        Ok(value) => Ok(from_value(&value)),
        Err(error) => Err(error),
    }
}

/// Parses a JSON text.
pub fn parse(text: &str) -> (parsed: Option<Json>)
    ensures
        match parsed {
            Some(value) => json_of_text(text@) == Some(value@),
            None => json_of_text(text@).is_none(),
        },
{
    match from_str(text) {
        Ok(value) => Some(value),
        Err(_) => None,
    }
}

} // verus!
