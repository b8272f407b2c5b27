//! Accounts as the credential store hands them out, and the verified logic
//! that digs the accounts payload out of the store's answer.
//!
//! The store itself — a remote table keyed by domain — is an external
//! collaborator; its client and its JSON decoding live outside this crate.
//! What is verified here is the decision part: given the store's answer
//! reduced to plain values, which payload (or which error) comes out.

use vstd::prelude::*;
use crate::text::str_eq;

verus! {

/// An account of a domain, as stored: credentials, the time of the last
/// action as Unix seconds (if any), and whether the account is disabled.
#[derive(Debug)]
pub struct Account {
    pub nickname: String,
    pub password: String,
    pub voted_at: Option<i64>,
    pub disabled: bool,
}

/// Relies on `chrono::Utc::now` (through `DateTime::timestamp`): the current
/// wall-clock time as Unix seconds. Nothing can be promised of it.
#[verifier::external_body]
fn current_unix_timestamp() -> i64 {
    chrono::Utc::now().timestamp()
}

impl Account {
    /// A fresh account: enabled, and it has never acted.
    pub fn new(nickname: String, password: String) -> (a: Account)
        ensures
            a.nickname@ == nickname@,
            a.password@ == password@,
            a.voted_at is None,
            !a.disabled,
    {
        Account { nickname, password, voted_at: None, disabled: false }
    }

    /// Records that the account acted just now. The clock decides the
    /// timestamp, so only its presence is promised.
    pub fn voted_now(&mut self)
        ensures
            final(self).voted_at is Some,
            final(self).nickname == old(self).nickname,
            final(self).password == old(self).password,
            final(self).disabled == old(self).disabled,
    {
        self.voted_at = Some(current_unix_timestamp());
    }

    /// Disables the account.
    pub fn disable(&mut self)
        ensures
            final(self).disabled,
            final(self).nickname == old(self).nickname,
            final(self).password == old(self).password,
            final(self).voted_at == old(self).voted_at,
    {
        self.disabled = true;
    }

    /// Whether the account may act: any account not disabled may.
    pub fn can_vote(&self) -> (r: bool)
        ensures
            r == !self.disabled,
    {
        !self.disabled
    }
}

/// Errors of the account repository.
#[derive(Clone, Copy, Debug, PartialEq, Eq, Structural)]
pub enum AccountRepositoryError {
    FileNotExist,
    CannotLoadFile,
    GenericError,
    ErrorBatchItems,
    NoMatchingItem,
    CannotLoadSpecificCredentialsProfile,
    CannotCreateHttpClient,
    ErrorDuringBatchGetItemRequest,
    EmptyResponseForDomain,
    CouldNotGetCredsFromEnvironment,
    CannotParseAccountsFromJson,
    NoData,
}

/// One attribute of a stored item as a mathematical value: its name, and its
/// text payload if it carries one.
pub type AttrView = (Seq<char>, Option<Seq<char>>);

/// One stored item: its attributes in order.
pub type ItemView = Seq<AttrView>;

/// One table of the store's answer: its name and its items.
pub type TableView = (Seq<char>, Seq<ItemView>);

/// One attribute of a stored item: its name, and its text payload if it
/// carries one.
pub struct DbAttribute {
    pub key: String,
    pub text: Option<String>,
}

impl View for DbAttribute {
    type V = AttrView;

    open spec fn view(&self) -> AttrView {
        (self.key@, self.text.deep_view())
    }
}

impl DeepView for DbAttribute {
    type V = AttrView;

    open spec fn deep_view(&self) -> AttrView {
        self.view()
    }
}

/// One item of a table in the store's answer.
pub struct DbItem {
    pub attributes: Vec<DbAttribute>,
}

impl View for DbItem {
    type V = ItemView;

    open spec fn view(&self) -> ItemView {
        self.attributes.deep_view()
    }
}

impl DeepView for DbItem {
    type V = ItemView;

    open spec fn deep_view(&self) -> ItemView {
        self.view()
    }
}

/// One table of the store's answer.
pub struct DbTable {
    pub name: String,
    pub items: Vec<DbItem>,
}

impl View for DbTable {
    type V = TableView;

    open spec fn view(&self) -> TableView {
        (self.name@, self.items.deep_view())
    }
}

impl DeepView for DbTable {
    type V = TableView;

    open spec fn deep_view(&self) -> TableView {
        self.view()
    }
}

/// The payload of the first attribute named `key`, if the item has one.
pub open spec fn attr_lookup(item: ItemView, key: Seq<char>) -> Option<Option<Seq<char>>>
    decreases item.len(),
{
    if item.len() == 0 {
        None
    } else if item[0].0 == key {
        Some(item[0].1)
    } else {
        attr_lookup(item.skip(1), key)
    }
}

/// The items of the first table named `name`, if the answer has one.
pub open spec fn table_lookup(tables: Seq<TableView>, name: Seq<char>) -> Option<Seq<ItemView>>
    decreases tables.len(),
{
    if tables.len() == 0 {
        None
    } else if tables[0].0 == name {
        Some(tables[0].1)
    } else {
        table_lookup(tables.skip(1), name)
    }
}

/// The `data` payload the items yield: the last item carrying a `data`
/// attribute decides, whether or not that attribute has text.
pub open spec fn payload_of_items(items: Seq<ItemView>) -> Option<Option<Seq<char>>>
    decreases items.len(),
{
    if items.len() == 0 {
        None
    } else {
        match attr_lookup(items.last(), "data"@) {
            Some(text) => Some(text),
            None => payload_of_items(items.drop_last()),
        }
    }
}

/// What extracting the accounts payload from the store's answer yields: no
/// answer at all is `EmptyResponseForDomain`; a missing `accounts` table, no
/// item with a `data` attribute, or a `data` attribute without text is
/// `NoData`; otherwise the text of the deciding item.
pub open spec fn extract_spec(tables: Option<Seq<TableView>>) -> Result<
    Seq<char>,
    AccountRepositoryError,
> {
    match tables {
        None => Err(AccountRepositoryError::EmptyResponseForDomain),
        Some(ts) => match table_lookup(ts, "accounts"@) {
            None => Err(AccountRepositoryError::NoData),
            Some(items) => match payload_of_items(items) {
                None => Err(AccountRepositoryError::NoData),
                Some(None) => Err(AccountRepositoryError::NoData),
                Some(Some(s)) => Ok(s),
            },
        },
    }
}

/// The payload of the first attribute named `data`, if the item has one.
fn item_data_attr(item: &DbItem) -> (r: Option<Option<String>>)
    ensures
        r.deep_view() == attr_lookup(item@, "data"@),
{
    let n = item.attributes.len();
    for i in 0..n
        invariant
            n == item.attributes.len(),
            forall|j: int| 0 <= j < i ==> item@[j].0 != "data"@,
    {
        if str_eq(item.attributes[i].key.as_str(), "data") {
            proof {
                lemma_attr_lookup_found(item@, "data"@, i as int);
            }
            let r = match &item.attributes[i].text {
                Some(t) => Some(Some(t.clone())),
                None => Some(None),
            };
            return r;
        }
    }
    proof {
        lemma_attr_lookup_absent(item@, "data"@);
    }
    None
}

proof fn lemma_attr_lookup_found(item: ItemView, key: Seq<char>, i: int)
    requires
        0 <= i < item.len(),
        item[i].0 == key,
        forall|j: int| 0 <= j < i ==> item[j].0 != key,
    ensures
        attr_lookup(item, key) == Some(item[i].1),
    decreases i,
{
    if i > 0 {
        lemma_attr_lookup_found(item.skip(1), key, i - 1);
    }
}

proof fn lemma_attr_lookup_absent(item: ItemView, key: Seq<char>)
    requires
        forall|j: int| 0 <= j < item.len() ==> item[j].0 != key,
    ensures
        attr_lookup(item, key) is None,
    decreases item.len(),
{
    if item.len() > 0 {
        lemma_attr_lookup_absent(item.skip(1), key);
    }
}

proof fn lemma_table_lookup_found(tables: Seq<TableView>, name: Seq<char>, i: int)
    requires
        0 <= i < tables.len(),
        tables[i].0 == name,
        forall|j: int| 0 <= j < i ==> tables[j].0 != name,
    ensures
        table_lookup(tables, name) == Some(tables[i].1),
    decreases i,
{
    if i > 0 {
        lemma_table_lookup_found(tables.skip(1), name, i - 1);
    }
}

proof fn lemma_table_lookup_absent(tables: Seq<TableView>, name: Seq<char>)
    requires
        forall|j: int| 0 <= j < tables.len() ==> tables[j].0 != name,
    ensures
        table_lookup(tables, name) is None,
    decreases tables.len(),
{
    if tables.len() > 0 {
        lemma_table_lookup_absent(tables.skip(1), name);
    }
}

/// The index of the first table named `accounts`, if the answer has one.
fn find_accounts_table(tables: &Vec<DbTable>) -> (r: Option<usize>)
    ensures
        match r {
            Some(i) => i < tables@.len() && table_lookup(tables.deep_view(), "accounts"@) == Some(
                tables.deep_view()[i as int].1,
            ),
            None => table_lookup(tables.deep_view(), "accounts"@) is None,
        },
{
    let n = tables.len();
    for i in 0..n
        invariant
            n == tables.len(),
            forall|j: int| 0 <= j < i ==> tables.deep_view()[j].0 != "accounts"@,
    {
        if str_eq(tables[i].name.as_str(), "accounts") {
            proof {
                lemma_table_lookup_found(tables.deep_view(), "accounts"@, i as int);
            }
            return Some(i);
        }
    }
    proof {
        lemma_table_lookup_absent(tables.deep_view(), "accounts"@);
    }
    None
}

/// Digs the accounts payload out of the store's answer, reduced to plain
/// values: the items of the `accounts` table are scanned, and the last item
/// carrying a `data` attribute decides. The answer is exactly what
/// `extract_spec` says, error cases included.
pub fn extract_accounts_payload(responses: &Option<Vec<DbTable>>) -> (r: Result<
    String,
    AccountRepositoryError,
>)
    ensures
        match extract_spec(responses.deep_view()) {
            Ok(s) => r is Ok && r.unwrap()@ == s,
            Err(e) => r is Err && r.unwrap_err() == e,
        },
{
    let tables = match responses {
        Some(ts) => ts,
        None => {
            return Err(AccountRepositoryError::EmptyResponseForDomain);
        },
    };
    let found = match find_accounts_table(tables) {
        Some(i) => &tables[i],
        None => {
            return Err(AccountRepositoryError::NoData);
        },
    };
    let items = &found.items;
    let n = items.len();
    let mut payload: Option<Option<String>> = None;
    for i in 0..n
        invariant
            n == items.len(),
            payload.deep_view() == payload_of_items(items.deep_view().take(i as int)),
    {
        match item_data_attr(&items[i]) {
            Some(text) => {
                payload = Some(text);
            },
            None => {},
        }
        proof {
            let pre = items.deep_view().take(i as int);
            let cur = items.deep_view().take(i as int + 1);
            assert(cur.drop_last() =~= pre);
            assert(cur.last() == items.deep_view()[i as int]);
        }
    }
    proof {
        assert(items.deep_view().take(n as int) =~= items.deep_view());
    }
    match payload {
        Some(Some(s)) => Ok(s),
        Some(None) => Err(AccountRepositoryError::NoData),
        None => Err(AccountRepositoryError::NoData),
    }
}

} // verus!
