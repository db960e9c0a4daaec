//! Reads that range over many rows, and the removals that do.
use vstd::prelude::*;
use crate::store::keys::{KeyView, MembershipStatus, Key};
use crate::store::table::{Row, StateStore, distinct_keys, has_key, index_of, lemma_row_is_mapped, rows_map};
use crate::store::values::{Value, ValueView};

verus! {

/// A choice of rows.
#[derive(Debug, PartialEq, Eq)]
pub enum Selector {
    /// Every row keyed by the room.
    Room { room: String },
    /// The membership status rows of the room, of one status or of any.
    Members { room: String, status: Option<MembershipStatus> },
    /// The pre-join state rows of the room with the event type that hold a
    /// document.
    State { room: String, event_type: String },
    /// The room metadata rows of the pre-join kind, or those of the other.
    RoomInfos { stripped: bool },
    /// The rows of the users that go by the display name in the room.
    DisplayName { room: String, name: String },
    /// The receipts in the room, of the type, for the event.
    Receipts { room: String, receipt_type: String, event_id: String },
    /// The media rows that belong to the URI, in every format.
    Media { uri: String },
}

/// A choice of rows as contracts see it.
pub enum SelectorView {
    Room { room: Seq<char> },
    Members { room: Seq<char>, status: Option<MembershipStatus> },
    State { room: Seq<char>, event_type: Seq<char> },
    RoomInfos { stripped: bool },
    DisplayName { room: Seq<char>, name: Seq<char> },
    Receipts { room: Seq<char>, receipt_type: Seq<char>, event_id: Seq<char> },
    Media { uri: Seq<char> },
}

impl View for Selector {
    type V = SelectorView;

    open spec fn view(&self) -> SelectorView {
        match *self {
            Selector::Room { room } => SelectorView::Room { room: room@ },
            Selector::Members { room, status } => SelectorView::Members { room: room@, status },
            Selector::State { room, event_type } => SelectorView::State {
                room: room@,
                event_type: event_type@,
            },
            Selector::RoomInfos { stripped } => SelectorView::RoomInfos { stripped },
            Selector::DisplayName { room, name } => SelectorView::DisplayName {
                room: room@,
                name: name@,
            },
            Selector::Receipts { room, receipt_type, event_id } => SelectorView::Receipts {
                room: room@,
                receipt_type: receipt_type@,
                event_id: event_id@,
            },
            Selector::Media { uri } => SelectorView::Media { uri: uri@ },
        }
    }
}

impl SelectorView {
    /// Whether the choice takes a row with this key and payload.
    pub open spec fn admits(self, key: KeyView, value: ValueView) -> bool {
        match self {
            SelectorView::Room { room } => key.room() == Some(room),
            SelectorView::Members { room, status } => {
                &&& key matches KeyView::MemberStatus { room: r, .. }
                &&& r == room
                &&& value matches ValueView::Status(s)
                &&& (status is None || status == Some(s))
            },
            SelectorView::State { room, event_type } => {
                &&& key matches KeyView::StrippedState { room: r, event_type: t, .. }
                &&& r == room
                &&& t == event_type
                &&& value is Document
            },
            SelectorView::RoomInfos { stripped } => {
                &&& key is RoomInfo
                &&& value matches ValueView::RoomInfo { stripped: s, .. }
                &&& s == stripped
            },
            SelectorView::DisplayName { room, name } => {
                &&& key matches KeyView::DisplayName { room: r, name: n, .. }
                &&& r == room
                &&& n == name
            },
            SelectorView::Receipts { room, receipt_type, event_id } => {
                &&& key matches KeyView::Receipt { room: r, receipt_type: t, .. }
                &&& r == room
                &&& t == receipt_type
                &&& value matches ValueView::Receipt { event_id: e, .. }
                &&& e == event_id
            },
            SelectorView::Media { uri } => {
                &&& key matches KeyView::Media { uri: u, .. }
                &&& u == uri
            },
        }
    }

    /// Whether the choice takes the row that `rows` holds under the key.
    pub open spec fn selects(self, rows: Map<KeyView, ValueView>, key: KeyView) -> bool {
        rows.contains_key(key) && self.admits(key, rows[key])
    }

    /// The keys of the rows that the choice takes.
    pub open spec fn keys(self, rows: Map<KeyView, ValueView>) -> Set<KeyView> {
        Set::new(|key: KeyView| self.selects(rows, key))
    }
}

impl Selector {
    /// Whether the choice takes the row.
    pub fn admits(&self, row: &Row) -> (b: bool)
        ensures
            b == self@.admits(row.key@, row.value@),
    {
        match self {
            Selector::Room { room } => match row.key.room() {
                Some(r) => *r == *room,
                None => false,
            },
            Selector::Members { room, status } => match (&row.key, &row.value) {
                (Key::MemberStatus { room: r, .. }, Value::Status(s)) => {
                    *r == *room && match status {
                        None => true,
                        Some(wanted) => *wanted == *s,
                    }
                },
                _ => false,
            },
            Selector::State { room, event_type } => match (&row.key, &row.value) {
                (Key::StrippedState { room: r, event_type: t, .. }, Value::Document(_)) => {
                    *r == *room && *t == *event_type
                },
                _ => false,
            },
            Selector::RoomInfos { stripped } => match (&row.key, &row.value) {
                (Key::RoomInfo { .. }, Value::RoomInfo { stripped: s, .. }) => *s == *stripped,
                _ => false,
            },
            Selector::DisplayName { room, name } => match &row.key {
                Key::DisplayName { room: r, name: n, .. } => *r == *room && *n == *name,
                _ => false,
            },
            Selector::Receipts { room, receipt_type, event_id } => match (&row.key, &row.value) {
                (Key::Receipt { room: r, receipt_type: t, .. }, Value::Receipt { event_id: e, .. }) => {
                    *r == *room && *t == *receipt_type && *e == *event_id
                },
                _ => false,
            },
            Selector::Media { uri } => match &row.key {
                Key::Media { uri: u, .. } => *u == *uri,
                _ => false,
            },
        }
    }
}

/// Splits the rows into those that the choice takes and the others.
fn partition(rows: &Vec<Row>, selector: &Selector) -> (r: (Vec<Row>, Vec<Row>))
    requires
        distinct_keys(rows@),
    ensures
        distinct_keys(r.0@),
        distinct_keys(r.1@),
        rows_map(r.0@) == rows_map(rows@).restrict(selector@.keys(rows_map(rows@))),
        rows_map(r.1@) == rows_map(rows@).remove_keys(selector@.keys(rows_map(rows@))),
{
    let mut taken: Vec<Row> = Vec::new();
    let mut left: Vec<Row> = Vec::new();
    let ghost mut taken_from: Seq<int> = Seq::empty();
    let ghost mut left_from: Seq<int> = Seq::empty();
    let mut i: usize = 0;
    while i < rows.len()
        invariant
            i <= rows.len(),
            distinct_keys(rows@),
            taken_from.len() == taken.len(),
            left_from.len() == left.len(),
            forall|j: int| 0 <= j < taken.len() ==> {
                &&& 0 <= (#[trigger] taken_from[j]) < i
                &&& taken@[j].key@ == rows@[taken_from[j]].key@
                &&& taken@[j].value@ == rows@[taken_from[j]].value@
                &&& selector@.admits(rows@[taken_from[j]].key@, rows@[taken_from[j]].value@)
            },
            forall|j: int| 0 <= j < left.len() ==> {
                &&& 0 <= (#[trigger] left_from[j]) < i
                &&& left@[j].key@ == rows@[left_from[j]].key@
                &&& left@[j].value@ == rows@[left_from[j]].value@
                &&& !selector@.admits(rows@[left_from[j]].key@, rows@[left_from[j]].value@)
            },
            forall|a: int, b: int| 0 <= a < b < taken.len() ==> (#[trigger] taken_from[a]) < (#[trigger] taken_from[b]),
            forall|a: int, b: int| 0 <= a < b < left.len() ==> (#[trigger] left_from[a]) < (#[trigger] left_from[b]),
            forall|s: int| 0 <= s < i ==> (if selector@.admits((#[trigger] rows@[s]).key@, rows@[s].value@) {
                exists|j: int| 0 <= j < taken.len() && #[trigger] taken_from[j] == s
            } else {
                exists|j: int| 0 <= j < left.len() && #[trigger] left_from[j] == s
            }),
        decreases rows.len() - i,
    {
        let row = rows[i].clone();
        if selector.admits(&rows[i]) {
            proof {
                let ghost old_from = taken_from;
                taken_from = taken_from.push(i as int);
                assert forall|s: int| 0 <= s < i + 1 && selector@.admits(
                    (#[trigger] rows@[s]).key@,
                    rows@[s].value@,
                ) implies exists|j: int| 0 <= j < taken.len() + 1 && #[trigger] taken_from[j] == s by {
                    if s < i {
                        let j = choose|j: int| 0 <= j < taken.len() && #[trigger] old_from[j] == s;
                        assert(taken_from[j] == s);
                    } else {
                        assert(taken_from[taken.len() as int] == s);
                    }
                }
                assert forall|s: int| 0 <= s < i + 1 && !selector@.admits(
                    (#[trigger] rows@[s]).key@,
                    rows@[s].value@,
                ) implies exists|j: int| 0 <= j < left.len() && #[trigger] left_from[j] == s by {}
            }
            taken.push(row);
        } else {
            proof {
                let ghost old_from = left_from;
                left_from = left_from.push(i as int);
                assert forall|s: int| 0 <= s < i + 1 && !selector@.admits(
                    (#[trigger] rows@[s]).key@,
                    rows@[s].value@,
                ) implies exists|j: int| 0 <= j < left.len() + 1 && #[trigger] left_from[j] == s by {
                    if s < i {
                        let j = choose|j: int| 0 <= j < left.len() && #[trigger] old_from[j] == s;
                        assert(left_from[j] == s);
                    } else {
                        assert(left_from[left.len() as int] == s);
                    }
                }
                assert forall|s: int| 0 <= s < i + 1 && selector@.admits(
                    (#[trigger] rows@[s]).key@,
                    rows@[s].value@,
                ) implies exists|j: int| 0 <= j < taken.len() && #[trigger] taken_from[j] == s by {}
            }
            left.push(row);
        }
        i += 1;
    }
    proof {
        let all = rows_map(rows@);
        let chosen = selector@.keys(all);
        lemma_subsequence(rows@, taken@, taken_from);
        lemma_subsequence(rows@, left@, left_from);
        // The rows taken are the rows of the map that the choice takes.
        assert forall|key: KeyView| #[trigger] rows_map(taken@).contains_key(key) == all.restrict(
            chosen,
        ).contains_key(key) by {
            if has_key(taken@, key) {
                let j = index_of(taken@, key);
                lemma_row_is_mapped(rows@, taken_from[j]);
            }
            if all.contains_key(key) && chosen.contains(key) {
                let s = index_of(rows@, key);
                lemma_row_is_mapped(rows@, s);
                let j = choose|j: int| 0 <= j < taken.len() && #[trigger] taken_from[j] == s;
                assert(taken@[j].key@ == key);
            }
        }
        assert forall|key: KeyView| #[trigger] rows_map(taken@).contains_key(key) implies rows_map(
            taken@,
        )[key] == all.restrict(chosen)[key] by {
            let j = index_of(taken@, key);
            lemma_row_is_mapped(taken@, j);
            lemma_row_is_mapped(rows@, taken_from[j]);
        }
        assert(rows_map(taken@) =~= all.restrict(chosen));
        // The rows left are the others.
        assert forall|key: KeyView| #[trigger] rows_map(left@).contains_key(key) == all.remove_keys(
            chosen,
        ).contains_key(key) by {
            if has_key(left@, key) {
                let j = index_of(left@, key);
                lemma_row_is_mapped(rows@, left_from[j]);
            }
            if all.contains_key(key) && !chosen.contains(key) {
                let s = index_of(rows@, key);
                lemma_row_is_mapped(rows@, s);
                let j = choose|j: int| 0 <= j < left.len() && #[trigger] left_from[j] == s;
                assert(left@[j].key@ == key);
            }
        }
        assert forall|key: KeyView| #[trigger] rows_map(left@).contains_key(key) implies rows_map(
            left@,
        )[key] == all.remove_keys(chosen)[key] by {
            let j = index_of(left@, key);
            lemma_row_is_mapped(left@, j);
            lemma_row_is_mapped(rows@, left_from[j]);
        }
        assert(rows_map(left@) =~= all.remove_keys(chosen));
    }
    (taken, left)
}

/// Rows picked out of distinct rows, each once, are distinct.
proof fn lemma_subsequence(rows: Seq<Row>, picked: Seq<Row>, from: Seq<int>)
    requires
        distinct_keys(rows),
        from.len() == picked.len(),
        forall|j: int| 0 <= j < picked.len() ==> 0 <= (#[trigger] from[j]) < rows.len() && picked[j].key@
            == rows[from[j]].key@,
        forall|a: int, b: int| 0 <= a < b < picked.len() ==> (#[trigger] from[a]) < (#[trigger] from[b]),
    ensures
        distinct_keys(picked),
{
    assert forall|a: int, b: int| 0 <= a < b < picked.len() implies (#[trigger] picked[a]).key@ != (
    #[trigger] picked[b]).key@ by {
        assert(from[a] < from[b]);
        assert(rows[from[a]].key@ != rows[from[b]].key@);
    }
}

/// `found` lists the rows of `rows` that the choice takes, each once.
pub open spec fn is_selection(
    found: Seq<Row>,
    rows: Map<KeyView, ValueView>,
    selector: SelectorView,
) -> bool {
    distinct_keys(found) && rows_map(found) == rows.restrict(selector.keys(rows))
}

/// Every row of a selection is a row that the choice takes.
pub proof fn lemma_selection_row(
    found: Seq<Row>,
    rows: Map<KeyView, ValueView>,
    selector: SelectorView,
    i: int,
)
    requires
        is_selection(found, rows, selector),
        0 <= i < found.len(),
    ensures
        rows.contains_key(found[i].key@),
        rows[found[i].key@] == found[i].value@,
        selector.admits(found[i].key@, found[i].value@),
{
    lemma_row_is_mapped(found, i);
    assert(rows.restrict(selector.keys(rows)).contains_key(found[i].key@));
}

/// The users that the keys of the rows name, row by row.
pub open spec fn users_of(found: Seq<Row>) -> Seq<Seq<char>> {
    Seq::new(found.len(), |i: int| found[i].key@.user()->0)
}

/// The documents that the rows hold, row by row.
pub open spec fn documents_of(found: Seq<Row>) -> Seq<Seq<char>> {
    Seq::new(found.len(), |i: int| found[i].value@.document()->0)
}

/// The characters of each text.
pub open spec fn texts(items: Seq<String>) -> Seq<Seq<char>> {
    items.map_values(|item: String| item@)
}

/// The users that the keys of the rows name. A row whose key names none
/// gives an empty text.
pub fn user_column(found: &Vec<Row>) -> (users: Vec<String>)
    ensures
        users.len() == found.len(),
        forall|i: int|
            0 <= i < found.len() ==> (match (#[trigger] found@[i]).key@.user() {
                Some(user) => users@[i]@ == user,
                None => users@[i]@.len() == 0,
            }),
{
    let mut users: Vec<String> = Vec::new();
    let mut i: usize = 0;
    while i < found.len()
        invariant
            i <= found.len(),
            users.len() == i,
            forall|j: int|
                0 <= j < i ==> (match (#[trigger] found@[j]).key@.user() {
                    Some(user) => users@[j]@ == user,
                    None => users@[j]@.len() == 0,
                }),
        decreases found.len() - i,
    {
        let user = match found[i].key.user() {
            Some(user) => user.clone(),
            None => String::new(),
        };
        users.push(user);
        i += 1;
    }
    users
}

/// The documents that the rows hold. A row that holds none gives an empty
/// text.
pub fn document_column(found: &Vec<Row>) -> (documents: Vec<String>)
    ensures
        documents.len() == found.len(),
        forall|i: int|
            0 <= i < found.len() ==> (match (#[trigger] found@[i]).value@.document() {
                Some(document) => documents@[i]@ == document,
                None => documents@[i]@.len() == 0,
            }),
{
    let mut documents: Vec<String> = Vec::new();
    let mut i: usize = 0;
    while i < found.len()
        invariant
            i <= found.len(),
            documents.len() == i,
            forall|j: int|
                0 <= j < i ==> (match (#[trigger] found@[j]).value@.document() {
                    Some(document) => documents@[j]@ == document,
                    None => documents@[j]@.len() == 0,
                }),
        decreases found.len() - i,
    {
        let document = match found[i].value.document() {
            Some(document) => document.clone(),
            None => String::new(),
        };
        documents.push(document);
        i += 1;
    }
    documents
}

impl StateStore {
    /// Copies of the rows that the choice takes.
    pub fn scan(&self, selector: &Selector) -> (found: Vec<Row>)
        ensures
            is_selection(found@, self@, selector@),
    {
        let (taken, _) = partition(self.entries(), selector);
        taken
    }

    /// Removes the rows that the choice takes.
    pub fn remove_matching(&mut self, selector: &Selector)
        ensures
            final(self)@ == old(self)@.remove_keys(selector@.keys(old(self)@)),
    {
        let (_, left) = partition(self.entries(), selector);
        self.replace_rows(left);
    }
}

} // verus!
