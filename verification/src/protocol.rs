//! Which handler serves which custom URL scheme.
//!
//! A scheme such as `app` in `app://index.html` is served by one foreign
//! handler. Registering a scheme again replaces its handler.

use vstd::prelude::*;
use vstd::utf8::{decode_utf8, valid_utf8};
use crate::app::{AppState, AppView};
use crate::error::{error_result, stored_message, LastError};
use crate::string::c_str_to_string;
use crate::types::{CallbackAddress, UserData, WryErrorCode, WryResult};

verus! {

/// A custom protocol handler: the foreign function that answers requests,
/// and the user data to hand back to it.
#[derive(Clone, Copy, Debug, PartialEq, Eq, Structural)]
pub struct ProtocolHandler {
    pub callback: CallbackAddress,
    pub user_data: UserData,
}

struct ProtocolEntry {
    scheme: String,
    handler: ProtocolHandler,
}

/// The handlers of an application, by scheme. They are kept as a list in
/// which no scheme stands twice.
pub struct ProtocolTable {
    entries: Vec<ProtocolEntry>,
}

/// The table that a list of entries stands for. A later entry would win
/// over an earlier one of the same scheme; the list never holds two.
spec fn table_of(entries: Seq<ProtocolEntry>) -> Map<Seq<char>, ProtocolHandler>
    decreases entries.len(),
{
    if entries.len() == 0 {
        Map::empty()
    } else {
        table_of(entries.drop_last()).insert(entries.last().scheme@, entries.last().handler)
    }
}

/// No scheme stands twice in the list.
spec fn distinct_schemes(entries: Seq<ProtocolEntry>) -> bool {
    forall|i: int, j: int|
        0 <= i < entries.len() && 0 <= j < entries.len() && i != j ==> entries[i].scheme@
            != entries[j].scheme@
}

proof fn lemma_table_lookup(entries: Seq<ProtocolEntry>, scheme: Seq<char>)
    requires
        distinct_schemes(entries),
    ensures
        table_of(entries).contains_key(scheme) <==> exists|i: int|
            0 <= i < entries.len() && #[trigger] entries[i].scheme@ == scheme,
        forall|i: int|
            0 <= i < entries.len() && #[trigger] entries[i].scheme@ == scheme ==> table_of(
                entries,
            )[scheme] == entries[i].handler,
    decreases entries.len(),
{
    if entries.len() > 0 {
        let front = entries.drop_last();
        assert(distinct_schemes(front)) by {
            assert forall|i: int, j: int|
                0 <= i < front.len() && 0 <= j < front.len() && i != j implies front[i].scheme@
                != front[j].scheme@ by {
                assert(front[i] == entries[i] && front[j] == entries[j]);
            }
        }
        lemma_table_lookup(front, scheme);
        if entries.last().scheme@ == scheme {
            assert(entries[entries.len() - 1].scheme@ == scheme);
        } else {
            if table_of(front).contains_key(scheme) {
                let i = choose|i: int| 0 <= i < front.len() && #[trigger] front[i].scheme@ == scheme;
                assert(entries[i].scheme@ == scheme);
            }
            assert forall|i: int|
                0 <= i < entries.len() && #[trigger] entries[i].scheme@ == scheme implies table_of(
                entries,
            )[scheme] == entries[i].handler by {
                assert(front[i] == entries[i]);
            }
            if exists|i: int| 0 <= i < entries.len() && #[trigger] entries[i].scheme@ == scheme {
                let i = choose|i: int|
                    0 <= i < entries.len() && #[trigger] entries[i].scheme@ == scheme;
                assert(front[i].scheme@ == scheme);
            }
        }
    }
}

proof fn lemma_table_replace(entries: Seq<ProtocolEntry>, index: int, entry: ProtocolEntry)
    requires
        distinct_schemes(entries),
        0 <= index < entries.len(),
        entries[index].scheme@ == entry.scheme@,
    ensures
        distinct_schemes(entries.update(index, entry)),
        table_of(entries.update(index, entry)) == table_of(entries).insert(
            entry.scheme@,
            entry.handler,
        ),
    decreases entries.len(),
{
    let updated = entries.update(index, entry);
    assert(distinct_schemes(updated)) by {
        assert forall|i: int, j: int|
            0 <= i < updated.len() && 0 <= j < updated.len() && i != j implies updated[i].scheme@
            != updated[j].scheme@ by {
            assert(updated[i].scheme@ == entries[i].scheme@);
            assert(updated[j].scheme@ == entries[j].scheme@);
        }
    }
    let front = entries.drop_last();
    if index == entries.len() - 1 {
        assert(updated.drop_last() =~= front);
        assert(table_of(updated) =~= table_of(entries).insert(entry.scheme@, entry.handler));
    } else {
        assert(distinct_schemes(front)) by {
            assert forall|i: int, j: int|
                0 <= i < front.len() && 0 <= j < front.len() && i != j implies front[i].scheme@
                != front[j].scheme@ by {
                assert(front[i] == entries[i] && front[j] == entries[j]);
            }
        }
        lemma_table_replace(front, index, entry);
        assert(updated.drop_last() =~= front.update(index, entry));
        assert(updated.last() == entries.last());
        assert(entries[entries.len() - 1].scheme@ != entries[index].scheme@);
        assert(table_of(updated) =~= table_of(entries).insert(entry.scheme@, entry.handler));
    }
}

impl View for ProtocolTable {
    type V = Map<Seq<char>, ProtocolHandler>;

    closed spec fn view(&self) -> Map<Seq<char>, ProtocolHandler> {
        table_of(self.entries@)
    }
}

impl ProtocolTable {
    #[verifier::type_invariant]
    spec fn well_formed(&self) -> bool {
        distinct_schemes(self.entries@)
    }

    /// A table without handlers.
    pub fn new() -> (table: Self)
        ensures
            table@ == Map::<Seq<char>, ProtocolHandler>::empty(),
    {
        ProtocolTable { entries: Vec::new() }
    }

    fn position(&self, scheme: &String) -> (found: Option<usize>)
        ensures
            match found {
                Some(index) => index < self.entries@.len() && self.entries@[index as int].scheme@
                    == scheme@,
                None => forall|i: int|
                    0 <= i < self.entries@.len() ==> (#[trigger] self.entries@[i]).scheme@
                        != scheme@,
            },
    {
        let mut index: usize = 0;
        while index < self.entries.len()
            invariant
                index <= self.entries@.len(),
                forall|i: int| 0 <= i < index ==> (#[trigger] self.entries@[i]).scheme@ != scheme@,
            decreases self.entries@.len() - index,
        {
            if self.entries[index].scheme == *scheme {
                return Some(index);
            }
            index += 1;
        }
        None
    }

    /// The handler of a scheme, if the scheme has one.
    pub fn get(&self, scheme: &str) -> (handler: Option<ProtocolHandler>)
        ensures
            handler == (if self@.contains_key(scheme@) {
                Some(self@[scheme@])
            } else {
                None
            }),
    {
        proof {
            use_type_invariant(self);
            lemma_table_lookup(self.entries@, scheme@);
        }
        let wanted = scheme.to_owned();
        match self.position(&wanted) {
            Some(index) => Some(self.entries[index].handler),
            None => None,
        }
    }

    /// Makes `handler` the handler of `scheme`, in place of any earlier one.
    pub fn insert(&mut self, scheme: String, handler: ProtocolHandler)
        ensures
            final(self)@ == old(self)@.insert(scheme@, handler),
    {
        proof {
            use_type_invariant(&*self);
        }
        match self.position(&scheme) {
            Some(index) => {
                let entry = ProtocolEntry { scheme, handler };
                proof {
                    lemma_table_replace(self.entries@, index as int, entry);
                }
                let mut entries: Vec<ProtocolEntry> = Vec::new();
                std::mem::swap(&mut self.entries, &mut entries);
                entries.set(index, entry);
                std::mem::swap(&mut self.entries, &mut entries);
            },
            None => {
                let entry = ProtocolEntry { scheme, handler };
                let ghost before = self.entries@;
                let mut entries: Vec<ProtocolEntry> = Vec::new();
                std::mem::swap(&mut self.entries, &mut entries);
                entries.push(entry);
                proof {
                    assert(entries@.drop_last() =~= before);
                    assert(distinct_schemes(entries@));
                }
                std::mem::swap(&mut self.entries, &mut entries);
            },
        }
    }
}

/// Register custom protocol handler (e.g., "app" for app://...). `scheme`
/// holds the bytes of the C string that names the scheme, or nothing where
/// the pointer was null. The call fails on a null application handle, and on
/// a scheme that is null or not UTF-8; otherwise the handler serves the
/// scheme from now on.
pub fn wry_register_protocol(
    app: Option<&mut AppState>,
    errors: &mut LastError,
    scheme: Option<&[u8]>,
    callback: CallbackAddress,
    user_data: UserData,
) -> (result: WryResult)
    ensures
        match app {
            Some(state) => if scheme matches Some(bytes) && valid_utf8(bytes@) {
                &&& result == (WryResult { success: true, error_code: 0 })
                &&& final(state)@ == (AppView {
                    protocols: state@.protocols.insert(
                        decode_utf8(scheme->0@),
                        ProtocolHandler { callback, user_data },
                    ),
                    ..state@
                })
                &&& final(errors)@ == old(errors)@
            } else {
                &&& result == (WryResult {
                    success: false,
                    error_code: WryErrorCode::InvalidParameter.spec_code(),
                })
                &&& final(state)@ == state@
                &&& final(errors)@ == stored_message("Null or invalid scheme"@)
            },
            None => {
                &&& result == (WryResult {
                    success: false,
                    error_code: WryErrorCode::InvalidHandle.spec_code(),
                })
                &&& final(errors)@ == stored_message("Null app handle"@)
            },
        },
{
    match app {
        Some(state) => match c_str_to_string(scheme) {
            Some(name) => {
                state.set_protocol(name, ProtocolHandler { callback, user_data });
                WryResult::ok()
            },
            None => error_result(errors, WryErrorCode::InvalidParameter, "Null or invalid scheme"),
        },
        None => error_result(errors, WryErrorCode::InvalidHandle, "Null app handle"),
    }
}

} // verus!
