//! Global keyboard shortcuts, by the numbers under which the host knows
//! them.
//!
//! The host registers a shortcut by its accelerator text, such as
//! `CmdOrCtrl+Shift+T`, and gets a number for it. The platform reports a
//! pressed shortcut by the identifier of its hotkey; the registry finds the
//! number that the host knows. Registering with the platform and listening
//! for key presses is the caller's part.

use std::collections::HashMap;
use vstd::prelude::*;
use vstd::utf8::{decode_utf8, valid_utf8};
use crate::string::c_str_to_string;

verus! {

#[verifier::external_type_specification]
#[verifier::external_body]
pub struct ExHotKey(global_hotkey::hotkey::HotKey);

/// The identifier by which the platform reports a hotkey.
pub uninterp spec fn hotkey_id(hotkey: global_hotkey::hotkey::HotKey) -> u32;

/// `HotKey::id`.
#[verifier::external_body]
fn id_of(hotkey: &global_hotkey::hotkey::HotKey) -> (id: u32)
    ensures
        id == hotkey_id(*hotkey),
{
    hotkey.id()
}

/// `HotKey::from_str`: the hotkey that an accelerator text names, if any.
#[verifier::external_body]
fn parse_hotkey(accelerator: &str) -> (hotkey: Option<global_hotkey::hotkey::HotKey>)
    ensures
        hotkey == parsed_hotkey(accelerator@),
{
    accelerator.parse().ok()
}

/// The hotkey for an accelerator that the host passed as the bytes of a C
/// string, or as nothing where the pointer was null: see
/// [`accelerator_hotkey`].
pub fn parse_accelerator(accelerator: Option<&[u8]>) -> (hotkey: Option<
    global_hotkey::hotkey::HotKey,
>)
    ensures
        hotkey == accelerator_hotkey(
            match accelerator {
                Some(bytes) => Some(bytes@),
                None => None,
            },
        ),
{
    match c_str_to_string(accelerator) {
        Some(text) => parse_hotkey(text.as_str()),
        None => None,
    }
}

/// The hotkey that an accelerator text names, or nothing where the text
/// names none. A text is a key, or modifiers and a key joined by `+`, as in
/// `Ctrl+Shift+T`. Which modifier `CmdOrCtrl` stands for is settled when the
/// library is built for its platform; in a built library a text always names
/// the same hotkey.
pub uninterp spec fn parsed_hotkey(accelerator: Seq<char>) -> Option<
    global_hotkey::hotkey::HotKey,
>;

/// The hotkey for the bytes that the host passed: the hotkey that their text
/// names. There is none where the pointer was null, where the bytes are not
/// UTF-8, and where the text names no hotkey.
pub open spec fn accelerator_hotkey(accelerator: Option<Seq<u8>>) -> Option<
    global_hotkey::hotkey::HotKey,
> {
    if accelerator is Some && valid_utf8(accelerator->0) {
        parsed_hotkey(decode_utf8(accelerator->0))
    } else {
        None
    }
}

/// The registered shortcuts: the number that the next one gets, and the
/// hotkey behind each number that is in use.
pub struct ShortcutRegistry {
    next_id: u32,
    hotkeys: HashMap<u32, global_hotkey::hotkey::HotKey>,
}

/// What a shortcut registry holds.
pub struct ShortcutsView {
    pub next_id: u32,
    pub hotkeys: Map<u32, global_hotkey::hotkey::HotKey>,
}

/// The number after `id`. Numbers start over after the largest.
pub open spec fn following_id(id: u32) -> u32 {
    if id == u32::MAX {
        0
    } else {
        (id + 1) as u32
    }
}

impl View for ShortcutRegistry {
    type V = ShortcutsView;

    closed spec fn view(&self) -> ShortcutsView {
        ShortcutsView { next_id: self.next_id, hotkeys: self.hotkeys@ }
    }
}

impl ShortcutRegistry {
    /// A registry without shortcuts. The first shortcut gets the number one:
    /// zero is what the host reads as "not registered".
    pub fn new() -> (registry: Self)
        ensures
            registry@ == (ShortcutsView { next_id: 1, hotkeys: Map::empty() }),
    {
        ShortcutRegistry { next_id: 1, hotkeys: HashMap::new() }
    }

    /// Takes a hotkey that the platform has accepted into the registry and
    /// returns the number under which the host knows it from now on.
    pub fn record(&mut self, hotkey: global_hotkey::hotkey::HotKey) -> (id: u32)
        ensures
            id == old(self)@.next_id,
            final(self)@ == (ShortcutsView {
                next_id: following_id(id),
                hotkeys: old(self)@.hotkeys.insert(id, hotkey),
            }),
    {
        broadcast use vstd::std_specs::hash::group_hash_axioms;

        let id = self.next_id;
        self.next_id = if id == u32::MAX {
            0
        } else {
            id + 1
        };
        self.hotkeys.insert(id, hotkey);
        id
    }

    /// Takes the shortcut with this number out of the registry, for the
    /// caller to unregister it with the platform. There is none where the
    /// number is not in use.
    pub fn take(&mut self, shortcut_id: u32) -> (hotkey: Option<global_hotkey::hotkey::HotKey>)
        ensures
            hotkey == (if old(self)@.hotkeys.contains_key(shortcut_id) {
                Some(old(self)@.hotkeys[shortcut_id])
            } else {
                None
            }),
            final(self)@ == (ShortcutsView {
                hotkeys: old(self)@.hotkeys.remove(shortcut_id),
                ..old(self)@
            }),
    {
        broadcast use vstd::std_specs::hash::group_hash_axioms;

        self.hotkeys.remove(&shortcut_id)
    }

    /// The number of the shortcut that the platform reports as pressed. If
    /// several shortcuts share the reported identifier, any of them may be
    /// named; if none has it, none is named.
    pub fn shortcut_for_event(&self, event_id: u32) -> (shortcut_id: Option<u32>)
        ensures
            match shortcut_id {
                Some(id) => self@.hotkeys.contains_key(id) && hotkey_id(self@.hotkeys[id])
                    == event_id,
                None => forall|id: u32| #[trigger]
                    self@.hotkeys.contains_key(id) ==> hotkey_id(self@.hotkeys[id]) != event_id,
            },
    {
        broadcast use vstd::std_specs::hash::group_hash_axioms;

        for id in it: self.hotkeys.keys()
            invariant
                it.seq().unref().to_set() == self.hotkeys@.dom(),
                forall|i: int|
                    0 <= i < it.index() ==> hotkey_id(self.hotkeys@[*(#[trigger] it.seq()[i])])
                        != event_id,
        {
            assert(it.seq().unref().to_set().contains(*id));
            if let Some(hotkey) = self.hotkeys.get(id) {
                if id_of(hotkey) == event_id {
                    return Some(*id);
                }
            }
        }
        None
    }
    /// Takes every shortcut out of the registry, for the caller to
    /// unregister them with the platform. The hotkeys come in no particular
    /// order: each registered hotkey is among them, and nothing else is.
    pub fn take_all(&mut self) -> (hotkeys: Vec<global_hotkey::hotkey::HotKey>)
        ensures
            final(self)@ == (ShortcutsView { hotkeys: Map::empty(), ..old(self)@ }),
            hotkeys@.len() == old(self)@.hotkeys.dom().len(),
            forall|i: int|
                0 <= i < hotkeys@.len() ==> old(self)@.hotkeys.values().contains(
                    #[trigger] hotkeys@[i],
                ),
            forall|id: u32| #[trigger]
                old(self)@.hotkeys.contains_key(id) ==> hotkeys@.contains(old(self)@.hotkeys[id]),
    {
        broadcast use vstd::std_specs::hash::group_hash_axioms;

        let mut taken: Vec<global_hotkey::hotkey::HotKey> = Vec::new();
        for id in it: self.hotkeys.keys()
            invariant
                it.seq().unref().to_set() == self.hotkeys@.dom(),
                it.seq().len() == self.hotkeys@.dom().len(),
                taken@.len() == it.index(),
                forall|i: int|
                    0 <= i < it.index() ==> taken@[i] == self.hotkeys@[*(#[trigger] it.seq()[i])],
                forall|i: int|
                    0 <= i < taken@.len() ==> self.hotkeys@.values().contains(#[trigger] taken@[i]),
                forall|id: u32| #[trigger]
                    self.hotkeys@.contains_key(id) ==> exists|i: int|
                        0 <= i < it.seq().len() && *(#[trigger] it.seq()[i]) == id,
        {
            assert(it.seq().unref().to_set().contains(*id));
            if let Some(hotkey) = self.hotkeys.get(id) {
                taken.push(*hotkey);
            }
        }
        assert forall|id: u32| #[trigger] self.hotkeys@.contains_key(id) implies taken@.contains(
            self.hotkeys@[id],
        ) by {
            let i = choose|i: int| 0 <= i < taken@.len() && taken@[i] == self.hotkeys@[id];
            assert(taken@[i] == self.hotkeys@[id]);
        }
        self.hotkeys.clear();
        taken
    }
}

} // verus!
